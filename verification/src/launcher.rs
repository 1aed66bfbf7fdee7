//! The launcher contract: what one invocation of the generated
//! artifact does on the end-user machine.  There are exactly two paths
//! — cached and uncached — converging on the launch; the plan never
//! loops and never retries.

use vstd::prelude::*;

verus! {

/// One step of the generated artifact's behavior at invocation time.
#[derive(Clone, Copy, Debug, PartialEq, Eq, Structural)]
pub enum LauncherAction {
    /// Create the keyed cache directory and unpack exactly the trailing
    /// `trailing_bytes` bytes of the artifact's own file into it.
    Extract { trailing_bytes: u64 },
    /// Replace the current process image with the cached runtime,
    /// passing the configured arguments and the application archive.
    Launch,
}

/// The plan for one invocation: extraction happens exactly when the
/// keyed cache entry is absent, the launch always follows, and nothing
/// else ever runs.
pub fn launch_plan(runtime_cached: bool, payload_size: u64) -> (plan: Vec<LauncherAction>)
    ensures
        runtime_cached ==> plan@ == seq![LauncherAction::Launch],
        !runtime_cached ==> plan@ == seq![
            LauncherAction::Extract { trailing_bytes: payload_size },
            LauncherAction::Launch,
        ],
        plan@.len() <= 2,
        plan@[plan@.len() - 1] == LauncherAction::Launch,
{
    let mut plan: Vec<LauncherAction> = Vec::new();
    if !runtime_cached {
        plan.push(LauncherAction::Extract { trailing_bytes: payload_size });
    }
    plan.push(LauncherAction::Launch);
    proof {
        if runtime_cached {
            assert(plan@ =~= seq![LauncherAction::Launch]);
        } else {
            assert(plan@ =~= seq![
                LauncherAction::Extract { trailing_bytes: payload_size },
                LauncherAction::Launch,
            ]);
        }
    }
    plan
}

} // verus!
