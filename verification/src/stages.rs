//! The stage list: an ordered plan of pipeline stages, computed once
//! from the resolved configuration before the first stage runs.  Its
//! length is the fixed total used for every `[i/total]` label, and the
//! checkpoint stage is the single stage whose failure is recoverable.

use vstd::prelude::*;

verus! {

/// One kind of pipeline stage, in the order the pipeline runs them.
#[derive(Clone, Copy, Debug, PartialEq, Eq, Structural)]
pub enum StageKind {
    /// Take the input archive as it is (prebuilt-archive input).
    UseArchive,
    /// Detect the build system of a project-directory input.
    DetectBuildSystem,
    /// Invoke the detected build tool to produce the application archive.
    BuildArchive,
    /// Shrink the application archive (optional).
    ShrinkArchive,
    /// Download or reuse the cached runtime distribution.
    FetchRuntime,
    /// Analyze the archive's module dependencies.
    AnalyzeModules,
    /// Link a trimmed runtime holding only the required modules.
    MinimizeRuntime,
    /// Capture a process checkpoint (optional, the one recoverable stage).
    Checkpoint,
    /// Assemble the stub-plus-payload artifact.
    Pack,
}

/// One planned stage: its kind, its one-based position, the fixed
/// total, and whether a failure of this stage is recoverable.
#[derive(Clone, Copy, Debug, PartialEq, Eq, Structural)]
pub struct Stage {
    pub kind: StageKind,
    pub index: usize,
    pub total: usize,
    pub optional: bool,
}

/// How many stages the pipeline will run: one stage for a prebuilt
/// archive or two for detect-and-build, one more if shrinking, the four
/// fixed stages (runtime fetch, module analysis, minimization, packing),
/// and one more if checkpointing.
pub open spec fn spec_calculate_steps(is_jar_input: bool, shrink: bool, crac: bool) -> int {
    (if is_jar_input {
        1int
    } else {
        2int
    }) + (if shrink {
        1int
    } else {
        0int
    }) + 4 + (if crac {
        1int
    } else {
        0int
    })
}

/// The stage kinds in execution order for the given configuration.
pub open spec fn spec_stage_kinds(is_jar_input: bool, shrink: bool, crac: bool) -> Seq<StageKind> {
    (if is_jar_input {
        seq![StageKind::UseArchive]
    } else {
        seq![StageKind::DetectBuildSystem, StageKind::BuildArchive]
    }) + (if shrink {
        seq![StageKind::ShrinkArchive]
    } else {
        Seq::empty()
    }) + seq![StageKind::FetchRuntime, StageKind::AnalyzeModules, StageKind::MinimizeRuntime] + (
    if crac {
        seq![StageKind::Checkpoint]
    } else {
        Seq::empty()
    }) + seq![StageKind::Pack]
}

/// The number of stages, fixed before any stage runs.
pub fn calculate_steps(is_jar_input: bool, shrink: bool, crac: bool) -> (total: usize)
    ensures
        total == spec_calculate_steps(is_jar_input, shrink, crac),
{
    let base: usize = if is_jar_input {
        1
    } else {
        2
    };
    let shrink_step: usize = if shrink {
        1
    } else {
        0
    };
    let crac_step: usize = if crac {
        1
    } else {
        0
    };
    base + shrink_step + 4 + crac_step
}

/// The stage count is the length of the stage plan: the arithmetic in
/// `calculate_steps` and the plan built by `stage_list` never disagree,
/// for any of the configuration combinations.
pub proof fn lemma_stage_count(is_jar_input: bool, shrink: bool, crac: bool)
    ensures
        spec_stage_kinds(is_jar_input, shrink, crac).len() == spec_calculate_steps(
            is_jar_input,
            shrink,
            crac,
        ),
{
}

/// Builds the full stage plan up front: the kinds in execution order,
/// each stage numbered from one against the fixed total, and only the
/// checkpoint stage marked recoverable.
pub fn stage_list(is_jar_input: bool, shrink: bool, crac: bool) -> (stages: Vec<Stage>)
    ensures
        stages@.len() == spec_calculate_steps(is_jar_input, shrink, crac),
        stages@.map_values(|s: Stage| s.kind) == spec_stage_kinds(is_jar_input, shrink, crac),
        forall|i: int|
            0 <= i < stages@.len() ==> (#[trigger] stages@[i]).index == i + 1
                && stages@[i].total == stages@.len() && (stages@[i].optional <==> stages@[i].kind
                == StageKind::Checkpoint),
{
    let mut kinds: Vec<StageKind> = Vec::new();
    if is_jar_input {
        kinds.push(StageKind::UseArchive);
    } else {
        kinds.push(StageKind::DetectBuildSystem);
        kinds.push(StageKind::BuildArchive);
    }
    if shrink {
        kinds.push(StageKind::ShrinkArchive);
    }
    kinds.push(StageKind::FetchRuntime);
    kinds.push(StageKind::AnalyzeModules);
    kinds.push(StageKind::MinimizeRuntime);
    if crac {
        kinds.push(StageKind::Checkpoint);
    }
    kinds.push(StageKind::Pack);
    proof {
        assert(kinds@ =~= spec_stage_kinds(is_jar_input, shrink, crac));
    }

    let total = kinds.len();
    let mut stages: Vec<Stage> = Vec::new();
    let mut i: usize = 0;
    while i < kinds.len()
        invariant
            i <= kinds.len(),
            total == kinds.len(),
            kinds@ == spec_stage_kinds(is_jar_input, shrink, crac),
            stages@.len() == i,
            forall|j: int|
                0 <= j < i ==> (#[trigger] stages@[j]) == (Stage {
                    kind: kinds@[j],
                    index: (j + 1) as usize,
                    total: total,
                    optional: kinds@[j] == StageKind::Checkpoint,
                }),
        decreases kinds.len() - i,
    {
        let kind = kinds[i];
        let optional = stage_is_recoverable(kind);
        stages.push(Stage { kind, index: i + 1, total, optional });
        i = i + 1;
    }
    proof {
        lemma_stage_count(is_jar_input, shrink, crac);
        assert(stages@.map_values(|s: Stage| s.kind) =~= kinds@);
    }
    stages
}

/// The per-stage failure policy: a checkpoint failure is caught at the
/// stage boundary and downgraded to a skip notice; a failure of any
/// other stage aborts the whole run.
pub fn stage_is_recoverable(kind: StageKind) -> (r: bool)
    ensures
        r <==> kind == StageKind::Checkpoint,
{
    match kind {
        StageKind::Checkpoint => true,
        _ => false,
    }
}

} // verus!
