//! Stage numbering for the pipeline's progress display.  The counter
//! starts at zero, advances once per stage, and renders the `[i/total]`
//! prefix against the total that was fixed before the first stage ran.
//! How the prefix is shown (live spinner or plain inline line) is the
//! caller's concern; the numbering itself is not.

use vstd::prelude::*;

use crate::num::dec_digits;
use crate::num::u64_to_string;

verus! {

/// The `[current/total]` prefix rendered before a stage's name.
pub open spec fn stage_prefix(current: int, total: int) -> Seq<char> {
    "["@ + dec_digits(current) + "/"@ + dec_digits(total) + "]"@
}

/// Counts stages as they start.
pub struct StageCounter {
    pub current: usize,
    pub total: usize,
}

impl StageCounter {
    /// A fresh counter: no stage started yet.
    pub fn begin(total: usize) -> (c: Self)
        ensures
            c.current == 0,
            c.total == total,
    {
        StageCounter { current: 0, total }
    }

    /// Starts the next stage: advances the counter and returns the
    /// numbering prefix for the stage's label.
    pub fn start_stage(&mut self) -> (prefix: String)
        requires
            old(self).current < old(self).total,
        ensures
            final(self).current == old(self).current + 1,
            final(self).total == old(self).total,
            prefix@ == stage_prefix(old(self).current + 1, old(self).total as int),
    {
        self.current = self.current + 1;
        let mut s = String::from_str("[");
        let cur = u64_to_string(self.current as u64);
        s.append(cur.as_str());
        s.append("/");
        let tot = u64_to_string(self.total as u64);
        s.append(tot.as_str());
        s.append("]");
        s
    }
}

} // verus!
