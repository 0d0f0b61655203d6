//! The decisions of the writer: what to do after each attempt to write a line.

use vstd::prelude::*;

verus! {

/// How many times the writer tries one line before it drops it.
pub const MAX_WRITE_ATTEMPTS: u32 = 3;

/// What the writer does next.
#[derive(Debug, Clone, Copy, PartialEq, Eq)]
pub enum WriteAction {
    /// Write the same line again.
    Retry,
    /// Go on to the next record.
    Next,
}

/// The writer's record of its work: lines written, lines given up on, and
/// failed attempts on the current line.
pub struct WriterHealth {
    pub written: u64,
    pub dropped: u64,
    pub failed_attempts: u32,
}

/// `n + 1`, held at `u64::MAX`.
pub open spec fn count_up(n: u64) -> u64 {
    if n == u64::MAX {
        n
    } else {
        (n + 1) as u64
    }
}

impl WriterHealth {
    /// The current line has failed fewer times than the limit.
    pub open spec fn wf(&self) -> bool {
        self.failed_attempts < MAX_WRITE_ATTEMPTS
    }

    /// A writer that has not written anything yet.
    pub fn new() -> (r: WriterHealth)
        ensures
            r.written == 0,
            r.dropped == 0,
            r.failed_attempts == 0,
            r.wf(),
    {
        WriterHealth { written: 0, dropped: 0, failed_attempts: 0 }
    }

    /// Takes the outcome of one attempt to write the current line. A success
    /// counts the line as written. A failure asks for another attempt until
    /// `MAX_WRITE_ATTEMPTS` have failed; then the line is counted as dropped
    /// and the writer goes on, so that one bad write does not stop it.
    pub fn on_write_result(&mut self, ok: bool) -> (r: WriteAction)
        requires
            old(self).wf(),
        ensures
            final(self).wf(),
            ok ==> r == WriteAction::Next && final(self).written == count_up(old(self).written)
                && final(self).dropped == old(self).dropped && final(self).failed_attempts == 0,
            !ok && old(self).failed_attempts + 1 < MAX_WRITE_ATTEMPTS ==> r == WriteAction::Retry
                && final(self).written == old(self).written && final(self).dropped == old(
                self,
            ).dropped && final(self).failed_attempts == old(self).failed_attempts + 1,
            !ok && old(self).failed_attempts + 1 >= MAX_WRITE_ATTEMPTS ==> r == WriteAction::Next
                && final(self).written == old(self).written && final(self).dropped == count_up(
                old(self).dropped,
            ) && final(self).failed_attempts == 0,
    {
        if ok {
            self.written = self.written.saturating_add(1);
            self.failed_attempts = 0;
            WriteAction::Next
        } else if self.failed_attempts + 1 < MAX_WRITE_ATTEMPTS {
            self.failed_attempts = self.failed_attempts + 1;
            WriteAction::Retry
        } else {
            self.dropped = self.dropped.saturating_add(1);
            self.failed_attempts = 0;
            WriteAction::Next
        }
    }
}

} // verus!
