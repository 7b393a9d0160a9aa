//! A bounded progress counter: bytes handled so far out of a fixed total.
//!
//! The count only ever advances, and never runs past the total it was
//! created with.

use vstd::prelude::*;

verus! {

/// Progress of a streaming operation over a source of known size.
pub struct Progress {
    pub done: u64,
    pub total: u64,
}

impl Progress {
    /// The counter never exceeds the total it was created with.
    pub open spec fn wf(self) -> bool {
        self.done <= self.total
    }

    /// A fresh counter for a source of `total` bytes.
    pub fn new(total: u64) -> (r: Progress)
        ensures
            r.wf(),
            r.done == 0,
            r.total == total,
    {
        Progress { done: 0, total }
    }

    /// Advance the count by `n` bytes. The count never decreases and never
    /// exceeds the total.
    pub fn inc(&mut self, n: u64)
        requires
            old(self).wf(),
            old(self).done + n <= old(self).total,
        ensures
            final(self).wf(),
            final(self).done == old(self).done + n,
            final(self).total == old(self).total,
            old(self).done <= final(self).done,
    {
        self.done = self.done + n;
    }

    /// Whether the whole source has been accounted for.
    pub fn is_finished(&self) -> (r: bool)
        ensures
            r == (self.done == self.total),
    {
        self.done == self.total
    }
}

} // verus!
