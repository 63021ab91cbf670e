//! Progress reporting for long-running computations.

use vstd::prelude::*;

verus! {

/// A snapshot handed to a caller-supplied progress callback: how many work
/// items are done and, where known, how many there are in total. A total of
/// zero means the total was not provided.
#[derive(Clone, Copy, Debug, PartialEq, Eq)]
pub struct ItemProgress {
    pub current: usize,
    pub total: usize,
}

impl ItemProgress {
    /// A fresh counter with nothing done yet.
    pub fn new(total: usize) -> (p: ItemProgress)
        ensures
            p.current == 0,
            p.total == total,
    {
        ItemProgress { current: 0, total }
    }

    /// Records one more finished item.
    pub fn step(&mut self)
        requires
            old(self).current < usize::MAX,
        ensures
            final(self).current == old(self).current + 1,
            final(self).total == old(self).total,
    {
        self.current = self.current + 1;
    }
}

} // verus!
