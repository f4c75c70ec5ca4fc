//! Counts of the decisions taken.

use vstd::prelude::*;

verus! {

/// How many operations were allowed and how many were blocked.
pub struct FilterStatistics {
    pub allowed: usize,
    pub blocked: usize,
}

impl FilterStatistics {
    /// Counts that start at zero.
    pub fn new() -> (statistics: Self)
        ensures
            statistics.allowed == 0,
            statistics.blocked == 0,
    {
        FilterStatistics { allowed: 0, blocked: 0 }
    }

    /// Counts one more operation as allowed.
    pub fn record_allow(&mut self)
        requires
            old(self).allowed < usize::MAX,
        ensures
            final(self).allowed == old(self).allowed + 1,
            final(self).blocked == old(self).blocked,
    {
        self.allowed += 1;
    }

    /// Counts one more operation as blocked.
    pub fn record_block(&mut self)
        requires
            old(self).blocked < usize::MAX,
        ensures
            final(self).blocked == old(self).blocked + 1,
            final(self).allowed == old(self).allowed,
    {
        self.blocked += 1;
    }

    /// The number of operations counted, or `None` where it is beyond
    /// what a `usize` holds.
    pub fn total(&self) -> (total: Option<usize>)
        ensures
            match total {
                Some(sum) => sum == self.allowed + self.blocked,
                None => self.allowed + self.blocked > usize::MAX,
            },
    {
        self.allowed.checked_add(self.blocked)
    }
}

} // verus!
