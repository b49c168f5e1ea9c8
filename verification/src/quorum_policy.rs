use vstd::prelude::*;

verus! {

/// How many confirmations make a quorum.
#[derive(Debug, Clone, Copy, PartialEq, Eq)]
pub struct QuorumPolicy {
    threshold: usize,
}

impl QuorumPolicy {
    /// The number of confirmations the policy asks for.
    pub closed spec fn threshold_spec(&self) -> usize {
        self.threshold
    }

    pub fn new(threshold: usize) -> (r: Self)
        ensures
            r.threshold_spec() == threshold,
    {
        QuorumPolicy { threshold }
    }

    pub fn threshold(&self) -> (r: usize)
        ensures
            r == self.threshold_spec(),
    {
        self.threshold
    }

    pub fn is_satisfied(&self, confirmed_count: usize) -> (r: bool)
        ensures
            r == (confirmed_count >= self.threshold_spec()),
    {
        confirmed_count >= self.threshold
    }
}

} // verus!
