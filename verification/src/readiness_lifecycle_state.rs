use vstd::prelude::*;

verus! {

/// Where a node stands in the readiness lifecycle.
#[derive(Debug, Clone, Copy, PartialEq, Eq, Structural)]
pub enum ReadinessLifecycleState {
    Phase1Active,
    Phase2Active,
    ReadyByQuorum,
    ReadyByDeadline,
}

} // verus!
