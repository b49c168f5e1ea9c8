use vstd::prelude::*;

verus! {

/// How a node left the readiness phases.
#[derive(Debug, Clone, Copy, PartialEq, Eq, Structural)]
pub enum ReadinessExitMode {
    Quorum,
    Deadline,
}

} // verus!
