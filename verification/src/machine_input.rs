use vstd::prelude::*;

use crate::cluster_readiness_input::ClusterReadinessInput;

verus! {

/// An input to the state-by-state readiness machine: the same inputs as the readiness machine.
pub type MachineInput = ClusterReadinessInput;

} // verus!
