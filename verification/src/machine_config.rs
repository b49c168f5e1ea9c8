use vstd::prelude::*;

use crate::cluster_readiness_config::ClusterReadinessConfig;

verus! {

/// What the state-by-state readiness machine knows of its node and cluster: the same values
/// as a readiness configuration.
pub type MachineConfig = ClusterReadinessConfig;

} // verus!
