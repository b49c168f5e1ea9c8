use vstd::prelude::*;

use crate::cluster_readiness_input::ClusterReadinessInput;
use crate::cluster_readiness_observer::ClusterReadinessObserver;
use crate::cluster_readiness_transition::ClusterReadinessTransition;

verus! {

/// An observer that ignores everything and keeps no record.
pub struct NoOpClusterReadinessObserver;

impl ClusterReadinessObserver for NoOpClusterReadinessObserver {
    fn observe(&mut self, _input: ClusterReadinessInput, _transition: ClusterReadinessTransition) {
    }
}

} // verus!
