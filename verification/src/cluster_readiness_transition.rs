use vstd::prelude::*;

use crate::cluster_readiness_output::ClusterReadinessOutput;
use crate::cluster_readiness_snapshot::ClusterReadinessSnapshot;
use crate::machine_snapshot::SnapshotModel;

verus! {

/// One input's effect on the readiness machine: snapshots before and after, and the outputs.
#[derive(Debug, PartialEq, Eq)]
pub struct ClusterReadinessTransition {
    previous_state: ClusterReadinessSnapshot,
    outputs: Vec<ClusterReadinessOutput>,
    new_state: ClusterReadinessSnapshot,
}

impl ClusterReadinessTransition {
    pub closed spec fn previous_spec(&self) -> SnapshotModel {
        self.previous_state@
    }

    pub closed spec fn outputs_spec(&self) -> Seq<ClusterReadinessOutput> {
        self.outputs@
    }

    pub closed spec fn new_spec(&self) -> SnapshotModel {
        self.new_state@
    }

    pub fn new(
        previous_state: ClusterReadinessSnapshot,
        outputs: Vec<ClusterReadinessOutput>,
        new_state: ClusterReadinessSnapshot,
    ) -> (r: Self)
        ensures
            r.previous_spec() == previous_state@,
            r.outputs_spec() == outputs@,
            r.new_spec() == new_state@,
    {
        ClusterReadinessTransition { previous_state, outputs, new_state }
    }

    pub fn previous_state(&self) -> (r: ClusterReadinessSnapshot)
        ensures
            r@ == self.previous_spec(),
    {
        self.previous_state
    }

    pub fn outputs(&self) -> (r: &[ClusterReadinessOutput])
        ensures
            r@ == self.outputs_spec(),
    {
        self.outputs.as_slice()
    }

    pub fn new_state(&self) -> (r: ClusterReadinessSnapshot)
        ensures
            r@ == self.new_spec(),
    {
        self.new_state
    }
}

} // verus!
