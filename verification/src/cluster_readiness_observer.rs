use vstd::prelude::*;

use crate::cluster_readiness_input::ClusterReadinessInput;
use crate::cluster_readiness_output::ClusterReadinessOutput;
use crate::cluster_readiness_transition::ClusterReadinessTransition;
use crate::machine_snapshot::SnapshotModel;

verus! {

/// What a [`crate::cluster_readiness::ClusterReadiness`] tells its observer about one input:
/// the snapshots before and after it, and the outputs.
pub struct ReadinessNotice {
    pub input: ClusterReadinessInput,
    pub previous_state: SnapshotModel,
    pub outputs: Seq<ClusterReadinessOutput>,
    pub new_state: SnapshotModel,
}

/// Receives every transition of a [`crate::cluster_readiness::ClusterReadiness`].
///
/// An observer may keep a record of what it is told (`keeps_notices`); one that does appends
/// exactly the notice of each call to `notices`, and keeps doing so.
pub trait ClusterReadinessObserver {
    /// Whether this observer keeps a record of what it is told; unless an observer says so, it
    /// keeps none.
    open spec fn keeps_notices(&self) -> bool {
        false
    }

    /// What this observer has been told, in order, where it keeps a record.
    open spec fn notices(&self) -> Seq<ReadinessNotice> {
        Seq::empty()
    }

    fn observe(&mut self, input: ClusterReadinessInput, transition: ClusterReadinessTransition)
        ensures
            old(self).keeps_notices() ==> final(self).keeps_notices() && final(self).notices() == old(
                self,
            ).notices().push(
                ReadinessNotice {
                    input,
                    previous_state: transition.previous_spec(),
                    outputs: transition.outputs_spec(),
                    new_state: transition.new_spec(),
                },
            ),
    ;
}

} // verus!
