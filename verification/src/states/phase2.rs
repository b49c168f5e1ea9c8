use vstd::prelude::*;

use crate::cluster_readiness_input::ClusterReadinessInput;
use crate::machine_config::MachineConfig;
use crate::machine_input::MachineInput;
use crate::machine_output::MachineOutput;
use crate::machine_snapshot::MachineSnapshot;
use crate::machine_state::{machine_snapshot, AnyMachineState, MachineModel, MachineState};
use crate::readiness_exit_mode::ReadinessExitMode;
use crate::readiness_lifecycle_state::ReadinessLifecycleState;
use crate::states::helpers::compute_output::ObservedKind;
use crate::states::helpers::confirmed_set::ConfirmedSet;
use crate::states::phase1::observe;
use crate::states::ready_by_deadline::ReadyByDeadline;
use crate::states::ready_by_quorum::ReadyByQuorum;

verus! {

/// The local node has completed its participation; ready signals are collected until a quorum.
pub struct Phase2 {
    phase1: ConfirmedSet,
    phase2: ConfirmedSet,
}

impl Phase2 {
    /// The participation flags, one per peer.
    pub closed spec fn phase1_spec(&self) -> Seq<bool> {
        self.phase1@
    }

    /// The ready flags, one per peer.
    pub closed spec fn phase2_spec(&self) -> Seq<bool> {
        self.phase2@
    }
}

impl View for Phase2 {
    type V = MachineModel;

    open spec fn view(&self) -> MachineModel {
        MachineModel::Phase2 { phase1: self.phase1_spec(), phase2: self.phase2_spec() }
    }
}

impl Phase2 {
    pub(crate) fn from_sets(phase1: ConfirmedSet, phase2: ConfirmedSet) -> (r: Self)
        ensures
            r@ == (MachineModel::Phase2 { phase1: phase1@, phase2: phase2@ }),
    {
        Phase2 { phase1, phase2 }
    }
}

impl MachineState for Phase2 {
    fn step(self, input: MachineInput, config: &MachineConfig) -> (r: (Vec<MachineOutput>, AnyMachineState)) {
        let Phase2 { phase1, phase2 } = self;
        match input {
            ClusterReadinessInput::ParticipationObserved { peer_id, freshness, current_marker } => {
                let (phase1, output, _) = observe(
                    ObservedKind::Participation,
                    &phase1,
                    config,
                    peer_id,
                    freshness,
                    current_marker,
                );
                (vec![output], AnyMachineState::Phase2(Phase2 { phase1, phase2 }))
            },
            ClusterReadinessInput::ReadyObserved { peer_id, freshness, current_marker } => {
                let (phase2, output, confirmed) = observe(
                    ObservedKind::Ready,
                    &phase2,
                    config,
                    peer_id,
                    freshness,
                    current_marker,
                );
                if confirmed && phase2.count() >= config.quorum_threshold() {
                    let mut outputs = vec![output];
                    outputs.push(MachineOutput::ReadyQuorumReached);
                    outputs.push(MachineOutput::ReadinessExited { mode: ReadinessExitMode::Quorum });
                    (outputs, AnyMachineState::ReadyByQuorum(ReadyByQuorum { phase1, phase2 }))
                } else {
                    (vec![output], AnyMachineState::Phase2(Phase2 { phase1, phase2 }))
                }
            },
            ClusterReadinessInput::LocalParticipationCompleted => {
                (Vec::new(), AnyMachineState::Phase2(Phase2 { phase1, phase2 }))
            },
            ClusterReadinessInput::DeadlineExpired => {
                let next = ReadyByDeadline {
                    phase1_count: phase1.count(),
                    phase2_count: phase2.count(),
                    local_participation_complete: true,
                };
                (
                    vec![MachineOutput::ReadinessExited { mode: ReadinessExitMode::Deadline }],
                    AnyMachineState::ReadyByDeadline(next),
                )
            },
        }
    }

    fn snapshot(&self, quorum_threshold: usize) -> (r: MachineSnapshot) {
        MachineSnapshot::new(
            ReadinessLifecycleState::Phase2Active,
            None,
            true,
            false,
            self.phase1.count(),
            self.phase2.count(),
            quorum_threshold,
        )
    }

    fn accept(&self, input: &MachineInput) -> (r: bool) {
        true
    }
}

} // verus!
