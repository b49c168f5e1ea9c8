use vstd::prelude::*;

use crate::cluster_readiness_input::ClusterReadinessInput;
use crate::machine_config::MachineConfig;
use crate::machine_input::MachineInput;
use crate::machine_output::MachineOutput;
use crate::machine_snapshot::MachineSnapshot;
use crate::machine_state::{machine_snapshot, AnyMachineState, MachineModel, MachineState};
use crate::readiness_exit_mode::ReadinessExitMode;
use crate::readiness_lifecycle_state::ReadinessLifecycleState;
use crate::states::helpers::confirmed_set::ConfirmedSet;

verus! {

/// Exited on a quorum of ready signals.
pub struct ReadyByQuorum {
    pub phase1: ConfirmedSet,
    pub phase2: ConfirmedSet,
}

impl View for ReadyByQuorum {
    type V = MachineModel;

    open spec fn view(&self) -> MachineModel {
        MachineModel::ReadyByQuorum { phase1: self.phase1@, phase2: self.phase2@ }
    }
}

impl MachineState for ReadyByQuorum {
    fn step(self, input: MachineInput, config: &MachineConfig) -> (r: (Vec<MachineOutput>, AnyMachineState)) {
        let ReadyByQuorum { phase1, phase2 } = self;
        let output = match input {
            ClusterReadinessInput::ParticipationObserved { peer_id, .. } => vec![
                MachineOutput::StaleParticipationIgnored { peer_id },
            ],
            ClusterReadinessInput::ReadyObserved { peer_id, .. } => vec![
                MachineOutput::StaleReadyIgnored { peer_id },
            ],
            ClusterReadinessInput::LocalParticipationCompleted => Vec::new(),
            ClusterReadinessInput::DeadlineExpired => Vec::new(),
        };
        (output, AnyMachineState::ReadyByQuorum(ReadyByQuorum { phase1, phase2 }))
    }

    fn snapshot(&self, quorum_threshold: usize) -> (r: MachineSnapshot) {
        MachineSnapshot::new(
            ReadinessLifecycleState::ReadyByQuorum,
            Some(ReadinessExitMode::Quorum),
            true,
            true,
            self.phase1.count(),
            self.phase2.count(),
            quorum_threshold,
        )
    }

    fn accept(&self, input: &MachineInput) -> (r: bool) {
        false
    }
}

} // verus!
