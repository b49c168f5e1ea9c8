use vstd::prelude::*;

use crate::cluster_readiness_input::ClusterReadinessInput;
use crate::machine_config::MachineConfig;
use crate::machine_input::MachineInput;
use crate::machine_output::MachineOutput;
use crate::machine_snapshot::MachineSnapshot;
use crate::machine_state::{machine_snapshot, AnyMachineState, MachineModel, MachineState};
use crate::readiness_exit_mode::ReadinessExitMode;
use crate::readiness_lifecycle_state::ReadinessLifecycleState;

verus! {

/// Exited on the deadline; only the confirmation counts are kept.
pub struct ReadyByDeadline {
    pub phase1_count: usize,
    pub phase2_count: usize,
    pub local_participation_complete: bool,
}

impl View for ReadyByDeadline {
    type V = MachineModel;

    open spec fn view(&self) -> MachineModel {
        MachineModel::ReadyByDeadline {
            phase1_count: self.phase1_count,
            phase2_count: self.phase2_count,
            local_participation_complete: self.local_participation_complete,
        }
    }
}

impl MachineState for ReadyByDeadline {
    fn step(self, input: MachineInput, config: &MachineConfig) -> (r: (Vec<MachineOutput>, AnyMachineState)) {
        let output = match input {
            ClusterReadinessInput::ParticipationObserved { peer_id, .. } => vec![
                MachineOutput::StaleParticipationIgnored { peer_id },
            ],
            ClusterReadinessInput::ReadyObserved { peer_id, .. } => vec![
                MachineOutput::StaleReadyIgnored { peer_id },
            ],
            ClusterReadinessInput::LocalParticipationCompleted => Vec::new(),
            ClusterReadinessInput::DeadlineExpired => Vec::new(),
        };
        (output, AnyMachineState::ReadyByDeadline(self))
    }

    fn snapshot(&self, quorum_threshold: usize) -> (r: MachineSnapshot) {
        MachineSnapshot::new(
            ReadinessLifecycleState::ReadyByDeadline,
            Some(ReadinessExitMode::Deadline),
            self.local_participation_complete,
            true,
            self.phase1_count,
            self.phase2_count,
            quorum_threshold,
        )
    }

    fn accept(&self, input: &MachineInput) -> (r: bool) {
        false
    }
}

} // verus!
