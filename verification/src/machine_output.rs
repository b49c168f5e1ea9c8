use vstd::prelude::*;

use crate::cluster_readiness_output::ClusterReadinessOutput;
use crate::machine_snapshot::MachineSnapshot;
use crate::readiness_exit_mode::ReadinessExitMode;
use crate::types::PeerId;

verus! {

/// What the state-by-state readiness machine produced for an input.
#[derive(Debug, Clone, Copy, PartialEq, Eq)]
pub enum MachineOutput {
    ParticipationAccepted { peer_id: PeerId },
    ReadyAccepted { peer_id: PeerId },
    DelayedParticipationAccepted { peer_id: PeerId },
    DelayedReadyAccepted { peer_id: PeerId },
    DuplicateParticipationIgnored { peer_id: PeerId },
    DuplicateReadyIgnored { peer_id: PeerId },
    StaleParticipationIgnored { peer_id: PeerId },
    StaleReadyIgnored { peer_id: PeerId },
    NonMemberIgnored { peer_id: PeerId },
    LocalParticipationCompleted,
    BroadcastLocalReady,
    ReadyQuorumReached,
    ReadinessExited { mode: ReadinessExitMode },
    SnapshotAvailable(MachineSnapshot),
}

/// The machine output that reports the same as a readiness output.
pub open spec fn as_machine_output(o: ClusterReadinessOutput) -> MachineOutput {
    match o {
        ClusterReadinessOutput::ParticipationAccepted { peer_id } => MachineOutput::ParticipationAccepted { peer_id },
        ClusterReadinessOutput::ReadyAccepted { peer_id } => MachineOutput::ReadyAccepted { peer_id },
        ClusterReadinessOutput::DelayedParticipationAccepted { peer_id } => MachineOutput::DelayedParticipationAccepted {
            peer_id,
        },
        ClusterReadinessOutput::DelayedReadyAccepted { peer_id } => MachineOutput::DelayedReadyAccepted { peer_id },
        ClusterReadinessOutput::DuplicateParticipationIgnored { peer_id } => MachineOutput::DuplicateParticipationIgnored {
            peer_id,
        },
        ClusterReadinessOutput::DuplicateReadyIgnored { peer_id } => MachineOutput::DuplicateReadyIgnored { peer_id },
        ClusterReadinessOutput::StaleParticipationIgnored { peer_id } => MachineOutput::StaleParticipationIgnored {
            peer_id,
        },
        ClusterReadinessOutput::StaleReadyIgnored { peer_id } => MachineOutput::StaleReadyIgnored { peer_id },
        ClusterReadinessOutput::NonMemberIgnored { peer_id } => MachineOutput::NonMemberIgnored { peer_id },
        ClusterReadinessOutput::LocalParticipationCompleted => MachineOutput::LocalParticipationCompleted,
        ClusterReadinessOutput::BroadcastLocalReady => MachineOutput::BroadcastLocalReady,
        ClusterReadinessOutput::ReadyQuorumReached => MachineOutput::ReadyQuorumReached,
        ClusterReadinessOutput::ReadinessExited { mode } => MachineOutput::ReadinessExited { mode },
    }
}

/// Readiness outputs as machine outputs, in order.
pub open spec fn as_machine_outputs(s: Seq<ClusterReadinessOutput>) -> Seq<MachineOutput> {
    s.map_values(|o: ClusterReadinessOutput| as_machine_output(o))
}

} // verus!
