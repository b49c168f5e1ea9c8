use vstd::prelude::*;

use crate::readiness_exit_mode::ReadinessExitMode;
use crate::types::PeerId;

verus! {

/// What the readiness machine produced for an input.
#[derive(Debug, Clone, Copy, PartialEq, Eq, Structural)]
pub enum ClusterReadinessOutput {
    ParticipationAccepted { peer_id: PeerId },
    ReadyAccepted { peer_id: PeerId },
    DelayedParticipationAccepted { peer_id: PeerId },
    DelayedReadyAccepted { peer_id: PeerId },
    DuplicateParticipationIgnored { peer_id: PeerId },
    DuplicateReadyIgnored { peer_id: PeerId },
    StaleParticipationIgnored { peer_id: PeerId },
    StaleReadyIgnored { peer_id: PeerId },
    NonMemberIgnored { peer_id: PeerId },
    LocalParticipationCompleted,
    BroadcastLocalReady,
    ReadyQuorumReached,
    ReadinessExited { mode: ReadinessExitMode },
}

} // verus!
