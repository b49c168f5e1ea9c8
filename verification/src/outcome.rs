use vstd::prelude::*;

use crate::conclusion::Conclusion;
use crate::types::PeerId;

verus! {

/// What a processed command produced.
#[derive(Debug, Clone, Copy, PartialEq, Eq, Structural)]
pub enum Outcome {
    ParticipationAccepted { peer_id: PeerId },
    ReadyAccepted { peer_id: PeerId },
    DelayedParticipationAccepted { peer_id: PeerId },
    DelayedReadyAccepted { peer_id: PeerId },
    DuplicateParticipationIgnored { peer_id: PeerId },
    DuplicateReadyIgnored { peer_id: PeerId },
    StaleParticipationIgnored { peer_id: PeerId },
    StaleReadyIgnored { peer_id: PeerId },
    NonMemberIgnored { peer_id: PeerId },
    LocalParticipationCompleted,
    BroadcastLocalReady,
    AcknowledgeRejoin { peer_id: PeerId },
    DeadlineMissed { confirmed_count: usize },
    Concluded { mode: Conclusion },
    EmitJoinRequest { peer_id: PeerId },
    MemberAdmitted { peer_id: PeerId },
    DuplicateMemberIgnored { peer_id: PeerId },
    JoinDenied { peer_id: PeerId },
}

impl Outcome {
    /// Whether the outcome reports an ignored duplicate signal.
    pub open spec fn is_duplicate(self) -> bool {
        self is DuplicateParticipationIgnored || self is DuplicateReadyIgnored
    }
}

} // verus!
