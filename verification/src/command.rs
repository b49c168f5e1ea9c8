use vstd::prelude::*;

use crate::types::PeerId;

verus! {

/// An input to the bootstrap state machine.
#[derive(Debug, Clone, Copy, PartialEq, Eq, Structural)]
pub enum Command {
    ParticipationObserved { peer_id: PeerId },
    ReadyObserved { peer_id: PeerId },
    LocalParticipationCompleted,
    DeadlineExpired,
    JoinRequested { peer_id: PeerId },
    JoinApproved { peer_id: PeerId },
    JoinRejected { peer_id: PeerId },
    Probe,
}

impl Command {
    /// The command with its peer id, where it carries one, replaced by 0: the form in
    /// which admissible commands are reported.
    pub open spec fn kind(self) -> Command {
        match self {
            Command::ParticipationObserved { .. } => Command::ParticipationObserved { peer_id: 0 },
            Command::ReadyObserved { .. } => Command::ReadyObserved { peer_id: 0 },
            Command::JoinRequested { .. } => Command::JoinRequested { peer_id: 0 },
            Command::JoinApproved { .. } => Command::JoinApproved { peer_id: 0 },
            Command::JoinRejected { .. } => Command::JoinRejected { peer_id: 0 },
            other => other,
        }
    }

    /// Whether the command changes the membership.
    pub open spec fn is_join(self) -> bool {
        ||| self is JoinRequested
        ||| self is JoinApproved
        ||| self is JoinRejected
    }
}

} // verus!
