use vstd::prelude::*;

use crate::types::PeerId;

verus! {

/// A signal delivered to one node of a scenario.
#[derive(Debug, Clone, Copy, PartialEq, Eq, Structural)]
pub enum ScenarioEvent {
    ParticipationObserved { target_peer_id: PeerId, source_peer_id: PeerId },
    ReadyObserved { target_peer_id: PeerId, source_peer_id: PeerId },
    LocalParticipationCompleted { target_peer_id: PeerId },
    DeadlineExpired { target_peer_id: PeerId },
}

} // verus!
