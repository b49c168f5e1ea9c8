use vstd::prelude::*;

use crate::types::{Freshness, PeerId};

verus! {

/// An input to the readiness machine; observations carry the marker they were made at and
/// the current marker.
#[derive(Debug, Clone, Copy, PartialEq, Eq, Structural)]
pub enum ClusterReadinessInput {
    ParticipationObserved { peer_id: PeerId, freshness: Freshness, current_marker: Freshness },
    ReadyObserved { peer_id: PeerId, freshness: Freshness, current_marker: Freshness },
    LocalParticipationCompleted,
    DeadlineExpired,
}

} // verus!
