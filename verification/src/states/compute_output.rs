use vstd::prelude::*;

use crate::freshness_classification::FreshnessClassification;
use crate::outcome::Outcome;
use crate::types::PeerId;

verus! {

/// Which kind of signal was observed.
#[derive(Debug, Clone, Copy, PartialEq, Eq, Structural)]
pub enum ObservedKind {
    Participation,
    Ready,
}

/// The outcome of a classified observation from a member.
pub struct ObservedOutput {
    outcome: Outcome,
}

/// A stale observation is ignored, then a duplicate, and otherwise it is accepted, as delayed
/// unless timely.
pub open spec fn observed_outcome(
    kind: ObservedKind,
    peer_id: PeerId,
    classification: FreshnessClassification,
    is_dup: bool,
) -> Outcome {
    match (kind, classification, is_dup) {
        (ObservedKind::Participation, FreshnessClassification::Stale, _) => Outcome::StaleParticipationIgnored {
            peer_id,
        },
        (ObservedKind::Ready, FreshnessClassification::Stale, _) => Outcome::StaleReadyIgnored { peer_id },
        (ObservedKind::Participation, _, true) => Outcome::DuplicateParticipationIgnored { peer_id },
        (ObservedKind::Ready, _, true) => Outcome::DuplicateReadyIgnored { peer_id },
        (ObservedKind::Participation, FreshnessClassification::Timely, false) => Outcome::ParticipationAccepted {
            peer_id,
        },
        (ObservedKind::Ready, FreshnessClassification::Timely, false) => Outcome::ReadyAccepted { peer_id },
        (ObservedKind::Participation, _, false) => Outcome::DelayedParticipationAccepted { peer_id },
        (ObservedKind::Ready, _, false) => Outcome::DelayedReadyAccepted { peer_id },
    }
}

impl ObservedOutput {
    pub closed spec fn outcome_spec(&self) -> Outcome {
        self.outcome
    }

    pub fn new(
        kind: ObservedKind,
        peer_id: PeerId,
        classification: FreshnessClassification,
        is_dup: bool,
    ) -> (r: Self)
        ensures
            r.outcome_spec() == observed_outcome(kind, peer_id, classification, is_dup),
    {
        let outcome = if let FreshnessClassification::Stale = classification {
            Self::stale_output(kind, peer_id)
        } else if is_dup {
            Self::duplicate_output(kind, peer_id)
        } else {
            let timely = match classification {
                FreshnessClassification::Timely => true,
                _ => false,
            };
            Self::accepted_output(kind, peer_id, timely)
        };
        ObservedOutput { outcome }
    }

    pub fn outcome(&self) -> (r: &Outcome)
        ensures
            *r == self.outcome_spec(),
    {
        &self.outcome
    }

    pub fn into_outcome(self) -> (r: Outcome)
        ensures
            r == self.outcome_spec(),
    {
        self.outcome
    }

    fn stale_output(kind: ObservedKind, peer_id: PeerId) -> (r: Outcome)
        ensures
            r == observed_outcome(kind, peer_id, FreshnessClassification::Stale, false),
    {
        match kind {
            ObservedKind::Participation => Outcome::StaleParticipationIgnored { peer_id },
            ObservedKind::Ready => Outcome::StaleReadyIgnored { peer_id },
        }
    }

    fn duplicate_output(kind: ObservedKind, peer_id: PeerId) -> (r: Outcome)
        ensures
            r == observed_outcome(kind, peer_id, FreshnessClassification::Timely, true),
    {
        match kind {
            ObservedKind::Participation => Outcome::DuplicateParticipationIgnored { peer_id },
            ObservedKind::Ready => Outcome::DuplicateReadyIgnored { peer_id },
        }
    }

    fn accepted_output(kind: ObservedKind, peer_id: PeerId, timely: bool) -> (r: Outcome)
        ensures
            r == observed_outcome(
                kind,
                peer_id,
                if timely {
                    FreshnessClassification::Timely
                } else {
                    FreshnessClassification::DelayedWithinMargin
                },
                false,
            ),
    {
        match (kind, timely) {
            (ObservedKind::Participation, true) => Outcome::ParticipationAccepted { peer_id },
            (ObservedKind::Participation, false) => Outcome::DelayedParticipationAccepted { peer_id },
            (ObservedKind::Ready, true) => Outcome::ReadyAccepted { peer_id },
            (ObservedKind::Ready, false) => Outcome::DelayedReadyAccepted { peer_id },
        }
    }
}

} // verus!
