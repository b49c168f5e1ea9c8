use vstd::prelude::*;

use crate::freshness_classification::FreshnessClassification;
use crate::machine_output::MachineOutput;
use crate::types::PeerId;

verus! {

/// Which kind of signal was observed.
#[derive(Debug, Clone, Copy, PartialEq, Eq, Structural)]
pub enum ObservedKind {
    Participation,
    Ready,
}

/// Computes the machine output for an observation of one kind from one peer.
pub struct ObservedOutput {
    kind: ObservedKind,
    peer_id: PeerId,
}

/// The output for an observation: from an unknown peer it is ignored as a non-member, then
/// a stale one is ignored, then a duplicate, and otherwise it is accepted, as delayed unless
/// timely.
pub open spec fn observation_output(
    kind: ObservedKind,
    peer_id: PeerId,
    index: Option<usize>,
    classification: Option<FreshnessClassification>,
    is_dup: bool,
) -> MachineOutput {
    if index is None {
        MachineOutput::NonMemberIgnored { peer_id }
    } else if classification == Some(FreshnessClassification::Stale) {
        match kind {
            ObservedKind::Participation => MachineOutput::StaleParticipationIgnored { peer_id },
            ObservedKind::Ready => MachineOutput::StaleReadyIgnored { peer_id },
        }
    } else if is_dup {
        match kind {
            ObservedKind::Participation => MachineOutput::DuplicateParticipationIgnored { peer_id },
            ObservedKind::Ready => MachineOutput::DuplicateReadyIgnored { peer_id },
        }
    } else if classification == Some(FreshnessClassification::Timely) {
        match kind {
            ObservedKind::Participation => MachineOutput::ParticipationAccepted { peer_id },
            ObservedKind::Ready => MachineOutput::ReadyAccepted { peer_id },
        }
    } else {
        match kind {
            ObservedKind::Participation => MachineOutput::DelayedParticipationAccepted { peer_id },
            ObservedKind::Ready => MachineOutput::DelayedReadyAccepted { peer_id },
        }
    }
}

impl ObservedOutput {
    pub closed spec fn kind_spec(&self) -> ObservedKind {
        self.kind
    }

    pub closed spec fn peer_spec(&self) -> PeerId {
        self.peer_id
    }

    pub fn new(kind: ObservedKind, peer_id: PeerId) -> (r: Self)
        ensures
            r.kind_spec() == kind,
            r.peer_spec() == peer_id,
    {
        ObservedOutput { kind, peer_id }
    }

    pub fn compute_output(
        &self,
        index: Option<usize>,
        classification: Option<FreshnessClassification>,
        is_dup: bool,
    ) -> (r: MachineOutput)
        ensures
            r == observation_output(self.kind_spec(), self.peer_spec(), index, classification, is_dup),
    {
        if index.is_none() {
            return MachineOutput::NonMemberIgnored { peer_id: self.peer_id };
        }
        if let Some(FreshnessClassification::Stale) = classification {
            return self.stale_output();
        }
        if is_dup {
            return self.duplicate_output();
        }
        let timely = match classification {
            Some(FreshnessClassification::Timely) => true,
            _ => false,
        };
        self.accepted_output(timely)
    }

    fn stale_output(&self) -> (r: MachineOutput)
        ensures
            r == observation_output(self.kind, self.peer_id, Some(0), Some(FreshnessClassification::Stale), false),
    {
        match self.kind {
            ObservedKind::Participation => MachineOutput::StaleParticipationIgnored { peer_id: self.peer_id },
            ObservedKind::Ready => MachineOutput::StaleReadyIgnored { peer_id: self.peer_id },
        }
    }

    fn duplicate_output(&self) -> (r: MachineOutput)
        ensures
            r == observation_output(self.kind, self.peer_id, Some(0), None, true),
    {
        match self.kind {
            ObservedKind::Participation => MachineOutput::DuplicateParticipationIgnored { peer_id: self.peer_id },
            ObservedKind::Ready => MachineOutput::DuplicateReadyIgnored { peer_id: self.peer_id },
        }
    }

    fn accepted_output(&self, timely: bool) -> (r: MachineOutput)
        ensures
            r == observation_output(
                self.kind,
                self.peer_id,
                Some(0),
                Some(
                    if timely {
                        FreshnessClassification::Timely
                    } else {
                        FreshnessClassification::DelayedWithinMargin
                    },
                ),
                false,
            ),
    {
        match (self.kind, timely) {
            (ObservedKind::Participation, true) => MachineOutput::ParticipationAccepted { peer_id: self.peer_id },
            (ObservedKind::Participation, false) => MachineOutput::DelayedParticipationAccepted {
                peer_id: self.peer_id,
            },
            (ObservedKind::Ready, true) => MachineOutput::ReadyAccepted { peer_id: self.peer_id },
            (ObservedKind::Ready, false) => MachineOutput::DelayedReadyAccepted { peer_id: self.peer_id },
        }
    }
}

} // verus!
