use vstd::prelude::*;

use crate::freshness_classification::FreshnessClassification;
use crate::machine_output::MachineOutput;
use crate::types::PeerId;

verus! {

/// Which kind of signal was observed.
#[derive(Debug, Clone, Copy, PartialEq, Eq, Structural)]
pub enum ObservedKind {
    Participation,
    Ready,
}

/// The output for an observation: from an unknown peer it is ignored as a non-member, then
/// a stale one is ignored, then a duplicate, and otherwise it is accepted, as delayed unless
/// timely.
pub open spec fn observed_output_spec(
    kind: ObservedKind,
    peer_id: PeerId,
    index: Option<usize>,
    classification: Option<FreshnessClassification>,
    is_dup: bool,
) -> MachineOutput {
    if index is None {
        non_member_output_spec(peer_id)
    } else if classification == Some(FreshnessClassification::Stale) {
        stale_output_spec(kind, peer_id)
    } else if is_dup {
        duplicate_output_spec(kind, peer_id)
    } else {
        accepted_output_spec(kind, peer_id, classification == Some(FreshnessClassification::Timely))
    }
}

pub open spec fn non_member_output_spec(peer_id: PeerId) -> MachineOutput {
    MachineOutput::NonMemberIgnored { peer_id }
}

pub open spec fn stale_output_spec(kind: ObservedKind, peer_id: PeerId) -> MachineOutput {
    match kind {
        ObservedKind::Participation => MachineOutput::StaleParticipationIgnored { peer_id },
        ObservedKind::Ready => MachineOutput::StaleReadyIgnored { peer_id },
    }
}

pub open spec fn duplicate_output_spec(kind: ObservedKind, peer_id: PeerId) -> MachineOutput {
    match kind {
        ObservedKind::Participation => MachineOutput::DuplicateParticipationIgnored { peer_id },
        ObservedKind::Ready => MachineOutput::DuplicateReadyIgnored { peer_id },
    }
}

pub open spec fn accepted_output_spec(kind: ObservedKind, peer_id: PeerId, timely: bool) -> MachineOutput {
    match (kind, timely) {
        (ObservedKind::Participation, true) => MachineOutput::ParticipationAccepted { peer_id },
        (ObservedKind::Participation, false) => MachineOutput::DelayedParticipationAccepted { peer_id },
        (ObservedKind::Ready, true) => MachineOutput::ReadyAccepted { peer_id },
        (ObservedKind::Ready, false) => MachineOutput::DelayedReadyAccepted { peer_id },
    }
}

fn non_member_output(kind: ObservedKind, peer_id: PeerId) -> (r: MachineOutput)
    ensures
        r == non_member_output_spec(peer_id),
{
    match kind {
        ObservedKind::Participation => MachineOutput::NonMemberIgnored { peer_id },
        ObservedKind::Ready => MachineOutput::NonMemberIgnored { peer_id },
    }
}

fn stale_output(kind: ObservedKind, peer_id: PeerId) -> (r: MachineOutput)
    ensures
        r == stale_output_spec(kind, peer_id),
{
    match kind {
        ObservedKind::Participation => MachineOutput::StaleParticipationIgnored { peer_id },
        ObservedKind::Ready => MachineOutput::StaleReadyIgnored { peer_id },
    }
}

fn duplicate_output(kind: ObservedKind, peer_id: PeerId) -> (r: MachineOutput)
    ensures
        r == duplicate_output_spec(kind, peer_id),
{
    match kind {
        ObservedKind::Participation => MachineOutput::DuplicateParticipationIgnored { peer_id },
        ObservedKind::Ready => MachineOutput::DuplicateReadyIgnored { peer_id },
    }
}

fn accepted_output(kind: ObservedKind, peer_id: PeerId, timely: bool) -> (r: MachineOutput)
    ensures
        r == accepted_output_spec(kind, peer_id, timely),
{
    match (kind, timely) {
        (ObservedKind::Participation, true) => MachineOutput::ParticipationAccepted { peer_id },
        (ObservedKind::Participation, false) => MachineOutput::DelayedParticipationAccepted { peer_id },
        (ObservedKind::Ready, true) => MachineOutput::ReadyAccepted { peer_id },
        (ObservedKind::Ready, false) => MachineOutput::DelayedReadyAccepted { peer_id },
    }
}

/// The single output of an observation.
pub fn observed_output(
    kind: ObservedKind,
    peer_id: PeerId,
    index: Option<usize>,
    classification: Option<FreshnessClassification>,
    is_dup: bool,
) -> (r: Vec<MachineOutput>)
    ensures
        r@ == seq![observed_output_spec(kind, peer_id, index, classification, is_dup)],
{
    if index.is_none() {
        vec![non_member_output(kind, peer_id)]
    } else if let Some(FreshnessClassification::Stale) = classification {
        vec![stale_output(kind, peer_id)]
    } else if is_dup {
        vec![duplicate_output(kind, peer_id)]
    } else {
        let timely = match classification {
            Some(FreshnessClassification::Timely) => true,
            _ => false,
        };
        vec![accepted_output(kind, peer_id, timely)]
    }
}

} // verus!
