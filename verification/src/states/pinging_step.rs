use vstd::prelude::*;

use crate::outcome::Outcome;
use crate::types::{push_peer, with_peer, PeerId};

verus! {

/// A participation signal applied to the peers already seen pinging.
pub struct PingingStep {
    outcomes: Vec<Outcome>,
    confirmed_peers: Vec<PeerId>,
}

/// The outcome of a participation signal from `peer_id` given the peers seen so far.
pub open spec fn pinging_step_outcome(confirmed: Seq<PeerId>, peer_id: PeerId) -> Outcome {
    if confirmed.contains(peer_id) {
        Outcome::DuplicateParticipationIgnored { peer_id }
    } else {
        Outcome::ParticipationAccepted { peer_id }
    }
}

impl PingingStep {
    pub closed spec fn outcomes_spec(&self) -> Seq<Outcome> {
        self.outcomes@
    }

    pub closed spec fn confirmed_spec(&self) -> Seq<PeerId> {
        self.confirmed_peers@
    }

    pub fn new(confirmed_peers: Vec<PeerId>, peer_id: PeerId) -> (r: Self)
        ensures
            r.confirmed_spec() == with_peer(confirmed_peers@, peer_id),
            r.outcomes_spec() == seq![pinging_step_outcome(confirmed_peers@, peer_id)],
    {
        let (new_confirmed, is_dup) = push_peer(&confirmed_peers, peer_id);
        let outcome = if is_dup {
            Outcome::DuplicateParticipationIgnored { peer_id }
        } else {
            Outcome::ParticipationAccepted { peer_id }
        };
        PingingStep { outcomes: vec![outcome], confirmed_peers: new_confirmed }
    }

    pub fn confirmed_peers(&self) -> (r: &[PeerId])
        ensures
            r@ == self.confirmed_spec(),
    {
        self.confirmed_peers.as_slice()
    }

    pub fn outcomes(&self) -> (r: &[Outcome])
        ensures
            r@ == self.outcomes_spec(),
    {
        self.outcomes.as_slice()
    }
}

} // verus!
