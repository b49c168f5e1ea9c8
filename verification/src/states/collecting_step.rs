use vstd::prelude::*;

use crate::conclusion::Conclusion;
use crate::outcome::Outcome;
use crate::types::{push_peer, with_peer, PeerId};

verus! {

/// A ready signal applied to the ready confirmations collected so far.
pub struct CollectingStep {
    outcomes: Vec<Outcome>,
    confirmed_peers: Vec<PeerId>,
    is_quorum: bool,
}

/// Whether a ready signal from `peer_id` completes a quorum: it must be new, and the
/// confirmations with it must reach the threshold, where one is given.
pub open spec fn completes_quorum(
    confirmed: Seq<PeerId>,
    peer_id: PeerId,
    quorum_threshold: Option<usize>,
) -> bool {
    match quorum_threshold {
        Some(t) => !confirmed.contains(peer_id) && confirmed.len() + 1 >= t,
        None => false,
    }
}

impl CollectingStep {
    pub closed spec fn outcomes_spec(&self) -> Seq<Outcome> {
        self.outcomes@
    }

    pub closed spec fn confirmed_spec(&self) -> Seq<PeerId> {
        self.confirmed_peers@
    }

    pub closed spec fn quorum_spec(&self) -> bool {
        self.is_quorum
    }

    pub fn new(confirmed_peers: Vec<PeerId>, peer_id: PeerId, quorum_threshold: Option<usize>) -> (r: Self)
        ensures
            r.confirmed_spec() == with_peer(confirmed_peers@, peer_id),
            r.quorum_spec() == completes_quorum(confirmed_peers@, peer_id, quorum_threshold),
            r.outcomes_spec() == (if confirmed_peers@.contains(peer_id) {
                seq![Outcome::DuplicateReadyIgnored { peer_id }]
            } else if r.quorum_spec() {
                seq![
                    Outcome::ReadyAccepted { peer_id },
                    Outcome::Concluded { mode: Conclusion::Bootstrapped },
                ]
            } else {
                seq![Outcome::ReadyAccepted { peer_id }]
            }),
    {
        let (new_confirmed, is_dup) = push_peer(&confirmed_peers, peer_id);
        let is_quorum = match quorum_threshold {
            Some(t) => !is_dup && new_confirmed.len() >= t,
            None => false,
        };
        let outcome = if is_dup {
            Outcome::DuplicateReadyIgnored { peer_id }
        } else {
            Outcome::ReadyAccepted { peer_id }
        };
        let mut outcomes = vec![outcome];
        if is_quorum {
            outcomes.push(Outcome::Concluded { mode: Conclusion::Bootstrapped });
        }
        CollectingStep { outcomes, confirmed_peers: new_confirmed, is_quorum }
    }

    pub fn confirmed_peers(&self) -> (r: &[PeerId])
        ensures
            r@ == self.confirmed_spec(),
    {
        self.confirmed_peers.as_slice()
    }

    pub fn is_quorum(&self) -> (r: bool)
        ensures
            r == self.quorum_spec(),
    {
        self.is_quorum
    }

    pub fn outcomes(&self) -> (r: &[Outcome])
        ensures
            r@ == self.outcomes_spec(),
    {
        self.outcomes.as_slice()
    }
}

} // verus!
