use vstd::prelude::*;

use crate::conclusion::Conclusion;
use crate::outcome::Outcome;
use crate::types::{push_peer, with_peer, PeerId};

verus! {

/// The local node's own readiness added to the ready confirmations.
pub struct LocalCompletionStep {
    outcomes: Vec<Outcome>,
    confirmed_peers: Vec<PeerId>,
    is_quorum: bool,
}

impl LocalCompletionStep {
    pub closed spec fn outcomes_spec(&self) -> Seq<Outcome> {
        self.outcomes@
    }

    pub closed spec fn confirmed_spec(&self) -> Seq<PeerId> {
        self.confirmed_peers@
    }

    pub closed spec fn quorum_spec(&self) -> bool {
        self.is_quorum
    }

    pub fn new(confirmed_peers: Vec<PeerId>, peer_id: PeerId, quorum_threshold: usize) -> (r: Self)
        ensures
            r.confirmed_spec() == with_peer(confirmed_peers@, peer_id),
            r.quorum_spec() == (with_peer(confirmed_peers@, peer_id).len() >= quorum_threshold),
            r.outcomes_spec() == (if r.quorum_spec() {
                seq![
                    Outcome::LocalParticipationCompleted,
                    Outcome::BroadcastLocalReady,
                    Outcome::Concluded { mode: Conclusion::Bootstrapped },
                ]
            } else {
                seq![Outcome::LocalParticipationCompleted, Outcome::BroadcastLocalReady]
            }),
    {
        let (new_confirmed, _) = push_peer(&confirmed_peers, peer_id);
        let is_quorum = new_confirmed.len() >= quorum_threshold;
        let mut outcomes = vec![Outcome::LocalParticipationCompleted, Outcome::BroadcastLocalReady];
        if is_quorum {
            outcomes.push(Outcome::Concluded { mode: Conclusion::Bootstrapped });
        }
        LocalCompletionStep { outcomes, confirmed_peers: new_confirmed, is_quorum }
    }

    pub fn confirmed_peers(&self) -> (r: &[PeerId])
        ensures
            r@ == self.confirmed_spec(),
    {
        self.confirmed_peers.as_slice()
    }

    pub fn is_quorum(&self) -> (r: bool)
        ensures
            r == self.quorum_spec(),
    {
        self.is_quorum
    }

    pub fn outcomes(&self) -> (r: &[Outcome])
        ensures
            r@ == self.outcomes_spec(),
    {
        self.outcomes.as_slice()
    }
}

} // verus!
