use vstd::prelude::*;

use crate::conclusion::Conclusion;
use crate::freshness_classification::FreshnessClassification;
use crate::outcome::Outcome;
use crate::states::compute_output::{observed_outcome, ObservedKind, ObservedOutput};
use crate::types::{push_peer, with_peer, PeerId};

verus! {

/// A classified observation applied to the confirmations so far.
pub struct ObservedStep {
    outcomes: Vec<Outcome>,
    confirmed_peers: Vec<PeerId>,
    is_quorum: bool,
}

/// Whether an observation confirms `peer_id` anew: it is neither a duplicate nor stale.
pub open spec fn confirms_new(
    confirmed: Seq<PeerId>,
    peer_id: PeerId,
    classification: FreshnessClassification,
) -> bool {
    !confirmed.contains(peer_id) && classification != FreshnessClassification::Stale
}

impl ObservedStep {
    pub closed spec fn outcomes_spec(&self) -> Seq<Outcome> {
        self.outcomes@
    }

    pub closed spec fn confirmed_spec(&self) -> Seq<PeerId> {
        self.confirmed_peers@
    }

    pub closed spec fn quorum_spec(&self) -> bool {
        self.is_quorum
    }

    pub fn new(
        classification: FreshnessClassification,
        confirmed_peers: Vec<PeerId>,
        peer_id: PeerId,
        kind: ObservedKind,
        quorum_threshold: Option<usize>,
    ) -> (r: Self)
        ensures
            r.confirmed_spec() == (if confirms_new(confirmed_peers@, peer_id, classification) {
                confirmed_peers@.push(peer_id)
            } else {
                confirmed_peers@
            }),
            r.quorum_spec() == (match quorum_threshold {
                Some(t) => confirms_new(confirmed_peers@, peer_id, classification) && confirmed_peers@.len() + 1 >= t,
                None => false,
            }),
            r.outcomes_spec() == (if r.quorum_spec() {
                seq![
                    observed_outcome(kind, peer_id, classification, confirmed_peers@.contains(peer_id)),
                    Outcome::Concluded { mode: Conclusion::Bootstrapped },
                ]
            } else {
                seq![observed_outcome(kind, peer_id, classification, confirmed_peers@.contains(peer_id))]
            }),
    {
        let (with_new, is_dup) = push_peer(&confirmed_peers, peer_id);
        let is_stale = match classification {
            FreshnessClassification::Stale => true,
            _ => false,
        };
        let confirmed_new = !is_dup && !is_stale;
        let new_confirmed_peers = if confirmed_new {
            with_new
        } else {
            confirmed_peers
        };
        let is_quorum = match quorum_threshold {
            Some(t) => confirmed_new && new_confirmed_peers.len() >= t,
            None => false,
        };
        let mut outcomes = vec![ObservedOutput::new(kind, peer_id, classification, is_dup).into_outcome()];
        if is_quorum {
            outcomes.push(Outcome::Concluded { mode: Conclusion::Bootstrapped });
        }
        ObservedStep { outcomes, confirmed_peers: new_confirmed_peers, is_quorum }
    }

    /// The local node's own readiness added to the confirmations.
    pub fn new_local(confirmed_peers: Vec<PeerId>, peer_id: PeerId, quorum_threshold: usize) -> (r: Self)
        ensures
            r.confirmed_spec() == with_peer(confirmed_peers@, peer_id),
            r.quorum_spec() == (with_peer(confirmed_peers@, peer_id).len() >= quorum_threshold),
            r.outcomes_spec() == (if r.quorum_spec() {
                seq![
                    Outcome::LocalParticipationCompleted,
                    Outcome::BroadcastLocalReady,
                    Outcome::Concluded { mode: Conclusion::Bootstrapped },
                ]
            } else {
                seq![Outcome::LocalParticipationCompleted, Outcome::BroadcastLocalReady]
            }),
    {
        let (new_confirmed_peers, _) = push_peer(&confirmed_peers, peer_id);
        let is_quorum = new_confirmed_peers.len() >= quorum_threshold;
        let mut outcomes = vec![Outcome::LocalParticipationCompleted, Outcome::BroadcastLocalReady];
        if is_quorum {
            outcomes.push(Outcome::Concluded { mode: Conclusion::Bootstrapped });
        }
        ObservedStep { outcomes, confirmed_peers: new_confirmed_peers, is_quorum }
    }

    pub fn confirmed_peers(&self) -> (r: &[PeerId])
        ensures
            r@ == self.confirmed_spec(),
    {
        self.confirmed_peers.as_slice()
    }

    pub fn is_quorum(&self) -> (r: bool)
        ensures
            r == self.quorum_spec(),
    {
        self.is_quorum
    }

    pub fn outcomes(&self) -> (r: &[Outcome])
        ensures
            r@ == self.outcomes_spec(),
    {
        self.outcomes.as_slice()
    }
}

} // verus!
