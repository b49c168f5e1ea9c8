use vstd::prelude::*;

use crate::freshness_classification::FreshnessClassification;
use crate::types::{contains_peer, copy_peers, push_peer, with_peer, PeerId};

verus! {

/// The peers confirmed so far, in the order they were confirmed.
#[derive(Debug, PartialEq, Eq)]
pub struct ConfirmedSet {
    confirmed: Vec<PeerId>,
}

impl View for ConfirmedSet {
    type V = Seq<PeerId>;

    closed spec fn view(&self) -> Seq<PeerId> {
        self.confirmed@
    }
}

impl Clone for ConfirmedSet {
    fn clone(&self) -> (r: Self)
        ensures
            r@ == self@,
    {
        ConfirmedSet { confirmed: copy_peers(&self.confirmed) }
    }
}

impl Default for ConfirmedSet {
    fn default() -> (r: Self)
        ensures
            r@ == Seq::<PeerId>::empty(),
    {
        ConfirmedSet { confirmed: Vec::new() }
    }
}

impl ConfirmedSet {
    pub fn new() -> (r: Self)
        ensures
            r@ == Seq::<PeerId>::empty(),
    {
        Self::default()
    }

    pub fn count(&self) -> (r: usize)
        ensures
            r == self@.len(),
    {
        self.confirmed.len()
    }

    pub fn is_confirmed(&self, peer_id: PeerId) -> (r: bool)
        ensures
            r == self@.contains(peer_id),
    {
        contains_peer(&self.confirmed, peer_id)
    }

    pub fn confirmed_peers(&self) -> (r: &[PeerId])
        ensures
            r@ == self@,
    {
        self.confirmed.as_slice()
    }

    /// The set with `peer_id` confirmed, and whether it was new.
    pub fn confirm(&self, peer_id: PeerId) -> (r: (Self, bool))
        ensures
            r.1 == !self@.contains(peer_id),
            r.0@ == with_peer(self@, peer_id),
    {
        let (confirmed, present) = push_peer(&self.confirmed, peer_id);
        (ConfirmedSet { confirmed }, !present)
    }

    /// Confirms `peer_id` unless the observation is stale; the flag tells whether it was new.
    pub fn try_confirm(&self, peer_id: PeerId, classification: FreshnessClassification) -> (r: (Self, bool))
        ensures
            r.1 == (classification != FreshnessClassification::Stale && !self@.contains(peer_id)),
            r.0@ == (if r.1 {
                self@.push(peer_id)
            } else {
                self@
            }),
    {
        if let FreshnessClassification::Stale = classification {
            return (self.clone(), false);
        }
        let (confirmed, present) = push_peer(&self.confirmed, peer_id);
        (ConfirmedSet { confirmed }, !present)
    }
}

} // verus!
