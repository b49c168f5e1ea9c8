use vstd::prelude::*;

use crate::types::{contains_peer, push_peer, with_peer, PeerId};

verus! {

/// The peers that belong to the cluster, in the order they were admitted.
#[derive(Debug, PartialEq, Eq)]
pub struct Members {
    peers: Vec<PeerId>,
}

impl View for Members {
    type V = Seq<PeerId>;

    closed spec fn view(&self) -> Seq<PeerId> {
        self.peers@
    }
}

impl Clone for Members {
    fn clone(&self) -> (r: Self)
        ensures
            r@ == self@,
    {
        let peers = self.peers.clone();
        assert(peers@ =~= self.peers@);
        Members { peers }
    }
}

impl Members {
    pub fn new(peers: Vec<PeerId>) -> (r: Self)
        ensures
            r@ == peers@,
    {
        Members { peers }
    }

    pub fn is_member(&self, peer_id: PeerId) -> (r: bool)
        ensures
            r == self@.contains(peer_id),
    {
        contains_peer(&self.peers, peer_id)
    }

    /// The membership with `peer_id` admitted; an existing member leaves it unchanged.
    pub fn with_admitted(&self, peer_id: PeerId) -> (r: Self)
        ensures
            r@ == with_peer(self@, peer_id),
    {
        let (peers, _) = push_peer(&self.peers, peer_id);
        Members { peers }
    }

    pub fn len(&self) -> (r: usize)
        ensures
            r == self@.len(),
    {
        self.peers.len()
    }

    pub fn is_empty(&self) -> (r: bool)
        ensures
            r == (self@.len() == 0),
    {
        self.peers.len() == 0
    }

    pub fn as_slice(&self) -> (r: &[PeerId])
        ensures
            r@ == self@,
    {
        self.peers.as_slice()
    }
}

} // verus!
