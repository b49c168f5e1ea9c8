use vstd::prelude::*;

use crate::quorum_policy::QuorumPolicy;
use crate::types::{contains_peer, PeerId};

verus! {

/// What a node knows of itself and its cluster before it starts.
pub struct Config {
    peer_id: PeerId,
    peers: Vec<PeerId>,
    quorum_policy: QuorumPolicy,
}

/// The values a [`Config`] holds.
pub struct ConfigModel {
    pub peer_id: PeerId,
    pub peers: Seq<PeerId>,
    pub required_count: usize,
}

impl View for Config {
    type V = ConfigModel;

    closed spec fn view(&self) -> ConfigModel {
        ConfigModel {
            peer_id: self.peer_id,
            peers: self.peers@,
            required_count: self.quorum_policy.threshold_spec(),
        }
    }
}

impl Config {
    pub fn new(peer_id: PeerId, peers: Vec<PeerId>, quorum_policy: QuorumPolicy) -> (r: Self)
        ensures
            r@.peer_id == peer_id,
            r@.peers == peers@,
            r@.required_count == quorum_policy.threshold_spec(),
    {
        Config { peer_id, peers, quorum_policy }
    }

    pub fn peer_id(&self) -> (r: PeerId)
        ensures
            r == self@.peer_id,
    {
        self.peer_id
    }

    pub fn peers(&self) -> (r: &[PeerId])
        ensures
            r@ == self@.peers,
    {
        self.peers.as_slice()
    }

    pub fn peer_count(&self) -> (r: usize)
        ensures
            r == self@.peers.len(),
    {
        self.peers.len()
    }

    pub fn required_count(&self) -> (r: usize)
        ensures
            r == self@.required_count,
    {
        self.quorum_policy.threshold()
    }

    pub fn quorum_policy(&self) -> (r: QuorumPolicy)
        ensures
            r.threshold_spec() == self@.required_count,
    {
        self.quorum_policy
    }

    pub fn is_member(&self, peer_id: PeerId) -> (r: bool)
        ensures
            r == self@.peers.contains(peer_id),
    {
        contains_peer(&self.peers, peer_id)
    }
}

} // verus!
