use vstd::prelude::*;

use crate::freshness_policy::FreshnessPolicy;
use crate::types::{contains_peer, copy_peers, PeerId};

verus! {

/// What the readiness machine knows of its node and cluster.
pub struct ClusterReadinessConfig {
    local_peer_id: PeerId,
    peers: Vec<PeerId>,
    quorum_threshold: usize,
    freshness_policy: FreshnessPolicy,
}

/// The values a [`ClusterReadinessConfig`] holds.
pub struct ReadinessConfigModel {
    pub local_peer_id: PeerId,
    pub peers: Seq<PeerId>,
    pub quorum_threshold: usize,
    pub max_delay: u64,
}

/// Whether `i` is the first position of `peer_id` in `peers`.
pub open spec fn is_first_index(peers: Seq<PeerId>, peer_id: PeerId, i: int) -> bool {
    &&& 0 <= i < peers.len()
    &&& peers[i] == peer_id
    &&& forall|j: int| 0 <= j < i ==> peers[j] != peer_id
}

/// The first position of `peer_id` in `peers`, if it is there.
pub open spec fn first_index(peers: Seq<PeerId>, peer_id: PeerId) -> Option<usize> {
    if peers.contains(peer_id) {
        Some((choose|i: int| is_first_index(peers, peer_id, i)) as usize)
    } else {
        None
    }
}

proof fn lemma_first_index_from(peers: Seq<PeerId>, peer_id: PeerId, i: int, k: int)
    requires
        0 <= i <= k < peers.len(),
        peers[k] == peer_id,
        forall|j: int| 0 <= j < i ==> peers[j] != peer_id,
    ensures
        exists|f: int| is_first_index(peers, peer_id, f),
    decreases k - i,
{
    if peers[i] == peer_id {
        assert(is_first_index(peers, peer_id, i));
    } else {
        lemma_first_index_from(peers, peer_id, i + 1, k);
    }
}

/// A peer that is present has exactly one first position.
pub proof fn lemma_first_index(peers: Seq<PeerId>, peer_id: PeerId)
    requires
        peers.contains(peer_id),
    ensures
        exists|i: int| is_first_index(peers, peer_id, i),
        forall|i: int, j: int| is_first_index(peers, peer_id, i) && is_first_index(peers, peer_id, j) ==> i == j,
{
    let k = peers.index_of(peer_id);
    lemma_first_index_from(peers, peer_id, 0, k);
}

impl View for ClusterReadinessConfig {
    type V = ReadinessConfigModel;

    closed spec fn view(&self) -> ReadinessConfigModel {
        ReadinessConfigModel {
            local_peer_id: self.local_peer_id,
            peers: self.peers@,
            quorum_threshold: self.quorum_threshold,
            max_delay: self.freshness_policy.max_delay_spec(),
        }
    }
}

impl ClusterReadinessConfig {
    pub fn new(
        local_peer_id: PeerId,
        peers: Vec<PeerId>,
        quorum_threshold: usize,
        freshness_policy: FreshnessPolicy,
    ) -> (r: Self)
        ensures
            r@.local_peer_id == local_peer_id,
            r@.peers == peers@,
            r@.quorum_threshold == quorum_threshold,
            r@.max_delay == freshness_policy.max_delay_spec(),
    {
        ClusterReadinessConfig { local_peer_id, peers, quorum_threshold, freshness_policy }
    }

    pub fn local_peer_id(&self) -> (r: PeerId)
        ensures
            r == self@.local_peer_id,
    {
        self.local_peer_id
    }

    pub fn peers(&self) -> (r: &[PeerId])
        ensures
            r@ == self@.peers,
    {
        self.peers.as_slice()
    }

    pub fn peer_count(&self) -> (r: usize)
        ensures
            r == self@.peers.len(),
    {
        self.peers.len()
    }

    pub fn quorum_threshold(&self) -> (r: usize)
        ensures
            r == self@.quorum_threshold,
    {
        self.quorum_threshold
    }

    pub fn freshness_policy(&self) -> (r: FreshnessPolicy)
        ensures
            r.max_delay_spec() == self@.max_delay,
    {
        self.freshness_policy
    }

    pub fn is_member(&self, peer_id: PeerId) -> (r: bool)
        ensures
            r == self@.peers.contains(peer_id),
    {
        contains_peer(&self.peers, peer_id)
    }

    /// The first position of `peer_id` among the peers.
    pub fn peer_index(&self, peer_id: PeerId) -> (r: Option<usize>)
        ensures
            r == first_index(self@.peers, peer_id),
    {
        let mut i: usize = 0;
        while i < self.peers.len()
            invariant
                i <= self@.peers.len(),
                forall|j: int| 0 <= j < i ==> self@.peers[j] != peer_id,
            decreases self@.peers.len() - i,
        {
            if self.peers[i] == peer_id {
                proof {
                    lemma_first_index(self@.peers, peer_id);
                    assert(is_first_index(self@.peers, peer_id, i as int));
                }
                return Some(i);
            }
            i = i + 1;
        }
        None
    }
}

impl Clone for ClusterReadinessConfig {
    fn clone(&self) -> (r: Self)
        ensures
            r@ == self@,
    {
        ClusterReadinessConfig {
            local_peer_id: self.local_peer_id,
            peers: copy_peers(&self.peers),
            quorum_threshold: self.quorum_threshold,
            freshness_policy: self.freshness_policy,
        }
    }
}

} // verus!
