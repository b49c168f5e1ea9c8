use vstd::prelude::*;

use crate::conclusion::Conclusion;
use crate::members::Members;
use crate::peer_state::PeerState;
use crate::types::PeerId;

verus! {

/// What a node reports of its progress towards bootstrapping.
#[derive(Debug, PartialEq, Eq)]
pub struct ClusterView {
    pub peer_state: PeerState,
    pub is_pinging_completed: bool,
    pub pinging_peers: Vec<PeerId>,
    pub collecting_peers: Vec<PeerId>,
    pub required_count: usize,
    pub deadline_missed: bool,
    pub members: Members,
}

/// The values a [`ClusterView`] holds.
#[verifier::ext_equal]
pub struct ClusterViewModel {
    pub peer_state: PeerState,
    pub is_pinging_completed: bool,
    pub pinging_peers: Seq<PeerId>,
    pub collecting_peers: Seq<PeerId>,
    pub required_count: usize,
    pub deadline_missed: bool,
    pub members: Seq<PeerId>,
}

impl ClusterViewModel {
    /// Whether the node has reached its terminal state.
    pub open spec fn is_concluded(self) -> bool {
        self.peer_state == PeerState::Bootstrapped
    }

    pub open spec fn conclusion(self) -> Option<Conclusion> {
        if self.peer_state == PeerState::Bootstrapped {
            Some(Conclusion::Bootstrapped)
        } else {
            None
        }
    }
}

impl View for ClusterView {
    type V = ClusterViewModel;

    open spec fn view(&self) -> ClusterViewModel {
        ClusterViewModel {
            peer_state: self.peer_state,
            is_pinging_completed: self.is_pinging_completed,
            pinging_peers: self.pinging_peers@,
            collecting_peers: self.collecting_peers@,
            required_count: self.required_count,
            deadline_missed: self.deadline_missed,
            members: self.members@,
        }
    }
}

impl Clone for ClusterView {
    fn clone(&self) -> (r: Self)
        ensures
            r@ == self@,
    {
        let pinging_peers = self.pinging_peers.clone();
        let collecting_peers = self.collecting_peers.clone();
        assert(pinging_peers@ =~= self.pinging_peers@);
        assert(collecting_peers@ =~= self.collecting_peers@);
        ClusterView {
            peer_state: self.peer_state,
            is_pinging_completed: self.is_pinging_completed,
            pinging_peers,
            collecting_peers,
            required_count: self.required_count,
            deadline_missed: self.deadline_missed,
            members: self.members.clone(),
        }
    }
}

impl ClusterView {
    pub fn peer_state(&self) -> (r: PeerState)
        ensures
            r == self@.peer_state,
    {
        self.peer_state
    }

    pub fn conclusion(&self) -> (r: Option<Conclusion>)
        ensures
            r == self@.conclusion(),
    {
        match self.peer_state {
            PeerState::Bootstrapped => Some(Conclusion::Bootstrapped),
            _ => None,
        }
    }

    pub fn is_pinging_completed(&self) -> (r: bool)
        ensures
            r == self@.is_pinging_completed,
    {
        self.is_pinging_completed
    }

    pub fn is_concluded(&self) -> (r: bool)
        ensures
            r == self@.is_concluded(),
    {
        match self.peer_state {
            PeerState::Bootstrapped => true,
            _ => false,
        }
    }

    pub fn deadline_missed(&self) -> (r: bool)
        ensures
            r == self@.deadline_missed,
    {
        self.deadline_missed
    }

    pub fn pinging_peers(&self) -> (r: &[PeerId])
        ensures
            r@ == self@.pinging_peers,
    {
        self.pinging_peers.as_slice()
    }

    pub fn collecting_peers(&self) -> (r: &[PeerId])
        ensures
            r@ == self@.collecting_peers,
    {
        self.collecting_peers.as_slice()
    }

    pub fn required_count(&self) -> (r: usize)
        ensures
            r == self@.required_count,
    {
        self.required_count
    }

    pub fn members(&self) -> (r: &Members)
        ensures
            r@ == self@.members,
    {
        &self.members
    }
}

} // verus!
