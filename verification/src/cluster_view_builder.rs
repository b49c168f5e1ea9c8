use vstd::prelude::*;

use crate::cluster_view::{ClusterView, ClusterViewModel};
use crate::members::Members;
use crate::peer_state::PeerState;
use crate::types::PeerId;

verus! {

/// Assembles a [`ClusterView`] field by field.
pub struct ClusterViewBuilder {
    peer_state: PeerState,
    is_pinging_completed: bool,
    pinging_peers: Vec<PeerId>,
    collecting_peers: Vec<PeerId>,
    required_count: usize,
    deadline_missed: bool,
    members: Members,
}

/// The view that a builder holding `b` builds: a missed deadline shows as `TimedOut`
/// unless the node has bootstrapped.
pub open spec fn built(b: ClusterViewModel) -> ClusterViewModel {
    ClusterViewModel {
        peer_state: if b.deadline_missed && b.peer_state != PeerState::Bootstrapped {
            PeerState::TimedOut
        } else {
            b.peer_state
        },
        ..b
    }
}

/// The values of a fresh builder.
pub open spec fn empty_builder() -> ClusterViewModel {
    ClusterViewModel {
        peer_state: PeerState::Fresh,
        is_pinging_completed: false,
        pinging_peers: Seq::empty(),
        collecting_peers: Seq::empty(),
        required_count: 0,
        deadline_missed: false,
        members: Seq::empty(),
    }
}

impl View for ClusterViewBuilder {
    type V = ClusterViewModel;

    closed spec fn view(&self) -> ClusterViewModel {
        ClusterViewModel {
            peer_state: self.peer_state,
            is_pinging_completed: self.is_pinging_completed,
            pinging_peers: self.pinging_peers@,
            collecting_peers: self.collecting_peers@,
            required_count: self.required_count,
            deadline_missed: self.deadline_missed,
            members: self.members@,
        }
    }
}

impl ClusterViewBuilder {
    pub fn new() -> (r: Self)
        ensures
            r@ == empty_builder(),
    {
        let r = ClusterViewBuilder {
            peer_state: PeerState::Fresh,
            is_pinging_completed: false,
            pinging_peers: Vec::new(),
            collecting_peers: Vec::new(),
            required_count: 0,
            deadline_missed: false,
            members: Members::new(Vec::new()),
        };
        assert(r@ =~= empty_builder());
        r
    }

    pub fn from_view(view: &ClusterView) -> (r: Self)
        ensures
            r@ == view@,
    {
        let v = view.clone();
        ClusterViewBuilder {
            peer_state: v.peer_state,
            is_pinging_completed: v.is_pinging_completed,
            pinging_peers: v.pinging_peers,
            collecting_peers: v.collecting_peers,
            required_count: v.required_count,
            deadline_missed: v.deadline_missed,
            members: v.members,
        }
    }

    pub fn with_peer_state(self, peer_state: PeerState) -> (r: Self)
        ensures
            r@ == (ClusterViewModel { peer_state, ..self@ }),
    {
        ClusterViewBuilder { peer_state, ..self }
    }

    pub fn with_is_pinging_completed(self, value: bool) -> (r: Self)
        ensures
            r@ == (ClusterViewModel { is_pinging_completed: value, ..self@ }),
    {
        ClusterViewBuilder { is_pinging_completed: value, ..self }
    }

    pub fn with_pinging_peers(self, peers: Vec<PeerId>) -> (r: Self)
        ensures
            r@ == (ClusterViewModel { pinging_peers: peers@, ..self@ }),
    {
        ClusterViewBuilder { pinging_peers: peers, ..self }
    }

    pub fn with_collecting_peers(self, peers: Vec<PeerId>) -> (r: Self)
        ensures
            r@ == (ClusterViewModel { collecting_peers: peers@, ..self@ }),
    {
        ClusterViewBuilder { collecting_peers: peers, ..self }
    }

    pub fn with_required_count(self, required_count: usize) -> (r: Self)
        ensures
            r@ == (ClusterViewModel { required_count, ..self@ }),
    {
        ClusterViewBuilder { required_count, ..self }
    }

    pub fn with_deadline_missed(self, value: bool) -> (r: Self)
        ensures
            r@ == (ClusterViewModel { deadline_missed: value, ..self@ }),
    {
        ClusterViewBuilder { deadline_missed: value, ..self }
    }

    pub fn with_members(self, members: Members) -> (r: Self)
        ensures
            r@ == (ClusterViewModel { members: members@, ..self@ }),
    {
        ClusterViewBuilder { members, ..self }
    }

    pub fn build(self) -> (r: ClusterView)
        ensures
            r@ == built(self@),
    {
        let bootstrapped = match self.peer_state {
            PeerState::Bootstrapped => true,
            _ => false,
        };
        let peer_state = if self.deadline_missed && !bootstrapped {
            PeerState::TimedOut
        } else {
            self.peer_state
        };
        ClusterView {
            peer_state,
            is_pinging_completed: self.is_pinging_completed,
            pinging_peers: self.pinging_peers,
            collecting_peers: self.collecting_peers,
            required_count: self.required_count,
            deadline_missed: self.deadline_missed,
            members: self.members,
        }
    }
}

impl Default for ClusterViewBuilder {
    fn default() -> (r: Self)
        ensures
            r@ == empty_builder(),
    {
        Self::new()
    }
}

} // verus!
