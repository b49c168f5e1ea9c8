use vstd::prelude::*;

use crate::cluster_view::ClusterView;
use crate::cluster_view_builder::ClusterViewBuilder;
use crate::command::Command;
use crate::config::Config;
use crate::outcome::Outcome;
use crate::peer_state::PeerState;
use crate::state::{FactionState, State, StateModel};
use crate::types::{copy_peers, PeerId};

verus! {

/// A node that only answers probes, reporting `TimedOut`.
pub struct TimedOut {
    pub pinging_peers: Vec<PeerId>,
    pub collecting_peers: Vec<PeerId>,
}

impl TimedOut {
    pub fn new() -> (r: Self)
        ensures
            r@ == (StateModel::TimedOut { pinging_peers: Seq::empty(), collecting_peers: Seq::empty() }),
    {
        TimedOut { pinging_peers: Vec::new(), collecting_peers: Vec::new() }
    }
}

impl View for TimedOut {
    type V = StateModel;

    open spec fn view(&self) -> StateModel {
        StateModel::TimedOut { pinging_peers: self.pinging_peers@, collecting_peers: self.collecting_peers@ }
    }
}

impl State for TimedOut {
    fn step(&self, command: Command, config: &Config) -> (r: (Vec<Outcome>, FactionState)) {
        let stay = TimedOut {
            pinging_peers: copy_peers(&self.pinging_peers),
            collecting_peers: copy_peers(&self.collecting_peers),
        };
        (Vec::new(), FactionState::TimedOut(stay))
    }

    fn cluster_view(&self, previous: &ClusterView) -> (r: ClusterView) {
        ClusterViewBuilder::from_view(previous)
            .with_peer_state(PeerState::TimedOut)
            .with_pinging_peers(copy_peers(&self.pinging_peers))
            .with_collecting_peers(copy_peers(&self.collecting_peers))
            .build()
    }

    fn accept(&self, command: &Command) -> (r: bool) {
        false
    }

    fn admissible_commands(&self) -> (r: Vec<Command>) {
        vec![Command::Probe]
    }
}

} // verus!
