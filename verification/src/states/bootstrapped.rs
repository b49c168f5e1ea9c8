use vstd::prelude::*;

use crate::cluster_view::ClusterView;
use crate::cluster_view_builder::ClusterViewBuilder;
use crate::command::Command;
use crate::config::Config;
use crate::members::Members;
use crate::outcome::Outcome;
use crate::peer_state::PeerState;
use crate::state::{FactionState, State, StateModel};
use crate::types::{copy_peers, PeerId};

verus! {

/// Terminal: a quorum of ready signals has been reached.
pub struct Bootstrapped {
    members: Members,
    pinged_peers: Vec<PeerId>,
    collected_peers: Vec<PeerId>,
}

impl Bootstrapped {
    pub fn new(members: Members, pinged_peers: Vec<PeerId>, collected_peers: Vec<PeerId>) -> (r: Self)
        ensures
            r@ == (StateModel::Bootstrapped {
                members: members@,
                pinged_peers: pinged_peers@,
                collected_peers: collected_peers@,
            }),
    {
        Bootstrapped { members, pinged_peers, collected_peers }
    }
}

impl Bootstrapped {
    /// The admitted members.
    pub closed spec fn members_spec(&self) -> Seq<PeerId> {
        self.members@
    }

    /// The peers whose participation was seen while pinging.
    pub closed spec fn pinged_peers_spec(&self) -> Seq<PeerId> {
        self.pinged_peers@
    }

    /// The peers whose ready signal completed the quorum.
    pub closed spec fn collected_peers_spec(&self) -> Seq<PeerId> {
        self.collected_peers@
    }
}

impl View for Bootstrapped {
    type V = StateModel;

    open spec fn view(&self) -> StateModel {
        StateModel::Bootstrapped {
            members: self.members_spec(),
            pinged_peers: self.pinged_peers_spec(),
            collected_peers: self.collected_peers_spec(),
        }
    }
}

impl State for Bootstrapped {
    fn step(&self, command: Command, config: &Config) -> (r: (Vec<Outcome>, FactionState)) {
        let stay = Bootstrapped::new(
            self.members.clone(),
            copy_peers(&self.pinged_peers),
            copy_peers(&self.collected_peers),
        );
        match command {
            Command::ParticipationObserved { peer_id } => {
                let outcome = if self.members.is_member(peer_id) {
                    Outcome::AcknowledgeRejoin { peer_id }
                } else {
                    Outcome::NonMemberIgnored { peer_id }
                };
                (vec![outcome], FactionState::Bootstrapped(stay))
            },
            _ => (Vec::new(), FactionState::Bootstrapped(stay)),
        }
    }

    fn accept(&self, command: &Command) -> (r: bool) {
        match command {
            Command::ParticipationObserved { .. } => true,
            _ => false,
        }
    }

    fn cluster_view(&self, previous: &ClusterView) -> (r: ClusterView) {
        ClusterViewBuilder::from_view(previous)
            .with_peer_state(PeerState::Bootstrapped)
            .with_is_pinging_completed(true)
            .with_pinging_peers(copy_peers(&self.pinged_peers))
            .with_collecting_peers(copy_peers(&self.collected_peers))
            .with_members(self.members.clone())
            .build()
    }

    fn admissible_commands(&self) -> (r: Vec<Command>) {
        vec![Command::ParticipationObserved { peer_id: 0 }, Command::Probe]
    }
}

} // verus!
