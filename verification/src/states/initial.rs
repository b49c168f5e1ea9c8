use vstd::prelude::*;

use crate::cluster_view::ClusterView;
use crate::cluster_view_builder::ClusterViewBuilder;
use crate::command::Command;
use crate::config::Config;
use crate::members::Members;
use crate::types::PeerId;
use crate::outcome::Outcome;
use crate::peer_state::PeerState;
use crate::state::{FactionState, State, StateModel};
use crate::states::join_step::JoinStep;
use crate::states::pinging::Pinging;

verus! {

/// No signal processed yet.
pub struct Initial {
    members: Members,
}

impl Initial {
    pub fn new(members: Members) -> (r: Self)
        ensures
            r@ == (StateModel::Initial { members: members@ }),
    {
        Initial { members }
    }
}

impl Initial {
    /// The admitted members.
    pub closed spec fn members_spec(&self) -> Seq<PeerId> {
        self.members@
    }
}

impl View for Initial {
    type V = StateModel;

    open spec fn view(&self) -> StateModel {
        StateModel::Initial { members: self.members_spec() }
    }
}

impl State for Initial {
    fn cluster_view(&self, previous: &ClusterView) -> (r: ClusterView) {
        ClusterViewBuilder::from_view(previous)
            .with_peer_state(PeerState::Fresh)
            .with_is_pinging_completed(false)
            .with_pinging_peers(Vec::new())
            .with_collecting_peers(Vec::new())
            .with_members(self.members.clone())
            .build()
    }

    fn step(&self, command: Command, config: &Config) -> (r: (Vec<Outcome>, FactionState)) {
        match command {
            Command::JoinRequested { .. } | Command::JoinApproved { .. } | Command::JoinRejected { .. } => {
                let join = JoinStep::new(self.members.clone(), &command);
                (
                    vstd::slice::slice_to_vec(join.outcomes()),
                    FactionState::Initial(Initial::new(join.members().clone())),
                )
            },
            _ => {
                let pinging = Pinging::new(self.members.clone());
                pinging.step(command, config)
            },
        }
    }

    fn accept(&self, command: &Command) -> (r: bool) {
        match command {
            Command::ParticipationObserved { .. } | Command::ReadyObserved { .. }
            | Command::LocalParticipationCompleted | Command::JoinRequested { .. }
            | Command::JoinApproved { .. } | Command::JoinRejected { .. } => true,
            _ => false,
        }
    }

    fn admissible_commands(&self) -> (r: Vec<Command>) {
        vec![
            Command::ParticipationObserved { peer_id: 0 },
            Command::ReadyObserved { peer_id: 0 },
            Command::LocalParticipationCompleted,
            Command::JoinRequested { peer_id: 0 },
            Command::JoinApproved { peer_id: 0 },
            Command::JoinRejected { peer_id: 0 },
            Command::Probe,
        ]
    }
}

} // verus!
