use vstd::prelude::*;

use crate::cluster_view::ClusterView;
use crate::cluster_view_builder::ClusterViewBuilder;
use crate::command::Command;
use crate::config::Config;
use crate::members::Members;
use crate::outcome::Outcome;
use crate::peer_state::PeerState;
use crate::state::{FactionState, State, StateModel};
use crate::states::bootstrapped::Bootstrapped;
use crate::states::collecting_step::CollectingStep;
use crate::states::join_step::JoinStep;
use crate::types::{copy_peers, PeerId};

verus! {

/// Local participation is complete; the node collects ready signals until a quorum.
pub struct Collecting {
    members: Members,
    collecting_peers: Vec<PeerId>,
    pinged_peers: Vec<PeerId>,
    deadline_missed: bool,
}

impl Collecting {
    pub fn new(
        members: Members,
        collecting_peers: Vec<PeerId>,
        pinged_peers: Vec<PeerId>,
        deadline_missed: bool,
    ) -> (r: Self)
        ensures
            r@ == (StateModel::Collecting {
                members: members@,
                collecting_peers: collecting_peers@,
                pinged_peers: pinged_peers@,
                deadline_missed,
            }),
    {
        Collecting { members, collecting_peers, pinged_peers, deadline_missed }
    }

    fn compute_new_state(&self, is_quorum: bool, confirmed_peers: Vec<PeerId>) -> (r: FactionState)
        ensures
            r@ == (if is_quorum {
                StateModel::Bootstrapped {
                    members: self.members@,
                    pinged_peers: self.pinged_peers@,
                    collected_peers: confirmed_peers@,
                }
            } else {
                StateModel::Collecting {
                    members: self.members@,
                    collecting_peers: confirmed_peers@,
                    pinged_peers: self.pinged_peers@,
                    deadline_missed: self.deadline_missed,
                }
            }),
    {
        if is_quorum {
            FactionState::Bootstrapped(
                Bootstrapped::new(self.members.clone(), copy_peers(&self.pinged_peers), confirmed_peers),
            )
        } else {
            FactionState::Collecting(
                Collecting::new(
                    self.members.clone(),
                    confirmed_peers,
                    copy_peers(&self.pinged_peers),
                    self.deadline_missed,
                ),
            )
        }
    }

    fn non_member_peer(&self, command: &Command) -> (r: Option<PeerId>)
        ensures
            r == (match *command {
                Command::ReadyObserved { peer_id } => if self.members@.contains(peer_id) {
                    None
                } else {
                    Some(peer_id)
                },
                _ => None,
            }),
    {
        match command {
            Command::ReadyObserved { peer_id } => {
                if self.members.is_member(*peer_id) {
                    None
                } else {
                    Some(*peer_id)
                }
            },
            _ => None,
        }
    }
}

impl Collecting {
    /// The admitted members.
    pub closed spec fn members_spec(&self) -> Seq<PeerId> {
        self.members@
    }

    /// The peers whose ready signal was seen.
    pub closed spec fn collecting_peers_spec(&self) -> Seq<PeerId> {
        self.collecting_peers@
    }

    /// The peers whose participation was seen while pinging.
    pub closed spec fn pinged_peers_spec(&self) -> Seq<PeerId> {
        self.pinged_peers@
    }

    /// Whether the deadline has passed.
    pub closed spec fn deadline_missed_spec(&self) -> bool {
        self.deadline_missed
    }
}

impl View for Collecting {
    type V = StateModel;

    open spec fn view(&self) -> StateModel {
        StateModel::Collecting {
            members: self.members_spec(),
            collecting_peers: self.collecting_peers_spec(),
            pinged_peers: self.pinged_peers_spec(),
            deadline_missed: self.deadline_missed_spec(),
        }
    }
}

impl State for Collecting {
    fn accept(&self, command: &Command) -> (r: bool) {
        match command {
            Command::ReadyObserved { .. } | Command::DeadlineExpired | Command::JoinRequested { .. }
            | Command::JoinApproved { .. } | Command::JoinRejected { .. } => true,
            _ => false,
        }
    }

    fn admissible_commands(&self) -> (r: Vec<Command>) {
        vec![
            Command::ReadyObserved { peer_id: 0 },
            Command::DeadlineExpired,
            Command::JoinRequested { peer_id: 0 },
            Command::JoinApproved { peer_id: 0 },
            Command::JoinRejected { peer_id: 0 },
            Command::Probe,
        ]
    }

    fn cluster_view(&self, previous: &ClusterView) -> (r: ClusterView) {
        ClusterViewBuilder::from_view(previous)
            .with_peer_state(PeerState::Collecting)
            .with_is_pinging_completed(true)
            .with_pinging_peers(copy_peers(&self.pinged_peers))
            .with_collecting_peers(copy_peers(&self.collecting_peers))
            .with_deadline_missed(self.deadline_missed)
            .with_members(self.members.clone())
            .build()
    }

    fn step(&self, command: Command, config: &Config) -> (r: (Vec<Outcome>, FactionState)) {
        if let Some(peer_id) = self.non_member_peer(&command) {
            let same = Collecting::new(
                self.members.clone(),
                copy_peers(&self.collecting_peers),
                copy_peers(&self.pinged_peers),
                self.deadline_missed,
            );
            return (vec![Outcome::NonMemberIgnored { peer_id }], FactionState::Collecting(same));
        }
        match command {
            Command::ReadyObserved { peer_id } => {
                let step = CollectingStep::new(
                    copy_peers(&self.collecting_peers),
                    peer_id,
                    Some(config.required_count()),
                );
                let next = self.compute_new_state(
                    step.is_quorum(),
                    vstd::slice::slice_to_vec(step.confirmed_peers()),
                );
                (vstd::slice::slice_to_vec(step.outcomes()), next)
            },
            Command::DeadlineExpired => {
                if self.deadline_missed {
                    let same = Collecting::new(
                        self.members.clone(),
                        copy_peers(&self.collecting_peers),
                        copy_peers(&self.pinged_peers),
                        true,
                    );
                    return (Vec::new(), FactionState::Collecting(same));
                }
                let next = Collecting::new(
                    self.members.clone(),
                    copy_peers(&self.collecting_peers),
                    copy_peers(&self.pinged_peers),
                    true,
                );
                (
                    vec![Outcome::DeadlineMissed { confirmed_count: self.collecting_peers.len() }],
                    FactionState::Collecting(next),
                )
            },
            Command::JoinRequested { .. } | Command::JoinApproved { .. } | Command::JoinRejected { .. } => {
                let join = JoinStep::new(self.members.clone(), &command);
                let next = Collecting::new(
                    join.members().clone(),
                    copy_peers(&self.collecting_peers),
                    copy_peers(&self.pinged_peers),
                    self.deadline_missed,
                );
                (vstd::slice::slice_to_vec(join.outcomes()), FactionState::Collecting(next))
            },
            _ => {
                let same = Collecting::new(
                    self.members.clone(),
                    copy_peers(&self.collecting_peers),
                    copy_peers(&self.pinged_peers),
                    self.deadline_missed,
                );
                (Vec::new(), FactionState::Collecting(same))
            },
        }
    }
}

} // verus!
