use vstd::prelude::*;

use crate::cluster_view::ClusterView;
use crate::cluster_view_builder::ClusterViewBuilder;
use crate::command::Command;
use crate::config::Config;
use crate::members::Members;
use crate::outcome::Outcome;
use crate::peer_state::PeerState;
use crate::state::{FactionState, State, StateModel};
use crate::states::bootstrapped::Bootstrapped;
use crate::states::collecting::Collecting;
use crate::states::join_step::JoinStep;
use crate::states::local_completion_step::LocalCompletionStep;
use crate::states::pinging_step::PingingStep;
use crate::types::{copy_peers, push_peer, PeerId};

verus! {

/// The node is collecting participation signals and early ready signals.
pub struct Pinging {
    members: Members,
    pinging_peers: Vec<PeerId>,
    collecting_peers: Vec<PeerId>,
    deadline_missed: bool,
}

impl Pinging {
    /// A pinging state that has seen no signal yet.
    pub fn new(members: Members) -> (r: Self)
        ensures
            r@ == (StateModel::Pinging {
                members: members@,
                pinging_peers: Seq::empty(),
                collecting_peers: Seq::empty(),
                deadline_missed: false,
            }),
    {
        Pinging { members, pinging_peers: Vec::new(), collecting_peers: Vec::new(), deadline_missed: false }
    }

    fn duplicate(&self) -> (r: Self)
        ensures
            r@ == self@,
    {
        Pinging {
            members: self.members.clone(),
            pinging_peers: copy_peers(&self.pinging_peers),
            collecting_peers: copy_peers(&self.collecting_peers),
            deadline_missed: self.deadline_missed,
        }
    }

    fn compute_new_state(&self, is_quorum: bool, confirmed_peers: Vec<PeerId>) -> (r: FactionState)
        ensures
            r@ == (if is_quorum {
                StateModel::Bootstrapped {
                    members: self.members@,
                    pinged_peers: self.pinging_peers@,
                    collected_peers: confirmed_peers@,
                }
            } else {
                StateModel::Collecting {
                    members: self.members@,
                    collecting_peers: confirmed_peers@,
                    pinged_peers: self.pinging_peers@,
                    deadline_missed: self.deadline_missed,
                }
            }),
    {
        if is_quorum {
            FactionState::Bootstrapped(
                Bootstrapped::new(self.members.clone(), copy_peers(&self.pinging_peers), confirmed_peers),
            )
        } else {
            FactionState::Collecting(
                Collecting::new(
                    self.members.clone(),
                    confirmed_peers,
                    copy_peers(&self.pinging_peers),
                    self.deadline_missed,
                ),
            )
        }
    }

    fn non_member_peer(&self, command: &Command) -> (r: Option<PeerId>)
        ensures
            r == (match *command {
                Command::ParticipationObserved { peer_id } | Command::ReadyObserved { peer_id } => {
                    if self.members@.contains(peer_id) {
                        None
                    } else {
                        Some(peer_id)
                    }
                },
                _ => None,
            }),
    {
        match command {
            Command::ParticipationObserved { peer_id } | Command::ReadyObserved { peer_id } => {
                if self.members.is_member(*peer_id) {
                    None
                } else {
                    Some(*peer_id)
                }
            },
            _ => None,
        }
    }
}

impl Pinging {
    /// The admitted members.
    pub closed spec fn members_spec(&self) -> Seq<PeerId> {
        self.members@
    }

    /// The peers whose participation was seen.
    pub closed spec fn pinging_peers_spec(&self) -> Seq<PeerId> {
        self.pinging_peers@
    }

    /// The peers whose ready signal was seen.
    pub closed spec fn collecting_peers_spec(&self) -> Seq<PeerId> {
        self.collecting_peers@
    }

    /// Whether the deadline has passed.
    pub closed spec fn deadline_missed_spec(&self) -> bool {
        self.deadline_missed
    }
}

impl View for Pinging {
    type V = StateModel;

    open spec fn view(&self) -> StateModel {
        StateModel::Pinging {
            members: self.members_spec(),
            pinging_peers: self.pinging_peers_spec(),
            collecting_peers: self.collecting_peers_spec(),
            deadline_missed: self.deadline_missed_spec(),
        }
    }
}

impl State for Pinging {
    fn cluster_view(&self, previous: &ClusterView) -> (r: ClusterView) {
        ClusterViewBuilder::from_view(previous)
            .with_peer_state(PeerState::Pinging)
            .with_pinging_peers(copy_peers(&self.pinging_peers))
            .with_collecting_peers(copy_peers(&self.collecting_peers))
            .with_deadline_missed(self.deadline_missed)
            .with_members(self.members.clone())
            .build()
    }

    fn step(&self, command: Command, config: &Config) -> (r: (Vec<Outcome>, FactionState)) {
        if let Some(peer_id) = self.non_member_peer(&command) {
            return (vec![Outcome::NonMemberIgnored { peer_id }], FactionState::Pinging(self.duplicate()));
        }
        match command {
            Command::ParticipationObserved { peer_id } => {
                let step = PingingStep::new(copy_peers(&self.pinging_peers), peer_id);
                let next = Pinging {
                    members: self.members.clone(),
                    pinging_peers: vstd::slice::slice_to_vec(step.confirmed_peers()),
                    collecting_peers: copy_peers(&self.collecting_peers),
                    deadline_missed: self.deadline_missed,
                };
                (vstd::slice::slice_to_vec(step.outcomes()), FactionState::Pinging(next))
            },
            Command::ReadyObserved { peer_id } => {
                let (new_collecting, is_dup) = push_peer(&self.collecting_peers, peer_id);
                let outcome = if is_dup {
                    Outcome::DuplicateReadyIgnored { peer_id }
                } else {
                    Outcome::ReadyAccepted { peer_id }
                };
                let next = Pinging {
                    members: self.members.clone(),
                    pinging_peers: copy_peers(&self.pinging_peers),
                    collecting_peers: new_collecting,
                    deadline_missed: self.deadline_missed,
                };
                (vec![outcome], FactionState::Pinging(next))
            },
            Command::LocalParticipationCompleted => {
                let step = LocalCompletionStep::new(
                    copy_peers(&self.collecting_peers),
                    config.peer_id(),
                    config.required_count(),
                );
                let next = self.compute_new_state(
                    step.is_quorum(),
                    vstd::slice::slice_to_vec(step.confirmed_peers()),
                );
                (vstd::slice::slice_to_vec(step.outcomes()), next)
            },
            Command::DeadlineExpired => {
                if self.deadline_missed {
                    return (Vec::new(), FactionState::Pinging(self.duplicate()));
                }
                let next = Pinging {
                    members: self.members.clone(),
                    pinging_peers: copy_peers(&self.pinging_peers),
                    collecting_peers: copy_peers(&self.collecting_peers),
                    deadline_missed: true,
                };
                (
                    vec![Outcome::DeadlineMissed { confirmed_count: self.collecting_peers.len() }],
                    FactionState::Pinging(next),
                )
            },
            Command::Probe => (Vec::new(), FactionState::Pinging(self.duplicate())),
            _ => {
                let join = JoinStep::new(self.members.clone(), &command);
                let next = Pinging {
                    members: join.members().clone(),
                    pinging_peers: copy_peers(&self.pinging_peers),
                    collecting_peers: copy_peers(&self.collecting_peers),
                    deadline_missed: self.deadline_missed,
                };
                (vstd::slice::slice_to_vec(join.outcomes()), FactionState::Pinging(next))
            },
        }
    }

    fn accept(&self, command: &Command) -> (r: bool) {
        match command {
            Command::Probe => false,
            _ => true,
        }
    }

    fn admissible_commands(&self) -> (r: Vec<Command>) {
        vec![
            Command::ParticipationObserved { peer_id: 0 },
            Command::ReadyObserved { peer_id: 0 },
            Command::LocalParticipationCompleted,
            Command::DeadlineExpired,
            Command::JoinRequested { peer_id: 0 },
            Command::JoinApproved { peer_id: 0 },
            Command::JoinRejected { peer_id: 0 },
            Command::Probe,
        ]
    }
}

} // verus!
