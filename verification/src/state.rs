use vstd::prelude::*;

use crate::cluster_view::{ClusterView, ClusterViewModel};
use crate::cluster_view_builder::built;
use crate::command::Command;
use crate::conclusion::Conclusion;
use crate::config::{Config, ConfigModel};
use crate::outcome::Outcome;
use crate::peer_state::PeerState;
use crate::states::bootstrapped::Bootstrapped;
use crate::states::collecting::Collecting;
use crate::states::initial::Initial;
use crate::states::pinging::Pinging;
use crate::states::timed_out::TimedOut;
use crate::types::{with_peer, PeerId};

verus! {

/// The values that a state of the bootstrap machine carries.
pub enum StateModel {
    Initial { members: Seq<PeerId> },
    Pinging {
        members: Seq<PeerId>,
        pinging_peers: Seq<PeerId>,
        collecting_peers: Seq<PeerId>,
        deadline_missed: bool,
    },
    Collecting {
        members: Seq<PeerId>,
        collecting_peers: Seq<PeerId>,
        pinged_peers: Seq<PeerId>,
        deadline_missed: bool,
    },
    Bootstrapped { members: Seq<PeerId>, pinged_peers: Seq<PeerId>, collected_peers: Seq<PeerId> },
    TimedOut { pinging_peers: Seq<PeerId>, collecting_peers: Seq<PeerId> },
}

/// A state of the bootstrap machine: what it accepts, how it steps, and what it reports.
pub trait State: View<V = StateModel> {
    fn step(&self, command: Command, config: &Config) -> (r: (Vec<Outcome>, FactionState))
        requires
            steppable(self@, command),
        ensures
            r.0@ == step_outcomes(self@, command, config@),
            r.1@ == step_state(self@, command, config@),
    ;

    fn cluster_view(&self, previous: &ClusterView) -> (r: ClusterView)
        ensures
            r@ == view_of(self@, previous@),
    ;

    fn accept(&self, command: &Command) -> (r: bool)
        ensures
            r == accepts(self@, *command),
    ;

    fn admissible_commands(&self) -> (r: Vec<Command>)
        ensures
            r@ == admissible(self@),
    ;
}

/// The state a node is in, one variant per state of the machine.
pub enum FactionState {
    Initial(Initial),
    Pinging(Pinging),
    Collecting(Collecting),
    Bootstrapped(Bootstrapped),
    TimedOut(TimedOut),
}

impl View for FactionState {
    type V = StateModel;

    open spec fn view(&self) -> StateModel {
        match self {
            FactionState::Initial(s) => s@,
            FactionState::Pinging(s) => s@,
            FactionState::Collecting(s) => s@,
            FactionState::Bootstrapped(s) => s@,
            FactionState::TimedOut(s) => s@,
        }
    }
}

impl FactionState {
    pub fn step(&self, command: Command, config: &Config) -> (r: (Vec<Outcome>, FactionState))
        requires
            steppable(self@, command),
        ensures
            r.0@ == step_outcomes(self@, command, config@),
            r.1@ == step_state(self@, command, config@),
    {
        match self {
            FactionState::Initial(s) => s.step(command, config),
            FactionState::Pinging(s) => s.step(command, config),
            FactionState::Collecting(s) => s.step(command, config),
            FactionState::Bootstrapped(s) => s.step(command, config),
            FactionState::TimedOut(s) => s.step(command, config),
        }
    }

    pub fn cluster_view(&self, previous: &ClusterView) -> (r: ClusterView)
        ensures
            r@ == view_of(self@, previous@),
    {
        match self {
            FactionState::Initial(s) => s.cluster_view(previous),
            FactionState::Pinging(s) => s.cluster_view(previous),
            FactionState::Collecting(s) => s.cluster_view(previous),
            FactionState::Bootstrapped(s) => s.cluster_view(previous),
            FactionState::TimedOut(s) => s.cluster_view(previous),
        }
    }

    pub fn accept(&self, command: &Command) -> (r: bool)
        ensures
            r == accepts(self@, *command),
    {
        match self {
            FactionState::Initial(s) => s.accept(command),
            FactionState::Pinging(s) => s.accept(command),
            FactionState::Collecting(s) => s.accept(command),
            FactionState::Bootstrapped(s) => s.accept(command),
            FactionState::TimedOut(s) => s.accept(command),
        }
    }

    pub fn admissible_commands(&self) -> (r: Vec<Command>)
        ensures
            r@ == admissible(self@),
    {
        match self {
            FactionState::Initial(s) => s.admissible_commands(),
            FactionState::Pinging(s) => s.admissible_commands(),
            FactionState::Collecting(s) => s.admissible_commands(),
            FactionState::Bootstrapped(s) => s.admissible_commands(),
            FactionState::TimedOut(s) => s.admissible_commands(),
        }
    }
}

/// The outcome of a membership command against `members`.
pub open spec fn join_outcome(members: Seq<PeerId>, command: Command) -> Outcome {
    match command {
        Command::JoinRequested { peer_id } => Outcome::EmitJoinRequest { peer_id },
        Command::JoinApproved { peer_id } => if members.contains(peer_id) {
            Outcome::DuplicateMemberIgnored { peer_id }
        } else {
            Outcome::MemberAdmitted { peer_id }
        },
        Command::JoinRejected { peer_id } => Outcome::JoinDenied { peer_id },
        _ => Outcome::JoinDenied { peer_id: 0 },
    }
}

/// The membership after a membership command: an approval admits the peer.
pub open spec fn join_members(members: Seq<PeerId>, command: Command) -> Seq<PeerId> {
    match command {
        Command::JoinApproved { peer_id } => with_peer(members, peer_id),
        _ => members,
    }
}

/// Whether a state takes a command; the others are rejected without a change.
pub open spec fn accepts(s: StateModel, command: Command) -> bool {
    match s {
        StateModel::Initial { .. } => {
            ||| command is ParticipationObserved
            ||| command is ReadyObserved
            ||| command is LocalParticipationCompleted
            ||| command.is_join()
        },
        StateModel::Pinging { .. } => !(command is Probe),
        StateModel::Collecting { .. } => {
            ||| command is ReadyObserved
            ||| command is DeadlineExpired
            ||| command.is_join()
        },
        StateModel::Bootstrapped { .. } => command is ParticipationObserved,
        StateModel::TimedOut { .. } => false,
    }
}

/// Whether a state's `step` answers a command. This is what `accepts` admits, and in
/// `Initial` also `DeadlineExpired`, which it hands on as `Pinging` does; no state steps on
/// `Probe`, and `TimedOut` steps on nothing.
pub open spec fn steppable(s: StateModel, command: Command) -> bool {
    match s {
        StateModel::Initial { .. } => !(command is Probe),
        _ => accepts(s, command),
    }
}

/// The commands a state reports as admissible, peer ids shown as 0.
pub open spec fn admissible(s: StateModel) -> Seq<Command> {
    match s {
        StateModel::Initial { .. } => seq![
            Command::ParticipationObserved { peer_id: 0 },
            Command::ReadyObserved { peer_id: 0 },
            Command::LocalParticipationCompleted,
            Command::JoinRequested { peer_id: 0 },
            Command::JoinApproved { peer_id: 0 },
            Command::JoinRejected { peer_id: 0 },
            Command::Probe,
        ],
        StateModel::Pinging { .. } => seq![
            Command::ParticipationObserved { peer_id: 0 },
            Command::ReadyObserved { peer_id: 0 },
            Command::LocalParticipationCompleted,
            Command::DeadlineExpired,
            Command::JoinRequested { peer_id: 0 },
            Command::JoinApproved { peer_id: 0 },
            Command::JoinRejected { peer_id: 0 },
            Command::Probe,
        ],
        StateModel::Collecting { .. } => seq![
            Command::ReadyObserved { peer_id: 0 },
            Command::DeadlineExpired,
            Command::JoinRequested { peer_id: 0 },
            Command::JoinApproved { peer_id: 0 },
            Command::JoinRejected { peer_id: 0 },
            Command::Probe,
        ],
        StateModel::Bootstrapped { .. } => seq![
            Command::ParticipationObserved { peer_id: 0 },
            Command::Probe,
        ],
        StateModel::TimedOut { .. } => seq![Command::Probe],
    }
}

/// The outcomes of local completion on top of the ready confirmations `collecting`.
pub open spec fn local_completion_outcomes(collecting: Seq<PeerId>, config: ConfigModel) -> Seq<Outcome> {
    let confirmed = with_peer(collecting, config.peer_id);
    if confirmed.len() >= config.required_count {
        seq![
            Outcome::LocalParticipationCompleted,
            Outcome::BroadcastLocalReady,
            Outcome::Concluded { mode: Conclusion::Bootstrapped },
        ]
    } else {
        seq![Outcome::LocalParticipationCompleted, Outcome::BroadcastLocalReady]
    }
}

/// The outcomes of a step taken while pinging.
///
/// A peer counts as a member when it is among the node's admitted members: the configured peers
/// and those a `JoinApproved` has admitted since. A deadline that has already been missed is not
/// reported again: the second `DeadlineExpired` has no outcome.
pub open spec fn pinging_outcomes(
    members: Seq<PeerId>,
    pinging_peers: Seq<PeerId>,
    collecting_peers: Seq<PeerId>,
    deadline_missed: bool,
    command: Command,
    config: ConfigModel,
) -> Seq<Outcome> {
    match command {
        Command::ParticipationObserved { peer_id } => if !members.contains(peer_id) {
            seq![Outcome::NonMemberIgnored { peer_id }]
        } else if pinging_peers.contains(peer_id) {
            seq![Outcome::DuplicateParticipationIgnored { peer_id }]
        } else {
            seq![Outcome::ParticipationAccepted { peer_id }]
        },
        Command::ReadyObserved { peer_id } => if !members.contains(peer_id) {
            seq![Outcome::NonMemberIgnored { peer_id }]
        } else if collecting_peers.contains(peer_id) {
            seq![Outcome::DuplicateReadyIgnored { peer_id }]
        } else {
            seq![Outcome::ReadyAccepted { peer_id }]
        },
        Command::LocalParticipationCompleted => local_completion_outcomes(collecting_peers, config),
        Command::DeadlineExpired => if deadline_missed {
            Seq::empty()
        } else {
            seq![Outcome::DeadlineMissed { confirmed_count: collecting_peers.len() as usize }]
        },
        _ => seq![join_outcome(members, command)],
    }
}

/// The state reached by a step taken while pinging.
pub open spec fn pinging_next(
    members: Seq<PeerId>,
    pinging_peers: Seq<PeerId>,
    collecting_peers: Seq<PeerId>,
    deadline_missed: bool,
    command: Command,
    config: ConfigModel,
) -> StateModel {
    let unchanged = StateModel::Pinging { members, pinging_peers, collecting_peers, deadline_missed };
    match command {
        Command::ParticipationObserved { peer_id } => if members.contains(peer_id) {
            StateModel::Pinging {
                members,
                pinging_peers: with_peer(pinging_peers, peer_id),
                collecting_peers,
                deadline_missed,
            }
        } else {
            unchanged
        },
        Command::ReadyObserved { peer_id } => if members.contains(peer_id) {
            StateModel::Pinging {
                members,
                pinging_peers,
                collecting_peers: with_peer(collecting_peers, peer_id),
                deadline_missed,
            }
        } else {
            unchanged
        },
        Command::LocalParticipationCompleted => {
            let confirmed = with_peer(collecting_peers, config.peer_id);
            if confirmed.len() >= config.required_count {
                StateModel::Bootstrapped {
                    members,
                    pinged_peers: pinging_peers,
                    collected_peers: confirmed,
                }
            } else {
                StateModel::Collecting {
                    members,
                    collecting_peers: confirmed,
                    pinged_peers: pinging_peers,
                    deadline_missed,
                }
            }
        },
        Command::DeadlineExpired => StateModel::Pinging {
            members,
            pinging_peers,
            collecting_peers,
            deadline_missed: true,
        },
        _ => StateModel::Pinging {
            members: join_members(members, command),
            pinging_peers,
            collecting_peers,
            deadline_missed,
        },
    }
}

/// The outcomes of a step taken from `s` on an accepted `command`.
///
/// In every state membership is judged against the node's admitted members (the configured
/// peers and those admitted by `JoinApproved`), and a repeated `DeadlineExpired` has no outcome.
pub open spec fn step_outcomes(s: StateModel, command: Command, config: ConfigModel) -> Seq<Outcome> {
    match s {
        StateModel::Initial { members } => if command.is_join() {
            seq![join_outcome(members, command)]
        } else {
            pinging_outcomes(members, Seq::empty(), Seq::empty(), false, command, config)
        },
        StateModel::Pinging { members, pinging_peers, collecting_peers, deadline_missed } => {
            pinging_outcomes(members, pinging_peers, collecting_peers, deadline_missed, command, config)
        },
        StateModel::Collecting { members, collecting_peers, pinged_peers, deadline_missed } => {
            match command {
                Command::ReadyObserved { peer_id } => if !members.contains(peer_id) {
                    seq![Outcome::NonMemberIgnored { peer_id }]
                } else if collecting_peers.contains(peer_id) {
                    seq![Outcome::DuplicateReadyIgnored { peer_id }]
                } else if collecting_peers.len() + 1 >= config.required_count {
                    seq![
                        Outcome::ReadyAccepted { peer_id },
                        Outcome::Concluded { mode: Conclusion::Bootstrapped },
                    ]
                } else {
                    seq![Outcome::ReadyAccepted { peer_id }]
                },
                Command::DeadlineExpired => if deadline_missed {
                    Seq::empty()
                } else {
                    seq![Outcome::DeadlineMissed { confirmed_count: collecting_peers.len() as usize }]
                },
                _ => seq![join_outcome(members, command)],
            }
        },
        StateModel::Bootstrapped { members, .. } => match command {
            Command::ParticipationObserved { peer_id } => if members.contains(peer_id) {
                seq![Outcome::AcknowledgeRejoin { peer_id }]
            } else {
                seq![Outcome::NonMemberIgnored { peer_id }]
            },
            _ => Seq::empty(),
        },
        StateModel::TimedOut { .. } => Seq::empty(),
    }
}

/// The state reached by a step taken from `s` on an accepted `command`.
pub open spec fn step_state(s: StateModel, command: Command, config: ConfigModel) -> StateModel {
    match s {
        StateModel::Initial { members } => if command.is_join() {
            StateModel::Initial { members: join_members(members, command) }
        } else {
            pinging_next(members, Seq::empty(), Seq::empty(), false, command, config)
        },
        StateModel::Pinging { members, pinging_peers, collecting_peers, deadline_missed } => {
            pinging_next(members, pinging_peers, collecting_peers, deadline_missed, command, config)
        },
        StateModel::Collecting { members, collecting_peers, pinged_peers, deadline_missed } => {
            match command {
                Command::ReadyObserved { peer_id } => if !members.contains(peer_id)
                    || collecting_peers.contains(peer_id) {
                    s
                } else if collecting_peers.len() + 1 >= config.required_count {
                    StateModel::Bootstrapped {
                        members,
                        pinged_peers,
                        collected_peers: collecting_peers.push(peer_id),
                    }
                } else {
                    StateModel::Collecting {
                        members,
                        collecting_peers: collecting_peers.push(peer_id),
                        pinged_peers,
                        deadline_missed,
                    }
                },
                Command::DeadlineExpired => StateModel::Collecting {
                    members,
                    collecting_peers,
                    pinged_peers,
                    deadline_missed: true,
                },
                _ => StateModel::Collecting {
                    members: join_members(members, command),
                    collecting_peers,
                    pinged_peers,
                    deadline_missed,
                },
            }
        },
        StateModel::Bootstrapped { .. } => s,
        StateModel::TimedOut { .. } => s,
    }
}

/// The cluster view a state reports, on top of the previous view.
pub open spec fn view_of(s: StateModel, previous: ClusterViewModel) -> ClusterViewModel {
    match s {
        StateModel::Initial { members } => built(
            ClusterViewModel {
                peer_state: PeerState::Fresh,
                is_pinging_completed: false,
                pinging_peers: Seq::empty(),
                collecting_peers: Seq::empty(),
                members,
                ..previous
            },
        ),
        StateModel::Pinging { members, pinging_peers, collecting_peers, deadline_missed } => built(
            ClusterViewModel {
                peer_state: PeerState::Pinging,
                pinging_peers,
                collecting_peers,
                deadline_missed,
                members,
                ..previous
            },
        ),
        StateModel::Collecting { members, collecting_peers, pinged_peers, deadline_missed } => built(
            ClusterViewModel {
                peer_state: PeerState::Collecting,
                is_pinging_completed: true,
                pinging_peers: pinged_peers,
                collecting_peers,
                deadline_missed,
                members,
                ..previous
            },
        ),
        StateModel::Bootstrapped { members, pinged_peers, collected_peers } => built(
            ClusterViewModel {
                peer_state: PeerState::Bootstrapped,
                is_pinging_completed: true,
                pinging_peers: pinged_peers,
                collecting_peers: collected_peers,
                members,
                ..previous
            },
        ),
        StateModel::TimedOut { pinging_peers, collecting_peers } => built(
            ClusterViewModel {
                peer_state: PeerState::TimedOut,
                pinging_peers,
                collecting_peers,
                ..previous
            },
        ),
    }
}

} // verus!
