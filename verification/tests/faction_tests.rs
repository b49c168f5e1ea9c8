use std::cell::RefCell;
use std::rc::Rc;

use faction::cluster_view::ClusterView;
use faction::cluster_view_builder::ClusterViewBuilder;
use faction::command::Command;
use faction::conclusion::Conclusion;
use faction::members::Members;
use faction::config::Config;
use faction::faction::Faction;
use faction::no_op_observer::NoOpObserver;
use faction::observer::Observer;
use faction::outcome::Outcome;
use faction::peer_state::PeerState;
use faction::process_result::ProcessResult;
use faction::quorum_policy::QuorumPolicy;
use faction::state::State;
use faction::states::initial::Initial;
use faction::states::timed_out::TimedOut;
use faction::transition::Transition;

fn five_node_faction() -> Faction {
    Faction::new(Config::new(0, vec![0, 1, 2, 3, 4], QuorumPolicy::new(4)), Box::new(NoOpObserver))
}

fn outcomes(result: ProcessResult) -> Vec<Outcome> {
    match result {
        ProcessResult::Accepted { outcomes, .. } => outcomes,
        other => panic!("expected an accepted command, got {:?}", other),
    }
}

fn probe(machine: &mut Faction) -> ClusterView {
    match machine.process(Command::Probe) {
        ProcessResult::Probed { cluster_view, .. } => cluster_view,
        other => panic!("expected a probe result, got {:?}", other),
    }
}

#[test]
fn documented_example_reaches_quorum() {
    let mut machine = five_node_faction();
    assert!(matches!(
        machine.process(Command::ParticipationObserved { peer_id: 1 }),
        ProcessResult::Accepted { .. }
    ));
    let _ = machine.process(Command::ParticipationObserved { peer_id: 2 });
    match machine.process(Command::ParticipationObserved { peer_id: 1 }) {
        ProcessResult::Accepted { admissible, outcomes, .. } => {
            assert!(admissible.contains(&Command::LocalParticipationCompleted));
            assert_eq!(outcomes, vec![Outcome::DuplicateParticipationIgnored { peer_id: 1 }]);
        }
        other => panic!("unexpected {:?}", other),
    }
    assert_eq!(probe(&mut machine).pinging_peers(), &[1, 2]);

    let _ = machine.process(Command::LocalParticipationCompleted);
    let _ = machine.process(Command::ReadyObserved { peer_id: 1 });
    let _ = machine.process(Command::ReadyObserved { peer_id: 2 });
    match machine.process(Command::ReadyObserved { peer_id: 3 }) {
        ProcessResult::Accepted { cluster_view, outcomes, admissible } => {
            assert!(cluster_view.is_concluded());
            assert_eq!(cluster_view.collecting_peers(), &[0, 1, 2, 3]);
            assert_eq!(
                outcomes,
                vec![
                    Outcome::ReadyAccepted { peer_id: 3 },
                    Outcome::Concluded { mode: Conclusion::Bootstrapped },
                ]
            );
            assert_eq!(admissible, vec![Command::ParticipationObserved { peer_id: 0 }, Command::Probe]);
        }
        other => panic!("unexpected {:?}", other),
    }
}

#[test]
fn fresh_node_reports_its_configuration() {
    let mut machine = five_node_faction();
    let view = probe(&mut machine);
    assert_eq!(view.peer_state(), PeerState::Fresh);
    assert_eq!(view.required_count(), 4);
    assert_eq!(view.members().as_slice(), &[0, 1, 2, 3, 4]);
    assert!(!view.deadline_missed());
    assert_eq!(view.conclusion(), None);
    assert_eq!(machine.config().peer_count(), 5);
}

#[test]
fn probe_is_read_only() {
    let mut machine = five_node_faction();
    let _ = machine.process(Command::ReadyObserved { peer_id: 2 });
    let first = probe(&mut machine);
    let second = probe(&mut machine);
    assert_eq!(first, second);
    assert_eq!(first.collecting_peers(), &[2]);
}

#[test]
fn rejected_command_reports_admissible_commands_and_changes_nothing() {
    let mut machine = five_node_faction();
    let before = probe(&mut machine);
    match machine.process(Command::DeadlineExpired) {
        ProcessResult::Rejected { cluster_view, admissible } => {
            assert_eq!(cluster_view, before);
            assert!(!admissible.contains(&Command::DeadlineExpired));
            assert!(admissible.contains(&Command::Probe));
        }
        other => panic!("unexpected {:?}", other),
    }
    let _ = machine.process(Command::LocalParticipationCompleted);
    match machine.process(Command::ParticipationObserved { peer_id: 1 }) {
        ProcessResult::Rejected { admissible, .. } => {
            assert_eq!(
                admissible,
                vec![
                    Command::ReadyObserved { peer_id: 0 },
                    Command::DeadlineExpired,
                    Command::JoinRequested { peer_id: 0 },
                    Command::JoinApproved { peer_id: 0 },
                    Command::JoinRejected { peer_id: 0 },
                    Command::Probe,
                ]
            );
        }
        other => panic!("unexpected {:?}", other),
    }
}

#[test]
fn missed_deadline_is_recorded_and_counts_confirmations() {
    let mut machine = five_node_faction();
    let _ = machine.process(Command::ReadyObserved { peer_id: 1 });
    let _ = machine.process(Command::ReadyObserved { peer_id: 2 });
    let outs = outcomes(machine.process(Command::DeadlineExpired));
    assert_eq!(outs, vec![Outcome::DeadlineMissed { confirmed_count: 2 }]);
    let view = probe(&mut machine);
    assert_eq!(view.peer_state(), PeerState::TimedOut);
    assert!(view.deadline_missed());
    assert!(!view.is_concluded());
}

#[test]
fn node_still_bootstraps_after_missed_deadline() {
    let mut machine = five_node_faction();
    let _ = machine.process(Command::LocalParticipationCompleted);
    let _ = machine.process(Command::DeadlineExpired);
    assert_eq!(probe(&mut machine).peer_state(), PeerState::TimedOut);
    let _ = machine.process(Command::ReadyObserved { peer_id: 1 });
    let _ = machine.process(Command::ReadyObserved { peer_id: 2 });
    let outs = outcomes(machine.process(Command::ReadyObserved { peer_id: 3 }));
    assert_eq!(
        outs,
        vec![
            Outcome::ReadyAccepted { peer_id: 3 },
            Outcome::Concluded { mode: Conclusion::Bootstrapped },
        ]
    );
    let view = probe(&mut machine);
    assert_eq!(view.peer_state(), PeerState::Bootstrapped);
    assert!(view.deadline_missed());
    assert!(view.is_concluded());
}

#[test]
fn concluded_node_acknowledges_rejoining_members() {
    let mut machine = Faction::new(Config::new(0, vec![0, 1, 2], QuorumPolicy::new(1)), Box::new(NoOpObserver));
    let outs = outcomes(machine.process(Command::LocalParticipationCompleted));
    assert_eq!(
        outs,
        vec![
            Outcome::LocalParticipationCompleted,
            Outcome::BroadcastLocalReady,
            Outcome::Concluded { mode: Conclusion::Bootstrapped },
        ]
    );
    assert_eq!(
        outcomes(machine.process(Command::ParticipationObserved { peer_id: 2 })),
        vec![Outcome::AcknowledgeRejoin { peer_id: 2 }]
    );
    assert_eq!(
        outcomes(machine.process(Command::ParticipationObserved { peer_id: 7 })),
        vec![Outcome::NonMemberIgnored { peer_id: 7 }]
    );
    assert!(matches!(machine.process(Command::ReadyObserved { peer_id: 1 }), ProcessResult::Rejected { .. }));
    assert!(probe(&mut machine).is_concluded());
}

#[test]
fn non_member_signal_moves_a_fresh_node_to_pinging() {
    let mut machine = five_node_faction();
    let outs = outcomes(machine.process(Command::ParticipationObserved { peer_id: 42 }));
    assert_eq!(outs, vec![Outcome::NonMemberIgnored { peer_id: 42 }]);
    let view = probe(&mut machine);
    assert_eq!(view.peer_state(), PeerState::Pinging);
    assert!(view.pinging_peers().is_empty());
}

#[test]
fn join_commands_manage_membership() {
    let mut machine = five_node_faction();
    assert_eq!(
        outcomes(machine.process(Command::JoinRequested { peer_id: 9 })),
        vec![Outcome::EmitJoinRequest { peer_id: 9 }]
    );
    assert_eq!(
        outcomes(machine.process(Command::JoinRejected { peer_id: 9 })),
        vec![Outcome::JoinDenied { peer_id: 9 }]
    );
    assert_eq!(
        outcomes(machine.process(Command::JoinApproved { peer_id: 1 })),
        vec![Outcome::DuplicateMemberIgnored { peer_id: 1 }]
    );
    assert_eq!(
        outcomes(machine.process(Command::JoinApproved { peer_id: 7 })),
        vec![Outcome::MemberAdmitted { peer_id: 7 }]
    );
    assert_eq!(probe(&mut machine).peer_state(), PeerState::Fresh);
    assert_eq!(
        outcomes(machine.process(Command::ParticipationObserved { peer_id: 7 })),
        vec![Outcome::ParticipationAccepted { peer_id: 7 }]
    );
    let _ = machine.process(Command::LocalParticipationCompleted);
    assert_eq!(
        outcomes(machine.process(Command::JoinApproved { peer_id: 8 })),
        vec![Outcome::MemberAdmitted { peer_id: 8 }]
    );
    assert_eq!(
        outcomes(machine.process(Command::ReadyObserved { peer_id: 8 })),
        vec![Outcome::ReadyAccepted { peer_id: 8 }]
    );
    let view = probe(&mut machine);
    assert_eq!(view.members().as_slice(), &[0, 1, 2, 3, 4, 7, 8]);
    assert_eq!(view.collecting_peers(), &[0, 8]);
}

#[test]
fn timed_out_state_only_answers_probes() {
    let state = TimedOut::new();
    assert!(!state.accept(&Command::Probe));
    assert!(!state.accept(&Command::ReadyObserved { peer_id: 1 }));
    assert_eq!(state.admissible_commands(), vec![Command::Probe]);
}

#[derive(Default)]
struct Counts {
    transitions: Vec<Transition>,
    queries: usize,
    rejections: usize,
}

struct Recorder(Rc<RefCell<Counts>>);

impl Observer for Recorder {
    fn observe(&mut self, _command: Command, transition: Transition) {
        self.0.borrow_mut().transitions.push(transition);
    }

    fn observe_query(&mut self, _command: Command, _cluster_view: ClusterView) {
        self.0.borrow_mut().queries += 1;
    }

    fn observe_rejection(&mut self, _command: Command, _cluster_view: ClusterView, _admissible: Vec<Command>) {
        self.0.borrow_mut().rejections += 1;
    }
}

#[test]
fn observer_sees_transitions_queries_and_rejections() {
    let counts = Rc::new(RefCell::new(Counts::default()));
    let mut machine = Faction::new(
        Config::new(0, vec![0, 1], QuorumPolicy::new(2)),
        Box::new(Recorder(counts.clone())),
    );
    let _ = machine.process(Command::ParticipationObserved { peer_id: 1 });
    let _ = machine.process(Command::Probe);
    let _ = machine.process(Command::DeadlineExpired);
    let _ = machine.process(Command::DeadlineExpired);
    let counts = counts.borrow();
    assert_eq!(counts.queries, 1);
    assert_eq!(counts.rejections, 0);
    assert_eq!(counts.transitions.len(), 3);
    let first = &counts.transitions[0];
    assert_eq!(first.previous_view().peer_state(), PeerState::Fresh);
    assert_eq!(first.new_view().peer_state(), PeerState::Pinging);
    assert_eq!(first.outputs(), &[Outcome::ParticipationAccepted { peer_id: 1 }]);
    assert_eq!(counts.transitions[1].new_view().peer_state(), PeerState::TimedOut);
}

#[test]
fn observer_sees_rejections() {
    let counts = Rc::new(RefCell::new(Counts::default()));
    let mut machine = Faction::new(
        Config::new(0, vec![0, 1], QuorumPolicy::new(2)),
        Box::new(Recorder(counts.clone())),
    );
    let _ = machine.process(Command::DeadlineExpired);
    assert_eq!(counts.borrow().rejections, 1);
    assert!(counts.borrow().transitions.is_empty());
}

#[test]
fn initial_state_steps_on_deadline_as_pinging() {
    let config = Config::new(0, vec![0, 1, 2, 3, 4], QuorumPolicy::new(4));
    let initial = Initial::new(Members::new(vec![0, 1, 2, 3, 4]));

    let (outputs, next) = initial.step(Command::DeadlineExpired, &config);
    let view = next.cluster_view(&ClusterViewBuilder::new().build());

    assert_eq!(outputs, vec![Outcome::DeadlineMissed { confirmed_count: 0 }]);
    assert_eq!(view.peer_state(), PeerState::TimedOut);
    assert!(view.deadline_missed());
    assert!(view.pinging_peers().is_empty());
}

#[test]
fn node_stays_receptive_after_deadline() {
    let mut machine = five_node_faction();
    let _ = machine.process(Command::ParticipationObserved { peer_id: 1 });

    match machine.process(Command::DeadlineExpired) {
        ProcessResult::Accepted { cluster_view, admissible, outcomes } => {
            assert_eq!(outcomes, vec![Outcome::DeadlineMissed { confirmed_count: 0 }]);
            assert_eq!(cluster_view.peer_state(), PeerState::TimedOut);
            assert_eq!(cluster_view.conclusion(), None);
            assert!(admissible.contains(&Command::ReadyObserved { peer_id: 0 }));
        },
        other => panic!("expected an accepted command, got {:?}", other),
    }
    match machine.process(Command::DeadlineExpired) {
        ProcessResult::Accepted { outcomes, .. } => assert!(outcomes.is_empty()),
        other => panic!("expected an accepted command, got {:?}", other),
    }
}
