use std::cell::RefCell;
use std::rc::Rc;

use faction::cluster_readiness::ClusterReadiness;
use faction::cluster_readiness_observer::ClusterReadinessObserver;
use faction::cluster_readiness_transition::ClusterReadinessTransition;
use faction::cluster_readiness_config::ClusterReadinessConfig;
use faction::cluster_readiness_input::ClusterReadinessInput;
use faction::freshness_policy::FreshnessPolicy;
use faction::machine::Machine;
use faction::machine_observer::MachineObserver;
use faction::machine_transition::MachineTransition;
use faction::machine_output::MachineOutput;
use faction::machine_state::MachineState;
use faction::no_op_cluster_readiness_observer::NoOpClusterReadinessObserver;
use faction::no_op_machine_observer::NoOpMachineObserver;
use faction::readiness_exit_mode::ReadinessExitMode;
use faction::readiness_lifecycle_state::ReadinessLifecycleState;
use faction::states::helpers::confirmed_set::ConfirmedSet;
use faction::states::phase1::Phase1;
use faction::states::ready_by_quorum::ReadyByQuorum;
use faction::states::ready_by_deadline::ReadyByDeadline;

fn machine(threshold: usize) -> Machine {
    Machine::new(
        ClusterReadinessConfig::new(0, vec![0, 1, 2, 3, 4], threshold, FreshnessPolicy::new(2)),
        Box::new(NoOpMachineObserver),
    )
}

#[test]
fn machine_classifies_and_exits_by_quorum() {
    let mut m = machine(3);
    assert_eq!(
        m.apply(ClusterReadinessInput::ParticipationObserved { peer_id: 1, freshness: 3, current_marker: 4 }),
        vec![MachineOutput::DelayedParticipationAccepted { peer_id: 1 }]
    );
    assert_eq!(
        m.apply(ClusterReadinessInput::ReadyObserved { peer_id: 9, freshness: 4, current_marker: 4 }),
        vec![MachineOutput::NonMemberIgnored { peer_id: 9 }]
    );
    assert_eq!(
        m.apply(ClusterReadinessInput::ReadyObserved { peer_id: 2, freshness: 1, current_marker: 4 }),
        vec![MachineOutput::StaleReadyIgnored { peer_id: 2 }]
    );
    assert_eq!(
        m.apply(ClusterReadinessInput::LocalParticipationCompleted),
        vec![MachineOutput::LocalParticipationCompleted, MachineOutput::BroadcastLocalReady]
    );
    assert_eq!(m.snapshot().lifecycle_state(), ReadinessLifecycleState::Phase2Active);
    assert!(m.apply(ClusterReadinessInput::LocalParticipationCompleted).is_empty());
    assert_eq!(
        m.apply(ClusterReadinessInput::ReadyObserved { peer_id: 1, freshness: 4, current_marker: 4 }),
        vec![MachineOutput::ReadyAccepted { peer_id: 1 }]
    );
    assert_eq!(
        m.apply(ClusterReadinessInput::ReadyObserved { peer_id: 1, freshness: 4, current_marker: 4 }),
        vec![MachineOutput::DuplicateReadyIgnored { peer_id: 1 }]
    );
    assert_eq!(
        m.apply(ClusterReadinessInput::ReadyObserved { peer_id: 3, freshness: 4, current_marker: 4 }),
        vec![
            MachineOutput::ReadyAccepted { peer_id: 3 },
            MachineOutput::ReadyQuorumReached,
            MachineOutput::ReadinessExited { mode: ReadinessExitMode::Quorum },
        ]
    );
    let snapshot = m.snapshot();
    assert_eq!(snapshot.lifecycle_state(), ReadinessLifecycleState::ReadyByQuorum);
    assert_eq!(snapshot.phase1_confirmed_count(), 1);
    assert_eq!(snapshot.phase2_confirmed_count(), 3);
    assert!(m.apply(ClusterReadinessInput::ReadyObserved { peer_id: 4, freshness: 4, current_marker: 4 }).is_empty());
    assert_eq!(m.snapshot(), snapshot);
}

#[test]
fn machine_exits_by_deadline_and_keeps_counts() {
    let mut m = machine(3);
    let _ = m.apply(ClusterReadinessInput::ParticipationObserved { peer_id: 1, freshness: 4, current_marker: 4 });
    assert_eq!(
        m.apply(ClusterReadinessInput::DeadlineExpired),
        vec![MachineOutput::ReadinessExited { mode: ReadinessExitMode::Deadline }]
    );
    let snapshot = m.snapshot();
    assert_eq!(snapshot.lifecycle_state(), ReadinessLifecycleState::ReadyByDeadline);
    assert_eq!(snapshot.exit_mode(), Some(ReadinessExitMode::Deadline));
    assert_eq!(snapshot.phase1_confirmed_count(), 1);
    assert!(!snapshot.local_participation_complete());
    assert!(m.apply(ClusterReadinessInput::DeadlineExpired).is_empty());
    assert_eq!(m.config().quorum_threshold(), 3);
}

#[test]
fn local_completion_alone_can_reach_quorum() {
    let mut m = machine(1);
    assert_eq!(
        m.apply(ClusterReadinessInput::LocalParticipationCompleted),
        vec![
            MachineOutput::LocalParticipationCompleted,
            MachineOutput::BroadcastLocalReady,
            MachineOutput::ReadyQuorumReached,
            MachineOutput::ReadinessExited { mode: ReadinessExitMode::Quorum },
        ]
    );
}

#[test]
fn exited_states_answer_observations_as_stale() {
    let config = ClusterReadinessConfig::new(0, vec![0, 1], 2, FreshnessPolicy::new(1));
    let state = ReadyByDeadline { phase1_count: 1, phase2_count: 0, local_participation_complete: true };
    assert!(!state.accept(&ClusterReadinessInput::DeadlineExpired));
    let snapshot = state.snapshot(2);
    assert_eq!(snapshot.phase1_confirmed_count(), 1);
    assert!(snapshot.local_participation_complete());
    let (outputs, _) = state.step(
        ClusterReadinessInput::ParticipationObserved { peer_id: 1, freshness: 0, current_marker: 0 },
        &config,
    );
    assert_eq!(outputs, vec![MachineOutput::StaleParticipationIgnored { peer_id: 1 }]);
    let phase1 = Phase1::new(2);
    assert!(phase1.accept(&ClusterReadinessInput::DeadlineExpired));
    assert_eq!(phase1.snapshot(2).phase1_confirmed_count(), 0);
}

#[test]
fn state_by_state_machine_agrees_with_readiness_machine() {
    let config = || ClusterReadinessConfig::new(2, vec![0, 1, 2, 3], 3, FreshnessPolicy::new(1));
    let mut whole = ClusterReadiness::new(config(), Box::new(NoOpClusterReadinessObserver));
    let mut stepped = Machine::new(config(), Box::new(NoOpMachineObserver));
    let inputs = [
        ClusterReadinessInput::ReadyObserved { peer_id: 0, freshness: 7, current_marker: 7 },
        ClusterReadinessInput::ParticipationObserved { peer_id: 1, freshness: 6, current_marker: 7 },
        ClusterReadinessInput::ParticipationObserved { peer_id: 1, freshness: 7, current_marker: 7 },
        ClusterReadinessInput::ReadyObserved { peer_id: 5, freshness: 7, current_marker: 7 },
        ClusterReadinessInput::ReadyObserved { peer_id: 3, freshness: 2, current_marker: 7 },
        ClusterReadinessInput::LocalParticipationCompleted,
        ClusterReadinessInput::ReadyObserved { peer_id: 0, freshness: 7, current_marker: 7 },
        ClusterReadinessInput::ReadyObserved { peer_id: 3, freshness: 6, current_marker: 7 },
    ];
    for input in inputs {
        let expected: Vec<String> = whole.apply(input).outputs().iter().map(|o| format!("{:?}", o)).collect();
        let actual: Vec<String> = stepped.apply(input).iter().map(|o| format!("{:?}", o)).collect();
        assert_eq!(actual, expected);
        assert_eq!(stepped.snapshot(), whole.snapshot());
    }
    assert_eq!(stepped.snapshot().lifecycle_state(), ReadinessLifecycleState::ReadyByQuorum);
}

#[test]
fn quorum_exit_answers_under_any_config() {
    let exited = ReadyByQuorum { phase1: ConfirmedSet::new(2), phase2: ConfirmedSet::new(2) };
    let other = ClusterReadinessConfig::new(7, vec![7, 8, 9, 10, 11, 12], 4, FreshnessPolicy::new(0));

    let (outputs, next) = exited.step(
        ClusterReadinessInput::ReadyObserved { peer_id: 8, freshness: 1, current_marker: 1 },
        &other,
    );

    assert_eq!(outputs, vec![MachineOutput::StaleReadyIgnored { peer_id: 8 }]);
    assert_eq!(next.snapshot(4).lifecycle_state(), ReadinessLifecycleState::ReadyByQuorum);
    assert!(next.snapshot(4).readiness_exited());
}

struct MachineLog(Rc<RefCell<Vec<MachineTransition>>>);

impl MachineObserver for MachineLog {
    fn observe(&mut self, _input: ClusterReadinessInput, transition: MachineTransition) {
        self.0.borrow_mut().push(transition);
    }
}

struct ReadinessLog(Rc<RefCell<Vec<ClusterReadinessTransition>>>);

impl ClusterReadinessObserver for ReadinessLog {
    fn observe(&mut self, _input: ClusterReadinessInput, transition: ClusterReadinessTransition) {
        self.0.borrow_mut().push(transition);
    }
}

#[test]
fn machine_observer_sees_accepted_inputs_only() {
    let log = Rc::new(RefCell::new(Vec::new()));
    let mut m = Machine::new(
        ClusterReadinessConfig::new(0, vec![0, 1, 2, 3, 4], 3, FreshnessPolicy::new(2)),
        Box::new(MachineLog(log.clone())),
    );
    let outputs = m.apply(ClusterReadinessInput::ParticipationObserved { peer_id: 1, freshness: 4, current_marker: 4 });
    assert_eq!(log.borrow().len(), 1);
    {
        let seen = log.borrow();
        assert_eq!(seen[0].outputs(), outputs.as_slice());
        assert_eq!(seen[0].previous_state().phase1_confirmed_count(), 0);
        assert_eq!(seen[0].new_state().phase1_confirmed_count(), 1);
    }
    let _ = m.apply(ClusterReadinessInput::DeadlineExpired);
    assert_eq!(log.borrow().len(), 2);
    let refused = m.apply(ClusterReadinessInput::ReadyObserved { peer_id: 2, freshness: 4, current_marker: 4 });
    assert!(refused.is_empty());
    assert_eq!(log.borrow().len(), 2);
}

#[test]
fn readiness_observer_sees_every_input() {
    let log = Rc::new(RefCell::new(Vec::new()));
    let mut r = ClusterReadiness::new(
        ClusterReadinessConfig::new(0, vec![0, 1, 2, 3, 4], 3, FreshnessPolicy::new(2)),
        Box::new(ReadinessLog(log.clone())),
    );
    let _ = r.apply(ClusterReadinessInput::DeadlineExpired);
    let batch = r.apply(ClusterReadinessInput::ReadyObserved { peer_id: 2, freshness: 4, current_marker: 4 });
    let seen = log.borrow();
    assert_eq!(seen.len(), 2);
    assert_eq!(seen[1].outputs(), batch.outputs());
    assert!(seen[1].previous_state().readiness_exited());
    assert_eq!(seen[1].new_state(), r.snapshot());
}
