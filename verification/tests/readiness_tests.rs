use faction::cluster_readiness::ClusterReadiness;
use faction::cluster_readiness_config::ClusterReadinessConfig;
use faction::cluster_readiness_input::ClusterReadinessInput;
use faction::cluster_readiness_output::ClusterReadinessOutput;
use faction::freshness_policy::FreshnessPolicy;
use faction::no_op_cluster_readiness_observer::NoOpClusterReadinessObserver;
use faction::readiness_exit_mode::ReadinessExitMode;
use faction::readiness_lifecycle_state::ReadinessLifecycleState;

fn readiness(threshold: usize) -> ClusterReadiness {
    ClusterReadiness::new(
        ClusterReadinessConfig::new(0, vec![0, 1, 2, 3, 4], threshold, FreshnessPolicy::new(2)),
        Box::new(NoOpClusterReadinessObserver),
    )
}

fn participation(peer_id: u64, freshness: u64, current_marker: u64) -> ClusterReadinessInput {
    ClusterReadinessInput::ParticipationObserved { peer_id, freshness, current_marker }
}

fn ready(peer_id: u64, freshness: u64, current_marker: u64) -> ClusterReadinessInput {
    ClusterReadinessInput::ReadyObserved { peer_id, freshness, current_marker }
}

#[test]
fn participation_is_classified_by_freshness() {
    let mut r = readiness(3);
    assert_eq!(
        r.apply(participation(1, 5, 5)).outputs(),
        &[ClusterReadinessOutput::ParticipationAccepted { peer_id: 1 }]
    );
    assert_eq!(
        r.apply(participation(2, 4, 5)).outputs(),
        &[ClusterReadinessOutput::DelayedParticipationAccepted { peer_id: 2 }]
    );
    assert_eq!(
        r.apply(participation(3, 2, 5)).outputs(),
        &[ClusterReadinessOutput::StaleParticipationIgnored { peer_id: 3 }]
    );
    assert_eq!(
        r.apply(participation(3, 6, 5)).outputs(),
        &[ClusterReadinessOutput::StaleParticipationIgnored { peer_id: 3 }]
    );
    assert_eq!(
        r.apply(participation(1, 5, 5)).outputs(),
        &[ClusterReadinessOutput::DuplicateParticipationIgnored { peer_id: 1 }]
    );
    assert_eq!(
        r.apply(participation(9, 5, 5)).outputs(),
        &[ClusterReadinessOutput::NonMemberIgnored { peer_id: 9 }]
    );
    let snapshot = r.snapshot();
    assert_eq!(snapshot.phase1_confirmed_count(), 2);
    assert_eq!(snapshot.phase2_confirmed_count(), 0);
    assert_eq!(snapshot.lifecycle_state(), ReadinessLifecycleState::Phase1Active);
    assert!(!snapshot.readiness_exited());
    assert_eq!(snapshot.quorum_threshold(), 3);
}

#[test]
fn local_completion_exits_on_quorum_of_early_ready_signals() {
    let mut r = readiness(3);
    assert_eq!(r.apply(ready(1, 5, 5)).outputs(), &[ClusterReadinessOutput::ReadyAccepted { peer_id: 1 }]);
    assert_eq!(
        r.apply(ready(2, 4, 5)).outputs(),
        &[ClusterReadinessOutput::DelayedReadyAccepted { peer_id: 2 }]
    );
    let batch = r.apply(ClusterReadinessInput::LocalParticipationCompleted);
    assert_eq!(
        batch.outputs(),
        &[
            ClusterReadinessOutput::LocalParticipationCompleted,
            ClusterReadinessOutput::BroadcastLocalReady,
            ClusterReadinessOutput::ReadyQuorumReached,
            ClusterReadinessOutput::ReadinessExited { mode: ReadinessExitMode::Quorum },
        ]
    );
    let snapshot = r.snapshot();
    assert_eq!(snapshot.lifecycle_state(), ReadinessLifecycleState::ReadyByQuorum);
    assert_eq!(snapshot.exit_mode(), Some(ReadinessExitMode::Quorum));
    assert!(snapshot.readiness_exited());
    assert!(snapshot.local_participation_complete());
    assert_eq!(snapshot.phase2_confirmed_count(), 3);
}

#[test]
fn ready_signal_completes_quorum_after_local_completion() {
    let mut r = readiness(3);
    let batch = r.apply(ClusterReadinessInput::LocalParticipationCompleted);
    assert_eq!(batch.len(), 2);
    assert_eq!(r.snapshot().lifecycle_state(), ReadinessLifecycleState::Phase2Active);
    assert!(r.apply(ClusterReadinessInput::LocalParticipationCompleted).is_empty());
    let _ = r.apply(ready(1, 5, 5));
    assert_eq!(
        r.apply(ready(1, 5, 5)).outputs(),
        &[ClusterReadinessOutput::DuplicateReadyIgnored { peer_id: 1 }]
    );
    let batch = r.apply(ready(2, 4, 5));
    assert_eq!(
        batch.outputs(),
        &[
            ClusterReadinessOutput::DelayedReadyAccepted { peer_id: 2 },
            ClusterReadinessOutput::ReadyQuorumReached,
            ClusterReadinessOutput::ReadinessExited { mode: ReadinessExitMode::Quorum },
        ]
    );
    assert_eq!(batch.get(1), Some(ClusterReadinessOutput::ReadyQuorumReached));
    assert_eq!(batch.get(3), None);
}

#[test]
fn exited_machine_ignores_everything() {
    let mut r = readiness(3);
    assert_eq!(
        r.apply(ClusterReadinessInput::DeadlineExpired).outputs(),
        &[ClusterReadinessOutput::ReadinessExited { mode: ReadinessExitMode::Deadline }]
    );
    let snapshot = r.snapshot();
    assert_eq!(snapshot.lifecycle_state(), ReadinessLifecycleState::ReadyByDeadline);
    assert_eq!(snapshot.exit_mode(), Some(ReadinessExitMode::Deadline));
    assert!(r.apply(ClusterReadinessInput::DeadlineExpired).is_empty());
    assert!(r.apply(ClusterReadinessInput::LocalParticipationCompleted).is_empty());
    assert_eq!(
        r.apply(participation(1, 5, 5)).outputs(),
        &[ClusterReadinessOutput::StaleParticipationIgnored { peer_id: 1 }]
    );
    assert_eq!(r.apply(ready(1, 5, 5)).outputs(), &[ClusterReadinessOutput::StaleReadyIgnored { peer_id: 1 }]);
    assert_eq!(r.snapshot(), snapshot);
}

#[test]
fn configuration_is_kept() {
    let r = readiness(4);
    let config = r.config();
    assert_eq!(config.local_peer_id(), 0);
    assert_eq!(config.peer_count(), 5);
    assert_eq!(config.quorum_threshold(), 4);
    assert_eq!(config.freshness_policy().max_delay(), 2);
    assert_eq!(config.peer_index(3), Some(3));
    assert_eq!(config.peer_index(8), None);
    assert!(config.is_member(4));
    assert_eq!(config.peers(), &[0, 1, 2, 3, 4]);
}

#[test]
fn local_completion_happens_once() {
    let mut r = readiness(3);
    assert_eq!(
        r.apply(ClusterReadinessInput::LocalParticipationCompleted).outputs(),
        &[ClusterReadinessOutput::LocalParticipationCompleted, ClusterReadinessOutput::BroadcastLocalReady]
    );
    assert_eq!(r.snapshot().phase2_confirmed_count(), 1);
    assert!(r.apply(ClusterReadinessInput::LocalParticipationCompleted).outputs().is_empty());
    let snapshot = r.snapshot();
    assert_eq!(snapshot.phase2_confirmed_count(), 1);
    assert_eq!(snapshot.lifecycle_state(), ReadinessLifecycleState::Phase2Active);
    assert!(snapshot.local_participation_complete());
}
