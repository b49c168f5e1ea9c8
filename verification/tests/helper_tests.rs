use faction::cluster_view_builder::ClusterViewBuilder;
use faction::command::Command;
use faction::conclusion::Conclusion;
use faction::config::Config;
use faction::freshness_classification::FreshnessClassification;
use faction::freshness_policy::FreshnessPolicy;
use faction::machine_output::MachineOutput;
use faction::machine_snapshot::MachineSnapshot;
use faction::members::Members;
use faction::outcome::Outcome;
use faction::output_batch::OutputBatch;
use faction::peer_state::PeerState;
use faction::quorum_policy::QuorumPolicy;
use faction::readiness_exit_mode::ReadinessExitMode;
use faction::readiness_lifecycle_state::ReadinessLifecycleState;
use faction::states::bitmap::Bitmap;
use faction::states::collecting_step::CollectingStep;
use faction::states::compute::observed_output;
use faction::states::compute::ObservedKind as VibeKind;
use faction::states::compute_output::ObservedKind;
use faction::states::compute_output::ObservedOutput;
use faction::states::confirmed_set::ConfirmedSet as PeerConfirmedSet;
use faction::states::helpers::compute_output::ObservedKind as MachineKind;
use faction::states::helpers::compute_output::ObservedOutput as MachineObservedOutput;
use faction::states::helpers::confirmed_set::ConfirmedSet;
use faction::states::join_step::JoinStep;
use faction::states::local_completion_step::LocalCompletionStep;
use faction::states::observed_step::ObservedStep;
use faction::states::pinging_step::PingingStep;

#[test]
fn freshness_policy_classifies_by_age() {
    let policy = FreshnessPolicy::new(3);
    assert_eq!(policy.max_delay(), 3);
    assert_eq!(policy.classify(10, 10), FreshnessClassification::Timely);
    assert_eq!(policy.classify(10, 7), FreshnessClassification::DelayedWithinMargin);
    assert_eq!(policy.classify(10, 6), FreshnessClassification::Stale);
    assert_eq!(policy.classify(10, 11), FreshnessClassification::Stale);
    assert_eq!(FreshnessPolicy::new(0).classify(5, 4), FreshnessClassification::Stale);
}

#[test]
fn quorum_policy_is_satisfied_at_threshold() {
    let policy = QuorumPolicy::new(3);
    assert_eq!(policy.threshold(), 3);
    assert!(!policy.is_satisfied(2));
    assert!(policy.is_satisfied(3));
    assert!(policy.is_satisfied(4));
}

#[test]
fn config_answers_membership() {
    let config = Config::new(2, vec![1, 2, 3], QuorumPolicy::new(2));
    assert_eq!(config.peer_id(), 2);
    assert_eq!(config.peers(), &[1, 2, 3]);
    assert_eq!(config.peer_count(), 3);
    assert_eq!(config.required_count(), 2);
    assert_eq!(config.quorum_policy(), QuorumPolicy::new(2));
    assert!(config.is_member(3));
    assert!(!config.is_member(4));
}

#[test]
fn members_admit_each_peer_once() {
    let members = Members::new(vec![1, 2]);
    assert!(members.is_member(2));
    assert!(!members.is_member(5));
    let grown = members.with_admitted(5);
    assert_eq!(grown.as_slice(), &[1, 2, 5]);
    assert_eq!(grown.with_admitted(2).as_slice(), &[1, 2, 5]);
    assert_eq!(grown.len(), 3);
    assert!(!grown.is_empty());
    assert!(Members::new(Vec::new()).is_empty());
}

#[test]
fn builder_reports_missed_deadline_as_timed_out_unless_bootstrapped() {
    let view = ClusterViewBuilder::new().with_peer_state(PeerState::Collecting).with_deadline_missed(true).build();
    assert_eq!(view.peer_state(), PeerState::TimedOut);
    let view = ClusterViewBuilder::new().with_peer_state(PeerState::Bootstrapped).with_deadline_missed(true).build();
    assert_eq!(view.peer_state(), PeerState::Bootstrapped);
    assert_eq!(view.conclusion(), Some(Conclusion::Bootstrapped));
    let view = ClusterViewBuilder::default()
        .with_is_pinging_completed(true)
        .with_pinging_peers(vec![1])
        .with_collecting_peers(vec![2, 3])
        .with_required_count(2)
        .with_members(Members::new(vec![1, 2, 3]))
        .build();
    assert_eq!(view.peer_state(), PeerState::Fresh);
    assert!(view.is_pinging_completed());
    assert_eq!(view.pinging_peers(), &[1]);
    assert_eq!(view.collecting_peers(), &[2, 3]);
    assert_eq!(view.required_count(), 2);
    let copy = ClusterViewBuilder::from_view(&view).build();
    assert_eq!(copy, view);
}

#[test]
fn bitmap_counts_each_flag_once() {
    let bitmap = Bitmap::new(3);
    assert_eq!(bitmap.len(), 3);
    assert_eq!(bitmap.count(), 0);
    let (bitmap, changed) = bitmap.set(1);
    assert!(changed);
    assert!(bitmap.is_set(1));
    assert!(!bitmap.is_set(0));
    assert!(!bitmap.is_set(7));
    let (bitmap, changed) = bitmap.set(1);
    assert!(!changed);
    let (bitmap, changed) = bitmap.set(9);
    assert!(!changed);
    let (bitmap, _) = bitmap.set(2);
    assert_eq!(bitmap.count(), 2);
    assert_eq!(bitmap.set_indices(), vec![1, 2]);
    assert_eq!(bitmap.peer_ids(&[10, 11, 12]), vec![11, 12]);
}

#[test]
fn positional_confirmed_set_confirms_fresh_observations() {
    let set = ConfirmedSet::new(3);
    let (set, changed) = set.try_confirm(Some(1), false, Some(FreshnessClassification::Timely));
    assert!(changed);
    assert!(set.is_confirmed(1));
    let (set, changed) = set.try_confirm(Some(2), false, Some(FreshnessClassification::Stale));
    assert!(!changed);
    let (set, changed) = set.try_confirm(None, false, Some(FreshnessClassification::Timely));
    assert!(!changed);
    let (set, changed) = set.try_confirm(Some(2), true, Some(FreshnessClassification::DelayedWithinMargin));
    assert!(!changed);
    assert_eq!(set.count(), 1);
    let (set, changed) = set.confirm(0);
    assert!(changed);
    let (set, changed) = set.confirm(0);
    assert!(!changed);
    assert_eq!(set.count(), 2);
}

#[test]
fn peer_confirmed_set_keeps_confirmation_order() {
    let set = PeerConfirmedSet::new();
    let (set, new) = set.confirm(7);
    assert!(new);
    let (set, new) = set.confirm(7);
    assert!(!new);
    let (set, new) = set.try_confirm(8, FreshnessClassification::Stale);
    assert!(!new);
    let (set, new) = set.try_confirm(3, FreshnessClassification::DelayedWithinMargin);
    assert!(new);
    assert_eq!(set.confirmed_peers(), &[7, 3]);
    assert_eq!(set.count(), 2);
    assert!(set.is_confirmed(3));
    assert!(!set.is_confirmed(8));
}

#[test]
fn observation_outputs_follow_precedence() {
    assert_eq!(
        observed_output(VibeKind::Participation, 5, None, Some(FreshnessClassification::Stale), true),
        vec![MachineOutput::NonMemberIgnored { peer_id: 5 }]
    );
    assert_eq!(
        observed_output(VibeKind::Ready, 5, Some(0), Some(FreshnessClassification::Stale), true),
        vec![MachineOutput::StaleReadyIgnored { peer_id: 5 }]
    );
    assert_eq!(
        observed_output(VibeKind::Participation, 5, Some(0), Some(FreshnessClassification::Timely), true),
        vec![MachineOutput::DuplicateParticipationIgnored { peer_id: 5 }]
    );
    assert_eq!(
        observed_output(VibeKind::Participation, 5, Some(0), Some(FreshnessClassification::DelayedWithinMargin), false),
        vec![MachineOutput::DelayedParticipationAccepted { peer_id: 5 }]
    );
    let ready = MachineObservedOutput::new(MachineKind::Ready, 4);
    assert_eq!(
        ready.compute_output(Some(1), Some(FreshnessClassification::Timely), false),
        MachineOutput::ReadyAccepted { peer_id: 4 }
    );
    assert_eq!(
        ready.compute_output(Some(1), None, false),
        MachineOutput::DelayedReadyAccepted { peer_id: 4 }
    );
    assert_eq!(
        ObservedOutput::new(ObservedKind::Participation, 3, FreshnessClassification::Timely, true).outcome(),
        &Outcome::DuplicateParticipationIgnored { peer_id: 3 }
    );
    assert_eq!(
        ObservedOutput::new(ObservedKind::Ready, 3, FreshnessClassification::Stale, false).into_outcome(),
        Outcome::StaleReadyIgnored { peer_id: 3 }
    );
}

#[test]
fn observed_step_reaches_quorum_on_a_new_confirmation() {
    let step = ObservedStep::new(FreshnessClassification::Timely, vec![1, 2], 3, ObservedKind::Ready, Some(3));
    assert!(step.is_quorum());
    assert_eq!(step.confirmed_peers(), &[1, 2, 3]);
    assert_eq!(
        step.outcomes(),
        &[Outcome::ReadyAccepted { peer_id: 3 }, Outcome::Concluded { mode: Conclusion::Bootstrapped }]
    );
    let stale = ObservedStep::new(FreshnessClassification::Stale, vec![1, 2], 3, ObservedKind::Ready, Some(3));
    assert!(!stale.is_quorum());
    assert_eq!(stale.confirmed_peers(), &[1, 2]);
    assert_eq!(stale.outcomes(), &[Outcome::StaleReadyIgnored { peer_id: 3 }]);
    let unbounded = ObservedStep::new(
        FreshnessClassification::DelayedWithinMargin,
        vec![1],
        2,
        ObservedKind::Participation,
        None,
    );
    assert!(!unbounded.is_quorum());
    assert_eq!(unbounded.outcomes(), &[Outcome::DelayedParticipationAccepted { peer_id: 2 }]);
    let local = ObservedStep::new_local(vec![1], 0, 2);
    assert!(local.is_quorum());
    assert_eq!(local.outcomes().len(), 3);
}

#[test]
fn step_helpers_report_duplicates_and_quorum() {
    let pinging = PingingStep::new(vec![1], 1);
    assert_eq!(pinging.outcomes(), &[Outcome::DuplicateParticipationIgnored { peer_id: 1 }]);
    assert_eq!(pinging.confirmed_peers(), &[1]);
    let local = LocalCompletionStep::new(vec![0, 1], 0, 3);
    assert!(!local.is_quorum());
    assert_eq!(local.confirmed_peers(), &[0, 1]);
    assert_eq!(local.outcomes(), &[Outcome::LocalParticipationCompleted, Outcome::BroadcastLocalReady]);
    let collecting = CollectingStep::new(vec![0, 1], 2, None);
    assert!(!collecting.is_quorum());
    assert_eq!(collecting.confirmed_peers(), &[0, 1, 2]);
    assert_eq!(collecting.outcomes(), &[Outcome::ReadyAccepted { peer_id: 2 }]);
    let dup = CollectingStep::new(vec![0, 1], 1, Some(2));
    assert!(!dup.is_quorum());
    assert_eq!(dup.outcomes(), &[Outcome::DuplicateReadyIgnored { peer_id: 1 }]);
    let join = JoinStep::new(Members::new(vec![1]), &Command::JoinApproved { peer_id: 4 });
    assert_eq!(join.outcomes(), &[Outcome::MemberAdmitted { peer_id: 4 }]);
    assert_eq!(join.members().as_slice(), &[1, 4]);
}

#[test]
fn output_batch_and_snapshot_accessors() {
    let batch = OutputBatch::default();
    assert!(batch.is_empty());
    assert_eq!(batch, OutputBatch::new());
    let snapshot = MachineSnapshot::new(ReadinessLifecycleState::Phase1Active, None, false, false, 1, 2, 3)
        .with_lifecycle_state(ReadinessLifecycleState::ReadyByDeadline)
        .with_exit_mode(Some(ReadinessExitMode::Deadline))
        .with_local_participation_complete(true)
        .with_readiness_exited(true)
        .with_phase1_count(4)
        .with_phase2_count(5);
    assert_eq!(snapshot.lifecycle_state(), ReadinessLifecycleState::ReadyByDeadline);
    assert_eq!(snapshot.exit_mode(), Some(ReadinessExitMode::Deadline));
    assert!(snapshot.local_participation_complete());
    assert!(snapshot.readiness_exited());
    assert_eq!(snapshot.phase1_confirmed_count(), 4);
    assert_eq!(snapshot.phase2_confirmed_count(), 5);
    assert_eq!(snapshot.quorum_threshold(), 3);
}
