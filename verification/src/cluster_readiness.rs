use vstd::prelude::*;

use crate::cluster_readiness_config::{first_index, lemma_first_index, ClusterReadinessConfig, ReadinessConfigModel};
use crate::cluster_readiness_input::ClusterReadinessInput;
use crate::cluster_readiness_observer::{ClusterReadinessObserver, ReadinessNotice};
use crate::cluster_readiness_output::ClusterReadinessOutput;
use crate::cluster_readiness_snapshot::ClusterReadinessSnapshot;
use crate::cluster_readiness_transition::ClusterReadinessTransition;
use crate::freshness_classification::FreshnessClassification;
use crate::freshness_policy::classification;
use crate::machine_snapshot::SnapshotModel;
use crate::output_batch::OutputBatch;
use crate::readiness_exit_mode::ReadinessExitMode;
use crate::readiness_lifecycle_state::ReadinessLifecycleState;
use crate::states::bitmap::{count_set, lemma_count_set_all_clear, lemma_count_set_update, Bitmap};
use crate::types::{Freshness, PeerId};

verus! {

/// A node's two-phase readiness: participation (phase 1) and ready (phase 2) confirmations
/// per peer, with freshness checks, exiting on a ready quorum or on the deadline.
pub struct ClusterReadiness {
    observer: Box<dyn ClusterReadinessObserver>,
    core: ReadinessCore,
}

/// The configuration and the progress of a machine, which always satisfy `readiness_inv`.
struct ReadinessCore {
    config: ClusterReadinessConfig,
    progress: Progress,
}

/// What a machine has seen so far.
struct Progress {
    lifecycle_state: ReadinessLifecycleState,
    exit_mode: Option<ReadinessExitMode>,
    local_participation_complete: bool,
    phase1_confirmed: Bitmap,
    phase2_confirmed: Bitmap,
}

/// The values a [`ClusterReadiness`] holds; the observer is not part of them.
pub struct ReadinessModel {
    pub config: ReadinessConfigModel,
    pub lifecycle_state: ReadinessLifecycleState,
    pub exit_mode: Option<ReadinessExitMode>,
    pub local_participation_complete: bool,
    pub phase1: Seq<bool>,
    pub phase2: Seq<bool>,
}

/// What holds of every readiness machine: no more peers than a `usize` counts, one flag per
/// peer in each phase, a lifecycle state that matches the exit, and a quorum exit only after
/// local completion with enough ready confirmations; while it has not exited after local
/// completion, there is no quorum yet.
pub open spec fn readiness_inv(m: ReadinessModel) -> bool {
    &&& m.config.peers.len() <= usize::MAX
    &&& m.phase1.len() == m.config.peers.len()
    &&& m.phase2.len() == m.config.peers.len()
    &&& match m.exit_mode {
        None => {
            &&& m.lifecycle_state == if m.local_participation_complete {
                ReadinessLifecycleState::Phase2Active
            } else {
                ReadinessLifecycleState::Phase1Active
            }
            &&& m.local_participation_complete ==> count_set(m.phase2) < m.config.quorum_threshold
        },
        Some(ReadinessExitMode::Quorum) => {
            &&& m.lifecycle_state == ReadinessLifecycleState::ReadyByQuorum
            &&& m.local_participation_complete
            &&& count_set(m.phase2) >= m.config.quorum_threshold
        },
        Some(ReadinessExitMode::Deadline) => m.lifecycle_state == ReadinessLifecycleState::ReadyByDeadline,
    }
}

/// The machine a configuration starts: phase 1, nothing confirmed.
pub open spec fn readiness_initial(config: ReadinessConfigModel) -> ReadinessModel {
    ReadinessModel {
        config,
        lifecycle_state: ReadinessLifecycleState::Phase1Active,
        exit_mode: None,
        local_participation_complete: false,
        phase1: Seq::new(config.peers.len(), |i: int| false),
        phase2: Seq::new(config.peers.len(), |i: int| false),
    }
}

/// The snapshot a machine reports.
pub open spec fn readiness_snapshot(m: ReadinessModel) -> SnapshotModel {
    SnapshotModel {
        lifecycle_state: m.lifecycle_state,
        exit_mode: m.exit_mode,
        local_participation_complete: m.local_participation_complete,
        readiness_exited: m.exit_mode is Some,
        phase1_confirmed_count: count_set(m.phase1) as usize,
        phase2_confirmed_count: count_set(m.phase2) as usize,
        quorum_threshold: m.config.quorum_threshold,
    }
}

/// The machine after a quorum exit.
pub open spec fn exited_by_quorum(m: ReadinessModel) -> ReadinessModel {
    ReadinessModel {
        exit_mode: Some(ReadinessExitMode::Quorum),
        lifecycle_state: ReadinessLifecycleState::ReadyByQuorum,
        ..m
    }
}

/// The outputs that close a quorum exit.
pub open spec fn quorum_exit_outputs() -> Seq<ClusterReadinessOutput> {
    seq![
        ClusterReadinessOutput::ReadyQuorumReached,
        ClusterReadinessOutput::ReadinessExited { mode: ReadinessExitMode::Quorum },
    ]
}

/// The effect of a participation observation.
pub open spec fn participation_step(m: ReadinessModel, peer_id: PeerId, freshness: Freshness, current: Freshness)
    -> (ReadinessModel, Seq<ClusterReadinessOutput>)
{
    let c = classification(m.config.max_delay, current, freshness);
    let i = first_index(m.config.peers, peer_id).unwrap() as int;
    if m.exit_mode is Some {
        (m, seq![ClusterReadinessOutput::StaleParticipationIgnored { peer_id }])
    } else if !m.config.peers.contains(peer_id) {
        (m, seq![ClusterReadinessOutput::NonMemberIgnored { peer_id }])
    } else if c == FreshnessClassification::Stale {
        (m, seq![ClusterReadinessOutput::StaleParticipationIgnored { peer_id }])
    } else if m.phase1[i] {
        (m, seq![ClusterReadinessOutput::DuplicateParticipationIgnored { peer_id }])
    } else {
        (
            ReadinessModel { phase1: m.phase1.update(i, true), ..m },
            seq![
                if c == FreshnessClassification::Timely {
                    ClusterReadinessOutput::ParticipationAccepted { peer_id }
                } else {
                    ClusterReadinessOutput::DelayedParticipationAccepted { peer_id }
                },
            ],
        )
    }
}

/// The effect of a ready observation.
pub open spec fn ready_step(m: ReadinessModel, peer_id: PeerId, freshness: Freshness, current: Freshness)
    -> (ReadinessModel, Seq<ClusterReadinessOutput>)
{
    let c = classification(m.config.max_delay, current, freshness);
    let i = first_index(m.config.peers, peer_id).unwrap() as int;
    let accepted = if c == FreshnessClassification::Timely {
        ClusterReadinessOutput::ReadyAccepted { peer_id }
    } else {
        ClusterReadinessOutput::DelayedReadyAccepted { peer_id }
    };
    let confirmed = ReadinessModel { phase2: m.phase2.update(i, true), ..m };
    if m.exit_mode is Some {
        (m, seq![ClusterReadinessOutput::StaleReadyIgnored { peer_id }])
    } else if !m.config.peers.contains(peer_id) {
        (m, seq![ClusterReadinessOutput::NonMemberIgnored { peer_id }])
    } else if c == FreshnessClassification::Stale {
        (m, seq![ClusterReadinessOutput::StaleReadyIgnored { peer_id }])
    } else if m.phase2[i] {
        (m, seq![ClusterReadinessOutput::DuplicateReadyIgnored { peer_id }])
    } else if m.local_participation_complete && count_set(confirmed.phase2) >= m.config.quorum_threshold {
        (exited_by_quorum(confirmed), seq![accepted] + quorum_exit_outputs())
    } else {
        (confirmed, seq![accepted])
    }
}

/// The ready flags after local completion: the local peer's own flag is set where it is a peer.
pub open spec fn with_local_ready(phase2: Seq<bool>, config: ReadinessConfigModel) -> Seq<bool> {
    match first_index(config.peers, config.local_peer_id) {
        Some(i) => phase2.update(i as int, true),
        None => phase2,
    }
}

/// The effect of local completion.
pub open spec fn local_completion_step(m: ReadinessModel) -> (ReadinessModel, Seq<ClusterReadinessOutput>) {
    let completed = ReadinessModel {
        local_participation_complete: true,
        lifecycle_state: ReadinessLifecycleState::Phase2Active,
        phase2: with_local_ready(m.phase2, m.config),
        ..m
    };
    let outputs = seq![
        ClusterReadinessOutput::LocalParticipationCompleted,
        ClusterReadinessOutput::BroadcastLocalReady,
    ];
    if m.exit_mode is Some || m.local_participation_complete {
        (m, Seq::empty())
    } else if count_set(completed.phase2) >= m.config.quorum_threshold {
        (exited_by_quorum(completed), outputs + quorum_exit_outputs())
    } else {
        (completed, outputs)
    }
}

/// The effect of the deadline.
pub open spec fn deadline_step(m: ReadinessModel) -> (ReadinessModel, Seq<ClusterReadinessOutput>) {
    if m.exit_mode is Some {
        (m, Seq::empty())
    } else {
        (
            ReadinessModel {
                exit_mode: Some(ReadinessExitMode::Deadline),
                lifecycle_state: ReadinessLifecycleState::ReadyByDeadline,
                ..m
            },
            seq![ClusterReadinessOutput::ReadinessExited { mode: ReadinessExitMode::Deadline }],
        )
    }
}

/// The effect of an input: the next machine and the outputs.
pub open spec fn readiness_step(m: ReadinessModel, input: ClusterReadinessInput) -> (
    ReadinessModel,
    Seq<ClusterReadinessOutput>,
) {
    match input {
        ClusterReadinessInput::ParticipationObserved { peer_id, freshness, current_marker } => participation_step(
            m,
            peer_id,
            freshness,
            current_marker,
        ),
        ClusterReadinessInput::ReadyObserved { peer_id, freshness, current_marker } => ready_step(
            m,
            peer_id,
            freshness,
            current_marker,
        ),
        ClusterReadinessInput::LocalParticipationCompleted => local_completion_step(m),
        ClusterReadinessInput::DeadlineExpired => deadline_step(m),
    }
}

impl View for ClusterReadiness {
    type V = ReadinessModel;

    closed spec fn view(&self) -> ReadinessModel {
        self.core@
    }
}

impl View for ReadinessCore {
    type V = ReadinessModel;

    closed spec fn view(&self) -> ReadinessModel {
        self.progress.model(self.config@)
    }
}

impl ReadinessCore {
    #[verifier::type_invariant]
    closed spec fn wf(self) -> bool {
        readiness_inv(self@)
    }

    fn apply(&mut self, input: ClusterReadinessInput) -> (r: OutputBatch)
        ensures
            readiness_inv(old(self)@),
            readiness_inv(final(self)@),
            final(self)@ == readiness_step(old(self)@, input).0,
            r@ == readiness_step(old(self)@, input).1,
    {
        proof {
            use_type_invariant(&*self);
            lemma_readiness_step_inv(self@, input);
        }
        let mut progress = self.progress.duplicate();
        let outputs = progress.apply(&self.config, input);
        self.progress = progress;
        outputs
    }

    fn snapshot(&self) -> (r: ClusterReadinessSnapshot)
        ensures
            r@ == readiness_snapshot(self@),
            readiness_inv(self@),
    {
        proof {
            use_type_invariant(self);
        }
        let p = &self.progress;
        ClusterReadinessSnapshot::new(
            p.lifecycle_state,
            p.exit_mode,
            p.local_participation_complete,
            p.exit_mode.is_some(),
            p.phase1_confirmed.count(),
            p.phase2_confirmed.count(),
            self.config.quorum_threshold(),
        )
    }
}

impl ClusterReadiness {
    pub fn new(config: ClusterReadinessConfig, observer: Box<dyn ClusterReadinessObserver>) -> (r: Self)
        ensures
            r@ == readiness_initial(config@),
            readiness_inv(r@),
    {
        let peer_count = config.peer_count();
        let phase1_confirmed = Bitmap::new(peer_count);
        let phase2_confirmed = Bitmap::new(peer_count);
        assert(phase1_confirmed@ =~= Seq::new(config@.peers.len(), |i: int| false));
        assert(phase2_confirmed@ =~= Seq::new(config@.peers.len(), |i: int| false));
        proof {
            lemma_count_set_all_clear(phase2_confirmed@);
        }
        let progress = Progress {
            lifecycle_state: ReadinessLifecycleState::Phase1Active,
            exit_mode: None,
            local_participation_complete: false,
            phase1_confirmed,
            phase2_confirmed,
        };
        ClusterReadiness { observer, core: ReadinessCore { config, progress } }
    }

    /// Whether this machine's observer keeps a record of what it is told.
    pub closed spec fn keeps_notices(&self) -> bool {
        (*self.observer).keeps_notices()
    }

    /// What this machine's observer has been told, where it keeps a record.
    pub closed spec fn notices(&self) -> Seq<ReadinessNotice> {
        (*self.observer).notices()
    }

    /// Applies one input; the observer is told exactly once, of the snapshots before and after
    /// the input and of the outputs.
    pub fn apply(&mut self, input: ClusterReadinessInput) -> (r: OutputBatch)
        ensures
            readiness_inv(old(self)@),
            readiness_inv(final(self)@),
            final(self)@ == readiness_step(old(self)@, input).0,
            r@ == readiness_step(old(self)@, input).1,
            old(self).keeps_notices() ==> final(self).keeps_notices() && final(self).notices() == old(
                self,
            ).notices().push(
                ReadinessNotice {
                    input,
                    previous_state: readiness_snapshot(old(self)@),
                    outputs: r@,
                    new_state: readiness_snapshot(final(self)@),
                },
            ),
    {
        let previous_state = self.core.snapshot();
        let outputs = self.core.apply(input);
        let new_state = self.core.snapshot();
        let transition = ClusterReadinessTransition::new(
            previous_state,
            vstd::slice::slice_to_vec(outputs.outputs()),
            new_state,
        );
        self.observer.observe(input, transition);
        outputs
    }

    pub fn snapshot(&self) -> (r: ClusterReadinessSnapshot)
        ensures
            r@ == readiness_snapshot(self@),
            readiness_inv(self@),
    {
        self.core.snapshot()
    }

    pub fn config(&self) -> (r: &ClusterReadinessConfig)
        ensures
            r@ == self@.config,
    {
        &self.core.config
    }
}

impl Progress {
    /// The machine these values make under `config`.
    spec fn model(self, config: ReadinessConfigModel) -> ReadinessModel {
        ReadinessModel {
            config,
            lifecycle_state: self.lifecycle_state,
            exit_mode: self.exit_mode,
            local_participation_complete: self.local_participation_complete,
            phase1: self.phase1_confirmed@,
            phase2: self.phase2_confirmed@,
        }
    }

    fn duplicate(&self) -> (r: Self)
        ensures
            forall|config: ReadinessConfigModel| #[trigger] r.model(config) == self.model(config),
    {
        Progress {
            lifecycle_state: self.lifecycle_state,
            exit_mode: self.exit_mode,
            local_participation_complete: self.local_participation_complete,
            phase1_confirmed: self.phase1_confirmed.clone(),
            phase2_confirmed: self.phase2_confirmed.clone(),
        }
    }

    fn apply(&mut self, config: &ClusterReadinessConfig, input: ClusterReadinessInput) -> (r: OutputBatch)
        requires
            readiness_inv(old(self).model(config@)),
        ensures
            final(self).model(config@) == readiness_step(old(self).model(config@), input).0,
            r@ == readiness_step(old(self).model(config@), input).1,
    {
        match input {
            ClusterReadinessInput::ParticipationObserved { peer_id, freshness, current_marker } => {
                self.apply_participation_observed(config, peer_id, freshness, current_marker)
            },
            ClusterReadinessInput::ReadyObserved { peer_id, freshness, current_marker } => {
                self.apply_ready_observed(config, peer_id, freshness, current_marker)
            },
            ClusterReadinessInput::LocalParticipationCompleted => self.apply_local_participation_completed(config),
            ClusterReadinessInput::DeadlineExpired => self.apply_deadline_expired(config),
        }
    }

    fn apply_participation_observed(&mut self, config: &ClusterReadinessConfig, peer_id: PeerId, freshness: Freshness, current_marker: Freshness)
        -> (r: OutputBatch)
        requires
            readiness_inv(old(self).model(config@)),
        ensures
            final(self).model(config@) == participation_step(old(self).model(config@), peer_id, freshness, current_marker).0,
            r@ == participation_step(old(self).model(config@), peer_id, freshness, current_marker).1,
    {
        if self.has_exited() {
            return OutputBatch::from(vec![ClusterReadinessOutput::StaleParticipationIgnored { peer_id }]);
        }
        if !config.is_member(peer_id) {
            return OutputBatch::from(vec![ClusterReadinessOutput::NonMemberIgnored { peer_id }]);
        }
        let classification = config.freshness_policy().classify(current_marker, freshness);
        if let FreshnessClassification::Stale = classification {
            return OutputBatch::from(vec![ClusterReadinessOutput::StaleParticipationIgnored { peer_id }]);
        }
        let index = match config.peer_index(peer_id) {
            Some(index) => index,
            None => {
                return OutputBatch::from(vec![ClusterReadinessOutput::NonMemberIgnored { peer_id }]);
            },
        };
        proof {
            lemma_first_index(self.model(config@).config.peers, peer_id);
        }
        if self.phase1_confirmed.is_set(index) {
            return OutputBatch::from(vec![ClusterReadinessOutput::DuplicateParticipationIgnored { peer_id }]);
        }
        let (phase1, _) = self.phase1_confirmed.set(index);
        self.phase1_confirmed = phase1;
        match classification {
            FreshnessClassification::Timely => OutputBatch::from(
                vec![ClusterReadinessOutput::ParticipationAccepted { peer_id }],
            ),
            _ => OutputBatch::from(vec![ClusterReadinessOutput::DelayedParticipationAccepted { peer_id }]),
        }
    }

    fn apply_ready_observed(&mut self, config: &ClusterReadinessConfig, peer_id: PeerId, freshness: Freshness, current_marker: Freshness)
        -> (r: OutputBatch)
        requires
            readiness_inv(old(self).model(config@)),
        ensures
            final(self).model(config@) == ready_step(old(self).model(config@), peer_id, freshness, current_marker).0,
            r@ == ready_step(old(self).model(config@), peer_id, freshness, current_marker).1,
    {
        if self.has_exited() {
            return OutputBatch::from(vec![ClusterReadinessOutput::StaleReadyIgnored { peer_id }]);
        }
        if !config.is_member(peer_id) {
            return OutputBatch::from(vec![ClusterReadinessOutput::NonMemberIgnored { peer_id }]);
        }
        let classification = config.freshness_policy().classify(current_marker, freshness);
        if let FreshnessClassification::Stale = classification {
            return OutputBatch::from(vec![ClusterReadinessOutput::StaleReadyIgnored { peer_id }]);
        }
        let index = match config.peer_index(peer_id) {
            Some(index) => index,
            None => {
                return OutputBatch::from(vec![ClusterReadinessOutput::NonMemberIgnored { peer_id }]);
            },
        };
        proof {
            lemma_first_index(self.model(config@).config.peers, peer_id);
        }
        if self.phase2_confirmed.is_set(index) {
            return OutputBatch::from(vec![ClusterReadinessOutput::DuplicateReadyIgnored { peer_id }]);
        }
        let accepted_output = match classification {
            FreshnessClassification::Timely => ClusterReadinessOutput::ReadyAccepted { peer_id },
            _ => ClusterReadinessOutput::DelayedReadyAccepted { peer_id },
        };
        let (phase2, _) = self.phase2_confirmed.set(index);
        if self.local_participation_complete && phase2.count() >= config.quorum_threshold() {
            self.exit_by_quorum(config, phase2);
            let mut outputs = vec![accepted_output];
            outputs.push(ClusterReadinessOutput::ReadyQuorumReached);
            outputs.push(ClusterReadinessOutput::ReadinessExited { mode: ReadinessExitMode::Quorum });
            proof {
                assert(outputs@ =~= seq![accepted_output] + quorum_exit_outputs());
            }
            OutputBatch::from(outputs)
        } else {
            self.phase2_confirmed = phase2;
            OutputBatch::from(vec![accepted_output])
        }
    }

    fn apply_local_participation_completed(&mut self, config: &ClusterReadinessConfig) -> (r: OutputBatch)
        requires
            readiness_inv(old(self).model(config@)),
        ensures
            final(self).model(config@) == local_completion_step(old(self).model(config@)).0,
            r@ == local_completion_step(old(self).model(config@)).1,
    {
        if self.has_exited() || self.local_participation_complete {
            return OutputBatch::new();
        }
        let phase2 = match config.peer_index(config.local_peer_id()) {
            Some(index) => {
                proof {
                    lemma_first_index(self.model(config@).config.peers, self.model(config@).config.local_peer_id);
                }
                let (phase2, _) = self.phase2_confirmed.set(index);
                phase2
            },
            None => self.phase2_confirmed.clone(),
        };
        assert(phase2@ =~= with_local_ready(old(self).model(config@).phase2, old(self).model(config@).config));
        let mut outputs = vec![
            ClusterReadinessOutput::LocalParticipationCompleted,
            ClusterReadinessOutput::BroadcastLocalReady,
        ];
        if phase2.count() >= config.quorum_threshold() {
            self.local_participation_complete = true;
            self.exit_by_quorum(config, phase2);
            outputs.push(ClusterReadinessOutput::ReadyQuorumReached);
            outputs.push(ClusterReadinessOutput::ReadinessExited { mode: ReadinessExitMode::Quorum });
            proof {
                assert(outputs@ =~= seq![
                    ClusterReadinessOutput::LocalParticipationCompleted,
                    ClusterReadinessOutput::BroadcastLocalReady,
                ] + quorum_exit_outputs());
            }
            OutputBatch::from(outputs)
        } else {
            self.phase2_confirmed = phase2;
            self.local_participation_complete = true;
            self.lifecycle_state = ReadinessLifecycleState::Phase2Active;
            OutputBatch::from(outputs)
        }
    }

    fn apply_deadline_expired(&mut self, config: &ClusterReadinessConfig) -> (r: OutputBatch)
        requires
            readiness_inv(old(self).model(config@)),
        ensures
            final(self).model(config@) == deadline_step(old(self).model(config@)).0,
            r@ == deadline_step(old(self).model(config@)).1,
    {
        if self.has_exited() {
            return OutputBatch::new();
        }
        self.lifecycle_state = ReadinessLifecycleState::ReadyByDeadline;
        self.exit_mode = Some(ReadinessExitMode::Deadline);
        OutputBatch::from(vec![ClusterReadinessOutput::ReadinessExited { mode: ReadinessExitMode::Deadline }])
    }

    fn exit_by_quorum(&mut self, config: &ClusterReadinessConfig, phase2: Bitmap)
        requires
            old(self).model(config@).local_participation_complete,
            phase2@.len() == old(self).model(config@).config.peers.len(),
            count_set(phase2@) >= old(self).model(config@).config.quorum_threshold,
        ensures
            final(self).model(config@) == exited_by_quorum(ReadinessModel { phase2: phase2@, ..old(self).model(config@) }),
    {
        self.lifecycle_state = ReadinessLifecycleState::ReadyByQuorum;
        self.exit_mode = Some(ReadinessExitMode::Quorum);
        self.phase2_confirmed = phase2;
    }

    fn has_exited(&self) -> (r: bool)
        ensures
            r == (self.exit_mode is Some),
    {
        self.exit_mode.is_some()
    }
}

/// Every input keeps the invariant.
pub proof fn lemma_readiness_step_inv(m: ReadinessModel, input: ClusterReadinessInput)
    requires
        readiness_inv(m),
    ensures
        readiness_inv(readiness_step(m, input).0),
{
    match input {
        ClusterReadinessInput::ReadyObserved { peer_id, freshness, current_marker } => {
            if m.exit_mode is None && m.config.peers.contains(peer_id) {
                lemma_first_index(m.config.peers, peer_id);
                let i = first_index(m.config.peers, peer_id).unwrap() as int;
                if !m.phase2[i] {
                    lemma_count_set_update(m.phase2, i);
                }
            }
        },
        ClusterReadinessInput::LocalParticipationCompleted => {
            if let Some(i) = first_index(m.config.peers, m.config.local_peer_id) {
                lemma_first_index(m.config.peers, m.config.local_peer_id);
            }
        },
        ClusterReadinessInput::ParticipationObserved { peer_id, .. } => {
            if m.config.peers.contains(peer_id) {
                lemma_first_index(m.config.peers, peer_id);
            }
        },
        _ => {},
    }
}

} // verus!
