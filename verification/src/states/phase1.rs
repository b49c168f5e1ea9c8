use vstd::prelude::*;

use crate::cluster_readiness::{participation_step, ready_step};
use crate::cluster_readiness_config::{first_index, lemma_first_index};
use crate::cluster_readiness_input::ClusterReadinessInput;
use crate::freshness_classification::FreshnessClassification;
use crate::freshness_policy::classification;
use crate::machine_config::MachineConfig;
use crate::machine_input::MachineInput;
use crate::machine_output::{as_machine_output, MachineOutput};
use crate::machine_snapshot::MachineSnapshot;
use crate::machine_state::{machine_snapshot, AnyMachineState, MachineModel, MachineState};
use crate::readiness_exit_mode::ReadinessExitMode;
use crate::readiness_lifecycle_state::ReadinessLifecycleState;
use crate::states::helpers::compute_output::{ObservedKind, ObservedOutput};
use crate::states::helpers::confirmed_set::ConfirmedSet;
use crate::states::phase2::Phase2;
use crate::states::ready_by_deadline::ReadyByDeadline;
use crate::states::ready_by_quorum::ReadyByQuorum;
use crate::types::{Freshness, PeerId};

verus! {

/// Participation is being collected; the local node has not completed its own.
pub struct Phase1 {
    phase1: ConfirmedSet,
    phase2: ConfirmedSet,
}

impl Phase1 {
    /// The participation flags, one per peer.
    pub closed spec fn phase1_spec(&self) -> Seq<bool> {
        self.phase1@
    }

    /// The ready flags, one per peer.
    pub closed spec fn phase2_spec(&self) -> Seq<bool> {
        self.phase2@
    }
}

impl View for Phase1 {
    type V = MachineModel;

    open spec fn view(&self) -> MachineModel {
        MachineModel::Phase1 { phase1: self.phase1_spec(), phase2: self.phase2_spec() }
    }
}

/// Whether an observation from `peer_id` confirms a new position of `confirmed`.
pub open spec fn confirms(
    confirmed: Seq<bool>,
    config: crate::cluster_readiness_config::ReadinessConfigModel,
    peer_id: PeerId,
    freshness: Freshness,
    current_marker: Freshness,
) -> bool {
    &&& config.peers.contains(peer_id)
    &&& classification(config.max_delay, current_marker, freshness) != FreshnessClassification::Stale
    &&& !confirmed[first_index(config.peers, peer_id).unwrap() as int]
}

/// An observation of one kind applied to that kind's confirmations: the confirmations after it,
/// the output, and whether it confirmed a new position.
pub(crate) fn observe(
    kind: ObservedKind,
    confirmed: &ConfirmedSet,
    config: &MachineConfig,
    peer_id: PeerId,
    freshness: Freshness,
    current_marker: Freshness,
) -> (r: (ConfirmedSet, MachineOutput, bool))
    requires
        confirmed@.len() == config@.peers.len(),
    ensures
        r.2 == confirms(confirmed@, config@, peer_id, freshness, current_marker),
        r.0@ == (if r.2 {
            confirmed@.update(first_index(config@.peers, peer_id).unwrap() as int, true)
        } else {
            confirmed@
        }),
        r.1 == as_machine_output(
            match kind {
                ObservedKind::Participation => participation_step(
                    crate::cluster_readiness::ReadinessModel {
                        config: config@,
                        lifecycle_state: ReadinessLifecycleState::Phase1Active,
                        exit_mode: None,
                        local_participation_complete: false,
                        phase1: confirmed@,
                        phase2: confirmed@,
                    },
                    peer_id,
                    freshness,
                    current_marker,
                ).1[0],
                ObservedKind::Ready => ready_step(
                    crate::cluster_readiness::ReadinessModel {
                        config: config@,
                        lifecycle_state: ReadinessLifecycleState::Phase1Active,
                        exit_mode: None,
                        local_participation_complete: false,
                        phase1: confirmed@,
                        phase2: confirmed@,
                    },
                    peer_id,
                    freshness,
                    current_marker,
                ).1[0],
            },
        ),
{
    let index = config.peer_index(peer_id);
    let classification = config.freshness_policy().classify(current_marker, freshness);
    let is_dup = match index {
        Some(i) => {
            proof {
                lemma_first_index(config@.peers, peer_id);
            }
            confirmed.is_confirmed(i)
        },
        None => false,
    };
    let output = ObservedOutput::new(kind, peer_id).compute_output(index, Some(classification), is_dup);
    let (next, changed) = confirmed.try_confirm(index, is_dup, Some(classification));
    (next, output, changed)
}

impl Phase1 {
    /// Nothing confirmed among `peer_count` peers.
    pub fn new(peer_count: usize) -> (r: Self)
        ensures
            r@ == (MachineModel::Phase1 {
                phase1: Seq::new(peer_count as nat, |i: int| false),
                phase2: Seq::new(peer_count as nat, |i: int| false),
            }),
    {
        Phase1 { phase1: ConfirmedSet::new(peer_count), phase2: ConfirmedSet::new(peer_count) }
    }
}

impl MachineState for Phase1 {
    fn step(self, input: MachineInput, config: &MachineConfig) -> (r: (Vec<MachineOutput>, AnyMachineState)) {
        let Phase1 { phase1, phase2 } = self;
        match input {
            ClusterReadinessInput::ParticipationObserved { peer_id, freshness, current_marker } => {
                let (phase1, output, _) = observe(
                    ObservedKind::Participation,
                    &phase1,
                    config,
                    peer_id,
                    freshness,
                    current_marker,
                );
                (vec![output], AnyMachineState::Phase1(Phase1 { phase1, phase2 }))
            },
            ClusterReadinessInput::ReadyObserved { peer_id, freshness, current_marker } => {
                let (phase2, output, _) = observe(
                    ObservedKind::Ready,
                    &phase2,
                    config,
                    peer_id,
                    freshness,
                    current_marker,
                );
                (vec![output], AnyMachineState::Phase1(Phase1 { phase1, phase2 }))
            },
            ClusterReadinessInput::LocalParticipationCompleted => {
                let phase2 = match config.peer_index(config.local_peer_id()) {
                    Some(index) => {
                        proof {
                            lemma_first_index(config@.peers, config@.local_peer_id);
                        }
                        let (confirmed, _) = phase2.confirm(index);
                        confirmed
                    },
                    None => phase2,
                };
                let mut outputs = vec![
                    MachineOutput::LocalParticipationCompleted,
                    MachineOutput::BroadcastLocalReady,
                ];
                if phase2.count() >= config.quorum_threshold() {
                    outputs.push(MachineOutput::ReadyQuorumReached);
                    outputs.push(MachineOutput::ReadinessExited { mode: ReadinessExitMode::Quorum });
                    (outputs, AnyMachineState::ReadyByQuorum(ReadyByQuorum { phase1, phase2 }))
                } else {
                    (outputs, AnyMachineState::Phase2(Phase2::from_sets(phase1, phase2)))
                }
            },
            ClusterReadinessInput::DeadlineExpired => {
                let next = ReadyByDeadline {
                    phase1_count: phase1.count(),
                    phase2_count: phase2.count(),
                    local_participation_complete: false,
                };
                (
                    vec![MachineOutput::ReadinessExited { mode: ReadinessExitMode::Deadline }],
                    AnyMachineState::ReadyByDeadline(next),
                )
            },
        }
    }

    fn snapshot(&self, quorum_threshold: usize) -> (r: MachineSnapshot) {
        MachineSnapshot::new(
            ReadinessLifecycleState::Phase1Active,
            None,
            false,
            false,
            self.phase1.count(),
            self.phase2.count(),
            quorum_threshold,
        )
    }

    fn accept(&self, input: &MachineInput) -> (r: bool) {
        true
    }
}

} // verus!
