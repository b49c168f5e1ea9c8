use vstd::prelude::*;

use crate::cluster_readiness::{
    lemma_readiness_step_inv, local_completion_step, participation_step, readiness_inv, readiness_snapshot,
    readiness_step, ready_step, ReadinessModel,
};
use crate::cluster_readiness_config::ReadinessConfigModel;
use crate::machine::{machine_apply, MachineRunModel};
use crate::machine_output::{as_machine_outputs, MachineOutput};
use crate::machine_state::{as_machine, as_readiness, machine_snapshot, machine_step, machine_wf, MachineModel};
use crate::cluster_readiness_config::{first_index, lemma_first_index};
use crate::freshness_classification::FreshnessClassification;
use crate::freshness_policy::classification;
use crate::readiness_lifecycle_state::ReadinessLifecycleState;
use crate::types::{Freshness, PeerId};
use crate::cluster_readiness_input::ClusterReadinessInput;
use crate::cluster_readiness_output::ClusterReadinessOutput;
use crate::readiness_exit_mode::ReadinessExitMode;
use crate::states::bitmap::{count_set, lemma_count_set_bounded, lemma_count_set_update};

verus! {

/// Once a readiness machine has exited, no input changes it.
pub proof fn law_readiness_exit_is_final(m: ReadinessModel, input: ClusterReadinessInput)
    requires
        m.exit_mode is Some,
    ensures
        readiness_step(m, input).0 == m,
{
}

/// A quorum exit happens only after local completion, with at least the threshold of ready
/// confirmations.
pub proof fn law_quorum_exit_requires_quorum(m: ReadinessModel)
    requires
        readiness_inv(m),
        m.exit_mode == Some(ReadinessExitMode::Quorum),
    ensures
        m.local_participation_complete,
        count_set(m.phase2) >= m.config.quorum_threshold,
{
}

/// Confirmations are never withdrawn: a flag set in either phase stays set.
pub proof fn law_confirmations_are_kept(m: ReadinessModel, input: ClusterReadinessInput, i: int)
    requires
        readiness_inv(m),
        0 <= i < m.phase1.len(),
    ensures
        m.phase1[i] ==> readiness_step(m, input).0.phase1[i],
        m.phase2[i] ==> readiness_step(m, input).0.phase2[i],
{
    match input {
        ClusterReadinessInput::ParticipationObserved { peer_id, .. } | ClusterReadinessInput::ReadyObserved {
            peer_id,
            ..
        } => {
            if m.config.peers.contains(peer_id) {
                lemma_first_index(m.config.peers, peer_id);
            }
        },
        ClusterReadinessInput::LocalParticipationCompleted => {
            if m.config.peers.contains(m.config.local_peer_id) {
                lemma_first_index(m.config.peers, m.config.local_peer_id);
            }
        },
        _ => {},
    }
}

/// The counts a snapshot reports never exceed the number of peers.
pub proof fn law_confirmed_counts_bounded(m: ReadinessModel)
    requires
        readiness_inv(m),
    ensures
        count_set(m.phase1) <= m.config.peers.len(),
        count_set(m.phase2) <= m.config.peers.len(),
{
    lemma_count_set_bounded(m.phase1);
    lemma_count_set_bounded(m.phase2);
}

/// An ignored observation (duplicate, stale, or from a non-member) changes nothing.
pub proof fn law_ignored_observation_changes_nothing(m: ReadinessModel, input: ClusterReadinessInput)
    requires
        readiness_inv(m),
        match readiness_step(m, input).1[0] {
            ClusterReadinessOutput::DuplicateParticipationIgnored { .. }
            | ClusterReadinessOutput::DuplicateReadyIgnored { .. }
            | ClusterReadinessOutput::StaleParticipationIgnored { .. }
            | ClusterReadinessOutput::StaleReadyIgnored { .. }
            | ClusterReadinessOutput::NonMemberIgnored { .. } => true,
            _ => false,
        },
    ensures
        readiness_step(m, input).0 == m,
{
}

/// A participation observation answers with one output and touches only the participation
/// flags. An exited machine, a non-member, a stale marker and an already confirmed peer are
/// answered with an ignore and change nothing; otherwise the peer's flag is set, one more
/// participation is counted, and the acceptance tells a timely marker from a delayed one.
pub proof fn law_participation_observation(
    m: ReadinessModel,
    peer_id: PeerId,
    freshness: Freshness,
    current_marker: Freshness,
)
    requires
        readiness_inv(m),
    ensures
        ({
            let n = participation_step(m, peer_id, freshness, current_marker).0;
            let out = participation_step(m, peer_id, freshness, current_marker).1;
            let c = classification(m.config.max_delay, current_marker, freshness);
            let i = first_index(m.config.peers, peer_id).unwrap() as int;
            let open = m.exit_mode is None && m.config.peers.contains(peer_id);
            &&& out.len() == 1
            &&& n.config == m.config
            &&& n.phase2 == m.phase2
            &&& n.lifecycle_state == m.lifecycle_state
            &&& n.exit_mode == m.exit_mode
            &&& n.local_participation_complete == m.local_participation_complete
            &&& m.exit_mode is Some ==> n == m && out[0] == (ClusterReadinessOutput::StaleParticipationIgnored {
                peer_id,
            })
            &&& m.exit_mode is None && !m.config.peers.contains(peer_id) ==> n == m && out[0] == (
            ClusterReadinessOutput::NonMemberIgnored { peer_id })
            &&& open ==> 0 <= i < m.phase1.len() && m.config.peers[i] == peer_id
            &&& open && c == FreshnessClassification::Stale ==> n == m && out[0] == (
            ClusterReadinessOutput::StaleParticipationIgnored { peer_id })
            &&& open && c != FreshnessClassification::Stale && m.phase1[i] ==> n == m && out[0] == (
            ClusterReadinessOutput::DuplicateParticipationIgnored { peer_id })
            &&& open && c != FreshnessClassification::Stale && !m.phase1[i] ==> {
                &&& n.phase1 == m.phase1.update(i, true)
                &&& count_set(n.phase1) == count_set(m.phase1) + 1
                &&& out[0] == if c == FreshnessClassification::Timely {
                    ClusterReadinessOutput::ParticipationAccepted { peer_id }
                } else {
                    ClusterReadinessOutput::DelayedParticipationAccepted { peer_id }
                }
            }
        }),
{
    if m.config.peers.contains(peer_id) {
        lemma_first_index(m.config.peers, peer_id);
        let i = first_index(m.config.peers, peer_id).unwrap() as int;
        if !m.phase1[i] {
            lemma_count_set_update(m.phase1, i);
        }
    }
}

/// A ready observation from a member with a fresh marker whose ready flag is unset sets that
/// flag and counts one more ready confirmation. If local participation is complete and the
/// count reaches the threshold, the machine exits by quorum and says so after the acceptance;
/// otherwise it only accepts. Participation flags and local completion never change, and once
/// the machine has exited a ready observation is answered as stale and changes nothing.
pub proof fn law_ready_observation(
    m: ReadinessModel,
    peer_id: PeerId,
    freshness: Freshness,
    current_marker: Freshness,
)
    requires
        readiness_inv(m),
    ensures
        ({
            let n = ready_step(m, peer_id, freshness, current_marker).0;
            let out = ready_step(m, peer_id, freshness, current_marker).1;
            let c = classification(m.config.max_delay, current_marker, freshness);
            let i = first_index(m.config.peers, peer_id).unwrap() as int;
            let open = m.exit_mode is None && m.config.peers.contains(peer_id);
            let accepted = if c == FreshnessClassification::Timely {
                ClusterReadinessOutput::ReadyAccepted { peer_id }
            } else {
                ClusterReadinessOutput::DelayedReadyAccepted { peer_id }
            };
            &&& n.config == m.config
            &&& n.phase1 == m.phase1
            &&& n.local_participation_complete == m.local_participation_complete
            &&& m.exit_mode is Some ==> n == m && out == seq![
                ClusterReadinessOutput::StaleReadyIgnored { peer_id },
            ]
            &&& m.exit_mode is None && !m.config.peers.contains(peer_id) ==> n == m && out == seq![
                ClusterReadinessOutput::NonMemberIgnored { peer_id },
            ]
            &&& open ==> 0 <= i < m.phase2.len() && m.config.peers[i] == peer_id
            &&& open && c == FreshnessClassification::Stale ==> n == m && out == seq![
                ClusterReadinessOutput::StaleReadyIgnored { peer_id },
            ]
            &&& open && c != FreshnessClassification::Stale && m.phase2[i] ==> n == m && out == seq![
                ClusterReadinessOutput::DuplicateReadyIgnored { peer_id },
            ]
            &&& open && c != FreshnessClassification::Stale && !m.phase2[i] ==> {
                &&& n.phase2 == m.phase2.update(i, true)
                &&& count_set(n.phase2) == count_set(m.phase2) + 1
                &&& if m.local_participation_complete && count_set(m.phase2) + 1 >= m.config.quorum_threshold {
                    &&& out == seq![
                        accepted,
                        ClusterReadinessOutput::ReadyQuorumReached,
                        ClusterReadinessOutput::ReadinessExited { mode: ReadinessExitMode::Quorum },
                    ]
                    &&& n.exit_mode == Some(ReadinessExitMode::Quorum)
                    &&& n.lifecycle_state == ReadinessLifecycleState::ReadyByQuorum
                } else {
                    &&& out == seq![accepted]
                    &&& n.exit_mode == m.exit_mode
                    &&& n.lifecycle_state == m.lifecycle_state
                }
            }
        }),
{
    if m.config.peers.contains(peer_id) {
        lemma_first_index(m.config.peers, peer_id);
        let i = first_index(m.config.peers, peer_id).unwrap() as int;
        if !m.phase2[i] {
            lemma_count_set_update(m.phase2, i);
        }
    }
    let c = classification(m.config.max_delay, current_marker, freshness);
    let accepted = if c == FreshnessClassification::Timely {
        ClusterReadinessOutput::ReadyAccepted { peer_id }
    } else {
        ClusterReadinessOutput::DelayedReadyAccepted { peer_id }
    };
    assert(seq![accepted] + seq![
        ClusterReadinessOutput::ReadyQuorumReached,
        ClusterReadinessOutput::ReadinessExited { mode: ReadinessExitMode::Quorum },
    ] =~= seq![
        accepted,
        ClusterReadinessOutput::ReadyQuorumReached,
        ClusterReadinessOutput::ReadinessExited { mode: ReadinessExitMode::Quorum },
    ]);
}

/// Local completion happens once. On an exited machine, or a second time, it outputs nothing
/// and changes nothing. Otherwise it marks local participation complete, sets the local peer's
/// own ready flag (counting it if it was unset), announces the completion and the broadcast,
/// and exits by quorum when the ready count reaches the threshold; if not, phase 2 begins.
pub proof fn law_local_completion(m: ReadinessModel)
    requires
        readiness_inv(m),
    ensures
        ({
            let n = local_completion_step(m).0;
            let out = local_completion_step(m).1;
            let local = m.config.local_peer_id;
            let i = first_index(m.config.peers, local).unwrap() as int;
            let announced = seq![
                ClusterReadinessOutput::LocalParticipationCompleted,
                ClusterReadinessOutput::BroadcastLocalReady,
            ];
            &&& m.exit_mode is Some || m.local_participation_complete ==> n == m && out == Seq::<
                ClusterReadinessOutput,
            >::empty()
            &&& m.exit_mode is None && !m.local_participation_complete ==> {
                &&& n.config == m.config
                &&& n.phase1 == m.phase1
                &&& n.local_participation_complete
                &&& count_set(n.phase2) == count_set(m.phase2) + if m.config.peers.contains(local) && !m.phase2[i] {
                    1int
                } else {
                    0int
                }
                &&& if count_set(n.phase2) >= m.config.quorum_threshold {
                    &&& out == announced + seq![
                        ClusterReadinessOutput::ReadyQuorumReached,
                        ClusterReadinessOutput::ReadinessExited { mode: ReadinessExitMode::Quorum },
                    ]
                    &&& n.exit_mode == Some(ReadinessExitMode::Quorum)
                    &&& n.lifecycle_state == ReadinessLifecycleState::ReadyByQuorum
                } else {
                    &&& out == announced
                    &&& n.exit_mode is None
                    &&& n.lifecycle_state == ReadinessLifecycleState::Phase2Active
                }
            }
            &&& local_completion_step(n).0 == n
            &&& local_completion_step(n).1 == Seq::<ClusterReadinessOutput>::empty()
        }),
{
    let local = m.config.local_peer_id;
    if m.config.peers.contains(local) {
        lemma_first_index(m.config.peers, local);
        let i = first_index(m.config.peers, local).unwrap() as int;
        if !m.phase2[i] {
            lemma_count_set_update(m.phase2, i);
        } else {
            assert(m.phase2.update(i, true) =~= m.phase2);
        }
    }
}

/// In phase 1 a participation observation is answered with one output and leaves the machine in
/// phase 1 with its ready flags as they were. A non-member, a stale marker and an already
/// confirmed peer are answered with an ignore and change nothing; otherwise the peer's
/// participation flag is set, one more participation is counted, and the acceptance tells a
/// timely marker from a delayed one.
pub proof fn law_phase1_participation(
    phase1: Seq<bool>,
    phase2: Seq<bool>,
    config: ReadinessConfigModel,
    peer_id: PeerId,
    freshness: Freshness,
    current_marker: Freshness,
)
    requires
        machine_wf(MachineModel::Phase1 { phase1, phase2 }, config),
    ensures
        ({
            let input = ClusterReadinessInput::ParticipationObserved { peer_id, freshness, current_marker };
            let n = machine_step(MachineModel::Phase1 { phase1, phase2 }, input, config).0;
            let out = machine_step(MachineModel::Phase1 { phase1, phase2 }, input, config).1;
            let c = classification(config.max_delay, current_marker, freshness);
            let i = first_index(config.peers, peer_id).unwrap() as int;
            let member = config.peers.contains(peer_id);
            &&& out.len() == 1
            &&& n matches MachineModel::Phase1 { phase1: next1, phase2: next2 } && {
                &&& next2 == phase2
                &&& !member ==> next1 == phase1 && out[0] == MachineOutput::NonMemberIgnored { peer_id }
                &&& member ==> 0 <= i < phase1.len() && config.peers[i] == peer_id
                &&& member && c == FreshnessClassification::Stale ==> next1 == phase1 && out[0]
                    == MachineOutput::StaleParticipationIgnored { peer_id }
                &&& member && c != FreshnessClassification::Stale && phase1[i] ==> next1 == phase1 && out[0]
                    == MachineOutput::DuplicateParticipationIgnored { peer_id }
                &&& member && c != FreshnessClassification::Stale && !phase1[i] ==> {
                    &&& next1 == phase1.update(i, true)
                    &&& count_set(next1) == count_set(phase1) + 1
                    &&& out[0] == if c == FreshnessClassification::Timely {
                        MachineOutput::ParticipationAccepted { peer_id }
                    } else {
                        MachineOutput::DelayedParticipationAccepted { peer_id }
                    }
                }
            }
        }),
{
    let m = as_readiness(MachineModel::Phase1 { phase1, phase2 }, config);
    law_participation_observation(m, peer_id, freshness, current_marker);
}

/// In phase 1 a ready observation is answered with one output and leaves the machine in phase 1
/// with its participation flags as they were; local participation is not complete, so no quorum
/// exit happens. A non-member, a stale marker and an already confirmed peer are answered with an
/// ignore and change nothing; otherwise the peer's ready flag is set, one more ready signal is
/// counted, and the acceptance tells a timely marker from a delayed one.
pub proof fn law_phase1_ready(
    phase1: Seq<bool>,
    phase2: Seq<bool>,
    config: ReadinessConfigModel,
    peer_id: PeerId,
    freshness: Freshness,
    current_marker: Freshness,
)
    requires
        machine_wf(MachineModel::Phase1 { phase1, phase2 }, config),
    ensures
        ({
            let input = ClusterReadinessInput::ReadyObserved { peer_id, freshness, current_marker };
            let n = machine_step(MachineModel::Phase1 { phase1, phase2 }, input, config).0;
            let out = machine_step(MachineModel::Phase1 { phase1, phase2 }, input, config).1;
            let c = classification(config.max_delay, current_marker, freshness);
            let i = first_index(config.peers, peer_id).unwrap() as int;
            let member = config.peers.contains(peer_id);
            &&& out.len() == 1
            &&& n matches MachineModel::Phase1 { phase1: next1, phase2: next2 } && {
                &&& next1 == phase1
                &&& !member ==> next2 == phase2 && out[0] == MachineOutput::NonMemberIgnored { peer_id }
                &&& member ==> 0 <= i < phase2.len() && config.peers[i] == peer_id
                &&& member && c == FreshnessClassification::Stale ==> next2 == phase2 && out[0]
                    == MachineOutput::StaleReadyIgnored { peer_id }
                &&& member && c != FreshnessClassification::Stale && phase2[i] ==> next2 == phase2 && out[0]
                    == MachineOutput::DuplicateReadyIgnored { peer_id }
                &&& member && c != FreshnessClassification::Stale && !phase2[i] ==> {
                    &&& next2 == phase2.update(i, true)
                    &&& count_set(next2) == count_set(phase2) + 1
                    &&& out[0] == if c == FreshnessClassification::Timely {
                        MachineOutput::ReadyAccepted { peer_id }
                    } else {
                        MachineOutput::DelayedReadyAccepted { peer_id }
                    }
                }
            }
        }),
{
    let m = as_readiness(MachineModel::Phase1 { phase1, phase2 }, config);
    law_ready_observation(m, peer_id, freshness, current_marker);
}

/// The deadline ends a machine that has not exited, whatever it has confirmed and whether or not
/// local participation is complete: it exits by deadline, reports exactly that, and keeps its
/// confirmations. An exited machine ignores it.
pub proof fn law_deadline_exit(m: ReadinessModel)
    ensures
        m.exit_mode is None ==> readiness_step(m, ClusterReadinessInput::DeadlineExpired) == (
            ReadinessModel {
                exit_mode: Some(ReadinessExitMode::Deadline),
                lifecycle_state: ReadinessLifecycleState::ReadyByDeadline,
                ..m
            },
            seq![ClusterReadinessOutput::ReadinessExited { mode: ReadinessExitMode::Deadline }],
        ),
        m.exit_mode is Some ==> readiness_step(m, ClusterReadinessInput::DeadlineExpired) == (
            m,
            Seq::<ClusterReadinessOutput>::empty(),
        ),
{
}

/// In the state-by-state machine the deadline takes either phase to the deadline exit, keeping
/// the confirmation counts and whether local participation was complete, and reports exactly
/// the exit.
pub proof fn law_machine_deadline_exit(phase1: Seq<bool>, phase2: Seq<bool>, config: ReadinessConfigModel)
    ensures
        machine_step(MachineModel::Phase1 { phase1, phase2 }, ClusterReadinessInput::DeadlineExpired, config) == (
            MachineModel::ReadyByDeadline {
                phase1_count: count_set(phase1) as usize,
                phase2_count: count_set(phase2) as usize,
                local_participation_complete: false,
            },
            seq![MachineOutput::ReadinessExited { mode: ReadinessExitMode::Deadline }],
        ),
        machine_step(MachineModel::Phase2 { phase1, phase2 }, ClusterReadinessInput::DeadlineExpired, config) == (
            MachineModel::ReadyByDeadline {
                phase1_count: count_set(phase1) as usize,
                phase2_count: count_set(phase2) as usize,
                local_participation_complete: true,
            },
            seq![MachineOutput::ReadinessExited { mode: ReadinessExitMode::Deadline }],
        ),
{
    let out = seq![ClusterReadinessOutput::ReadinessExited { mode: ReadinessExitMode::Deadline }];
    assert(as_machine_outputs(out) =~= seq![MachineOutput::ReadinessExited { mode: ReadinessExitMode::Deadline }]);
}

/// A readiness machine that has not exited on the deadline is the one its machine state stands for.
pub proof fn lemma_as_readiness_round_trip(m: ReadinessModel)
    requires
        readiness_inv(m),
        m.exit_mode != Some(ReadinessExitMode::Deadline),
    ensures
        as_readiness(as_machine(m), m.config) == m,
{
}

/// Every step of a well-formed machine state reaches a well-formed state.
pub proof fn lemma_machine_step_wf(s: MachineModel, input: ClusterReadinessInput, config: ReadinessConfigModel)
    requires
        machine_wf(s, config),
    ensures
        machine_wf(machine_step(s, input, config).0, config),
{
    if !(s is ReadyByDeadline) {
        let m = as_readiness(s, config);
        lemma_readiness_step_inv(m, input);
        let next = readiness_step(m, input).0;
        if next.exit_mode != Some(ReadinessExitMode::Deadline) {
            lemma_as_readiness_round_trip(next);
        }
    }
}

/// The state-by-state machine and the readiness machine agree: a state reports the snapshot of
/// the readiness machine it stands for, and until that machine exits, the state's step gives
/// the readiness machine's outputs and stands for its next machine.
pub proof fn law_machine_matches_readiness(m: ReadinessModel, input: ClusterReadinessInput)
    requires
        readiness_inv(m),
    ensures
        machine_snapshot(as_machine(m), m.config.quorum_threshold) == readiness_snapshot(m),
        m.exit_mode is None ==> machine_step(as_machine(m), input, m.config) == (
            as_machine(readiness_step(m, input).0),
            as_machine_outputs(readiness_step(m, input).1),
        ),
{
    if m.exit_mode is None {
        lemma_as_readiness_round_trip(m);
    }
}

/// An exited state-by-state machine takes no input: nothing changes and nothing is output.
pub proof fn law_machine_exit_is_final(m: MachineRunModel, input: ClusterReadinessInput)
    requires
        m.state is ReadyByQuorum || m.state is ReadyByDeadline,
    ensures
        machine_apply(m, input).0 == m,
        machine_apply(m, input).1 == Seq::<MachineOutput>::empty(),
{
}

} // verus!
