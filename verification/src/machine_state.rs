use vstd::prelude::*;

use crate::cluster_readiness::{readiness_inv, readiness_step, ReadinessModel};
use crate::cluster_readiness_config::ReadinessConfigModel;
use crate::machine_config::MachineConfig;
use crate::machine_input::MachineInput;
use crate::machine_output::{as_machine_outputs, MachineOutput};
use crate::machine_snapshot::{MachineSnapshot, SnapshotModel};
use crate::readiness_exit_mode::ReadinessExitMode;
use crate::readiness_lifecycle_state::ReadinessLifecycleState;
use crate::states::bitmap::count_set;
use crate::states::phase1::Phase1;
use crate::states::phase2::Phase2;
use crate::states::ready_by_deadline::ReadyByDeadline;
use crate::states::ready_by_quorum::ReadyByQuorum;
use crate::cluster_readiness_input::ClusterReadinessInput;

verus! {

/// The values a state of the state-by-state readiness machine carries.
pub enum MachineModel {
    Phase1 { phase1: Seq<bool>, phase2: Seq<bool> },
    Phase2 { phase1: Seq<bool>, phase2: Seq<bool> },
    ReadyByQuorum { phase1: Seq<bool>, phase2: Seq<bool> },
    ReadyByDeadline { phase1_count: usize, phase2_count: usize, local_participation_complete: bool },
}

/// A state of the state-by-state readiness machine.
pub trait MachineState: View<V = MachineModel> {
    fn step(self, input: MachineInput, config: &MachineConfig) -> (r: (Vec<MachineOutput>, AnyMachineState))
        requires
            machine_accepts(self@) ==> machine_wf(self@, config@),
        ensures
            r.0@ == machine_step(self@, input, config@).1,
            r.1@ == machine_step(self@, input, config@).0,
    ;

    fn snapshot(&self, quorum_threshold: usize) -> (r: MachineSnapshot)
        ensures
            r@ == machine_snapshot(self@, quorum_threshold),
    ;

    fn accept(&self, input: &MachineInput) -> (r: bool)
        ensures
            r == machine_accepts(self@),
    ;
}

/// The state a machine is in, one variant per state.
pub enum AnyMachineState {
    Phase1(Phase1),
    Phase2(Phase2),
    ReadyByQuorum(ReadyByQuorum),
    ReadyByDeadline(ReadyByDeadline),
}

impl View for AnyMachineState {
    type V = MachineModel;

    open spec fn view(&self) -> MachineModel {
        match self {
            AnyMachineState::Phase1(s) => s@,
            AnyMachineState::Phase2(s) => s@,
            AnyMachineState::ReadyByQuorum(s) => s@,
            AnyMachineState::ReadyByDeadline(s) => s@,
        }
    }
}

impl AnyMachineState {
    pub fn step(self, input: MachineInput, config: &MachineConfig) -> (r: (Vec<MachineOutput>, AnyMachineState))
        requires
            machine_accepts(self@) ==> machine_wf(self@, config@),
        ensures
            r.0@ == machine_step(self@, input, config@).1,
            r.1@ == machine_step(self@, input, config@).0,
    {
        match self {
            AnyMachineState::Phase1(s) => s.step(input, config),
            AnyMachineState::Phase2(s) => s.step(input, config),
            AnyMachineState::ReadyByQuorum(s) => s.step(input, config),
            AnyMachineState::ReadyByDeadline(s) => s.step(input, config),
        }
    }

    pub fn snapshot(&self, quorum_threshold: usize) -> (r: MachineSnapshot)
        ensures
            r@ == machine_snapshot(self@, quorum_threshold),
    {
        match self {
            AnyMachineState::Phase1(s) => s.snapshot(quorum_threshold),
            AnyMachineState::Phase2(s) => s.snapshot(quorum_threshold),
            AnyMachineState::ReadyByQuorum(s) => s.snapshot(quorum_threshold),
            AnyMachineState::ReadyByDeadline(s) => s.snapshot(quorum_threshold),
        }
    }

    pub fn accept(&self, input: &MachineInput) -> (r: bool)
        ensures
            r == machine_accepts(self@),
    {
        match self {
            AnyMachineState::Phase1(s) => s.accept(input),
            AnyMachineState::Phase2(s) => s.accept(input),
            AnyMachineState::ReadyByQuorum(s) => s.accept(input),
            AnyMachineState::ReadyByDeadline(s) => s.accept(input),
        }
    }
}

/// The readiness machine a state stands for under `config`; a deadline exit keeps only counts,
/// so its flags are left empty.
pub open spec fn as_readiness(s: MachineModel, config: ReadinessConfigModel) -> ReadinessModel {
    match s {
        MachineModel::Phase1 { phase1, phase2 } => ReadinessModel {
            config,
            lifecycle_state: ReadinessLifecycleState::Phase1Active,
            exit_mode: None,
            local_participation_complete: false,
            phase1,
            phase2,
        },
        MachineModel::Phase2 { phase1, phase2 } => ReadinessModel {
            config,
            lifecycle_state: ReadinessLifecycleState::Phase2Active,
            exit_mode: None,
            local_participation_complete: true,
            phase1,
            phase2,
        },
        MachineModel::ReadyByQuorum { phase1, phase2 } => ReadinessModel {
            config,
            lifecycle_state: ReadinessLifecycleState::ReadyByQuorum,
            exit_mode: Some(ReadinessExitMode::Quorum),
            local_participation_complete: true,
            phase1,
            phase2,
        },
        MachineModel::ReadyByDeadline { local_participation_complete, .. } => ReadinessModel {
            config,
            lifecycle_state: ReadinessLifecycleState::ReadyByDeadline,
            exit_mode: Some(ReadinessExitMode::Deadline),
            local_participation_complete,
            phase1: Seq::empty(),
            phase2: Seq::empty(),
        },
    }
}

/// The state that stands for a readiness machine.
pub open spec fn as_machine(m: ReadinessModel) -> MachineModel {
    match m.exit_mode {
        None => if m.local_participation_complete {
            MachineModel::Phase2 { phase1: m.phase1, phase2: m.phase2 }
        } else {
            MachineModel::Phase1 { phase1: m.phase1, phase2: m.phase2 }
        },
        Some(ReadinessExitMode::Quorum) => MachineModel::ReadyByQuorum { phase1: m.phase1, phase2: m.phase2 },
        Some(ReadinessExitMode::Deadline) => MachineModel::ReadyByDeadline {
            phase1_count: count_set(m.phase1) as usize,
            phase2_count: count_set(m.phase2) as usize,
            local_participation_complete: m.local_participation_complete,
        },
    }
}

/// What holds of every state a machine reaches.
pub open spec fn machine_wf(s: MachineModel, config: ReadinessConfigModel) -> bool {
    match s {
        MachineModel::ReadyByDeadline { .. } => true,
        _ => readiness_inv(as_readiness(s, config)),
    }
}

/// Whether a state takes inputs: an exited one does not.
pub open spec fn machine_accepts(s: MachineModel) -> bool {
    s is Phase1 || s is Phase2
}

/// What an exited machine answers: observations are stale, other inputs produce nothing.
pub open spec fn exited_outputs(input: MachineInput) -> Seq<MachineOutput> {
    match input {
        ClusterReadinessInput::ParticipationObserved { peer_id, .. } => seq![
            MachineOutput::StaleParticipationIgnored { peer_id },
        ],
        ClusterReadinessInput::ReadyObserved { peer_id, .. } => seq![MachineOutput::StaleReadyIgnored { peer_id }],
        _ => Seq::empty(),
    }
}

/// A state's step: it does what the readiness machine it stands for does.
pub open spec fn machine_step(s: MachineModel, input: MachineInput, config: ReadinessConfigModel) -> (
    MachineModel,
    Seq<MachineOutput>,
) {
    match s {
        MachineModel::ReadyByDeadline { .. } => (s, exited_outputs(input)),
        _ => {
            let (next, outputs) = readiness_step(as_readiness(s, config), input);
            (as_machine(next), as_machine_outputs(outputs))
        },
    }
}

/// The snapshot a state reports.
pub open spec fn machine_snapshot(s: MachineModel, quorum_threshold: usize) -> SnapshotModel {
    match s {
        MachineModel::Phase1 { phase1, phase2 } => SnapshotModel {
            lifecycle_state: ReadinessLifecycleState::Phase1Active,
            exit_mode: None,
            local_participation_complete: false,
            readiness_exited: false,
            phase1_confirmed_count: count_set(phase1) as usize,
            phase2_confirmed_count: count_set(phase2) as usize,
            quorum_threshold,
        },
        MachineModel::Phase2 { phase1, phase2 } => SnapshotModel {
            lifecycle_state: ReadinessLifecycleState::Phase2Active,
            exit_mode: None,
            local_participation_complete: true,
            readiness_exited: false,
            phase1_confirmed_count: count_set(phase1) as usize,
            phase2_confirmed_count: count_set(phase2) as usize,
            quorum_threshold,
        },
        MachineModel::ReadyByQuorum { phase1, phase2 } => SnapshotModel {
            lifecycle_state: ReadinessLifecycleState::ReadyByQuorum,
            exit_mode: Some(ReadinessExitMode::Quorum),
            local_participation_complete: true,
            readiness_exited: true,
            phase1_confirmed_count: count_set(phase1) as usize,
            phase2_confirmed_count: count_set(phase2) as usize,
            quorum_threshold,
        },
        MachineModel::ReadyByDeadline { phase1_count, phase2_count, local_participation_complete } => SnapshotModel {
            lifecycle_state: ReadinessLifecycleState::ReadyByDeadline,
            exit_mode: Some(ReadinessExitMode::Deadline),
            local_participation_complete,
            readiness_exited: true,
            phase1_confirmed_count: phase1_count,
            phase2_confirmed_count: phase2_count,
            quorum_threshold,
        },
    }
}

} // verus!
