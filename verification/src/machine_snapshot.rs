use vstd::prelude::*;

use crate::readiness_exit_mode::ReadinessExitMode;
use crate::readiness_lifecycle_state::ReadinessLifecycleState;

verus! {

/// What a readiness machine reports of itself.
#[derive(Debug, Clone, Copy, PartialEq, Eq)]
pub struct MachineSnapshot {
    lifecycle_state: ReadinessLifecycleState,
    exit_mode: Option<ReadinessExitMode>,
    local_participation_complete: bool,
    readiness_exited: bool,
    phase1_confirmed_count: usize,
    phase2_confirmed_count: usize,
    quorum_threshold: usize,
}

/// The values a [`MachineSnapshot`] holds.
pub struct SnapshotModel {
    pub lifecycle_state: ReadinessLifecycleState,
    pub exit_mode: Option<ReadinessExitMode>,
    pub local_participation_complete: bool,
    pub readiness_exited: bool,
    pub phase1_confirmed_count: usize,
    pub phase2_confirmed_count: usize,
    pub quorum_threshold: usize,
}

impl View for MachineSnapshot {
    type V = SnapshotModel;

    closed spec fn view(&self) -> SnapshotModel {
        SnapshotModel {
            lifecycle_state: self.lifecycle_state,
            exit_mode: self.exit_mode,
            local_participation_complete: self.local_participation_complete,
            readiness_exited: self.readiness_exited,
            phase1_confirmed_count: self.phase1_confirmed_count,
            phase2_confirmed_count: self.phase2_confirmed_count,
            quorum_threshold: self.quorum_threshold,
        }
    }
}

impl MachineSnapshot {
    pub fn new(
        lifecycle_state: ReadinessLifecycleState,
        exit_mode: Option<ReadinessExitMode>,
        local_participation_complete: bool,
        readiness_exited: bool,
        phase1_confirmed_count: usize,
        phase2_confirmed_count: usize,
        quorum_threshold: usize,
    ) -> (r: Self)
        ensures
            r@ == (SnapshotModel {
                lifecycle_state,
                exit_mode,
                local_participation_complete,
                readiness_exited,
                phase1_confirmed_count,
                phase2_confirmed_count,
                quorum_threshold,
            }),
    {
        MachineSnapshot {
            lifecycle_state,
            exit_mode,
            local_participation_complete,
            readiness_exited,
            phase1_confirmed_count,
            phase2_confirmed_count,
            quorum_threshold,
        }
    }

    pub fn lifecycle_state(&self) -> (r: ReadinessLifecycleState)
        ensures
            r == self@.lifecycle_state,
    {
        self.lifecycle_state
    }

    pub fn exit_mode(&self) -> (r: Option<ReadinessExitMode>)
        ensures
            r == self@.exit_mode,
    {
        self.exit_mode
    }

    pub fn local_participation_complete(&self) -> (r: bool)
        ensures
            r == self@.local_participation_complete,
    {
        self.local_participation_complete
    }

    pub fn readiness_exited(&self) -> (r: bool)
        ensures
            r == self@.readiness_exited,
    {
        self.readiness_exited
    }

    pub fn phase1_confirmed_count(&self) -> (r: usize)
        ensures
            r == self@.phase1_confirmed_count,
    {
        self.phase1_confirmed_count
    }

    pub fn phase2_confirmed_count(&self) -> (r: usize)
        ensures
            r == self@.phase2_confirmed_count,
    {
        self.phase2_confirmed_count
    }

    pub fn quorum_threshold(&self) -> (r: usize)
        ensures
            r == self@.quorum_threshold,
    {
        self.quorum_threshold
    }

    pub fn with_lifecycle_state(self, state: ReadinessLifecycleState) -> (r: Self)
        ensures
            r@ == (SnapshotModel { lifecycle_state: state, ..self@ }),
    {
        MachineSnapshot { lifecycle_state: state, ..self }
    }

    pub fn with_exit_mode(self, mode: Option<ReadinessExitMode>) -> (r: Self)
        ensures
            r@ == (SnapshotModel { exit_mode: mode, ..self@ }),
    {
        MachineSnapshot { exit_mode: mode, ..self }
    }

    pub fn with_local_participation_complete(self, val: bool) -> (r: Self)
        ensures
            r@ == (SnapshotModel { local_participation_complete: val, ..self@ }),
    {
        MachineSnapshot { local_participation_complete: val, ..self }
    }

    pub fn with_readiness_exited(self, val: bool) -> (r: Self)
        ensures
            r@ == (SnapshotModel { readiness_exited: val, ..self@ }),
    {
        MachineSnapshot { readiness_exited: val, ..self }
    }

    pub fn with_phase1_count(self, count: usize) -> (r: Self)
        ensures
            r@ == (SnapshotModel { phase1_confirmed_count: count, ..self@ }),
    {
        MachineSnapshot { phase1_confirmed_count: count, ..self }
    }

    pub fn with_phase2_count(self, count: usize) -> (r: Self)
        ensures
            r@ == (SnapshotModel { phase2_confirmed_count: count, ..self@ }),
    {
        MachineSnapshot { phase2_confirmed_count: count, ..self }
    }
}

} // verus!
