use vstd::prelude::*;

use crate::machine_output::MachineOutput;
use crate::machine_snapshot::{MachineSnapshot, SnapshotModel};

verus! {

/// One input's effect on the state-by-state machine: snapshots before and after, and the outputs.
#[derive(Debug, PartialEq, Eq)]
pub struct MachineTransition {
    previous_state: MachineSnapshot,
    outputs: Vec<MachineOutput>,
    new_state: MachineSnapshot,
}

impl MachineTransition {
    pub closed spec fn previous_spec(&self) -> SnapshotModel {
        self.previous_state@
    }

    pub closed spec fn outputs_spec(&self) -> Seq<MachineOutput> {
        self.outputs@
    }

    pub closed spec fn new_spec(&self) -> SnapshotModel {
        self.new_state@
    }

    pub fn new(previous_state: MachineSnapshot, outputs: Vec<MachineOutput>, new_state: MachineSnapshot) -> (r: Self)
        ensures
            r.previous_spec() == previous_state@,
            r.outputs_spec() == outputs@,
            r.new_spec() == new_state@,
    {
        MachineTransition { previous_state, outputs, new_state }
    }

    pub fn previous_state(&self) -> (r: MachineSnapshot)
        ensures
            r@ == self.previous_spec(),
    {
        self.previous_state
    }

    pub fn outputs(&self) -> (r: &[MachineOutput])
        ensures
            r@ == self.outputs_spec(),
    {
        self.outputs.as_slice()
    }

    pub fn new_state(&self) -> (r: MachineSnapshot)
        ensures
            r@ == self.new_spec(),
    {
        self.new_state
    }
}

} // verus!
