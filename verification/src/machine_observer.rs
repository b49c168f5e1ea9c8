use vstd::prelude::*;

use crate::machine_input::MachineInput;
use crate::machine_output::MachineOutput;
use crate::machine_snapshot::SnapshotModel;
use crate::machine_transition::MachineTransition;

verus! {

/// What a [`crate::machine::Machine`] tells its observer about one accepted input: the
/// snapshots before and after it, and the outputs.
pub struct MachineNotice {
    pub input: MachineInput,
    pub previous_state: SnapshotModel,
    pub outputs: Seq<MachineOutput>,
    pub new_state: SnapshotModel,
}

/// Receives every transition of a [`crate::machine::Machine`].
///
/// An observer may keep a record of what it is told (`keeps_notices`); one that does appends
/// exactly the notice of each call to `notices`, and keeps doing so.
pub trait MachineObserver {
    /// Whether this observer keeps a record of what it is told; unless an observer says so, it
    /// keeps none.
    open spec fn keeps_notices(&self) -> bool {
        false
    }

    /// What this observer has been told, in order, where it keeps a record.
    open spec fn notices(&self) -> Seq<MachineNotice> {
        Seq::empty()
    }

    fn observe(&mut self, input: MachineInput, transition: MachineTransition)
        ensures
            old(self).keeps_notices() ==> final(self).keeps_notices() && final(self).notices() == old(
                self,
            ).notices().push(
                MachineNotice {
                    input,
                    previous_state: transition.previous_spec(),
                    outputs: transition.outputs_spec(),
                    new_state: transition.new_spec(),
                },
            ),
    ;
}

} // verus!
