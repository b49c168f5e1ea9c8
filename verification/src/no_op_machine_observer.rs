use vstd::prelude::*;

use crate::machine_input::MachineInput;
use crate::machine_observer::MachineObserver;
use crate::machine_transition::MachineTransition;

verus! {

/// An observer that ignores everything and keeps no record.
pub struct NoOpMachineObserver;

impl MachineObserver for NoOpMachineObserver {
    fn observe(&mut self, _input: MachineInput, _transition: MachineTransition) {
    }
}

} // verus!
