use vstd::prelude::*;

use crate::cluster_readiness::readiness_initial;
use crate::cluster_readiness_config::ReadinessConfigModel;
use crate::machine_config::MachineConfig;
use crate::machine_input::MachineInput;
use crate::machine_observer::{MachineNotice, MachineObserver};
use crate::machine_output::MachineOutput;
use crate::machine_snapshot::MachineSnapshot;
use crate::readiness_laws::lemma_machine_step_wf;
use crate::machine_state::{
    as_machine, machine_accepts, machine_snapshot, machine_step, machine_wf, AnyMachineState, MachineModel,
};
use crate::machine_transition::MachineTransition;
use crate::states::bitmap::lemma_count_set_all_clear;
use crate::states::phase1::Phase1;
use crate::states::ready_by_deadline::ReadyByDeadline;

verus! {

/// The readiness machine written state by state: each input goes to the current state, which
/// answers with outputs and the next state.
pub struct Machine {
    observer: Box<dyn MachineObserver>,
    core: MachineCore,
}

/// The configuration and the current state of a machine, which always satisfy `machine_wf`.
struct MachineCore {
    config: MachineConfig,
    state: AnyMachineState,
}

/// The values a [`Machine`] holds; the observer is not part of them.
pub struct MachineRunModel {
    pub config: ReadinessConfigModel,
    pub state: MachineModel,
}

impl View for Machine {
    type V = MachineRunModel;

    closed spec fn view(&self) -> MachineRunModel {
        self.core@
    }
}

impl View for MachineCore {
    type V = MachineRunModel;

    closed spec fn view(&self) -> MachineRunModel {
        MachineRunModel { config: self.config@, state: self.state@ }
    }
}

/// The machine after an input: an exited state takes none and nothing changes.
pub open spec fn machine_apply(m: MachineRunModel, input: MachineInput) -> (MachineRunModel, Seq<MachineOutput>) {
    if machine_accepts(m.state) {
        let (next, outputs) = machine_step(m.state, input, m.config);
        (MachineRunModel { config: m.config, state: next }, outputs)
    } else {
        (m, Seq::empty())
    }
}

impl MachineCore {
    #[verifier::type_invariant]
    closed spec fn wf(self) -> bool {
        machine_wf(self.state@, self.config@)
    }

    fn step(&mut self, input: MachineInput) -> (r: Vec<MachineOutput>)
        requires
            machine_accepts(old(self)@.state),
        ensures
            final(self)@ == machine_apply(old(self)@, input).0,
            r@ == machine_apply(old(self)@, input).1,
            machine_wf(final(self)@.state, final(self)@.config),
    {
        proof {
            use_type_invariant(&*self);
            lemma_machine_step_wf(self@.state, input, self@.config);
        }
        let mut current = AnyMachineState::ReadyByDeadline(
            ReadyByDeadline { phase1_count: 0, phase2_count: 0, local_participation_complete: false },
        );
        std::mem::swap(&mut current, &mut self.state);
        let (outputs, new_state) = current.step(input, &self.config);
        self.state = new_state;
        outputs
    }

    fn snapshot(&self) -> (r: MachineSnapshot)
        ensures
            r@ == machine_snapshot(self@.state, self@.config.quorum_threshold),
            machine_wf(self@.state, self@.config),
    {
        proof {
            use_type_invariant(self);
        }
        self.state.snapshot(self.config.quorum_threshold())
    }
}

impl Machine {
    pub fn new(config: MachineConfig, observer: Box<dyn MachineObserver>) -> (r: Self)
        ensures
            r@.config == config@,
            r@.state == as_machine(readiness_initial(config@)),
            machine_wf(r@.state, r@.config),
    {
        let state = Phase1::new(config.peer_count());
        proof {
            lemma_count_set_all_clear(Seq::new(config@.peers.len(), |i: int| false));
        }
        assert(state@ == as_machine(readiness_initial(config@)));
        Machine { observer, core: MachineCore { config, state: AnyMachineState::Phase1(state) } }
    }

    /// Whether this machine's observer keeps a record of what it is told.
    pub closed spec fn keeps_notices(&self) -> bool {
        (*self.observer).keeps_notices()
    }

    /// What this machine's observer has been told, where it keeps a record.
    pub closed spec fn notices(&self) -> Seq<MachineNotice> {
        (*self.observer).notices()
    }

    /// Applies one input. An exited state refuses it: nothing changes and the observer is not
    /// called. Otherwise the observer is told exactly once, of the snapshots before and after
    /// the input and of the outputs.
    pub fn apply(&mut self, input: MachineInput) -> (r: Vec<MachineOutput>)
        ensures
            machine_wf(old(self)@.state, old(self)@.config),
            final(self)@ == machine_apply(old(self)@, input).0,
            r@ == machine_apply(old(self)@, input).1,
            machine_wf(final(self)@.state, final(self)@.config),
            !machine_accepts(old(self)@.state) ==> final(self).keeps_notices() == old(self).keeps_notices()
                && final(self).notices() == old(self).notices(),
            machine_accepts(old(self)@.state) && old(self).keeps_notices() ==> final(self).keeps_notices()
                && final(self).notices() == old(self).notices().push(
                MachineNotice {
                    input,
                    previous_state: machine_snapshot(old(self)@.state, old(self)@.config.quorum_threshold),
                    outputs: r@,
                    new_state: machine_snapshot(final(self)@.state, final(self)@.config.quorum_threshold),
                },
            ),
    {
        proof {
            use_type_invariant(&self.core);
        }
        if !self.core.state.accept(&input) {
            return Vec::new();
        }
        let previous_snapshot = self.core.snapshot();
        let outputs = self.core.step(input);
        let new_snapshot = self.core.snapshot();
        let transition = MachineTransition::new(
            previous_snapshot,
            vstd::slice::slice_to_vec(outputs.as_slice()),
            new_snapshot,
        );
        self.observer.observe(input, transition);
        outputs
    }

    pub fn snapshot(&self) -> (r: MachineSnapshot)
        ensures
            r@ == machine_snapshot(self@.state, self@.config.quorum_threshold),
            machine_wf(self@.state, self@.config),
    {
        self.core.snapshot()
    }

    pub fn config(&self) -> (r: &MachineConfig)
        ensures
            r@ == self@.config,
    {
        &self.core.config
    }
}

} // verus!
