use vstd::prelude::*;

use crate::cluster_view::ClusterView;
use crate::command::Command;
use crate::config::Config;
use crate::faction::{initial_model, process_next, process_result, Faction, FactionModel};
use crate::no_op_observer::NoOpObserver;
use crate::observer::Observer;
use crate::outcome::Outcome;
use crate::process_result::ProcessResult;
use crate::scenario_harness::outcomes_of;
use crate::types::PeerId;

verus! {

/// A peer of a scenario together with its bootstrap machine.
pub struct ScenarioNode {
    peer_id: PeerId,
    readiness: Faction,
}

impl ScenarioNode {
    pub closed spec fn peer_spec(&self) -> PeerId {
        self.peer_id
    }

    pub closed spec fn machine_spec(&self) -> FactionModel {
        self.readiness@
    }

    pub fn new(peer_id: PeerId, config: Config) -> (r: Self)
        ensures
            r.peer_spec() == peer_id,
            r.machine_spec() == initial_model(config@),
    {
        ScenarioNode { peer_id, readiness: Faction::new(config, Box::new(NoOpObserver)) }
    }

    pub fn new_with_observer(peer_id: PeerId, config: Config, observer: Box<dyn Observer>) -> (r: Self)
        ensures
            r.peer_spec() == peer_id,
            r.machine_spec() == initial_model(config@),
    {
        ScenarioNode { peer_id, readiness: Faction::new(config, observer) }
    }

    pub fn peer_id(&self) -> (r: PeerId)
        ensures
            r == self.peer_spec(),
    {
        self.peer_id
    }

    pub fn config(&self) -> (r: &Config)
        ensures
            r@ == self.machine_spec().config,
    {
        self.readiness.config()
    }

    pub fn cluster_view(&mut self) -> (r: ClusterView)
        ensures
            r@ == old(self).machine_spec().view,
            final(self).machine_spec() == old(self).machine_spec(),
            final(self).peer_spec() == old(self).peer_spec(),
    {
        match self.readiness.process(Command::Probe) {
            ProcessResult::Probed { cluster_view, .. } => cluster_view,
            ProcessResult::Accepted { cluster_view, .. } => cluster_view,
            ProcessResult::Rejected { cluster_view, .. } => cluster_view,
        }
    }

    pub fn process(self, command: Command) -> (r: (Self, Vec<Outcome>))
        ensures
            r.0.peer_spec() == self.peer_spec(),
            r.0.machine_spec() == process_next(self.machine_spec(), command),
            r.1@ == process_result(self.machine_spec(), command).outcomes(),
    {
        let mut readiness = self.readiness;
        let outputs = outcomes_of(readiness.process(command));
        (ScenarioNode { peer_id: self.peer_id, readiness }, outputs)
    }
}

} // verus!
