use vstd::prelude::*;

use crate::cluster_view::ClusterView;
use crate::command::Command;
use crate::config::{Config, ConfigModel};
use crate::faction::{initial_model, process_next, process_result, Faction, FactionModel};
use crate::no_op_observer::NoOpObserver;
use crate::outcome::Outcome;
use crate::process_result::ProcessResult;
use crate::quorum_policy::QuorumPolicy;
use crate::types::{copy_peers, PeerId};

verus! {

/// One node per peer of a cluster, each driven by hand.
pub struct ScenarioHarness {
    factions: Vec<Faction>,
}

impl View for ScenarioHarness {
    type V = Seq<FactionModel>;

    closed spec fn view(&self) -> Seq<FactionModel> {
        self.factions@.map_values(|f: Faction| f@)
    }
}

/// The configuration of the node of `peer_id` in a cluster of `peer_set`.
pub open spec fn node_config(peer_id: PeerId, peer_set: Seq<PeerId>, required_count: usize) -> ConfigModel {
    ConfigModel { peer_id, peers: peer_set, required_count }
}

/// The outcomes a command gives: those of an accepted command, none otherwise.
pub(crate) fn outcomes_of(result: ProcessResult) -> (r: Vec<Outcome>)
    ensures
        r@ == result@.outcomes(),
{
    match result {
        ProcessResult::Accepted { outcomes, .. } => outcomes,
        _ => Vec::new(),
    }
}

impl ScenarioHarness {
    pub fn new(peer_set: Vec<PeerId>, required_count: usize) -> (r: Self)
        ensures
            r@.len() == peer_set@.len(),
            forall|i: int| 0 <= i < peer_set@.len() ==> #[trigger] r@[i] == initial_model(
                node_config(peer_set@[i], peer_set@, required_count),
            ),
    {
        let mut factions: Vec<Faction> = Vec::new();
        let mut i: usize = 0;
        while i < peer_set.len()
            invariant
                i <= peer_set@.len(),
                factions@.len() == i,
                forall|k: int| 0 <= k < i ==> #[trigger] factions@[k]@ == initial_model(
                    node_config(peer_set@[k], peer_set@, required_count),
                ),
            decreases peer_set@.len() - i,
        {
            let peer_id = peer_set[i];
            let faction = Faction::new(
                Config::new(peer_id, copy_peers(&peer_set), QuorumPolicy::new(required_count)),
                Box::new(NoOpObserver),
            );
            factions.push(faction);
            i = i + 1;
        }
        let r = ScenarioHarness { factions };
        assert forall|k: int| 0 <= k < peer_set@.len() implies #[trigger] r@[k] == initial_model(
            node_config(peer_set@[k], peer_set@, required_count),
        ) by {
            assert(r@[k] == r.factions@[k]@);
        }
        r
    }

    pub fn coordinator_count(&self) -> (r: usize)
        ensures
            r == self@.len(),
    {
        self.factions.len()
    }

    fn run(&mut self, faction_index: usize, command: Command) -> (r: ProcessResult)
        requires
            faction_index < old(self)@.len(),
        ensures
            r@ == process_result(old(self)@[faction_index as int], command),
            final(self)@ == old(self)@.update(
                faction_index as int,
                process_next(old(self)@[faction_index as int], command),
            ),
    {
        assert(self.factions@[faction_index as int]@ == self@[faction_index as int]);
        let r = self.factions[faction_index].process(command);
        assert(self@ =~= old(self)@.update(
            faction_index as int,
            process_next(old(self)@[faction_index as int], command),
        ));
        r
    }

    pub fn cluster_view(&mut self, faction_index: usize) -> (r: ClusterView)
        requires
            faction_index < old(self)@.len(),
        ensures
            r@ == old(self)@[faction_index as int].view,
            final(self)@ == old(self)@,
    {
        let result = self.run(faction_index, Command::Probe);
        assert(self@ =~= old(self)@);
        match result {
            ProcessResult::Probed { cluster_view, .. } => cluster_view,
            ProcessResult::Accepted { cluster_view, .. } => cluster_view,
            ProcessResult::Rejected { cluster_view, .. } => cluster_view,
        }
    }

    pub fn apply_participation(&mut self, faction_index: usize, peer_id: PeerId) -> (r: Vec<Outcome>)
        requires
            faction_index < old(self)@.len(),
        ensures
            r@ == process_result(
                old(self)@[faction_index as int],
                Command::ParticipationObserved { peer_id },
            ).outcomes(),
            final(self)@ == old(self)@.update(
                faction_index as int,
                process_next(old(self)@[faction_index as int], Command::ParticipationObserved { peer_id }),
            ),
    {
        outcomes_of(self.run(faction_index, Command::ParticipationObserved { peer_id }))
    }

    pub fn apply_ready(&mut self, faction_index: usize, peer_id: PeerId) -> (r: Vec<Outcome>)
        requires
            faction_index < old(self)@.len(),
        ensures
            r@ == process_result(old(self)@[faction_index as int], Command::ReadyObserved { peer_id }).outcomes(),
            final(self)@ == old(self)@.update(
                faction_index as int,
                process_next(old(self)@[faction_index as int], Command::ReadyObserved { peer_id }),
            ),
    {
        outcomes_of(self.run(faction_index, Command::ReadyObserved { peer_id }))
    }

    pub fn complete_local_participation(&mut self, faction_index: usize) -> (r: Vec<Outcome>)
        requires
            faction_index < old(self)@.len(),
        ensures
            r@ == process_result(old(self)@[faction_index as int], Command::LocalParticipationCompleted).outcomes(),
            final(self)@ == old(self)@.update(
                faction_index as int,
                process_next(old(self)@[faction_index as int], Command::LocalParticipationCompleted),
            ),
    {
        outcomes_of(self.run(faction_index, Command::LocalParticipationCompleted))
    }

    pub fn expire_deadline(&mut self, faction_index: usize) -> (r: Vec<Outcome>)
        requires
            faction_index < old(self)@.len(),
        ensures
            r@ == process_result(old(self)@[faction_index as int], Command::DeadlineExpired).outcomes(),
            final(self)@ == old(self)@.update(
                faction_index as int,
                process_next(old(self)@[faction_index as int], Command::DeadlineExpired),
            ),
    {
        outcomes_of(self.run(faction_index, Command::DeadlineExpired))
    }
}

} // verus!
