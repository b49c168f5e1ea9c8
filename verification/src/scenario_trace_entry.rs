use vstd::prelude::*;

use crate::cluster_view::{ClusterView, ClusterViewModel};
use crate::command::Command;
use crate::outcome::Outcome;
use crate::types::PeerId;

verus! {

/// One recorded step of a scenario: who processed what, what it produced, and the view after.
#[derive(Debug, PartialEq, Eq)]
pub struct ScenarioTraceEntry {
    peer_id: PeerId,
    command: Command,
    outputs: Vec<Outcome>,
    cluster_view: ClusterView,
}

impl ScenarioTraceEntry {
    pub closed spec fn peer_spec(&self) -> PeerId {
        self.peer_id
    }

    pub closed spec fn command_spec(&self) -> Command {
        self.command
    }

    pub closed spec fn outputs_spec(&self) -> Seq<Outcome> {
        self.outputs@
    }

    pub closed spec fn view_spec(&self) -> ClusterViewModel {
        self.cluster_view@
    }

    pub fn new(peer_id: PeerId, command: Command, outputs: Vec<Outcome>, cluster_view: ClusterView) -> (r: Self)
        ensures
            r.peer_spec() == peer_id,
            r.command_spec() == command,
            r.outputs_spec() == outputs@,
            r.view_spec() == cluster_view@,
    {
        ScenarioTraceEntry { peer_id, command, outputs, cluster_view }
    }

    pub fn peer_id(&self) -> (r: PeerId)
        ensures
            r == self.peer_spec(),
    {
        self.peer_id
    }

    pub fn command(&self) -> (r: Command)
        ensures
            r == self.command_spec(),
    {
        self.command
    }

    pub fn outputs(&self) -> (r: &[Outcome])
        ensures
            r@ == self.outputs_spec(),
    {
        self.outputs.as_slice()
    }

    pub fn cluster_view(&self) -> (r: ClusterView)
        ensures
            r@ == self.view_spec(),
    {
        self.cluster_view.clone()
    }
}

} // verus!
