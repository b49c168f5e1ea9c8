use vstd::prelude::*;

use crate::cluster_view::{ClusterView, ClusterViewModel};
use crate::command::Command;
use crate::outcome::Outcome;
use crate::transition::Transition;

verus! {

/// What a [`crate::faction::Faction`] tells its observer about one processed command.
pub enum Notice {
    Transition { command: Command, previous_view: ClusterViewModel, outputs: Seq<Outcome>, new_view: ClusterViewModel },
    Query { command: Command, cluster_view: ClusterViewModel },
    Rejection { command: Command, cluster_view: ClusterViewModel, admissible: Seq<Command> },
}

/// Receives every transition, query and rejection of a [`crate::faction::Faction`].
///
/// An observer may keep a record of what it is told (`keeps_notices`); one that does appends
/// exactly the notice of each call to `notices`, and keeps doing so.
pub trait Observer {
    /// Whether this observer keeps a record of what it is told; unless an observer says so, it
    /// keeps none.
    open spec fn keeps_notices(&self) -> bool {
        false
    }

    /// What this observer has been told, in order, where it keeps a record.
    open spec fn notices(&self) -> Seq<Notice> {
        Seq::empty()
    }

    fn observe(&mut self, command: Command, transition: Transition)
        ensures
            old(self).keeps_notices() ==> final(self).keeps_notices() && final(self).notices() == old(
                self,
            ).notices().push(
                Notice::Transition {
                    command,
                    previous_view: transition.previous_spec(),
                    outputs: transition.outputs_spec(),
                    new_view: transition.new_spec(),
                },
            ),
    ;

    fn observe_query(&mut self, command: Command, cluster_view: ClusterView)
        ensures
            old(self).keeps_notices() ==> final(self).keeps_notices() && final(self).notices() == old(
                self,
            ).notices().push(Notice::Query { command, cluster_view: cluster_view@ }),
    ;

    fn observe_rejection(&mut self, command: Command, cluster_view: ClusterView, admissible: Vec<Command>)
        ensures
            old(self).keeps_notices() ==> final(self).keeps_notices() && final(self).notices() == old(
                self,
            ).notices().push(Notice::Rejection { command, cluster_view: cluster_view@, admissible: admissible@ }),
    ;
}

} // verus!
