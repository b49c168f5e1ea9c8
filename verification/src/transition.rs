use vstd::prelude::*;

use crate::cluster_view::{ClusterView, ClusterViewModel};
use crate::outcome::Outcome;

verus! {

/// One accepted step: the view before it, what it produced, and the view after it.
#[derive(Debug, PartialEq, Eq)]
pub struct Transition {
    previous_view: ClusterView,
    outputs: Vec<Outcome>,
    new_view: ClusterView,
}

impl Transition {
    pub closed spec fn previous_spec(&self) -> ClusterViewModel {
        self.previous_view@
    }

    pub closed spec fn outputs_spec(&self) -> Seq<Outcome> {
        self.outputs@
    }

    pub closed spec fn new_spec(&self) -> ClusterViewModel {
        self.new_view@
    }

    pub fn new(previous_view: ClusterView, outputs: Vec<Outcome>, new_view: ClusterView) -> (r: Self)
        ensures
            r.previous_spec() == previous_view@,
            r.outputs_spec() == outputs@,
            r.new_spec() == new_view@,
    {
        Transition { previous_view, outputs, new_view }
    }

    pub fn previous_view(&self) -> (r: ClusterView)
        ensures
            r@ == self.previous_spec(),
    {
        self.previous_view.clone()
    }

    pub fn outputs(&self) -> (r: &[Outcome])
        ensures
            r@ == self.outputs_spec(),
    {
        self.outputs.as_slice()
    }

    pub fn new_view(&self) -> (r: ClusterView)
        ensures
            r@ == self.new_spec(),
    {
        self.new_view.clone()
    }
}

} // verus!
