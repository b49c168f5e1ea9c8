use vstd::prelude::*;

use crate::cluster_view::ClusterView;
use crate::state::{view_of, FactionState};

verus! {

/// Something that reports a cluster view on top of a previous one.
pub trait StateClusterView {
    fn cluster_view(&self, previous: &ClusterView) -> ClusterView;
}

impl StateClusterView for FactionState {
    fn cluster_view(&self, previous: &ClusterView) -> (r: ClusterView)
        ensures
            r@ == view_of(self@, previous@),
    {
        FactionState::cluster_view(self, previous)
    }
}

} // verus!
