use vstd::prelude::*;

use crate::cluster_view::{ClusterView, ClusterViewModel};
use crate::command::Command;
use crate::outcome::Outcome;

verus! {

/// The answer to a processed command.
#[derive(Debug, PartialEq, Eq)]
pub enum ProcessResult {
    Accepted { cluster_view: ClusterView, admissible: Vec<Command>, outcomes: Vec<Outcome> },
    Rejected { cluster_view: ClusterView, admissible: Vec<Command> },
    Probed { cluster_view: ClusterView, admissible: Vec<Command> },
}

/// The values a [`ProcessResult`] holds.
pub enum ProcessResultModel {
    Accepted { cluster_view: ClusterViewModel, admissible: Seq<Command>, outcomes: Seq<Outcome> },
    Rejected { cluster_view: ClusterViewModel, admissible: Seq<Command> },
    Probed { cluster_view: ClusterViewModel, admissible: Seq<Command> },
}

impl View for ProcessResult {
    type V = ProcessResultModel;

    open spec fn view(&self) -> ProcessResultModel {
        match self {
            ProcessResult::Accepted { cluster_view, admissible, outcomes } => ProcessResultModel::Accepted {
                cluster_view: cluster_view@,
                admissible: admissible@,
                outcomes: outcomes@,
            },
            ProcessResult::Rejected { cluster_view, admissible } => ProcessResultModel::Rejected {
                cluster_view: cluster_view@,
                admissible: admissible@,
            },
            ProcessResult::Probed { cluster_view, admissible } => ProcessResultModel::Probed {
                cluster_view: cluster_view@,
                admissible: admissible@,
            },
        }
    }
}

impl ProcessResultModel {
    /// The cluster view every result carries.
    pub open spec fn cluster_view(self) -> ClusterViewModel {
        match self {
            ProcessResultModel::Accepted { cluster_view, .. } => cluster_view,
            ProcessResultModel::Rejected { cluster_view, .. } => cluster_view,
            ProcessResultModel::Probed { cluster_view, .. } => cluster_view,
        }
    }

    /// The outcomes the result reports; only an accepted command has any.
    pub open spec fn outcomes(self) -> Seq<Outcome> {
        match self {
            ProcessResultModel::Accepted { outcomes, .. } => outcomes,
            _ => Seq::empty(),
        }
    }
}

} // verus!
