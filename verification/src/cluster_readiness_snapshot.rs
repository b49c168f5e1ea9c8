use vstd::prelude::*;

use crate::machine_snapshot::MachineSnapshot;

verus! {

/// What the readiness machine reports of itself: the same values as a machine snapshot.
pub type ClusterReadinessSnapshot = MachineSnapshot;

} // verus!
