use vstd::prelude::*;

verus! {

/// How fresh an observation is relative to the current marker.
#[derive(Debug, Clone, Copy, PartialEq, Eq, Structural)]
pub enum FreshnessClassification {
    Timely,
    DelayedWithinMargin,
    Stale,
}

} // verus!
