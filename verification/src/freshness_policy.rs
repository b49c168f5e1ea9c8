use vstd::prelude::*;

use crate::freshness_classification::FreshnessClassification;
use crate::types::Freshness;

verus! {

/// How old an observation may be and still count.
#[derive(Debug, Clone, Copy, PartialEq, Eq)]
pub struct FreshnessPolicy {
    max_delay: Freshness,
}

/// The classification of an observation made at `observed` when the current marker is
/// `current`: one from the future or older than `max_delay` is stale, one of the current
/// marker is timely, any other is delayed within the margin.
pub open spec fn classification(
    max_delay: Freshness,
    current: Freshness,
    observed: Freshness,
) -> FreshnessClassification {
    if observed > current || current - observed > max_delay {
        FreshnessClassification::Stale
    } else if observed == current {
        FreshnessClassification::Timely
    } else {
        FreshnessClassification::DelayedWithinMargin
    }
}

impl FreshnessPolicy {
    pub closed spec fn max_delay_spec(&self) -> Freshness {
        self.max_delay
    }

    pub fn new(max_delay: Freshness) -> (r: Self)
        ensures
            r.max_delay_spec() == max_delay,
    {
        FreshnessPolicy { max_delay }
    }

    pub fn max_delay(&self) -> (r: Freshness)
        ensures
            r == self.max_delay_spec(),
    {
        self.max_delay
    }

    pub fn classify(&self, current_marker: Freshness, observed_marker: Freshness) -> (r: FreshnessClassification)
        ensures
            r == classification(self.max_delay_spec(), current_marker, observed_marker),
    {
        if observed_marker > current_marker {
            return FreshnessClassification::Stale;
        }
        let age = current_marker - observed_marker;
        if age == 0 {
            FreshnessClassification::Timely
        } else if age <= self.max_delay {
            FreshnessClassification::DelayedWithinMargin
        } else {
            FreshnessClassification::Stale
        }
    }
}

} // verus!
