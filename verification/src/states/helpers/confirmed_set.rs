use vstd::prelude::*;

use crate::freshness_classification::FreshnessClassification;
use crate::states::bitmap::{count_set, Bitmap};

verus! {

/// One confirmation flag per peer position, with the count of confirmed positions.
#[derive(Debug)]
pub struct ConfirmedSet {
    flags: Bitmap,
}

impl View for ConfirmedSet {
    type V = Seq<bool>;

    closed spec fn view(&self) -> Seq<bool> {
        self.flags@
    }
}

impl Clone for ConfirmedSet {
    fn clone(&self) -> (r: Self)
        ensures
            r@ == self@,
    {
        ConfirmedSet { flags: self.flags.clone() }
    }
}

impl ConfirmedSet {
    /// `size` unconfirmed positions.
    pub fn new(size: usize) -> (r: Self)
        ensures
            r@ == Seq::new(size as nat, |i: int| false),
    {
        let flags = Bitmap::new(size);
        assert(flags@ =~= Seq::new(size as nat, |i: int| false));
        ConfirmedSet { flags }
    }

    pub fn count(&self) -> (r: usize)
        ensures
            r == count_set(self@),
    {
        self.flags.count()
    }

    pub fn is_confirmed(&self, index: usize) -> (r: bool)
        requires
            index < self@.len(),
        ensures
            r == self@[index as int],
    {
        self.flags.is_set(index)
    }

    /// Confirms a position found among the peers, unless it is a duplicate or the
    /// observation is stale or unclassified; the flag tells whether it confirmed.
    pub fn try_confirm(
        &self,
        index: Option<usize>,
        is_dup: bool,
        classification: Option<FreshnessClassification>,
    ) -> (r: (Self, bool))
        requires
            index matches Some(i) ==> i < self@.len(),
        ensures
            r.1 == (index is Some && !is_dup && classification is Some && classification
                != Some(FreshnessClassification::Stale)),
            r.0@ == (if r.1 {
                self@.update(index.unwrap() as int, true)
            } else {
                self@
            }),
    {
        match (index, is_dup, classification) {
            (Some(i), false, Some(c)) => {
                if let FreshnessClassification::Stale = c {
                    return (self.clone(), false);
                }
                let (flags, _) = self.flags.set(i);
                assert(flags@ =~= self@.update(i as int, true));
                (ConfirmedSet { flags }, true)
            },
            _ => (self.clone(), false),
        }
    }

    /// Confirms position `index`; the flag tells whether it was unconfirmed.
    pub fn confirm(&self, index: usize) -> (r: (Self, bool))
        requires
            index < self@.len(),
        ensures
            r.1 == !self@[index as int],
            r.0@ == self@.update(index as int, true),
    {
        let (flags, changed) = self.flags.set(index);
        assert(flags@ =~= self@.update(index as int, true));
        (ConfirmedSet { flags }, changed)
    }
}

} // verus!
