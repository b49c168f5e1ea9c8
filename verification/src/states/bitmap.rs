use vstd::prelude::*;

use crate::types::PeerId;

verus! {

/// The number of set flags in `bits`.
pub open spec fn count_set(bits: Seq<bool>) -> nat
    decreases bits.len(),
{
    if bits.len() == 0 {
        0
    } else {
        count_set(bits.drop_last()) + if bits.last() {
            1nat
        } else {
            0nat
        }
    }
}

/// The indices of the set flags in `bits`, in increasing order.
pub open spec fn set_positions(bits: Seq<bool>) -> Seq<usize>
    decreases bits.len(),
{
    if bits.len() == 0 {
        Seq::empty()
    } else {
        let earlier = set_positions(bits.drop_last());
        if bits.last() {
            earlier.push((bits.len() - 1) as usize)
        } else {
            earlier
        }
    }
}

/// There are never more set flags than flags.
pub proof fn lemma_count_set_bounded(bits: Seq<bool>)
    ensures
        count_set(bits) <= bits.len(),
    decreases bits.len(),
{
    if bits.len() > 0 {
        lemma_count_set_bounded(bits.drop_last());
    }
}

/// Setting a clear flag adds one to the count.
pub proof fn lemma_count_set_update(bits: Seq<bool>, i: int)
    requires
        0 <= i < bits.len(),
        !bits[i],
    ensures
        count_set(bits.update(i, true)) == count_set(bits) + 1,
    decreases bits.len(),
{
    let u = bits.update(i, true);
    if i == bits.len() - 1 {
        assert(u.drop_last() =~= bits.drop_last());
    } else {
        assert(u.drop_last() =~= bits.drop_last().update(i, true));
        lemma_count_set_update(bits.drop_last(), i);
    }
}

/// An all-clear sequence counts nothing.
pub proof fn lemma_count_set_all_clear(bits: Seq<bool>)
    requires
        forall|i: int| 0 <= i < bits.len() ==> !bits[i],
    ensures
        count_set(bits) == 0,
    decreases bits.len(),
{
    if bits.len() > 0 {
        lemma_count_set_all_clear(bits.drop_last());
    }
}

/// A set position is below the length and its flag is set.
pub proof fn lemma_set_positions_sound(bits: Seq<bool>)
    requires
        bits.len() <= usize::MAX,
    ensures
        forall|k: int| 0 <= k < set_positions(bits).len() ==> {
            &&& (#[trigger] set_positions(bits)[k]) < bits.len()
            &&& bits[set_positions(bits)[k] as int]
        },
    decreases bits.len(),
{
    if bits.len() > 0 {
        lemma_set_positions_sound(bits.drop_last());
        let earlier = set_positions(bits.drop_last());
        assert forall|k: int| 0 <= k < earlier.len() implies bits[earlier[k] as int] by {
            assert(bits.drop_last()[earlier[k] as int] == bits[earlier[k] as int]);
        }
        let all = set_positions(bits);
        assert forall|k: int| 0 <= k < all.len() implies (#[trigger] all[k]) < bits.len() && bits[all[k] as int] by {
            if k < earlier.len() {
                assert(all[k] == earlier[k]);
                assert(bits.drop_last()[earlier[k] as int] == bits[earlier[k] as int]);
            } else {
                assert(all[k] == (bits.len() - 1) as usize);
                assert(bits[bits.len() - 1] == bits.last());
            }
        }
    }
}

/// A fixed-size set of flags that keeps count of how many are set.
#[derive(Debug, PartialEq, Eq)]
pub struct Bitmap {
    bits: Vec<bool>,
    count: usize,
}

impl View for Bitmap {
    type V = Seq<bool>;

    closed spec fn view(&self) -> Seq<bool> {
        self.bits@
    }
}

impl Clone for Bitmap {
    fn clone(&self) -> (r: Self)
        ensures
            r@ == self@,
    {
        proof {
            use_type_invariant(self);
        }
        let bits = self.bits.clone();
        assert(bits@ =~= self.bits@);
        Bitmap { bits, count: self.count }
    }
}

impl Bitmap {
    #[verifier::type_invariant]
    spec fn count_matches(self) -> bool {
        self.count == count_set(self.bits@)
    }

    /// `size` clear flags.
    pub fn new(size: usize) -> (r: Self)
        ensures
            r@.len() == size,
            forall|i: int| 0 <= i < size ==> !r@[i],
    {
        let mut bits: Vec<bool> = Vec::new();
        let mut i: usize = 0;
        while i < size
            invariant
                i <= size,
                bits@.len() == i,
                forall|k: int| 0 <= k < i ==> !bits@[k],
            decreases size - i,
        {
            bits.push(false);
            i = i + 1;
        }
        proof {
            lemma_count_set_all_clear(bits@);
        }
        Bitmap { bits, count: 0 }
    }

    pub fn len(&self) -> (r: usize)
        ensures
            r == self@.len(),
    {
        self.bits.len()
    }

    pub fn count(&self) -> (r: usize)
        ensures
            r == count_set(self@),
    {
        proof {
            use_type_invariant(self);
        }
        self.count
    }

    /// Whether flag `index` is set; an index past the end is not.
    pub fn is_set(&self, index: usize) -> (r: bool)
        ensures
            r == (index < self@.len() && self@[index as int]),
    {
        if index < self.bits.len() {
            self.bits[index]
        } else {
            false
        }
    }

    /// The bitmap with flag `index` set, and whether that changed it: an index past the end
    /// or a flag already set leaves it as it is.
    pub fn set(&self, index: usize) -> (r: (Self, bool))
        ensures
            r.1 == (index < self@.len() && !self@[index as int]),
            r.0@ == (if r.1 {
                self@.update(index as int, true)
            } else {
                self@
            }),
    {
        proof {
            use_type_invariant(self);
        }
        if index >= self.bits.len() || self.bits[index] {
            let bits = self.bits.clone();
            assert(bits@ =~= self.bits@);
            return (Bitmap { bits, count: self.count }, false);
        }
        let mut bits = self.bits.clone();
        assert(bits@ =~= self.bits@);
        bits.set(index, true);
        proof {
            lemma_count_set_update(self.bits@, index as int);
            lemma_count_set_bounded(self.bits@.update(index as int, true));
        }
        (Bitmap { bits, count: self.count + 1 }, true)
    }

    /// The indices of the set flags, in increasing order.
    pub fn set_indices(&self) -> (r: Vec<usize>)
        ensures
            r@ == set_positions(self@),
    {
        let mut r: Vec<usize> = Vec::new();
        let mut i: usize = 0;
        while i < self.bits.len()
            invariant
                i <= self@.len(),
                r@ == set_positions(self@.subrange(0, i as int)),
            decreases self@.len() - i,
        {
            proof {
                let s = self@.subrange(0, i as int + 1);
                assert(s.drop_last() =~= self@.subrange(0, i as int));
            }
            if self.bits[i] {
                r.push(i);
            }
            i = i + 1;
        }
        assert(self@.subrange(0, self@.len() as int) =~= self@);
        r
    }

    /// The peers at the set positions of `peer_set`.
    pub fn peer_ids(&self, peer_set: &[PeerId]) -> (r: Vec<PeerId>)
        requires
            forall|i: int| 0 <= i < self@.len() && self@[i] ==> i < peer_set@.len(),
        ensures
            r@ == set_positions(self@).map_values(|i: usize| peer_set@[i as int]),
    {
        let positions = self.set_indices();
        let flag_count = self.bits.len();
        proof {
            assert(self@.len() == flag_count);
            lemma_set_positions_sound(self@);
        }
        let mut r: Vec<PeerId> = Vec::new();
        let mut k: usize = 0;
        while k < positions.len()
            invariant
                k <= positions@.len(),
                positions@ == set_positions(self@),
                forall|j: int| 0 <= j < positions@.len() ==> (#[trigger] positions@[j]) < peer_set@.len(),
                r@ == positions@.subrange(0, k as int).map_values(|i: usize| peer_set@[i as int]),
            decreases positions@.len() - k,
        {
            let i = positions[k];
            r.push(peer_set[i]);
            k = k + 1;
            assert(r@ =~= positions@.subrange(0, k as int).map_values(|i: usize| peer_set@[i as int]));
        }
        assert(positions@.subrange(0, positions@.len() as int) =~= positions@);
        r
    }
}

} // verus!
