use vstd::prelude::*;

verus! {

/// Identifier of a peer taking part in the bootstrap.
pub type PeerId = u64;

/// A logical freshness marker attached to an observation.
pub type Freshness = u64;

/// `s` with `peer` appended, unless `s` already holds it.
pub open spec fn with_peer(s: Seq<PeerId>, peer: PeerId) -> Seq<PeerId> {
    if s.contains(peer) {
        s
    } else {
        s.push(peer)
    }
}

/// Appending a peer adds exactly that peer, and keeps a sequence free of duplicates.
pub proof fn lemma_with_peer(s: Seq<PeerId>, peer: PeerId)
    ensures
        with_peer(s, peer).contains(peer),
        forall|q: PeerId| #[trigger] with_peer(s, peer).contains(q) <==> (s.contains(q) || q == peer),
        s.no_duplicates() ==> with_peer(s, peer).no_duplicates(),
{
    if !s.contains(peer) {
        let t = s.push(peer);
        assert(t[s.len() as int] == peer);
        assert forall|q: PeerId| #[trigger] t.contains(q) <==> (s.contains(q) || q == peer) by {
            if t.contains(q) {
                let k = t.index_of(q);
                if k < s.len() {
                    assert(s[k] == q);
                }
            }
            if s.contains(q) {
                let k = s.index_of(q);
                assert(t[k] == q);
            }
        }
        if s.no_duplicates() {
            assert forall|i: int, j: int| 0 <= i < t.len() && 0 <= j < t.len() && i != j implies t[i] != t[j] by {
                if i == s.len() as int {
                    assert(s.contains(t[j]));
                } else if j == s.len() as int {
                    assert(s.contains(t[i]));
                }
            }
        }
    }
}

/// Whether `v` holds `peer`.
pub fn contains_peer(v: &Vec<PeerId>, peer: PeerId) -> (r: bool)
    ensures
        r == v@.contains(peer),
{
    let mut i: usize = 0;
    while i < v.len()
        invariant
            i <= v.len(),
            forall|k: int| 0 <= k < i ==> v@[k] != peer,
        decreases v.len() - i,
    {
        if v[i] == peer {
            assert(v@[i as int] == peer);
            return true;
        }
        i = i + 1;
    }
    false
}

/// A copy of `v` with `peer` appended unless it is already present; the flag tells whether it was.
pub fn push_peer(v: &Vec<PeerId>, peer: PeerId) -> (r: (Vec<PeerId>, bool))
    ensures
        r.1 == v@.contains(peer),
        r.0@ == with_peer(v@, peer),
{
    let present = contains_peer(v, peer);
    let mut out = v.clone();
    assert(out@ =~= v@);
    if !present {
        out.push(peer);
    }
    (out, present)
}

/// A copy of a list of peers.
pub fn copy_peers(v: &Vec<PeerId>) -> (r: Vec<PeerId>)
    ensures
        r@ == v@,
{
    let r = v.clone();
    assert(r@ =~= v@);
    r
}

} // verus!
