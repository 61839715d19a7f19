//! The delegation signature map: which (seed hash, message hash) pairs the service has
//! signed, each until its expiration, with a bound on its size.

use vstd::prelude::*;
use crate::principal::bytes_equal;

verus! {

/// Most signatures kept at once.
pub const MAX_SIGNATURES: usize = 1000;

/// Most expired signatures removed by one call of `prune_expired`.
pub const MAX_SIGS_TO_PRUNE: usize = 10;

/// A signed pair and when its signature expires.
#[derive(Debug)]
pub struct SigEntry {
    pub seed_hash: Vec<u8>,
    pub msg_hash: Vec<u8>,
    pub expires_at: u64,
}

/// A signature as the contracts see it: seed hash, message hash, expiration.
pub type SigTriple = (Seq<u8>, Seq<u8>, u64);

impl View for SigEntry {
    type V = SigTriple;

    open spec fn view(&self) -> SigTriple {
        (self.seed_hash@, self.msg_hash@, self.expires_at)
    }
}

/// The signatures, in the order their pairs were first added.
#[derive(Debug)]
pub struct SignatureMap {
    entries: Vec<SigEntry>,
}

/// Entry `e` is for the pair `(seed_hash, msg_hash)`.
pub open spec fn is_for(e: SigTriple, seed_hash: Seq<u8>, msg_hash: Seq<u8>) -> bool {
    e.0 == seed_hash && e.1 == msg_hash
}

/// Whether the list holds an entry for the pair.
pub open spec fn has_pair(es: Seq<SigTriple>, seed_hash: Seq<u8>, msg_hash: Seq<u8>) -> bool {
    exists|i: int| 0 <= i < es.len() && is_for(es[i], seed_hash, msg_hash)
}

/// The position of the entry for the pair (meaningful when `has_pair`).
pub open spec fn pair_index(es: Seq<SigTriple>, seed_hash: Seq<u8>, msg_hash: Seq<u8>) -> int {
    choose|i: int| 0 <= i < es.len() && is_for(es[i], seed_hash, msg_hash)
}

/// No two entries are for the same pair.
pub open spec fn pairs_unique(es: Seq<SigTriple>) -> bool {
    forall|i: int, j: int|
        0 <= i < j < es.len() ==> !is_for(es[i], es[j].0, es[j].1)
}

/// `i` is the first position of an entry with the smallest expiration.
pub open spec fn is_first_min(es: Seq<SigTriple>, i: int) -> bool {
    &&& 0 <= i < es.len()
    &&& forall|j: int| 0 <= j < es.len() ==> es[i].2 <= es[j].2
    &&& forall|j: int| 0 <= j < i ==> es[j].2 > es[i].2
}

/// The first position of an entry with the smallest expiration (meaningful for a
/// non-empty list).
pub open spec fn first_min(es: Seq<SigTriple>) -> int {
    choose|i: int| is_first_min(es, i)
}

/// The entries after adding `e`: an entry for the same pair is replaced; otherwise, on a
/// full map, the first entry with the smallest expiration makes room, and `e` goes last.
pub open spec fn put_result(es: Seq<SigTriple>, e: SigTriple) -> Seq<SigTriple> {
    if has_pair(es, e.0, e.1) {
        es.update(pair_index(es, e.0, e.1), e)
    } else if es.len() >= MAX_SIGNATURES {
        es.remove(first_min(es)).push(e)
    } else {
        es.push(e)
    }
}

/// Whether the signature of `e` has expired at `now`.
pub open spec fn sig_expired(e: SigTriple, now: u64) -> bool {
    e.2 <= now
}

/// The entries after removing, in order, the first `budget` expired at `now`, and how
/// many were removed.
pub open spec fn prune_result(es: Seq<SigTriple>, now: u64, budget: nat) -> (Seq<SigTriple>, nat)
    decreases es.len(),
{
    if es.len() == 0 {
        (es, 0)
    } else {
        let (kept, removed) = prune_result(es.drop_last(), now, budget);
        if sig_expired(es.last(), now) && removed < budget {
            (kept, removed + 1)
        } else {
            (kept.push(es.last()), removed)
        }
    }
}

proof fn lemma_pair_index(es: Seq<SigTriple>, i: int)
    requires
        pairs_unique(es),
        0 <= i < es.len(),
    ensures
        has_pair(es, es[i].0, es[i].1),
        pair_index(es, es[i].0, es[i].1) == i,
{
    let k = pair_index(es, es[i].0, es[i].1);
    assert(is_for(es[i], es[i].0, es[i].1));
    if k < i {
        assert(!is_for(es[k], es[i].0, es[i].1));
    } else if i < k {
        assert(!is_for(es[i], es[k].0, es[k].1));
    }
}

proof fn lemma_first_min(es: Seq<SigTriple>, i: int)
    requires
        is_first_min(es, i),
    ensures
        first_min(es) == i,
{
    let k = first_min(es);
    assert(is_first_min(es, k));
    if k < i {
        assert(es[k].2 > es[i].2);
    } else if i < k {
        assert(es[i].2 > es[k].2);
    }
}

proof fn lemma_first_min_exists(es: Seq<SigTriple>)
    requires
        es.len() > 0,
    ensures
        is_first_min(es, first_min(es)),
    decreases es.len(),
{
    let n = es.len() - 1;
    if n == 0 {
        assert(is_first_min(es, 0));
    } else {
        let p = es.drop_last();
        lemma_first_min_exists(p);
        let m = first_min(p);
        if es[m].2 <= es[n].2 {
            assert forall|j: int| 0 <= j < es.len() implies es[m].2 <= es[j].2 by {
                if j < n {
                    assert(p[j] == es[j]);
                }
            }
            assert forall|j: int| 0 <= j < m implies es[j].2 > es[m].2 by {
                assert(p[j] == es[j]);
            }
            assert(is_first_min(es, m));
        } else {
            assert forall|j: int| 0 <= j < es.len() implies es[n].2 <= es[j].2 by {
                if j < n {
                    assert(p[j] == es[j]);
                }
            }
            assert forall|j: int| 0 <= j < n implies es[j].2 > es[n].2 by {
                assert(p[j] == es[j]);
            }
            assert(is_first_min(es, n));
        }
    }
}

proof fn lemma_put_keeps_unique(es: Seq<SigTriple>, e: SigTriple)
    requires
        pairs_unique(es),
    ensures
        pairs_unique(put_result(es, e)),
        has_pair(put_result(es, e), e.0, e.1),
{
    let r = put_result(es, e);
    if has_pair(es, e.0, e.1) {
        let k = pair_index(es, e.0, e.1);
        assert(is_for(r[k], e.0, e.1));
    } else {
        if es.len() >= MAX_SIGNATURES {
            lemma_first_min_exists(es);
        }
        let p = if es.len() >= MAX_SIGNATURES {
            es.remove(first_min(es))
        } else {
            es
        };
        assert(r == p.push(e));
        assert forall|a: int| 0 <= a < p.len() implies !is_for(p[a], e.0, e.1) by {
            if es.len() >= MAX_SIGNATURES {
                let m = first_min(es);
                if a < m {
                    assert(p[a] == es[a]);
                } else {
                    assert(p[a] == es[a + 1]);
                }
            }
        }
        assert forall|a: int, b: int| 0 <= a < b < p.len() implies !is_for(
            p[a],
            p[b].0,
            p[b].1,
        ) by {
            if es.len() >= MAX_SIGNATURES {
                let m = first_min(es);
                if b < m {
                } else if a < m {
                    assert(p[b] == es[b + 1]);
                } else {
                    assert(p[a] == es[a + 1]);
                    assert(p[b] == es[b + 1]);
                }
            }
        }
        assert(is_for(r[p.len() as int], e.0, e.1));
    }
}

/// Adding the same signature twice leaves the map as adding it once.
pub proof fn lemma_put_idempotent(es: Seq<SigTriple>, e: SigTriple)
    requires
        pairs_unique(es),
    ensures
        put_result(put_result(es, e), e) == put_result(es, e),
{
    let r = put_result(es, e);
    lemma_put_keeps_unique(es, e);
    let k = pair_index(r, e.0, e.1);
    assert(is_for(r[k], e.0, e.1));
    lemma_pair_index(r, k);
    if has_pair(es, e.0, e.1) {
        let i = pair_index(es, e.0, e.1);
        assert(is_for(r[i], e.0, e.1));
        lemma_pair_index(r, i);
        assert(r.update(k, e) =~= r);
    } else {
        let n = r.len() - 1;
        assert(is_for(r[n], e.0, e.1));
        lemma_pair_index(r, n);
        assert(r.update(k, e) =~= r);
    }
}

impl View for SignatureMap {
    type V = Seq<SigTriple>;

    closed spec fn view(&self) -> Seq<SigTriple> {
        self.entries@.map_values(|e: SigEntry| e@)
    }
}

impl SignatureMap {
    /// Each pair has one entry, and the map is within its bound.
    pub open spec fn wf(&self) -> bool {
        pairs_unique(self@) && self@.len() <= MAX_SIGNATURES
    }

    /// An empty map.
    pub fn new() -> (r: SignatureMap)
        ensures
            r@ == Seq::<SigTriple>::empty(),
            r.wf(),
    {
        let r = SignatureMap { entries: Vec::new() };
        assert(r@ =~= Seq::<SigTriple>::empty());
        r
    }

    /// The entries, in order.
    pub fn entries(&self) -> (r: &Vec<SigEntry>)
        ensures
            r@.map_values(|e: SigEntry| e@) == self@,
    {
        &self.entries
    }

    /// Number of signatures.
    pub fn len(&self) -> (r: usize)
        ensures
            r == self@.len(),
    {
        self.entries.len()
    }

    fn find(&self, seed_hash: &Vec<u8>, msg_hash: &Vec<u8>) -> (r: Option<usize>)
        requires
            self.wf(),
        ensures
            match r {
                Some(i) => i < self@.len() && has_pair(self@, seed_hash@, msg_hash@) && i
                    == pair_index(self@, seed_hash@, msg_hash@),
                None => !has_pair(self@, seed_hash@, msg_hash@),
            },
    {
        let mut i: usize = 0;
        while i < self.entries.len()
            invariant
                self.wf(),
                0 <= i <= self@.len(),
                forall|j: int| 0 <= j < i ==> !is_for(self@[j], seed_hash@, msg_hash@),
            decreases self@.len() - i,
        {
            let e = &self.entries[i];
            if bytes_equal(&e.seed_hash, seed_hash) && bytes_equal(&e.msg_hash, msg_hash) {
                proof {
                    lemma_pair_index(self@, i as int);
                }
                return Some(i);
            }
            i = i + 1;
        }
        None
    }

    fn min_expiration_index(&self) -> (r: usize)
        requires
            self@.len() > 0,
        ensures
            r < self@.len(),
            r == first_min(self@),
    {
        let mut best: usize = 0;
        let mut i: usize = 1;
        while i < self.entries.len()
            invariant
                self@.len() > 0,
                1 <= i <= self@.len(),
                best < i,
                forall|j: int| 0 <= j < i ==> self@[best as int].2 <= self@[j].2,
                forall|j: int| 0 <= j < best ==> self@[j].2 > self@[best as int].2,
            decreases self@.len() - i,
        {
            if self.entries[i].expires_at < self.entries[best].expires_at {
                best = i;
            }
            i = i + 1;
        }
        proof {
            lemma_first_min(self@, best as int);
        }
        best
    }

    /// Records the signature of `(seed_hash, msg_hash)` until `expires_at`, and returns
    /// the expiration it replaced, if the pair was present. On a full map the first entry
    /// with the smallest expiration is dropped to make room.
    pub fn put(&mut self, seed_hash: Vec<u8>, msg_hash: Vec<u8>, expires_at: u64) -> (r: Option<u64>)
        requires
            old(self).wf(),
        ensures
            final(self)@ == put_result(old(self)@, (seed_hash@, msg_hash@, expires_at)),
            has_pair(old(self)@, seed_hash@, msg_hash@) ==> r == Some(
                old(self)@[pair_index(old(self)@, seed_hash@, msg_hash@)].2,
            ),
            !has_pair(old(self)@, seed_hash@, msg_hash@) ==> r is None,
            final(self).wf(),
    {
        let ghost before = self@;
        let found = self.find(&seed_hash, &msg_hash);
        let entry = SigEntry { seed_hash, msg_hash, expires_at };
        proof {
            lemma_put_keeps_unique(before, entry@);
        }
        match found {
            Some(i) => {
                let previous = self.entries[i].expires_at;
                let ghost es = self.entries@;
                self.entries.set(i, entry);
                assert(self@ =~= before.update(i as int, entry@));
                Some(previous)
            },
            None => {
                let ghost es = self.entries@;
                if self.entries.len() >= MAX_SIGNATURES {
                    let m = self.min_expiration_index();
                    self.entries.remove(m);
                    assert(self@ =~= before.remove(m as int));
                }
                let ghost mid = self@;
                self.entries.push(entry);
                assert(self@ =~= mid.push(entry@));
                None
            },
        }
    }

    /// Removes, in order, up to `MAX_SIGS_TO_PRUNE` signatures expired at `now`; returns
    /// how many were removed.
    pub fn prune_expired(&mut self, now: u64) -> (r: usize)
        requires
            old(self).wf(),
        ensures
            final(self)@ == prune_result(old(self)@, now, MAX_SIGS_TO_PRUNE as nat).0,
            r == prune_result(old(self)@, now, MAX_SIGS_TO_PRUNE as nat).1,
            r <= MAX_SIGS_TO_PRUNE,
            final(self).wf(),
    {
        let ghost before = self@;
        let mut rest: Vec<SigEntry> = Vec::new();
        std::mem::swap(&mut rest, &mut self.entries);
        let mut removed: usize = 0;
        let mut i: usize = 0;
        let ghost mut origin: Seq<int> = Seq::empty();
        assert(before.len() == rest.len());
        assert(self@ =~= Seq::<SigTriple>::empty());
        while rest.len() > 0
            invariant
                i + rest@.len() == before.len(),
                before.len() <= MAX_SIGNATURES,
                pairs_unique(before),
                rest@.map_values(|e: SigEntry| e@) == before.subrange(i as int, before.len() as int),
                (self@, removed as nat) == prune_result(
                    before.subrange(0, i as int),
                    now,
                    MAX_SIGS_TO_PRUNE as nat,
                ),
                removed <= MAX_SIGS_TO_PRUNE,
                self@.len() == origin.len(),
                self@.len() <= i,
                forall|a: int| 0 <= a < origin.len() ==> 0 <= #[trigger] origin[a] < i,
                forall|a: int, b: int| 0 <= a < b < origin.len() ==> origin[a] < origin[b],
                forall|a: int| 0 <= a < origin.len() ==> self@[a] == before[#[trigger] origin[a]],
            decreases rest@.len(),
        {
            let ghost rest_before = rest@;
            let e = rest.remove(0);
            proof {
                assert(before.subrange(0, i + 1).drop_last() =~= before.subrange(0, i as int));
                assert(rest_before.map_values(|e: SigEntry| e@)[0] == before[i as int]);
                assert(e@ == before[i as int]);
            }
            if e.expires_at <= now && removed < MAX_SIGS_TO_PRUNE {
                removed = removed + 1;
            } else {
                let ghost mid = self@;
                self.entries.push(e);
                assert(self@ =~= mid.push(e@));
                proof {
                    origin = origin.push(i as int);
                }
            }
            proof {
                let old_i = i as int;
                assert forall|k: int| 0 <= k < rest@.len() implies (#[trigger] rest@[k])@ == before[old_i
                    + 1 + k] by {
                    assert(rest@[k] == rest_before[k + 1]);
                    assert(rest_before.map_values(|e: SigEntry| e@)[k + 1] == before.subrange(
                        old_i,
                        before.len() as int,
                    )[k + 1]);
                }
            }
            i = i + 1;
            assert(rest@.map_values(|e: SigEntry| e@) =~= before.subrange(i as int, before.len() as int));
        }
        assert(before.subrange(0, before.len() as int) =~= before);
        assert forall|a: int, b: int| 0 <= a < b < self@.len() implies !is_for(
            self@[a],
            self@[b].0,
            self@[b].1,
        ) by {
            assert(self@[a] == before[origin[a]]);
            assert(self@[b] == before[origin[b]]);
        }
        removed
    }
}

impl SignatureMap {
    /// Whether the signature of `(seed_hash, msg_hash)` is recorded.
    pub fn contains(&self, seed_hash: &Vec<u8>, msg_hash: &Vec<u8>) -> (r: bool)
        requires
            self.wf(),
        ensures
            r == has_pair(self@, seed_hash@, msg_hash@),
    {
        self.find(seed_hash, msg_hash).is_some()
    }
}

} // verus!
