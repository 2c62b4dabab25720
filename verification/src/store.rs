use vstd::prelude::*;

use crate::record::LotteryInfo;

verus! {

/// The canonical custody address of an unordered participant pair: the two
/// identities in ascending order, packed into a `u128` and offset so that the
/// result is at least `2^64`. Participant addresses are identities widened to
/// `u128`, so they are below `2^64`: a record's custody account can never
/// collide with a participant's account. The packing is injective, so each
/// pair owns its own custody account. (The one degenerate pair, both
/// identities `u64::MAX`, is excluded at `join`.)
pub open spec fn spec_pair_key(a: u64, b: u64) -> u128 {
    let lo = if a <= b { a } else { b };
    let hi = if a <= b { b } else { a };
    ((lo + 1) * 0x1_0000_0000_0000_0000 + hi) as u128
}

/// Computes the custody address of a participant pair.
pub fn pair_key(a: u64, b: u64) -> (k: u128)
    requires
        !(a == u64::MAX && b == u64::MAX),
    ensures
        k == spec_pair_key(a, b),
        k >= 0x1_0000_0000_0000_0000u128,
{
    let lo: u64 = if a <= b { a } else { b };
    let hi: u64 = if a <= b { b } else { a };
    ((lo as u128) + 1) * 0x1_0000_0000_0000_0000u128 + (hi as u128)
}

/// The record store: one persistent `LotteryInfo` per participant pair,
/// addressed by `spec_pair_key`. A record, once created, is never deleted or
/// reused; a closed one stays as an auditable terminal record.
pub struct LotteryStore {
    pub keys: Vec<u128>,
    pub recs: Vec<LotteryInfo>,
}

impl LotteryStore {
    /// Well-formedness: one record per key, each record well-formed, each key
    /// the custody address of its record's own participant pair.
    pub open spec fn wf(self) -> bool {
        &&& self.keys@.len() == self.recs@.len()
        &&& forall|i: int, j: int|
            0 <= i < j < self.keys@.len() ==> self.keys@[i] != self.keys@[j]
        &&& forall|i: int|
            0 <= i < self.keys@.len() ==> (#[trigger] self.recs@[i]).inv()
                && !(self.recs@[i].player1 == u64::MAX && self.recs@[i].player2 == u64::MAX)
                && self.keys@[i] == spec_pair_key(
                self.recs@[i].player1,
                self.recs@[i].player2,
            )
    }

    /// Whether a record exists for this custody address.
    pub open spec fn has(self, k: u128) -> bool {
        self.keys@.contains(k)
    }

    /// The record stored under this custody address (meaningful when `has(k)`).
    pub open spec fn rec_of(self, k: u128) -> LotteryInfo {
        self.recs@[self.keys@.index_of(k)]
    }

    /// An empty store.
    pub fn new() -> (s: LotteryStore)
        ensures
            s.wf(),
            forall|k: u128| !s.has(k),
            s.keys@.len() == 0,
    {
        LotteryStore { keys: Vec::new(), recs: Vec::new() }
    }

    /// Looks a custody address up, returning the record's slot.
    pub fn find(&self, k: u128) -> (r: Option<usize>)
        ensures
            match r {
                Some(i) => i < self.keys@.len() && self.keys@[i as int] == k,
                None => !self.has(k),
            },
    {
        let n = self.keys.len();
        let mut i: usize = 0;
        while i < n
            invariant
                n == self.keys@.len(),
                i <= n,
                forall|j: int| 0 <= j < i ==> self.keys@[j] != k,
            decreases n - i,
        {
            if self.keys[i] == k {
                return Some(i);
            }
            i += 1;
        }
        None
    }

    /// The atomic insert-if-absent of the record allocator: at most one record
    /// can ever exist per participant pair.
    pub fn insert_if_absent(&mut self, k: u128, rec: LotteryInfo) -> (r: bool)
        requires
            old(self).wf(),
            rec.inv(),
            !(rec.player1 == u64::MAX && rec.player2 == u64::MAX),
            k == spec_pair_key(rec.player1, rec.player2),
        ensures
            final(self).wf(),
            r == !old(self).has(k),
            r ==> final(self).keys@ == old(self).keys@.push(k)
                && final(self).recs@ == old(self).recs@.push(rec),
            !r ==> final(self).keys@ == old(self).keys@
                && final(self).recs@ == old(self).recs@,
    {
        match self.find(k) {
            Some(_) => false,
            None => {
                self.keys.push(k);
                self.recs.push(rec);
                proof {
                    assert forall|i: int, j: int|
                        0 <= i < j < self.keys@.len() implies self.keys@[i]
                        != self.keys@[j] by {
                        if j == self.keys@.len() - 1 {
                            assert(old(self).keys@.contains(old(self).keys@[i])) by {
                                assert(old(self).keys@[i] == self.keys@[i]);
                            }
                        }
                    }
                }
                true
            },
        }
    }
}

/// Looking a key up in a store with unique keys lands on the slot that holds
/// it: `rec_of` agrees with any index whose key matches.
pub proof fn lemma_rec_of_at(s: LotteryStore, i: int)
    requires
        s.wf(),
        0 <= i < s.keys@.len(),
    ensures
        s.has(s.keys@[i]),
        s.rec_of(s.keys@[i]) == s.recs@[i],
{
    let k = s.keys@[i];
    assert(s.keys@.contains(k));
    let j = s.keys@.index_of(k);
    assert(0 <= j < s.keys@.len() && s.keys@[j] == k);
    if i != j {
        if i < j {
            assert(s.keys@[i] != s.keys@[j]);
        } else {
            assert(s.keys@[j] != s.keys@[i]);
        }
    }
}

/// Replacing the record in one slot leaves every other key's record as it
/// was, and the changed key's record is the new one.
pub proof fn lemma_update_rec_of(s1: LotteryStore, s2: LotteryStore, i: int, r1: LotteryInfo)
    requires
        s1.wf(),
        0 <= i < s1.keys@.len(),
        s2.keys@ == s1.keys@,
        s2.recs@ == s1.recs@.update(i, r1),
    ensures
        s2.rec_of(s1.keys@[i]) == r1,
        forall|k2: u128|
            k2 != s1.keys@[i] ==> s2.has(k2) == s1.has(k2) && (s1.has(k2)
                ==> s2.rec_of(k2) == s1.rec_of(k2)),
{
    let k = s1.keys@[i];
    assert(s2.keys@.contains(k));
    let j = s2.keys@.index_of(k);
    assert(0 <= j < s2.keys@.len() && s2.keys@[j] == k);
    if i < j {
        assert(s1.keys@[i] != s1.keys@[j]);
    } else if j < i {
        assert(s1.keys@[j] != s1.keys@[i]);
    }
    assert(s2.rec_of(k) == r1);
    assert forall|k2: u128|
        k2 != k implies s2.has(k2) == s1.has(k2) && (s1.has(k2) ==> s2.rec_of(k2)
        == s1.rec_of(k2)) by {
        if s1.has(k2) {
            let j2 = s1.keys@.index_of(k2);
            assert(0 <= j2 < s1.keys@.len() && s1.keys@[j2] == k2);
            assert(s2.keys@[j2] == k2);
            assert(s2.has(k2));
            let j3 = s2.keys@.index_of(k2);
            assert(0 <= j3 < s2.keys@.len() && s2.keys@[j3] == k2);
            if j2 < j3 {
                assert(s1.keys@[j2] != s1.keys@[j3]);
            } else if j3 < j2 {
                assert(s1.keys@[j3] != s1.keys@[j2]);
            }
            assert(j2 != i);
            assert(s2.rec_of(k2) == s1.rec_of(k2));
        }
        if s2.has(k2) {
            let j4 = s2.keys@.index_of(k2);
            assert(0 <= j4 < s2.keys@.len() && s2.keys@[j4] == k2);
            assert(s1.keys@[j4] == k2);
            assert(s1.has(k2));
        }
    }
}

/// Appending a record under a fresh key makes it the one `rec_of` finds
/// there, and leaves every other key's record as it was.
pub proof fn lemma_push_rec_of(s1: LotteryStore, s2: LotteryStore, k: u128, rec: LotteryInfo)
    requires
        s1.wf(),
        !s1.has(k),
        s2.keys@ == s1.keys@.push(k),
        s2.recs@ == s1.recs@.push(rec),
    ensures
        s2.has(k),
        s2.rec_of(k) == rec,
        forall|k2: u128|
            k2 != k ==> s2.has(k2) == s1.has(k2) && (s1.has(k2) ==> s2.rec_of(k2)
                == s1.rec_of(k2)),
{
    let n = s1.keys@.len() as int;
    assert(s2.keys@[n] == k);
    assert(s2.keys@.contains(k));
    let j = s2.keys@.index_of(k);
    assert(0 <= j < s2.keys@.len() && s2.keys@[j] == k);
    if j < n {
        assert(s1.keys@[j] == k);
        assert(s1.keys@.contains(k));
    }
    assert(s2.rec_of(k) == rec);
    assert forall|k2: u128|
        k2 != k implies s2.has(k2) == s1.has(k2) && (s1.has(k2) ==> s2.rec_of(k2)
        == s1.rec_of(k2)) by {
        if s1.has(k2) {
            let j2 = s1.keys@.index_of(k2);
            assert(0 <= j2 < s1.keys@.len() && s1.keys@[j2] == k2);
            assert(s2.keys@[j2] == k2);
            assert(s2.keys@.contains(k2));
            let j3 = s2.keys@.index_of(k2);
            assert(0 <= j3 < s2.keys@.len() && s2.keys@[j3] == k2);
            assert(j3 != n);
            assert(s1.keys@[j3] == k2);
            if j2 < j3 {
                assert(s1.keys@[j2] != s1.keys@[j3]);
            } else if j3 < j2 {
                assert(s1.keys@[j3] != s1.keys@[j2]);
            }
            assert(s2.rec_of(k2) == s1.rec_of(k2));
        }
        if s2.has(k2) {
            let j4 = s2.keys@.index_of(k2);
            assert(0 <= j4 < s2.keys@.len() && s2.keys@[j4] == k2);
            assert(j4 != n);
            assert(s1.keys@[j4] == k2);
            assert(s1.has(k2));
        }
    }
}

/// Updating one slot with a well-formed record of the same participants keeps
/// the store well-formed.
pub proof fn lemma_update_wf(s1: LotteryStore, s2: LotteryStore, i: int, r1: LotteryInfo)
    requires
        s1.wf(),
        0 <= i < s1.keys@.len(),
        s2.keys@ == s1.keys@,
        s2.recs@ == s1.recs@.update(i, r1),
        r1.inv(),
        r1.player1 == s1.recs@[i].player1,
        r1.player2 == s1.recs@[i].player2,
    ensures
        s2.wf(),
{
    assert forall|m: int|
        0 <= m < s2.keys@.len() implies (#[trigger] s2.recs@[m]).inv()
        && !(s2.recs@[m].player1 == u64::MAX && s2.recs@[m].player2 == u64::MAX)
        && s2.keys@[m] == spec_pair_key(s2.recs@[m].player1, s2.recs@[m].player2) by {
        if m != i {
            assert(s2.recs@[m] == s1.recs@[m]);
            assert((s1.recs@[m]).inv());
        }
    }
}

/// Removing a slot and inserting a value back at the same place is the same
/// as updating that slot.
pub proof fn lemma_remove_insert_is_update(s: Seq<LotteryInfo>, i: int, x: LotteryInfo)
    requires
        0 <= i < s.len(),
    ensures
        s.remove(i).insert(i, x) == s.update(i, x),
{
    let t = s.remove(i).insert(i, x);
    let u = s.update(i, x);
    assert forall|j: int| 0 <= j < u.len() implies t[j] == u[j] by {
        if j < i {
            assert(s.remove(i)[j] == s[j]);
        } else if j > i {
            assert(s.remove(i)[j - 1] == s[j]);
        }
    }
    assert(t =~= u);
}

/// Updating a slot with the value it already holds changes nothing.
pub proof fn lemma_update_same(s: Seq<LotteryInfo>, i: int)
    requires
        0 <= i < s.len(),
    ensures
        s.update(i, s[i]) == s,
{
    assert(s.update(i, s[i]) =~= s);
}

} // verus!
