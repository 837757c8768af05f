//! Per-symbol continuity state: the last terminal sequence number seen
//! for each symbol, and the gap decision over it.
use vstd::prelude::*;

use vstd::map::*;

use crate::text::str_eq;

verus! {

/// The mathematical content of an association list: later entries win.
pub open spec fn as_map(s: Seq<(String, i64)>) -> Map<Seq<char>, i64>
    decreases s.len(),
{
    if s.len() == 0 {
        Map::empty()
    } else {
        as_map(s.drop_last()).insert(s.last().0@, s.last().1)
    }
}

/// Keys that occur nowhere in the list are not in its map.
proof fn lemma_as_map_absent(s: Seq<(String, i64)>, k: Seq<char>)
    requires
        forall|i: int| 0 <= i < s.len() ==> (#[trigger] s[i]).0@ != k,
    ensures
        !as_map(s).contains_key(k),
    decreases s.len(),
{
    if s.len() > 0 {
        assert(forall|i: int| 0 <= i < s.len() - 1
            ==> #[trigger] s.drop_last()[i] == s[i]);
        lemma_as_map_absent(s.drop_last(), k);
        assert(s.last() == s[s.len() - 1]);
    }
}

/// The entry at the last index bearing a key gives that key's value.
proof fn lemma_as_map_found(s: Seq<(String, i64)>, i: int)
    requires
        0 <= i < s.len(),
        forall|j: int| i < j < s.len() ==> (#[trigger] s[j]).0@ != s[i].0@,
    ensures
        as_map(s).contains_key(s[i].0@),
        as_map(s)[s[i].0@] == s[i].1,
    decreases s.len(),
{
    assert(s.last() == s[s.len() - 1]);
    if i < s.len() - 1 {
        assert(forall|j: int| 0 <= j < s.len() - 1
            ==> #[trigger] s.drop_last()[j] == s[j]);
        lemma_as_map_found(s.drop_last(), i);
    }
}

/// Dropping the one entry bearing a key leaves every other key alone.
proof fn lemma_as_map_drop_key(s: Seq<(String, i64)>, i: int, k2: Seq<char>)
    requires
        0 <= i < s.len(),
        forall|j: int| 0 <= j < s.len() && j != i ==> (#[trigger] s[j]).0@ != s[i].0@,
        k2 != s[i].0@,
    ensures
        as_map(s.remove(i)).contains_key(k2) == as_map(s).contains_key(k2),
        as_map(s).contains_key(k2) ==> as_map(s.remove(i))[k2] == as_map(s)[k2],
    decreases s.len(),
{
    assert(s.last() == s[s.len() - 1]);
    if i == s.len() - 1 {
        assert(s.remove(i) =~= s.drop_last());
    } else {
        assert(s.remove(i).drop_last() =~= s.drop_last().remove(i));
        assert(forall|j: int| 0 <= j < s.len() - 1
            ==> #[trigger] s.drop_last()[j] == s[j]);
        lemma_as_map_drop_key(s.drop_last(), i, k2);
        assert(s.remove(i).last() == s.last());
    }
}

/// The symbol-to-last-sequence map of one collector.
pub struct ContinuityMap {
    entries: Vec<(String, i64)>,
}

impl View for ContinuityMap {
    type V = Map<Seq<char>, i64>;

    closed spec fn view(&self) -> Map<Seq<char>, i64> {
        as_map(self.entries@)
    }
}

impl ContinuityMap {
    /// Well-formedness: no symbol occurs twice.
    pub closed spec fn wf(&self) -> bool {
        forall|i: int, j: int| 0 <= i < j < self.entries@.len()
            ==> (#[trigger] self.entries@[i]).0@ != (#[trigger] self.entries@[j]).0@
    }

    /// An empty map: no symbol has been seen yet.
    pub fn new() -> (r: ContinuityMap)
        ensures
            r.wf(),
            r@ == Map::<Seq<char>, i64>::empty(),
    {
        ContinuityMap { entries: Vec::new() }
    }

    /// The stored sequence number for `key`, when one is stored.
    pub fn get(&self, key: &str) -> (r: Option<i64>)
        ensures
            r is Some <==> self@.contains_key(key@),
            r matches Some(v) ==> self@[key@] == v,
    {
        let n = self.entries.len();
        let mut i: usize = n;
        while i > 0
            invariant
                i <= n,
                n == self.entries@.len(),
                forall|j: int| i <= j < n ==> (#[trigger] self.entries@[j]).0@ != key@,
            decreases i,
        {
            i -= 1;
            if str_eq(self.entries[i].0.as_str(), key) {
                proof {
                    lemma_as_map_found(self.entries@, i as int);
                }
                return Some(self.entries[i].1);
            }
        }
        proof {
            lemma_as_map_absent(self.entries@, key@);
        }
        None
    }

    /// Stores `val` for `key`, replacing what was there.
    pub fn set(&mut self, key: &str, val: i64)
        requires
            old(self).wf(),
        ensures
            final(self).wf(),
            final(self)@ == old(self)@.insert(key@, val),
    {
        let ghost s = self.entries@;
        let k = String::from_str(key);
        let n = self.entries.len();
        let mut i: usize = 0;
        while i < n
            invariant
                i <= n,
                n == self.entries@.len(),
                self.entries@ == s,
                s == old(self).entries@,
                k@ == key@,
                forall|j: int| 0 <= j < i ==> (#[trigger] s[j]).0@ != key@,
                forall|a: int, b: int| 0 <= a < b < s.len()
                    ==> (#[trigger] s[a]).0@ != (#[trigger] s[b]).0@,
            decreases n - i,
        {
            if str_eq(self.entries[i].0.as_str(), key) {
                proof {
                    // by well-formedness the key occurs only here
                    assert(forall|j: int| 0 <= j < s.len() && j != i
                        ==> (#[trigger] s[j]).0@ != s[i as int].0@);
                }
                self.entries.remove(i);
                self.entries.push((k, val));
                proof {
                    let t = s.remove(i as int);
                    assert(self.entries@.drop_last() =~= t);
                    assert(as_map(self.entries@) == as_map(t).insert(key@, val));
                    assert_maps_equal!(as_map(t).insert(key@, val), as_map(s).insert(key@, val), k2 => {
                        if k2 != key@ {
                            lemma_as_map_drop_key(s, i as int, k2);
                        }
                    });
                    assert(as_map(self.entries@) == as_map(s).insert(key@, val));
                    assert(forall|j: int| 0 <= j < t.len()
                        ==> (#[trigger] t[j]).0@ != key@);
                    assert forall|a: int, b: int| 0 <= a < b < self.entries@.len()
                        implies (#[trigger] self.entries@[a]).0@
                            != (#[trigger] self.entries@[b]).0@ by {
                        if b < self.entries@.len() - 1 {
                            assert(t[a] == self.entries@[a]);
                            assert(t[b] == self.entries@[b]);
                        } else {
                            assert(t[a] == self.entries@[a]);
                        }
                    }
                }
                return;
            }
            i += 1;
        }
        self.entries.push((k, val));
        proof {
            assert(self.entries@.drop_last() =~= s);
        }
    }
}

/// The value a map holds for `k`, when it holds one.
pub open spec fn lookup(m: Map<Seq<char>, i64>, k: Seq<char>) -> Option<i64> {
    if m.contains_key(k) {
        Some(m[k])
    } else {
        None
    }
}

/// The gap condition of the incremental depth streams: a batch starting
/// at `first_seq` leaves a hole iff a previous batch is on record and
/// ended more than one before it.
pub open spec fn gap(prev: Option<i64>, first_seq: i64) -> bool {
    prev matches Some(p) && first_seq > p + 1
}

/// Reports whether a depth batch beginning at `first_seq` reveals a
/// gap after `prev`, the last recorded terminal sequence number.
pub fn gap_x(prev: Option<i64>, first_seq: i64) -> (r: bool)
    ensures
        r == gap(prev, first_seq),
{
    match prev {
        Some(p) => p < i64::MAX && first_seq > p + 1,
        None => false,
    }
}

} // verus!
