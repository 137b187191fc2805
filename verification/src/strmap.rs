//! A map from string keys to values, backed by an association vector with
//! unique keys. Contracts speak of the mathematical `Map<Seq<char>, V>` view.

use vstd::prelude::*;
use crate::strutil::str_eq;

verus! {

/// Lookup in an association sequence, front to back.
pub open spec fn assoc_get<V>(s: Seq<(String, V)>, k: Seq<char>) -> Option<V>
    decreases s.len(),
{
    if s.len() == 0 {
        None
    } else if s[0].0@ == k {
        Some(s[0].1)
    } else {
        assoc_get(s.drop_first(), k)
    }
}

proof fn lemma_assoc_get_at<V>(s: Seq<(String, V)>, k: Seq<char>, i: int)
    requires
        0 <= i < s.len(),
        s[i].0@ == k,
        forall|j: int| 0 <= j < i ==> s[j].0@ != k,
    ensures
        assoc_get(s, k) == Some(s[i].1),
    decreases i,
{
    if i > 0 {
        lemma_assoc_get_at(s.drop_first(), k, i - 1);
    }
}

proof fn lemma_assoc_get_none<V>(s: Seq<(String, V)>, k: Seq<char>)
    requires
        forall|j: int| 0 <= j < s.len() ==> s[j].0@ != k,
    ensures
        assoc_get(s, k) is None,
    decreases s.len(),
{
    if s.len() > 0 {
        lemma_assoc_get_none(s.drop_first(), k);
    }
}

proof fn lemma_assoc_get_push<V>(s: Seq<(String, V)>, p: (String, V), k: Seq<char>)
    ensures
        assoc_get(s.push(p), k) == if assoc_get(s, k) is Some {
            assoc_get(s, k)
        } else if p.0@ == k {
            Some(p.1)
        } else {
            None::<V>
        },
    decreases s.len(),
{
    if s.len() == 0 {
        assert(s.push(p)[0] == p);
        assert(s.push(p).drop_first() =~= Seq::<(String, V)>::empty());
        if p.0@ != k {
            lemma_assoc_get_none(s.push(p), k);
        }
    } else {
        assert(s.push(p)[0] == s[0]);
        assert(s.push(p).drop_first() =~= s.drop_first().push(p));
        lemma_assoc_get_push(s.drop_first(), p, k);
    }
}

proof fn lemma_assoc_get_remove_other<V>(s: Seq<(String, V)>, i: int, k: Seq<char>)
    requires
        0 <= i < s.len(),
        s[i].0@ != k,
    ensures
        assoc_get(s.remove(i), k) == assoc_get(s, k),
    decreases s.len(),
{
    if i == 0 {
        assert(s.remove(0) =~= s.drop_first());
    } else {
        assert(s.remove(i)[0] == s[0]);
        assert(s.remove(i).len() == s.len() - 1);
        if s[0].0@ == k {
        } else {
            assert(s.remove(i).drop_first() =~= s.drop_first().remove(i - 1));
            lemma_assoc_get_remove_other(s.drop_first(), i - 1, k);
        }
    }
}

/// A finite map keyed by strings.
pub struct StringMap<V> {
    entries: Vec<(String, V)>,
}

impl<V> StringMap<V> {
    /// The association entries, in insertion order.
    pub closed spec fn entries_seq(self) -> Seq<(String, V)> {
        self.entries@
    }

    #[verifier::type_invariant]
    spec fn wf(self) -> bool {
        forall|i: int, j: int|
            0 <= i < j < self.entries@.len()
                ==> (#[trigger] self.entries@[i]).0@ != (#[trigger] self.entries@[j]).0@
    }

    /// The mathematical map this value denotes.
    pub closed spec fn view(self) -> Map<Seq<char>, V> {
        Map::new(
            |k: Seq<char>| assoc_get(self.entries@, k) is Some,
            |k: Seq<char>| assoc_get(self.entries@, k)->Some_0,
        )
    }

    /// The number of entries.
    pub closed spec fn spec_len(self) -> nat {
        self.entries@.len()
    }

    /// Borrow the underlying entries. Every entry is visible in the map
    /// view, every key of the view has an entry, and keys are unique.
    pub fn entries(&self) -> (r: &Vec<(String, V)>)
        ensures
            r@ == self.entries_seq(),
            forall|i: int| 0 <= i < self.entries_seq().len()
                ==> self@.contains_key((#[trigger] self.entries_seq()[i]).0@)
                    && self@[self.entries_seq()[i].0@] == self.entries_seq()[i].1,
            forall|k: Seq<char>| self@.contains_key(k)
                ==> exists|i: int| 0 <= i < self.entries_seq().len()
                    && (#[trigger] self.entries_seq()[i]).0@ == k,
            forall|i: int, j: int| 0 <= i < j < self.entries_seq().len()
                ==> (#[trigger] self.entries_seq()[i]).0@ != (#[trigger] self.entries_seq()[j]).0@,
    {
        proof {
            use_type_invariant(self);
            let s = self.entries@;
            assert forall|i: int| 0 <= i < s.len()
                implies self@.contains_key((#[trigger] s[i]).0@) && self@[s[i].0@] == s[i].1 by {
                lemma_assoc_get_at(s, s[i].0@, i);
            }
            assert forall|k: Seq<char>| self@.contains_key(k)
                implies exists|i: int| 0 <= i < s.len() && (#[trigger] s[i]).0@ == k by {
                lemma_assoc_contains(s, k);
            }
        }
        &self.entries
    }

    /// An empty map.
    pub fn new() -> (r: Self)
        ensures
            r@ == Map::<Seq<char>, V>::empty(),
            r.spec_len() == 0,
    {
        let r = StringMap { entries: Vec::new() };
        proof {
            assert(r@ =~= Map::<Seq<char>, V>::empty());
        }
        r
    }

    /// The number of entries.
    pub fn len(&self) -> (r: usize)
        ensures
            r == self.spec_len(),
    {
        self.entries.len()
    }

    /// The key of the entry at position `i`.
    pub fn key_at(&self, i: usize) -> (r: &String)
        requires
            i < self.spec_len(),
        ensures
            *r == self.entries_seq()[i as int].0,
    {
        &self.entries[i].0
    }

    /// The value of the entry at position `i`.
    pub fn value_at(&self, i: usize) -> (r: &V)
        requires
            i < self.spec_len(),
        ensures
            *r == self.entries_seq()[i as int].1,
    {
        &self.entries[i].1
    }

    /// Look a key up.
    pub fn get(&self, k: &str) -> (r: Option<&V>)
        ensures
            match r {
                Some(v) => self@.contains_key(k@) && *v == self@[k@],
                None => !self@.contains_key(k@),
            },
    {
        let n = self.entries.len();
        let mut i: usize = 0;
        while i < n
            invariant
                i <= n,
                n == self.entries@.len(),
                forall|j: int| 0 <= j < i ==> (#[trigger] self.entries@[j]).0@ != k@,
            decreases n - i,
    {
            if str_eq(self.entries[i].0.as_str(), k) {
                proof {
                    lemma_assoc_get_at(self.entries@, k@, i as int);
                }
                return Some(&self.entries[i].1);
            }
            i += 1;
        }
        proof {
            lemma_assoc_get_none(self.entries@, k@);
        }
        None
    }

    /// Whether a key is present.
    pub fn contains_key(&self, k: &str) -> (r: bool)
        ensures
            r == self@.contains_key(k@),
    {
        self.get(k).is_some()
    }

    /// Insert a key/value pair, replacing any earlier entry for the key.
    pub fn insert(&mut self, k: String, v: V)
        ensures
            final(self)@ == old(self)@.insert(k@, v),
            final(self).spec_len() <= old(self).spec_len() + 1,
    {
        self.remove(k.as_str());
        proof {
            use_type_invariant(&*self);
            assert(forall|j: int| 0 <= j < self.entries_seq().len()
                ==> (#[trigger] self.entries_seq()[j]).0@ != k@);
        }
        let ghost mid = self.entries@;
        let ghost midmap = self@;
        let ghost kv = k@;
        let ghost vv = v;
        let ghost pair = (k, v);
        let mut entries = Vec::new();
        std::mem::swap(&mut entries, &mut self.entries);
        entries.push((k, v));
        proof {
            // the key is absent after removal, so pushing keeps keys unique
            assert(forall|j: int| 0 <= j < mid.len() ==> (#[trigger] mid[j]).0@ != kv);
            assert(forall|a: int| 0 <= a < mid.len()
                ==> #[trigger] entries@[a] == mid[a]);
            assert(entries@ == mid.push(pair));
            assert(entries@[mid.len() as int].0@ == kv);
        }
        self.entries = entries;
        proof {
            assert forall|k2: Seq<char>| #[trigger] self@.contains_key(k2)
                == old(self)@.insert(kv, vv).contains_key(k2)
                && (self@.contains_key(k2) ==> self@[k2] == old(self)@.insert(kv, vv)[k2]) by {
                lemma_assoc_get_push(mid, pair, k2);
                assert(pair.0@ == kv && pair.1 == vv);
                assert(self.entries@ == mid.push(pair));
                assert(midmap.contains_key(k2) == (assoc_get(mid, k2) is Some));
                assert(midmap == old(self)@.remove(kv));
                if k2 == kv {
                    lemma_assoc_get_none(mid, k2);
                    assert(assoc_get(self.entries@, k2) == Some(vv));
                } else {
                    assert(assoc_get(self.entries@, k2) == assoc_get(mid, k2));
                    assert(midmap.contains_key(k2) == old(self)@.contains_key(k2));
                    if midmap.contains_key(k2) {
                        assert(midmap[k2] == assoc_get(mid, k2)->Some_0);
                        assert(midmap[k2] == old(self)@[k2]);
                    }
                }
            }
            assert(self@ =~= old(self)@.insert(kv, vv));
        }
    }

    /// Remove a key, if present.
    pub fn remove(&mut self, k: &str)
        ensures
            final(self)@ == old(self)@.remove(k@),
            final(self).spec_len() <= old(self).spec_len(),
            forall|i: int| 0 <= i < final(self).entries_seq().len()
                ==> (#[trigger] final(self).entries_seq()[i]).0@ != k@,
    {
        proof {
            use_type_invariant(&*self);
        }
        let ghost pre = self.entries@;
        let n = self.entries.len();
        let mut i: usize = 0;
        while i < n
            invariant
                i <= n,
                self.entries@ == pre,
                old(self).entries_seq() == pre,
                n == pre.len(),
                forall|j: int| 0 <= j < i ==> (#[trigger] pre[j]).0@ != k@,
                forall|a: int, b: int| 0 <= a < b < pre.len()
                    ==> (#[trigger] pre[a]).0@ != (#[trigger] pre[b]).0@,
            decreases n - i,
        {
            if str_eq(self.entries[i].0.as_str(), k) {
                let mut entries = Vec::new();
                std::mem::swap(&mut entries, &mut self.entries);
                let _removed = entries.remove(i);
                proof {
                    assert(entries@ =~= pre.remove(i as int));
                    assert forall|a: int| 0 <= a < entries@.len()
                        implies #[trigger] entries@[a] == if a < i { pre[a] } else { pre[a + 1] } by {}
                    assert forall|a: int| 0 <= a < entries@.len()
                        implies (#[trigger] entries@[a]).0@ != k@ by {}
                }
                self.entries = entries;
                proof {
                    lemma_assoc_get_none(self.entries@, k@);
                    assert forall|k2: Seq<char>| k2 != k@
                        implies #[trigger] assoc_get(self.entries@, k2) == assoc_get(pre, k2) by {
                        lemma_assoc_get_remove_other(pre, i as int, k2);
                    }
                    assert forall|k2: Seq<char>| #[trigger] self@.contains_key(k2)
                        == (k2 != k@ && old(self)@.contains_key(k2)) by {
                        if k2 == k@ {
                            assert(assoc_get(self.entries@, k2) is None);
                        } else {
                            assert(assoc_get(self.entries@, k2) == assoc_get(pre, k2));
                        }
                    }
                    assert forall|k2: Seq<char>| #[trigger] self@.contains_key(k2)
                        implies self@[k2] == old(self)@.remove(k@)[k2] by {
                        assert(assoc_get(self.entries@, k2) == assoc_get(pre, k2));
                    }
                    assert(self@ =~= old(self)@.remove(k@));
                }
                return;
            }
            i += 1;
        }
        proof {
            lemma_assoc_get_none(self.entries@, k@);
            assert(self@ =~= old(self)@.remove(k@));
        }
    }

    /// Remove every entry.
    pub fn clear(&mut self)
        ensures
            final(self)@ == Map::<Seq<char>, V>::empty(),
            final(self).spec_len() == 0,
    {
        let mut entries = Vec::new();
        std::mem::swap(&mut entries, &mut self.entries);
        proof {
            assert(self@ =~= Map::<Seq<char>, V>::empty());
        }
    }
}

proof fn lemma_assoc_contains<V>(s: Seq<(String, V)>, k: Seq<char>)
    requires
        assoc_get(s, k) is Some,
    ensures
        exists|i: int| 0 <= i < s.len() && (#[trigger] s[i]).0@ == k,
    decreases s.len(),
{
    if s.len() > 0 {
        if s[0].0@ == k {
            assert(0 <= 0 < s.len() && s[0].0@ == k);
        } else {
            lemma_assoc_contains(s.drop_first(), k);
            let i = choose|i: int| 0 <= i < s.drop_first().len()
                && (#[trigger] s.drop_first()[i]).0@ == k;
            assert(s[i + 1].0@ == k);
        }
    }
}

} // verus!
