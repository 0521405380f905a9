//! A map keyed by strings, verified against `Map<Seq<char>, V>`.
use vstd::prelude::*;
use crate::text::str_eq;

verus! {

/// A map from string keys to values, kept as a list of distinct-keyed
/// entries in first-insertion order.
pub struct KeyTable<V> {
    entries: Vec<(String, V)>,
}

/// Index of the entry recorded under `k`.
pub open spec fn key_index<V>(e: Seq<(String, V)>, k: Seq<char>) -> int {
    choose|i: int| 0 <= i < e.len() && e[i].0@ == k
}

/// `k` is recorded in `e`.
pub open spec fn has_key<V>(e: Seq<(String, V)>, k: Seq<char>) -> bool {
    exists|i: int| 0 <= i < e.len() && e[i].0@ == k
}

/// The map that a list of distinct-keyed entries stands for.
pub open spec fn entries_map<V>(e: Seq<(String, V)>) -> Map<Seq<char>, V> {
    Map::new(|k: Seq<char>| has_key(e, k), |k: Seq<char>| e[key_index(e, k)].1)
}

/// No key occurs twice.
pub open spec fn distinct_keys<V>(e: Seq<(String, V)>) -> bool {
    forall|i: int, j: int| 0 <= i < e.len() && 0 <= j < e.len() && i != j ==> e[i].0@ != e[j].0@
}

proof fn lemma_index_of_key<V>(e: Seq<(String, V)>, i: int)
    requires
        distinct_keys(e),
        0 <= i < e.len(),
    ensures
        has_key(e, e[i].0@),
        key_index(e, e[i].0@) == i,
        entries_map(e).contains_key(e[i].0@),
        entries_map(e)[e[i].0@] == e[i].1,
{
    let k = e[i].0@;
    assert(has_key(e, k));
    let j = key_index(e, k);
    assert(e[j].0@ == k);
}

impl<V> View for KeyTable<V> {
    type V = Map<Seq<char>, V>;

    closed spec fn view(&self) -> Map<Seq<char>, V> {
        entries_map(self.entries@)
    }
}

impl<V> KeyTable<V> {
    /// Keys are distinct.
    #[verifier::type_invariant]
    closed spec fn wf(&self) -> bool {
        distinct_keys(self.entries@)
    }

    /// The entries, in the order they were first recorded.
    pub closed spec fn entry_seq(&self) -> Seq<(String, V)> {
        self.entries@
    }

    /// An empty section.
    pub fn new() -> (r: Self)
        ensures
            r@ == Map::<Seq<char>, V>::empty(),
    {
        let r = KeyTable { entries: Vec::new() };
        assert(r@ =~= Map::<Seq<char>, V>::empty());
        r
    }

    /// Number of recorded keys.
    pub fn len(&self) -> (r: usize)
        ensures
            r == self@.len(),
    {
        proof {
            use_type_invariant(self);
            self.lemma_dom_len();
        }
        self.entries.len()
    }

    proof fn lemma_dom_len(&self)
        requires
            distinct_keys(self.entries@),
        ensures
            self@.dom().finite(),
            self@.len() == self.entries@.len(),
    {
        let e = self.entries@;
        let keys = e.map_values(|p: (String, V)| p.0@);
        assert(keys.no_duplicates()) by {
            assert forall|i: int, j: int| 0 <= i < keys.len() && 0 <= j < keys.len() && i != j
                implies keys[i] != keys[j] by {
                assert(keys[i] == e[i].0@);
                assert(keys[j] == e[j].0@);
            }
        }
        assert(self@.dom() =~= keys.to_set()) by {
            assert forall|k: Seq<char>| self@.dom().contains(k) implies keys.to_set().contains(
                k,
            ) by {
                let i = key_index(e, k);
                assert(keys[i] == k);
            }
            assert forall|k: Seq<char>| keys.to_set().contains(k) implies self@.dom().contains(
                k,
            ) by {
                let i = choose|i: int| 0 <= i < keys.len() && keys[i] == k;
                assert(e[i].0@ == k);
            }
        }
        keys.unique_seq_to_set();
    }

    /// Position of `key`, if recorded.
    fn find(&self, key: &str) -> (r: Option<usize>)
        ensures
            match r {
                Some(i) => i < self.entries@.len() && self.entries@[i as int].0@ == key@,
                None => !has_key(self.entries@, key@),
            },
    {
        let mut i: usize = 0;
        while i < self.entries.len()
            invariant
                i <= self.entries@.len(),
                forall|j: int| 0 <= j < i ==> self.entries@[j].0@ != key@,
            decreases self.entries@.len() - i,
        {
            if str_eq(self.entries[i].0.as_str(), key) {
                return Some(i);
            }
            i = i + 1;
        }
        None
    }

    /// The response recorded under `key`.
    pub fn get(&self, key: &str) -> (r: Option<&V>)
        ensures
            match r {
                Some(v) => self@.contains_key(key@) && *v == self@[key@],
                None => !self@.contains_key(key@),
            },
    {
        proof {
            use_type_invariant(self);
        }
        match self.find(key) {
            Some(i) => {
                proof {
                    lemma_index_of_key(self.entries@, i as int);
                }
                Some(&self.entries[i].1)
            },
            None => None,
        }
    }

    /// True when `key` is recorded.
    pub fn contains_key(&self, key: &str) -> (r: bool)
        ensures
            r == self@.contains_key(key@),
    {
        self.find(key).is_some()
    }

    /// Records `value` under `key`, replacing what was there.
    pub fn insert(&mut self, key: String, value: V)
        ensures
            final(self)@ == old(self)@.insert(key@, value),
    {
        proof {
            use_type_invariant(&*self);
        }
        let ghost k = key@;
        let ghost old_e = self.entries@;
        let pos = self.find(key.as_str());
        let mut e: Vec<(String, V)> = Vec::new();
        std::mem::swap(&mut e, &mut self.entries);
        match pos {
            Some(i) => {
                e.set(i, (key, value));
                proof {
                    let e = e@;
                    assert(e == old_e.update(i as int, e[i as int]));
                    assert(distinct_keys(e)) by {
                        assert forall|a: int, b: int|
                            0 <= a < e.len() && 0 <= b < e.len() && a != b implies e[a].0@
                            != e[b].0@ by {
                            if a != i && b != i {
                                assert(e[a] == old_e[a] && e[b] == old_e[b]);
                            } else if a == i {
                                assert(e[b] == old_e[b]);
                            } else {
                                assert(e[a] == old_e[a]);
                            }
                        }
                    }
                    Self::lemma_insert_view_of(old_e, e, i as int, k, value);
                }
            },
            None => {
                e.push((key, value));
                proof {
                    let e = e@;
                    assert(distinct_keys(e)) by {
                        assert forall|a: int, b: int|
                            0 <= a < e.len() && 0 <= b < e.len() && a != b implies e[a].0@
                            != e[b].0@ by {
                            if a < old_e.len() && b < old_e.len() {
                                assert(e[a] == old_e[a] && e[b] == old_e[b]);
                            } else if a < old_e.len() {
                                assert(e[a] == old_e[a]);
                            } else {
                                assert(e[b] == old_e[b]);
                            }
                        }
                    }
                    Self::lemma_insert_view_of(old_e, e, old_e.len() as int, k, value);
                }
            },
        }
        self.entries = e;
    }

    proof fn lemma_insert_view_of(old_e: Seq<(String, V)>, e: Seq<(String, V)>, i: int, k: Seq<char>, v: V)
        requires
            distinct_keys(old_e),
            distinct_keys(e),
            0 <= i <= old_e.len(),
            i == old_e.len() ==> e.len() == old_e.len() + 1,
            i < old_e.len() ==> e.len() == old_e.len(),
            i < old_e.len() ==> old_e[i].0@ == k,
            i == old_e.len() ==> !has_key(old_e, k),
            e[i].0@ == k,
            e[i].1 == v,
            forall|j: int| 0 <= j < old_e.len() && j != i ==> e[j] == old_e[j],
        ensures
            entries_map(e) == entries_map(old_e).insert(k, v),
    {
        let m = entries_map(old_e).insert(k, v);
        lemma_index_of_key(e, i);
        assert forall|x: Seq<char>| #[trigger] entries_map(e).contains_key(x) == m.contains_key(x) by {
            if x != k {
                if has_key(e, x) {
                    let j = key_index(e, x);
                    assert(j != i);
                    assert(old_e[j].0@ == x);
                }
                if has_key(old_e, x) {
                    let j = key_index(old_e, x);
                    if i < old_e.len() {
                        assert(j != i);
                    }
                    assert(e[j].0@ == x);
                }
            }
        }
        assert forall|x: Seq<char>| entries_map(e).contains_key(x) implies #[trigger] entries_map(e)[x] == m[x] by {
            if x != k {
                let j = key_index(e, x);
                assert(j != i);
                assert(old_e[j] == e[j]);
                lemma_index_of_key(old_e, j);
                lemma_index_of_key(e, j);
            }
        }
        assert(entries_map(e) =~= m);
    }

    /// A section holding `pairs`, a later pair winning over an earlier one
    /// with the same key.
    pub fn from_pairs(pairs: Vec<(String, V)>) -> (r: Self)
        ensures
            r@ == inserted_all(Map::empty(), pairs@),
    {
        let mut t = KeyTable::new();
        t.insert_all(pairs);
        t
    }

    /// Records each pair in turn, a later pair winning over an earlier one
    /// with the same key.
    pub fn insert_all(&mut self, pairs: Vec<(String, V)>)
        ensures
            final(self)@ == inserted_all(old(self)@, pairs@),
    {
        let ghost start = self@;
        let mut rest = pairs;
        let ghost all = rest@;
        let mut taken: Vec<(String, V)> = Vec::new();
        // Reverse once so that pairs can be moved out from the back in order.
        while rest.len() > 0
            invariant
                taken@ + rest@.reverse() == all.reverse(),
            decreases rest.len(),
        {
            let p = rest.pop().unwrap();
            proof {
                assert(rest@.push(p).reverse() =~= seq![p] + rest@.reverse());
            }
            taken.push(p);
            assert(taken@ + rest@.reverse() =~= all.reverse());
        }
        assert(taken@ =~= all.reverse());
        let mut n: usize = 0;
        let total = taken.len();
        let ghost len = all.len();
        while taken.len() > 0
            invariant
                len == total,
                taken@.len() + n == len,
                all.len() == len,
                taken@ == all.skip(n as int).reverse(),
                self@ == inserted_all(start, all.take(n as int)),
            decreases taken.len(),
        {
            let (k, v) = taken.pop().unwrap();
            proof {
                assert(all[n as int] == (k, v)) by {
                    assert(all.skip(n as int).reverse().last() == all.skip(n as int)[0]);
                }
                assert(all.take(n + 1).drop_last() =~= all.take(n as int));
                assert(taken@ =~= all.skip(n + 1).reverse());
            }
            self.insert(k, v);
            n = n + 1;
        }
        assert(all.take(n as int) =~= all);
    }

    /// The recorded pairs, in first-recorded order.
    pub fn pairs(&self) -> (r: &Vec<(String, V)>)
        ensures
            r@ == self.entry_seq(),
    {
        &self.entries
    }

    /// Removes `key` and what it held.
    pub fn remove(&mut self, key: &str)
        ensures
            final(self)@ == old(self)@.remove(key@),
    {
        let _ = self.take(key);
    }

    /// Removes `key` and hands back what it held.
    pub fn take(&mut self, key: &str) -> (r: Option<V>)
        ensures
            final(self)@ == old(self)@.remove(key@),
            match r {
                Some(v) => old(self)@.contains_key(key@) && v == old(self)@[key@],
                None => !old(self)@.contains_key(key@),
            },
    {
        proof {
            use_type_invariant(&*self);
        }
        let ghost old_e = self.entries@;
        match self.find(key) {
            Some(i) => {
                proof {
                    lemma_index_of_key(old_e, i as int);
                }
                let mut rest: Vec<(String, V)> = Vec::new();
                std::mem::swap(&mut rest, &mut self.entries);
                let (_, v) = rest.remove(i);
                proof {
                    let e = rest@;
                    assert forall|j: int| 0 <= j < e.len() implies #[trigger] e[j] == (if j < i {
                        old_e[j]
                    } else {
                        old_e[j + 1]
                    }) by {}
                    assert(distinct_keys(e)) by {
                        assert forall|a: int, b: int|
                            0 <= a < e.len() && 0 <= b < e.len() && a != b implies e[a].0@
                            != e[b].0@ by {
                            let a2 = if a < i { a } else { a + 1 };
                            let b2 = if b < i { b } else { b + 1 };
                            assert(e[a] == old_e[a2] && e[b] == old_e[b2]);
                        }
                    }
                    let m = entries_map(old_e).remove(key@);
                    assert forall|x: Seq<char>| #[trigger] entries_map(e).contains_key(x) == m.contains_key(
                        x,
                    ) by {
                        if has_key(e, x) {
                            let j = key_index(e, x);
                            let j2 = if j < i { j } else { j + 1 };
                            assert(old_e[j2].0@ == x);
                            assert(j2 != i);
                        }
                        if has_key(old_e, x) && x != key@ {
                            let j = key_index(old_e, x);
                            assert(j != i);
                            let j1 = if j < i { j } else { j - 1 };
                            assert(e[j1] == old_e[j]);
                        }
                    }
                    assert forall|x: Seq<char>| entries_map(e).contains_key(x) implies #[trigger] entries_map(e)[x]
                        == m[x] by {
                        let j = key_index(e, x);
                        let j2 = if j < i { j } else { j + 1 };
                        lemma_index_of_key(e, j);
                        lemma_index_of_key(old_e, j2);
                    }
                    assert(entries_map(e) =~= m);
                }
                self.entries = rest;
                Some(v)
            },
            None => {
                assert(self@ =~= entries_map(old_e).remove(key@));
                None
            },
        }
    }
}

/// The map after inserting `pairs` one after another.
pub open spec fn inserted_all<V>(m: Map<Seq<char>, V>, pairs: Seq<(String, V)>) -> Map<
    Seq<char>,
    V,
>
    decreases pairs.len(),
{
    if pairs.len() == 0 {
        m
    } else {
        inserted_all(m, pairs.drop_last()).insert(pairs.last().0@, pairs.last().1)
    }
}

/// Pairs that do not mention a key leave what the map held under it.
pub proof fn law_unmentioned_key_is_kept<V>(m: Map<Seq<char>, V>, pairs: Seq<(String, V)>, k: Seq<char>)
    requires
        forall|i: int| 0 <= i < pairs.len() ==> (#[trigger] pairs[i]).0@ != k,
    ensures
        inserted_all(m, pairs).contains_key(k) == m.contains_key(k),
        m.contains_key(k) ==> inserted_all(m, pairs)[k] == m[k],
    decreases pairs.len(),
{
    if pairs.len() > 0 {
        let d = pairs.drop_last();
        assert forall|i: int| 0 <= i < d.len() implies (#[trigger] d[i]).0@ != k by {
            assert(d[i] == pairs[i]);
        }
        law_unmentioned_key_is_kept(m, d, k);
        assert(pairs.last() == pairs[pairs.len() - 1]);
    }
}

/// The last pair with a key decides what the key holds.
pub proof fn law_last_pair_wins<V>(m: Map<Seq<char>, V>, pairs: Seq<(String, V)>, i: int)
    requires
        0 <= i < pairs.len(),
        forall|j: int| i < j < pairs.len() ==> (#[trigger] pairs[j]).0@ != pairs[i].0@,
    ensures
        inserted_all(m, pairs).contains_key(pairs[i].0@),
        inserted_all(m, pairs)[pairs[i].0@] == pairs[i].1,
    decreases pairs.len(),
{
    if i < pairs.len() - 1 {
        let d = pairs.drop_last();
        assert forall|j: int| i < j < d.len() implies (#[trigger] d[j]).0@ != d[i].0@ by {
            assert(d[j] == pairs[j]);
        }
        law_last_pair_wins(m, d, i);
        assert(pairs.last() == pairs[pairs.len() - 1]);
        assert(d[i] == pairs[i]);
    }
}

} // verus!
