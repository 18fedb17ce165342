//! A map keyed by strings, kept as an association list with distinct keys.
//!
//! The character sheet keeps skills, contacts and inventory items by name. The map
//! below stores them in insertion order; its meaning is the mathematical map from
//! the keys' character sequences to the values.
use vstd::prelude::*;

verus! {

broadcast use vstd::string::group_string_axioms;

/// Compares two string slices by their characters.
pub fn str_eq(a: &str, b: &str) -> (r: bool)
    ensures
        r == (a@ == b@),
{
    let sa = a.to_string();
    let sb = b.to_string();
    sa == sb
}

/// Association list from names to values; no name occurs twice.
#[derive(Debug)]
pub struct StrMap<V> {
    entries: Vec<(String, V)>,
}

impl<V> StrMap<V> {
    /// No key occurs twice.
    #[verifier::type_invariant]
    pub closed spec fn wf(self) -> bool {
        forall|i: int, j: int|
            0 <= i < j < self.entries@.len() ==> #[trigger] self.entries@[i].0@
                != #[trigger] self.entries@[j].0@
    }

    /// The entries, in the order in which their keys were first inserted.
    pub closed spec fn pairs(self) -> Seq<(String, V)> {
        self.entries@
    }

    /// Whether some entry has the key `k`.
    pub open spec fn has_key(self, k: Seq<char>) -> bool {
        exists|i: int| 0 <= i < self.pairs().len() && #[trigger] self.pairs()[i].0@ == k
    }

    /// The position of the entry with key `k`.
    pub open spec fn position(self, k: Seq<char>) -> int {
        choose|i: int| 0 <= i < self.pairs().len() && #[trigger] self.pairs()[i].0@ == k
    }

    /// The contents of the map.
    pub open spec fn view(self) -> Map<Seq<char>, V> {
        Map::new(|k: Seq<char>| self.has_key(k), |k: Seq<char>| self.pairs()[self.position(k)].1)
    }

    /// Keys of the map are pairwise distinct.
    pub proof fn lemma_distinct(&self)
        requires
            self.wf(),
        ensures
            forall|i: int, j: int|
                0 <= i < self.pairs().len() && 0 <= j < self.pairs().len() && i != j
                    ==> #[trigger] self.pairs()[i].0@ != #[trigger] self.pairs()[j].0@,
    {
    }

    /// Looking up the key stored at position `i` finds position `i`.
    pub proof fn lemma_position(&self, i: int)
        requires
            self.wf(),
            0 <= i < self.pairs().len(),
        ensures
            self.has_key(self.pairs()[i].0@),
            self.position(self.pairs()[i].0@) == i,
            self.view().contains_key(self.pairs()[i].0@),
            self.view()[self.pairs()[i].0@] == self.pairs()[i].1,
    {
        self.lemma_distinct();
        let k = self.pairs()[i].0@;
        assert(self.has_key(k));
        let p = self.position(k);
        assert(self.pairs()[p].0@ == k);
    }

    /// Maps with the same entries have the same contents.
    pub proof fn lemma_same_pairs(&self, other: &Self)
        requires
            self.pairs() == other.pairs(),
        ensures
            self.view() == other.view(),
    {
        assert(self.view() =~= other.view());
    }

    /// An empty map.
    pub fn new() -> (m: Self)
        ensures
            m.view() == Map::<Seq<char>, V>::empty(),
            m.pairs().len() == 0,
    {
        let m = StrMap { entries: Vec::new() };
        assert(m.view() =~= Map::<Seq<char>, V>::empty());
        m
    }

    /// Number of entries.
    pub fn len(&self) -> (n: usize)
        ensures
            n == self.pairs().len(),
    {
        self.entries.len()
    }

    /// Hands out the entries, in order.
    pub fn into_pairs(self) -> (v: Vec<(String, V)>)
        ensures
            v@ == self.pairs(),
    {
        self.entries
    }

    /// Whether the map has no entry.
    pub fn is_empty(&self) -> (b: bool)
        ensures
            b == (self.pairs().len() == 0),
            b == (self.view() == Map::<Seq<char>, V>::empty()),
    {
        proof {
            use_type_invariant(self);
        }
        let b = self.entries.len() == 0;
        if !b {
            proof {
                self.lemma_position(0);
                assert(self.view().contains_key(self.pairs()[0].0@));
                assert(!Map::<Seq<char>, V>::empty().contains_key(self.pairs()[0].0@));
            }
        } else {
            assert(self.view() =~= Map::<Seq<char>, V>::empty());
        }
        b
    }

    /// The key stored at position `i`.
    pub fn key_at(&self, i: usize) -> (k: &String)
        requires
            i < self.pairs().len(),
        ensures
            *k == self.pairs()[i as int].0,
    {
        &self.entries[i].0
    }

    /// The value stored at position `i`.
    pub fn value_at(&self, i: usize) -> (v: &V)
        requires
            i < self.pairs().len(),
        ensures
            *v == self.pairs()[i as int].1,
    {
        &self.entries[i].1
    }

    /// The position of `key`, if it is present.
    pub fn find(&self, key: &str) -> (r: Option<usize>)
        ensures
            match r {
                Some(i) => i < self.pairs().len() && self.pairs()[i as int].0@ == key@
                    && self.view().contains_key(key@),
                None => !self.view().contains_key(key@),
            },
    {
        proof {
            use_type_invariant(self);
        }
        let n = self.entries.len();
        let k = key.to_string();
        let mut i: usize = 0;
        while i < n
            invariant
                self.wf(),
                n == self.pairs().len(),
                i <= n,
                k@ == key@,
                forall|j: int| 0 <= j < i ==> #[trigger] self.pairs()[j].0@ != key@,
            decreases n - i,
        {
            if self.entries[i].0 == k {
                proof {
                    self.lemma_position(i as int);
                }
                return Some(i);
            }
            i = i + 1;
        }
        assert(!self.has_key(key@));
        None
    }

    /// Whether `key` is present.
    pub fn contains_key(&self, key: &str) -> (b: bool)
        ensures
            b == self.view().contains_key(key@),
    {
        self.find(key).is_some()
    }

    /// The value stored under `key`, if any.
    pub fn get(&self, key: &str) -> (r: Option<&V>)
        ensures
            match r {
                Some(v) => self.view().contains_key(key@) && *v == self.view()[key@],
                None => !self.view().contains_key(key@),
            },
    {
        proof {
            use_type_invariant(self);
        }
        match self.find(key) {
            Some(i) => {
                proof {
                    self.lemma_position(i as int);
                }
                Some(&self.entries[i].1)
            },
            None => None,
        }
    }

    /// Replaces the value at position `i`, keeping its key.
    pub fn set_value_at(&mut self, i: usize, v: V)
        requires
            i < old(self).pairs().len(),
        ensures
            final(self).pairs() == old(self).pairs().update(
                i as int,
                (old(self).pairs()[i as int].0, v),
            ),
            final(self).view() == old(self).view().insert(old(self).pairs()[i as int].0@, v),
    {
        proof {
            use_type_invariant(&*self);
        }
        let ghost old_map = *self;
        let ghost k = self.entries@[i as int].0@;
        let mut entries = Vec::new();
        std::mem::swap(&mut entries, &mut self.entries);
        let (key, _old_v) = entries.remove(i);
        entries.insert(i, (key, v));
        assert(entries@ =~= old_map.pairs().update(i as int, (old_map.pairs()[i as int].0, v)));
        self.entries = entries;
        proof {
            use_type_invariant(&*self);
            self.lemma_distinct();
            old_map.lemma_distinct();
            assert forall|k2: Seq<char>| #[trigger]
                self.view().contains_key(k2) == old_map.view().insert(k, v).contains_key(
                    k2,
                ) by {
                if old_map.has_key(k2) {
                    let p = old_map.position(k2);
                    assert(self.pairs()[p].0@ == k2);
                }
                if self.has_key(k2) {
                    let p = self.position(k2);
                    assert(old_map.pairs()[p].0@ == k2);
                }
            }
            assert forall|k2: Seq<char>| #[trigger] self.view().contains_key(k2) implies self.view()[k2]
                == old_map.view().insert(k, v)[k2] by {
                let p = self.position(k2);
                self.lemma_position(p);
                if k2 == k {
                    old_map.lemma_position(i as int);
                } else {
                    old_map.lemma_position(p);
                }
            }
            assert(self.view() =~= old_map.view().insert(k, v));
        }
    }

    /// Inserts `v` under `key`: an existing entry keeps its place and takes the new
    /// value, a new key goes to the end.
    pub fn insert(&mut self, key: String, v: V)
        ensures
            final(self).view() == old(self).view().insert(key@, v),
            old(self).view().contains_key(key@) ==> final(self).pairs().len() == old(
                self,
            ).pairs().len(),
            !old(self).view().contains_key(key@) ==> final(self).pairs() == old(self).pairs().push(
                (key, v),
            ),
    {
        proof {
            use_type_invariant(&*self);
        }
        match self.find(key.as_str()) {
            Some(i) => {
                proof {
                    self.lemma_position(i as int);
                }
                self.set_value_at(i, v);
            },
            None => {
                proof {
                    use_type_invariant(&*self);
                }
                let ghost old_map = *self;
                let ghost k = key@;
                let mut entries = Vec::new();
                std::mem::swap(&mut entries, &mut self.entries);
                entries.push((key, v));
                proof {
                    old_map.lemma_distinct();
                    assert forall|a: int, b: int|
                        0 <= a < b < entries@.len() implies #[trigger] entries@[a].0@
                        != #[trigger] entries@[b].0@ by {
                        if b == entries@.len() - 1 {
                            assert(old_map.pairs()[a].0@ != k);
                        } else {
                            assert(old_map.pairs()[a].0@ != old_map.pairs()[b].0@);
                        }
                    }
                }
                self.entries = entries;
                proof {
                    use_type_invariant(&*self);
                    let n = old_map.pairs().len() as int;
                    self.lemma_position(n);
                    assert forall|k2: Seq<char>| #[trigger]
                        self.view().contains_key(k2) == old_map.view().insert(
                            k,
                            v,
                        ).contains_key(k2) by {
                        if old_map.has_key(k2) {
                            let p = old_map.position(k2);
                            assert(self.pairs()[p].0@ == k2);
                        }
                        if self.has_key(k2) && k2 != k {
                            let p = self.position(k2);
                            assert(old_map.pairs()[p].0@ == k2);
                        }
                    }
                    assert forall|k2: Seq<char>| #[trigger]
                        self.view().contains_key(k2) implies self.view()[k2] == old_map.view().insert(
                        k,
                        v,
                    )[k2] by {
                        let p = self.position(k2);
                        self.lemma_position(p);
                        if k2 != k {
                            old_map.lemma_position(p);
                        }
                    }
                    assert(self.view() =~= old_map.view().insert(k, v));
                }
            },
        }
    }

    /// Removes the entry of `key`, if any; the other entries keep their order.
    pub fn remove(&mut self, key: &str)
        ensures
            final(self).view() == old(self).view().remove(key@),
    {
        proof {
            use_type_invariant(&*self);
        }
        match self.find(key) {
            None => {
                assert(self.view() =~= self.view().remove(key@));
            },
            Some(i) => {
                proof {
                    use_type_invariant(&*self);
                }
                let ghost old_map = *self;
                let ghost k = key@;
                let mut entries = Vec::new();
                std::mem::swap(&mut entries, &mut self.entries);
                let _removed = entries.remove(i);
                proof {
                    old_map.lemma_distinct();
                    assert forall|a: int, b: int|
                        0 <= a < b < entries@.len() implies #[trigger] entries@[a].0@
                        != #[trigger] entries@[b].0@ by {
                        let oa = if a < i { a } else { a + 1 };
                        let ob = if b < i { b } else { b + 1 };
                        assert(entries@[a] == old_map.pairs()[oa]);
                        assert(entries@[b] == old_map.pairs()[ob]);
                    }
                }
                self.entries = entries;
                proof {
                    use_type_invariant(&*self);
                    assert forall|k2: Seq<char>| #[trigger]
                        self.view().contains_key(k2) == old_map.view().remove(k).contains_key(
                            k2,
                        ) by {
                        if old_map.has_key(k2) && k2 != k {
                            let p = old_map.position(k2);
                            assert(p != i);
                            let q = if p < i { p } else { p - 1 };
                            assert(self.pairs()[q].0@ == k2);
                        }
                        if self.has_key(k2) {
                            let p = self.position(k2);
                            let op = if p < i { p } else { p + 1 };
                            assert(old_map.pairs()[op].0@ == k2);
                            assert(op != i);
                        }
                    }
                    assert forall|k2: Seq<char>| #[trigger]
                        self.view().contains_key(k2) implies self.view()[k2]
                        == old_map.view().remove(k)[k2] by {
                        let p = self.position(k2);
                        self.lemma_position(p);
                        let op = if p < i { p } else { p + 1 };
                        assert(old_map.pairs()[op] == self.pairs()[p]);
                        old_map.lemma_position(op);
                    }
                    assert(self.view() =~= old_map.view().remove(k));
                }
            },
        }
    }

    /// Moves every entry of `other` into this map; `other`'s value wins for a key
    /// present in both.
    pub fn extend(&mut self, other: StrMap<V>)
        ensures
            final(self).view() == old(self).view().union_prefer_right(other.view()),
    {
        let ghost target = old(self).view().union_prefer_right(other.view());
        let ghost other_map = other.view();
        let mut rest = other;
        while rest.entries.len() > 0
            invariant
                forall|k: Seq<char>| #[trigger] target.contains_key(k) ==> (if rest.view().contains_key(k) {
                    true
                } else {
                    self.view().contains_key(k) && self.view()[k] == target[k]
                }),
                forall|k: Seq<char>| #[trigger] self.view().contains_key(k) ==> target.contains_key(k),
                forall|k: Seq<char>| #[trigger]
                    rest.view().contains_key(k) ==> other_map.contains_key(k) && rest.view()[k]
                        == other_map[k],
                forall|k: Seq<char>| #[trigger] other_map.contains_key(k) ==> target.contains_key(k)
                    && target[k] == other_map[k],
            decreases rest.pairs().len(),
        {
            proof {
                use_type_invariant(&rest);
            }
            let ghost old_rest = rest;
            let ghost last = (rest.entries@.len() - 1) as int;
            proof {
                rest.lemma_position(last);
            }
            let mut entries = Vec::new();
            std::mem::swap(&mut entries, &mut rest.entries);
            let (k, v) = entries.pop().unwrap();
            proof {
                old_rest.lemma_distinct();
            }
            rest.entries = entries;
            proof {
                use_type_invariant(&rest);
                assert forall|k2: Seq<char>| #[trigger] rest.view().contains_key(k2) implies old_rest.view().contains_key(k2)
                    && rest.view()[k2] == old_rest.view()[k2] && k2 != k@ by {
                    let p = rest.position(k2);
                    rest.lemma_position(p);
                    assert(old_rest.pairs()[p] == rest.pairs()[p]);
                    old_rest.lemma_position(p);
                }
                assert forall|k2: Seq<char>| #[trigger]
                    old_rest.view().contains_key(k2) && k2 != k@ implies rest.view().contains_key(k2) by {
                    let p = old_rest.position(k2);
                    assert(p != last);
                    assert(rest.pairs()[p].0@ == k2);
                }
            }
            self.insert(k, v);
        }
        proof {
            assert forall|k: Seq<char>| #[trigger] target.contains_key(k) implies !rest.view().contains_key(k) by {
                if rest.view().contains_key(k) {
                    let p = rest.position(k);
                    assert(0 <= p < rest.pairs().len());
                }
            }
            assert(self.view() =~= target);
        }
    }
}

impl<V: Clone> Clone for StrMap<V> {
    /// Copies every entry, keys and values, in order.
    fn clone(&self) -> (r: Self)
        ensures
            r.pairs().len() == self.pairs().len(),
            forall|i: int|
                0 <= i < self.pairs().len() ==> #[trigger] r.pairs()[i].0 == self.pairs()[i].0
                    && cloned(self.pairs()[i].1, r.pairs()[i].1),
    {
        proof {
            use_type_invariant(self);
        }
        let n = self.entries.len();
        let mut entries: Vec<(String, V)> = Vec::new();
        let mut i: usize = 0;
        while i < n
            invariant
                self.wf(),
                n == self.pairs().len(),
                i <= n,
                entries@.len() == i,
                forall|j: int|
                    0 <= j < i ==> #[trigger] entries@[j].0 == self.pairs()[j].0 && cloned(
                        self.pairs()[j].1,
                        entries@[j].1,
                    ),
            decreases n - i,
        {
            let k = self.entries[i].0.clone();
            let v = self.entries[i].1.clone();
            entries.push((k, v));
            i = i + 1;
        }
        proof {
            self.lemma_distinct();
        }
        StrMap { entries }
    }
}

} // verus!
