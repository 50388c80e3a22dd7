//! A map keyed by strings, kept as a list of entries whose keys are
//! pairwise distinct; its view is a `Map` from the keys' characters.

use vstd::prelude::*;

verus! {

/// A map from string keys to values.
pub struct StrMap<V> {
    entries: Vec<(String, V)>,
}

impl<V> StrMap<V> {
    /// No key occurs twice among the entries.
    #[verifier::type_invariant]
    pub closed spec fn keys_distinct(self) -> bool {
        forall|i: int, j: int|
            0 <= i < self.entries.len() && 0 <= j < self.entries.len() && i != j
                ==> #[trigger] self.entries@[i].0@ != #[trigger] self.entries@[j].0@
    }

    /// Where `k` stands among the entries.
    closed spec fn slot(self, k: Seq<char>) -> int {
        choose|i: int| 0 <= i < self.entries.len() && self.entries@[i].0@ == k
    }

    /// The map's contents.
    pub closed spec fn view(&self) -> Map<Seq<char>, V> {
        Map::new(
            |k: Seq<char>| exists|i: int| 0 <= i < self.entries.len() && self.entries@[i].0@ == k,
            |k: Seq<char>| self.entries@[self.slot(k)].1,
        )
    }

    /// The entries, in the order in which they are kept.
    pub closed spec fn entry_seq(self) -> Seq<(Seq<char>, V)> {
        self.entries@.map_values(|e: (String, V)| (e.0@, e.1))
    }

    /// The entry for `i` is where its key is found.
    proof fn lemma_slot(self, i: int)
        requires
            self.keys_distinct(),
            0 <= i < self.entries.len(),
        ensures
            self.slot(self.entries@[i].0@) == i,
            self.view().contains_key(self.entries@[i].0@),
            self.view()[self.entries@[i].0@] == self.entries@[i].1,
    {
        let k = self.entries@[i].0@;
        assert(0 <= i < self.entries.len() && self.entries@[i].0@ == k);
        let j = self.slot(k);
        assert(self.entries@[j].0@ == k);
    }

    /// The entries and the view tell the same story.
    pub proof fn lemma_entries(self)
        requires
            self.keys_distinct(),
        ensures
            self.entry_seq().len() == self.view().dom().len(),
            forall|i: int|
                0 <= i < self.entry_seq().len() ==> self.view().contains_key(
                    #[trigger] self.entry_seq()[i].0,
                ) && self.view()[self.entry_seq()[i].0] == self.entry_seq()[i].1,
            forall|k: Seq<char>|
                #[trigger] self.view().contains_key(k) ==> exists|i: int|
                    0 <= i < self.entry_seq().len() && #[trigger] self.entry_seq()[i].0 == k,
            forall|i: int, j: int|
                0 <= i < self.entry_seq().len() && 0 <= j < self.entry_seq().len() && i != j
                    ==> #[trigger] self.entry_seq()[i].0 != #[trigger] self.entry_seq()[j].0,
    {
        assert forall|i: int| 0 <= i < self.entry_seq().len() implies self.view().contains_key(
            #[trigger] self.entry_seq()[i].0,
        ) && self.view()[self.entry_seq()[i].0] == self.entry_seq()[i].1 by {
            self.lemma_slot(i);
        }
        assert forall|k: Seq<char>| #[trigger] self.view().contains_key(k) implies exists|i: int|
            0 <= i < self.entry_seq().len() && #[trigger] self.entry_seq()[i].0 == k by {
            let i = self.slot(k);
            assert(self.entry_seq()[i].0 == k);
        }
        let keys = self.entry_seq().map_values(|e: (Seq<char>, V)| e.0);
        assert(keys.no_duplicates()) by {
            assert forall|i: int, j: int| 0 <= i < keys.len() && 0 <= j < keys.len() && i != j
                implies keys[i] != keys[j] by {
                assert(self.entries@[i].0@ != self.entries@[j].0@);
            }
        }
        assert(keys.to_set() =~= self.view().dom()) by {
            assert forall|k: Seq<char>| keys.to_set().contains(k) implies self.view().dom().contains(
                k,
            ) by {
                let i = choose|i: int| 0 <= i < keys.len() && keys[i] == k;
                self.lemma_slot(i);
            }
            assert forall|k: Seq<char>| self.view().dom().contains(k) implies keys.to_set().contains(
                k,
            ) by {
                let i = self.slot(k);
                assert(keys[i] == k);
            }
        }
        keys.unique_seq_to_set();
        assert forall|i: int, j: int|
            0 <= i < self.entry_seq().len() && 0 <= j < self.entry_seq().len() && i != j
                implies #[trigger] self.entry_seq()[i].0 != #[trigger] self.entry_seq()[j].0 by {
            assert(self.entries@[i].0@ != self.entries@[j].0@);
        }
    }

    /// An empty map.
    pub fn new() -> (m: Self)
        ensures
            m@ == Map::<Seq<char>, V>::empty(),
            m.entry_seq() == Seq::<(Seq<char>, V)>::empty(),
    {
        let m = StrMap { entries: Vec::new() };
        assert(m@ =~= Map::<Seq<char>, V>::empty());
        assert(m.entry_seq() =~= Seq::<(Seq<char>, V)>::empty());
        m
    }

    /// The number of keys.
    pub fn len(&self) -> (n: usize)
        ensures
            n == self@.dom().len(),
    {
        proof {
            use_type_invariant(self);
            self.lemma_entries();
        }
        self.entries.len()
    }

    /// Where `key` stands among the entries, if it is there.
    fn find(&self, key: &str) -> (r: Option<usize>)
        ensures
            match r {
                Some(i) => i < self.entries.len() && self.entries@[i as int].0@ == key@,
                None => forall|i: int|
                    0 <= i < self.entries.len() ==> #[trigger] self.entries@[i].0@ != key@,
            },
    {
        let wanted = String::from_str(key);
        let mut i: usize = 0;
        while i < self.entries.len()
            invariant
                wanted@ == key@,
                i <= self.entries.len(),
                forall|j: int| 0 <= j < i ==> #[trigger] self.entries@[j].0@ != key@,
            decreases self.entries.len() - i,
        {
            if self.entries[i].0 == wanted {
                return Some(i);
            }
            i = i + 1;
        }
        None
    }

    /// Whether `key` has a value.
    pub fn contains_key(&self, key: &str) -> (r: bool)
        ensures
            r == self@.contains_key(key@),
    {
        proof {
            use_type_invariant(self);
        }
        match self.find(key) {
            Some(i) => {
                proof {
                    self.lemma_slot(i as int);
                }
                true
            },
            None => false,
        }
    }

    /// The value for `key`, if it has one.
    pub fn get(&self, key: &str) -> (r: Option<&V>)
        ensures
            match r {
                Some(v) => self@.contains_key(key@) && self@[key@] == *v,
                None => !self@.contains_key(key@),
            },
    {
        proof {
            use_type_invariant(self);
        }
        match self.find(key) {
            Some(i) => {
                proof {
                    self.lemma_slot(i as int);
                }
                Some(&self.entries[i].1)
            },
            None => None,
        }
    }

    /// Sets the value for `key`: in place when the key is there, else as a
    /// new last entry. Returns the value it had.
    pub fn insert(&mut self, key: String, value: V) -> (r: Option<V>)
        ensures
            final(self)@ == old(self)@.insert(key@, value),
            match r {
                Some(v) => old(self)@.contains_key(key@) && old(self)@[key@] == v,
                None => !old(self)@.contains_key(key@),
            },
    {
        proof {
            use_type_invariant(&*self);
        }
        let ghost pre = *self;
        match self.find(key.as_str()) {
            Some(i) => {
                proof {
                    pre.lemma_slot(i as int);
                }
                let mut entries: Vec<(String, V)> = Vec::new();
                std::mem::swap(&mut entries, &mut self.entries);
                let (k, old_value) = entries.remove(i);
                entries.insert(i, (k, value));
                self.entries = entries;
                proof {
                    assert forall|a: int, b: int|
                        0 <= a < self.entries.len() && 0 <= b < self.entries.len() && a != b
                            implies #[trigger] self.entries@[a].0@ != #[trigger] self.entries@[b].0@ by {
                        assert(self.entries@[a].0@ == pre.entries@[a].0@);
                        assert(self.entries@[b].0@ == pre.entries@[b].0@);
                    }
                    self.lemma_view_insert_at(pre, i as int, key@, value);
                }
                Some(old_value)
            },
            None => {
                let mut entries: Vec<(String, V)> = Vec::new();
                std::mem::swap(&mut entries, &mut self.entries);
                entries.push((key, value));
                self.entries = entries;
                proof {
                    self.lemma_view_push(pre, key@, value);
                }
                None
            },
        }
    }

    proof fn lemma_view_insert_at(self, pre: Self, i: int, k: Seq<char>, v: V)
        requires
            pre.keys_distinct(),
            self.keys_distinct(),
            0 <= i < pre.entries.len(),
            self.entries.len() == pre.entries.len(),
            pre.entries@[i].0@ == k,
            self.entries@[i].0@ == k,
            self.entries@[i].1 == v,
            forall|j: int| 0 <= j < pre.entries.len() && j != i ==> self.entries@[j] == pre.entries@[j],
        ensures
            self@ == pre@.insert(k, v),
    {
        assert forall|key: Seq<char>| #[trigger] self@.contains_key(key) == pre@.insert(
            k,
            v,
        ).contains_key(key) by {
            if self@.contains_key(key) {
                let j = choose|j: int| 0 <= j < self.entries.len() && self.entries@[j].0@ == key;
                if j != i {
                    pre.lemma_slot(j);
                }
            }
            if pre@.contains_key(key) {
                let j = choose|j: int| 0 <= j < pre.entries.len() && pre.entries@[j].0@ == key;
                if j != i {
                    self.lemma_slot(j);
                } else {
                    self.lemma_slot(i);
                }
            }
            if key == k {
                self.lemma_slot(i);
            }
        }
        assert forall|key: Seq<char>| #[trigger] self@.contains_key(key) implies self@[key] == pre@.insert(
            k,
            v,
        )[key] by {
            let j = self.slot(key);
            self.lemma_slot(j);
            if j != i {
                pre.lemma_slot(j);
            }
        }
        assert(self@ =~= pre@.insert(k, v));
    }

    proof fn lemma_view_push(self, pre: Self, k: Seq<char>, v: V)
        requires
            pre.keys_distinct(),
            self.entries@ == pre.entries@.push((self.entries@.last().0, v)),
            self.entries@.last().0@ == k,
            forall|j: int| 0 <= j < pre.entries.len() ==> #[trigger] pre.entries@[j].0@ != k,
        ensures
            self.keys_distinct(),
            self@ == pre@.insert(k, v),
    {
        let n = pre.entries.len() as int;
        assert forall|a: int, b: int|
            0 <= a < self.entries.len() && 0 <= b < self.entries.len() && a != b
                implies #[trigger] self.entries@[a].0@ != #[trigger] self.entries@[b].0@ by {
            if a < n && b < n {
                assert(self.entries@[a] == pre.entries@[a]);
                assert(self.entries@[b] == pre.entries@[b]);
            } else if a < n {
                assert(self.entries@[a] == pre.entries@[a]);
            } else {
                assert(self.entries@[b] == pre.entries@[b]);
            }
        }
        assert forall|key: Seq<char>| #[trigger] self@.contains_key(key) == pre@.insert(
            k,
            v,
        ).contains_key(key) by {
            if self@.contains_key(key) {
                let j = choose|j: int| 0 <= j < self.entries.len() && self.entries@[j].0@ == key;
                if j < n {
                    assert(self.entries@[j] == pre.entries@[j]);
                    pre.lemma_slot(j);
                }
            }
            if pre@.contains_key(key) {
                let j = choose|j: int| 0 <= j < pre.entries.len() && pre.entries@[j].0@ == key;
                assert(self.entries@[j] == pre.entries@[j]);
                self.lemma_slot(j);
            }
            if key == k {
                self.lemma_slot(n);
            }
        }
        assert forall|key: Seq<char>| #[trigger] self@.contains_key(key) implies self@[key] == pre@.insert(
            k,
            v,
        )[key] by {
            let j = self.slot(key);
            self.lemma_slot(j);
            if j < n {
                assert(self.entries@[j] == pre.entries@[j]);
                pre.lemma_slot(j);
            }
        }
        assert(self@ =~= pre@.insert(k, v));
    }

    /// Removes `key` and returns the value it had.
    pub fn remove(&mut self, key: &str) -> (r: Option<V>)
        ensures
            final(self)@ == old(self)@.remove(key@),
            match r {
                Some(v) => old(self)@.contains_key(key@) && old(self)@[key@] == v,
                None => !old(self)@.contains_key(key@),
            },
    {
        proof {
            use_type_invariant(&*self);
        }
        let ghost pre = *self;
        match self.find(key) {
            Some(i) => {
                proof {
                    pre.lemma_slot(i as int);
                }
                let mut entries: Vec<(String, V)> = Vec::new();
                std::mem::swap(&mut entries, &mut self.entries);
                let (_k, old_value) = entries.remove(i);
                self.entries = entries;
                proof {
                    self.lemma_view_remove(pre, i as int, key@);
                }
                Some(old_value)
            },
            None => {
                proof {
                    assert(pre@ =~= pre@.remove(key@));
                }
                None
            },
        }
    }

    proof fn lemma_view_remove(self, pre: Self, i: int, k: Seq<char>)
        requires
            pre.keys_distinct(),
            0 <= i < pre.entries.len(),
            pre.entries@[i].0@ == k,
            self.entries@ == pre.entries@.remove(i),
        ensures
            self.keys_distinct(),
            self@ == pre@.remove(k),
    {
        assert forall|a: int, b: int|
            0 <= a < self.entries.len() && 0 <= b < self.entries.len() && a != b
                implies #[trigger] self.entries@[a].0@ != #[trigger] self.entries@[b].0@ by {
            let pa = if a < i { a } else { a + 1 };
            let pb = if b < i { b } else { b + 1 };
            assert(self.entries@[a] == pre.entries@[pa]);
            assert(self.entries@[b] == pre.entries@[pb]);
        }
        assert forall|key: Seq<char>| #[trigger] self@.contains_key(key) == pre@.remove(
            k,
        ).contains_key(key) by {
            if self@.contains_key(key) {
                let j = choose|j: int| 0 <= j < self.entries.len() && self.entries@[j].0@ == key;
                let pj = if j < i { j } else { j + 1 };
                assert(self.entries@[j] == pre.entries@[pj]);
                pre.lemma_slot(pj);
            }
            if pre@.contains_key(key) && key != k {
                let j = choose|j: int| 0 <= j < pre.entries.len() && pre.entries@[j].0@ == key;
                let sj = if j < i { j } else { j - 1 };
                assert(self.entries@[sj] == pre.entries@[j]);
                self.lemma_slot(sj);
            }
        }
        assert forall|key: Seq<char>| #[trigger] self@.contains_key(key) implies self@[key] == pre@.remove(
            k,
        )[key] by {
            let j = self.slot(key);
            self.lemma_slot(j);
            let pj = if j < i { j } else { j + 1 };
            assert(self.entries@[j] == pre.entries@[pj]);
            pre.lemma_slot(pj);
        }
        assert(self@ =~= pre@.remove(k));
    }

    /// The keys, in the order in which the entries are kept.
    pub fn keys(&self) -> (r: Vec<String>)
        ensures
            r.len() == self@.dom().len(),
            forall|i: int| 0 <= i < r.len() ==> self@.contains_key(#[trigger] r@[i]@),
            forall|k: Seq<char>| #[trigger] self@.contains_key(k) ==> exists|i: int| 0 <= i < r.len() && #[trigger] r@[i]@ == k,
            forall|i: int, j: int| 0 <= i < r.len() && 0 <= j < r.len() && i != j ==> #[trigger] r@[i]@ != #[trigger] r@[j]@,
    {
        proof {
            use_type_invariant(self);
            self.lemma_entries();
        }
        let mut r: Vec<String> = Vec::new();
        let mut i: usize = 0;
        while i < self.entries.len()
            invariant
                self.keys_distinct(),
                i <= self.entries.len(),
                r.len() == i,
                forall|j: int| 0 <= j < i ==> #[trigger] r@[j]@ == self.entries@[j].0@,
            decreases self.entries.len() - i,
        {
            r.push(self.entries[i].0.clone());
            i = i + 1;
        }
        proof {
            assert forall|j: int| 0 <= j < r.len() implies self@.contains_key(#[trigger] r@[j]@) by {
                self.lemma_slot(j);
            }
            assert forall|k: Seq<char>| #[trigger] self@.contains_key(k) implies exists|j: int| 0 <= j < r.len() && #[trigger] r@[j]@ == k by {
                let j = self.slot(k);
                assert(r@[j]@ == k);
            }
            assert(self.entry_seq().len() == r.len());
        }
        r
    }

    /// Removes every key.
    pub fn clear(&mut self)
        ensures
            final(self)@ == Map::<Seq<char>, V>::empty(),
    {
        self.entries = Vec::new();
        assert(self@ =~= Map::<Seq<char>, V>::empty());
    }
}

impl StrMap<String> {
    /// Sets every key of `other` to its value there, as `extend` would.
    pub fn merge_from(&mut self, other: &StrMap<String>)
        ensures
            final(self)@ == old(self)@.union_prefer_right(other@),
    {
        let keys = other.keys();
        let ghost start = self@;
        let mut i: usize = 0;
        while i < keys.len()
            invariant
                i <= keys.len(),
                keys.len() == other@.dom().len(),
                forall|j: int| 0 <= j < keys.len() ==> other@.contains_key(#[trigger] keys@[j]@),
                forall|k: Seq<char>| #[trigger] other@.contains_key(k) ==> exists|j: int| 0 <= j < keys.len() && #[trigger] keys@[j]@ == k,
                self@ == start.union_prefer_right(
                    other@.restrict(Set::new(|k: Seq<char>| exists|j: int| 0 <= j < i && keys@[j]@ == k)),
                ),
            decreases keys.len() - i,
        {
            let k = keys[i].clone();
            let v = other.get(keys[i].as_str()).unwrap().clone();
            let ghost before = self@;
            self.insert(k, v);
            proof {
                let s_old = Set::new(|k: Seq<char>| exists|j: int| 0 <= j < i && keys@[j]@ == k);
                let s_new = Set::new(|k: Seq<char>| exists|j: int| 0 <= j < i + 1 && keys@[j]@ == k);
                assert forall|x: Seq<char>| s_new.contains(x) == (s_old.contains(x) || x == keys@[i as int]@) by {
                    if s_new.contains(x) {
                        let j = choose|j: int| 0 <= j < i + 1 && keys@[j]@ == x;
                        if j < i {
                            assert(s_old.contains(x));
                        }
                    }
                    if s_old.contains(x) {
                        let j = choose|j: int| 0 <= j < i && keys@[j]@ == x;
                        assert(0 <= j < i + 1 && keys@[j]@ == x);
                    }
                    if x == keys@[i as int]@ {
                        assert(0 <= i < i + 1 && keys@[i as int]@ == x);
                    }
                }
                assert(self@ =~= start.union_prefer_right(other@.restrict(s_new)));
            }
            i = i + 1;
        }
        proof {
            let s_all = Set::new(|k: Seq<char>| exists|j: int| 0 <= j < i && keys@[j]@ == k);
            assert(other@.restrict(s_all) =~= other@);
        }
    }

    /// A copy of the map.
    pub fn duplicate(&self) -> (r: StrMap<String>)
        ensures
            r@ == self@,
    {
        let mut r: StrMap<String> = StrMap::new();
        r.merge_from(self);
        assert(Map::<Seq<char>, String>::empty().union_prefer_right(self@) =~= self@);
        r
    }
}

} // verus!
