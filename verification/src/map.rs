use vstd::prelude::*;

verus! {

/// A map from names to values that remembers the order in which names were first added.
/// No name occurs twice.
#[derive(Debug)]
pub struct NameMap<V> {
    entries: Vec<(String, V)>,
}

impl<V> NameMap<V> {
    /// The names, in order.
    pub closed spec fn keys(self) -> Seq<Seq<char>> {
        self.entries@.map_values(|e: (String, V)| e.0@)
    }

    /// The values, in the order of their names.
    pub closed spec fn values(self) -> Seq<V> {
        self.entries@.map_values(|e: (String, V)| e.1)
    }

    #[verifier::type_invariant]
    closed spec fn names_distinct(self) -> bool {
        forall|i: int, j: int|
            0 <= i < j < self.entries@.len() ==> #[trigger] self.entries@[i].0@
                != #[trigger] self.entries@[j].0@
    }

    /// The position of `name` among the names, where it occurs.
    closed spec fn position(self, name: Seq<char>) -> int {
        self.keys().index_of(name)
    }

    proof fn lemma_position(self, i: int)
        requires
            self.names_distinct(),
            0 <= i < self.entries@.len(),
        ensures
            self.keys().contains(self.entries@[i].0@),
            self.position(self.entries@[i].0@) == i,
    {
        assert(self.keys()[i] == self.entries@[i].0@);
        let p = self.position(self.entries@[i].0@);
        assert(0 <= p < self.keys().len() && self.keys()[p] == self.entries@[i].0@);
        if p != i {
            assert(self.entries@[p].0@ == self.entries@[i].0@);
        }
    }

    /// Every name of the map is found at its position, with its value.
    pub open spec fn consistent(self) -> bool {
        &&& self.keys().len() == self.values().len()
        &&& self.keys().no_duplicates()
        &&& forall|i: int| 0 <= i < self.keys().len() ==> #[trigger] self.view()[self.keys()[i]]
            == self.values()[i]
    }

    proof fn lemma_consistent(self)
        requires
            self.names_distinct(),
        ensures
            self.consistent(),
            self.view().dom() =~= self.keys().to_set(),
    {
        assert forall|i: int| 0 <= i < self.keys().len() implies #[trigger] self.view()[self.keys()[i]]
            == self.values()[i] by {
            self.lemma_position(i);
        }
        assert forall|i: int, j: int|
            0 <= i < self.keys().len() && 0 <= j < self.keys().len() && i != j implies self.keys()[i]
            != self.keys()[j] by {
            if i < j {
                assert(self.entries@[i].0@ != self.entries@[j].0@);
            } else {
                assert(self.entries@[j].0@ != self.entries@[i].0@);
            }
        }
    }
}

impl<V> View for NameMap<V> {
    type V = Map<Seq<char>, V>;

    open spec fn view(&self) -> Map<Seq<char>, V> {
        Map::new(
            |k: Seq<char>| self.keys().contains(k),
            |k: Seq<char>| self.values()[self.keys().index_of(k)],
        )
    }
}

impl<V> NameMap<V> {
    /// An empty map.
    pub fn new() -> (m: Self)
        ensures
            m@ == Map::<Seq<char>, V>::empty(),
            m.keys() == Seq::<Seq<char>>::empty(),
            m.values() == Seq::<V>::empty(),
            m.consistent(),
    {
        let m = NameMap { entries: Vec::new() };
        assert(m.keys() =~= Seq::<Seq<char>>::empty());
        assert(m.values() =~= Seq::<V>::empty());
        assert(m@ =~= Map::<Seq<char>, V>::empty());
        m
    }

    /// The number of names.
    pub fn len(&self) -> (n: usize)
        ensures
            n == self.keys().len(),
            n == self@.len(),
            self.consistent(),
    {
        proof {
            use_type_invariant(self);
            self.lemma_consistent();
            self.keys().unique_seq_to_set();
        }
        self.entries.len()
    }

    /// Whether the map has no names.
    pub fn is_empty(&self) -> (b: bool)
        ensures
            b == (self.keys().len() == 0),
            b == (self@ == Map::<Seq<char>, V>::empty()),
            self.consistent(),
    {
        proof {
            use_type_invariant(self);
            self.lemma_consistent();
            if self.keys().len() > 0 {
                assert(self@.dom().contains(self.keys()[0]));
            }
            if self.keys().len() == 0 {
                assert(self@ =~= Map::<Seq<char>, V>::empty());
            }
        }
        self.entries.len() == 0
    }

    /// Where `name` stands among the names, if it does.
    fn find(&self, name: &str) -> (r: Option<usize>)
        ensures
            self.consistent(),
            match r {
                Some(i) => i < self.keys().len() && self.keys()[i as int] == name@,
                None => !self.keys().contains(name@),
            },
    {
        proof {
            use_type_invariant(self);
            self.lemma_consistent();
        }
        let mut i: usize = 0;
        while i < self.entries.len()
            invariant
                i <= self.entries@.len(),
                self.consistent(),
                forall|j: int| 0 <= j < i ==> self.keys()[j] != name@,
            decreases self.entries@.len() - i,
        {
            assert(self.keys()[i as int] == self.entries@[i as int].0@);
            if crate::text::same_text(self.entries[i].0.as_str(), name) {
                return Some(i);
            }
            i = i + 1;
        }
        None
    }

    /// Whether `name` is one of the names.
    pub fn contains_key(&self, name: &str) -> (b: bool)
        ensures
            b == self@.contains_key(name@),
    {
        self.find(name).is_some()
    }

    /// The value of `name`, where it is present.
    pub fn get(&self, name: &str) -> (r: Option<&V>)
        ensures
            match r {
                Some(v) => self@.contains_key(name@) && *v == self@[name@],
                None => !self@.contains_key(name@),
            },
    {
        match self.find(name) {
            Some(i) => {
                proof {
                    assert(self.values()[i as int] == self.entries@[i as int].1);
                }
                Some(&self.entries[i].1)
            },
            None => None,
        }
    }

    /// The name at position `i`.
    pub fn key_at(&self, i: usize) -> (k: &String)
        requires
            i < self.keys().len(),
        ensures
            k@ == self.keys()[i as int],
    {
        &self.entries[i].0
    }

    /// The value at position `i`.
    pub fn value_at(&self, i: usize) -> (v: &V)
        requires
            i < self.keys().len(),
        ensures
            *v == self.values()[i as int],
            self.consistent(),
    {
        proof {
            use_type_invariant(self);
            self.lemma_consistent();
        }
        &self.entries[i].1
    }

    /// Gives `name` the value `value`. A name that was present keeps its position, and its
    /// former value is returned; a new name goes last.
    pub fn insert(&mut self, name: String, value: V) -> (previous: Option<V>)
        ensures
            final(self)@ == old(self)@.insert(name@, value),
            final(self).consistent(),
            match previous {
                Some(p) => old(self)@.contains_key(name@) && p == old(self)@[name@],
                None => !old(self)@.contains_key(name@),
            },
            old(self)@.contains_key(name@) ==> final(self).keys() == old(self).keys(),
            !old(self)@.contains_key(name@) ==> final(self).keys() == old(self).keys().push(name@),
    {
        proof {
            use_type_invariant(&*self);
            self.lemma_consistent();
        }
        match self.find(name.as_str()) {
            Some(i) => {
                let ghost old_self = *self;
                let mut entries: Vec<(String, V)> = Vec::new();
                std::mem::swap(&mut entries, &mut self.entries);
                let (k, old_value) = entries.remove(i);
                entries.insert(i, (k, value));
                self.entries = entries;
                proof {
                    assert(self.entries@ =~= old_self.entries@.update(i as int, (k, value)));
                    assert(self.keys() =~= old_self.keys());
                    use_type_invariant(&*self);
                    self.lemma_consistent();
                    assert(self.values() =~= old_self.values().update(i as int, value));
                    assert(self@ =~= old_self@.insert(name@, value)) by {
                        assert forall|k2: Seq<char>| #[trigger] self@.contains_key(k2) implies self@[k2]
                            == old_self@.insert(name@, value)[k2] by {
                            let j = self.keys().index_of(k2);
                            assert(self@[self.keys()[j]] == self.values()[j]);
                            assert(old_self@[old_self.keys()[j]] == old_self.values()[j]);
                        }
                    }
                    assert(old_value == old_self@[name@]) by {
                        assert(old_self@[old_self.keys()[i as int]] == old_self.values()[i as int]);
                    }
                }
                Some(old_value)
            },
            None => {
                let ghost old_self = *self;
                let mut entries: Vec<(String, V)> = Vec::new();
                std::mem::swap(&mut entries, &mut self.entries);
                entries.push((name, value));
                proof {
                    assert(entries@ =~= old_self.entries@.push((name, value)));
                    assert forall|i: int, j: int|
                        0 <= i < j < entries@.len() implies #[trigger] entries@[i].0@
                        != #[trigger] entries@[j].0@ by {
                        if j == old_self.entries@.len() {
                            assert(old_self.keys()[i] == old_self.entries@[i].0@);
                        } else {
                            assert(entries@[i] == old_self.entries@[i]);
                            assert(entries@[j] == old_self.entries@[j]);
                        }
                    }
                }
                self.entries = entries;
                proof {
                    assert(self.entries@ =~= old_self.entries@.push((name, value)));
                    assert(self.keys() =~= old_self.keys().push(name@));
                    assert(self.values() =~= old_self.values().push(value));
                    assert forall|i: int, j: int|
                        0 <= i < j < self.entries@.len() implies #[trigger] self.entries@[i].0@
                        != #[trigger] self.entries@[j].0@ by {
                        if j == old_self.entries@.len() {
                            assert(old_self.keys()[i] == old_self.entries@[i].0@);
                        } else {
                            assert(self.entries@[i] == old_self.entries@[i]);
                            assert(self.entries@[j] == old_self.entries@[j]);
                        }
                    }
                    assert(self.names_distinct());
                    self.lemma_consistent();
                    assert(self@ =~= old_self@.insert(name@, value)) by {
                        assert forall|k2: Seq<char>| #[trigger] self@.contains_key(k2) implies self@[k2]
                            == old_self@.insert(name@, value)[k2] by {
                            let j = self.keys().index_of(k2);
                            assert(self@[self.keys()[j]] == self.values()[j]);
                            if j < old_self.keys().len() {
                                assert(old_self@[old_self.keys()[j]] == old_self.values()[j]);
                            }
                        }
                        assert forall|k2: Seq<char>| #[trigger] old_self@.insert(name@, value).contains_key(k2)
                            implies self@.contains_key(k2) by {
                            if k2 != name@ {
                                let j = old_self.keys().index_of(k2);
                                assert(self.keys()[j] == k2);
                            } else {
                                assert(self.keys()[old_self.keys().len() as int] == k2);
                            }
                        }
                    }
                }
                None
            },
        }
    }

    /// Removes `name`, returning its value where it was present. The other names keep their order.
    pub fn remove(&mut self, name: &str) -> (removed: Option<V>)
        ensures
            final(self)@ == old(self)@.remove(name@),
            final(self).consistent(),
            match removed {
                Some(v) => old(self)@.contains_key(name@) && v == old(self)@[name@],
                None => !old(self)@.contains_key(name@),
            },
    {
        proof {
            use_type_invariant(&*self);
            self.lemma_consistent();
        }
        match self.find(name) {
            Some(i) => {
                let ghost old_self = *self;
                let mut entries: Vec<(String, V)> = Vec::new();
                std::mem::swap(&mut entries, &mut self.entries);
                let (_k, old_value) = entries.remove(i);
                proof {
                    assert(entries@ =~= old_self.entries@.remove(i as int));
                    assert forall|a: int, b: int|
                        0 <= a < b < entries@.len() implies #[trigger] entries@[a].0@
                        != #[trigger] entries@[b].0@ by {
                        let a0 = if a < i { a } else { a + 1 };
                        let b0 = if b < i { b } else { b + 1 };
                        assert(entries@[a] == old_self.entries@[a0]);
                        assert(entries@[b] == old_self.entries@[b0]);
                        assert(old_self.entries@[a0].0@ != old_self.entries@[b0].0@);
                    }
                }
                self.entries = entries;
                proof {
                    assert(self.entries@ =~= old_self.entries@.remove(i as int));
                    assert(self.keys() =~= old_self.keys().remove(i as int));
                    assert(self.values() =~= old_self.values().remove(i as int));
                    assert forall|a: int, b: int|
                        0 <= a < b < self.entries@.len() implies #[trigger] self.entries@[a].0@
                        != #[trigger] self.entries@[b].0@ by {
                        let a0 = if a < i { a } else { a + 1 };
                        let b0 = if b < i { b } else { b + 1 };
                        assert(self.entries@[a] == old_self.entries@[a0]);
                        assert(self.entries@[b] == old_self.entries@[b0]);
                        assert(old_self.entries@[a0].0@ != old_self.entries@[b0].0@);
                    }
                    assert(self.names_distinct());
                    self.lemma_consistent();
                    assert(old_value == old_self@[name@]) by {
                        assert(old_self@[old_self.keys()[i as int]] == old_self.values()[i as int]);
                    }
                    assert(self@ =~= old_self@.remove(name@)) by {
                        assert forall|k2: Seq<char>| #[trigger] self@.contains_key(k2) implies self@[k2]
                            == old_self@.remove(name@)[k2] && old_self@.remove(name@).contains_key(k2) by {
                            let j = self.keys().index_of(k2);
                            assert(self@[self.keys()[j]] == self.values()[j]);
                            let j0 = if j < i { j } else { j + 1 };
                            assert(old_self@[old_self.keys()[j0]] == old_self.values()[j0]);
                            assert(old_self.keys()[j0] == k2);
                        }
                        assert forall|k2: Seq<char>| #[trigger] old_self@.remove(name@).contains_key(k2)
                            implies self@.contains_key(k2) by {
                            let j0 = old_self.keys().index_of(k2);
                            assert(j0 != i);
                            let j = if j0 < i { j0 } else { j0 - 1 };
                            assert(self.keys()[j] == k2);
                        }
                    }
                }
                Some(old_value)
            },
            None => {
                proof {
                    assert(self@ =~= self@.remove(name@));
                    self.lemma_consistent();
                }
                None
            },
        }
    }
}

} // verus!

verus! {

/// Law: what is written under a name is read back under that name; the other names keep
/// their values; a removed name is gone and the others stay.
pub proof fn law_read_back_write<V>(m: NameMap<V>, name: Seq<char>, value: V, other: Seq<char>)
    requires
        other != name,
    ensures
        m@.insert(name, value).contains_key(name),
        m@.insert(name, value)[name] == value,
        m@.insert(name, value).contains_key(other) == m@.contains_key(other),
        m@.contains_key(other) ==> m@.insert(name, value)[other] == m@[other],
        !m@.remove(name).contains_key(name),
        m@.remove(name).contains_key(other) == m@.contains_key(other),
        m@.contains_key(other) ==> m@.remove(name)[other] == m@[other],
{
}

} // verus!
