//! A list of values filed under text keys, with the semantics of a map.
use vstd::prelude::*;

use crate::text::str_eq;

verus! {

/// Values filed under text keys, no key twice, in the order the keys were first inserted.
/// Inserting under a key that is there replaces its value.
pub struct KeyedList<V> {
    entries: Vec<(String, V)>,
}

impl<V> KeyedList<V> {
    #[verifier::type_invariant]
    spec fn names_unique(self) -> bool {
        forall|i: int, j: int|
            0 <= i < j < self.entries@.len() ==> #[trigger] self.entries@[i].0@
                != #[trigger] self.entries@[j].0@
    }

    /// The keys, in the order they were first inserted.
    pub closed spec fn order(self) -> Seq<Seq<char>> {
        self.entries@.map_values(|e: (String, V)| e.0@)
    }

    /// The values by key.
    pub closed spec fn table(self) -> Map<Seq<char>, V> {
        Map::new(
            |k: Seq<char>| exists|i: int| 0 <= i < self.entries@.len() && self.entries@[i].0@ == k,
            |k: Seq<char>|
                self.entries@[choose|i: int|
                    0 <= i < self.entries@.len() && self.entries@[i].0@ == k].1,
        )
    }

    /// The entry at position `i` is what the table files under its key.
    proof fn lemma_entry(self, i: int)
        requires
            self.names_unique(),
            0 <= i < self.entries@.len(),
        ensures
            self.table().contains_key(self.entries@[i].0@),
            self.table()[self.entries@[i].0@] == self.entries@[i].1,
            self.order()[i] == self.entries@[i].0@,
    {
        let k = self.entries@[i].0@;
        assert(exists|j: int| 0 <= j < self.entries@.len() && self.entries@[j].0@ == k);
        let c = choose|j: int| 0 <= j < self.entries@.len() && self.entries@[j].0@ == k;
        if c != i {
            if c < i {
                assert(self.entries@[c].0@ != self.entries@[i].0@);
            } else {
                assert(self.entries@[i].0@ != self.entries@[c].0@);
            }
        }
    }

    /// The order lists the entries' keys, which are exactly the keys of the table.
    proof fn lemma_order(self)
        requires
            self.names_unique(),
        ensures
            self.order().len() == self.entries@.len(),
            forall|i: int|
                0 <= i < self.entries@.len() ==> #[trigger] self.order()[i] == self.entries@[i].0@,
            forall|k: Seq<char>| self.table().contains_key(k) <==> self.order().contains(k),
            forall|i: int|
                0 <= i < self.entries@.len() ==> self.table()[#[trigger] self.order()[i]]
                    == self.entries@[i].1,
    {
        assert forall|i: int| 0 <= i < self.entries@.len() implies self.table()[
            #[trigger] self.order()[i]] == self.entries@[i].1 by {
            self.lemma_entry(i);
        }
        assert forall|k: Seq<char>| self.table().contains_key(k) <==> self.order().contains(k) by {
            if self.table().contains_key(k) {
                let j = choose|j: int| 0 <= j < self.entries@.len() && self.entries@[j].0@ == k;
                assert(self.order()[j] == k);
            }
            if self.order().contains(k) {
                let j = choose|j: int| 0 <= j < self.order().len() && self.order()[j] == k;
                assert(self.entries@[j].0@ == k);
            }
        }
    }

    /// An empty list.
    pub fn new() -> (r: KeyedList<V>)
        ensures
            r.order().len() == 0,
            r.table() == Map::<Seq<char>, V>::empty(),
    {
        let r = KeyedList::<V> { entries: Vec::new() };
        assert(r.table() =~= Map::<Seq<char>, V>::empty());
        assert(r.order() =~= Seq::<Seq<char>>::empty());
        r
    }

    /// Number of keys.  Each key of the table stands exactly once in the order.
    pub fn len(&self) -> (r: usize)
        ensures
            r == self.order().len(),
            forall|k: Seq<char>| self.table().contains_key(k) <==> self.order().contains(k),
            forall|i: int, j: int|
                0 <= i < j < self.order().len() ==> #[trigger] self.order()[i]
                    != #[trigger] self.order()[j],
    {
        proof {
            use_type_invariant(self);
            self.lemma_order();
        }
        self.entries.len()
    }

    /// Position of the key `name`, if it is there.
    fn position(&self, name: &str) -> (r: Option<usize>)
        ensures
            match r {
                None => forall|j: int|
                    0 <= j < self.entries@.len() ==> #[trigger] self.entries@[j].0@ != name@,
                Some(i) => i < self.entries@.len() && self.entries@[i as int].0@ == name@,
            },
    {
        let mut i: usize = 0;
        while i < self.entries.len()
            invariant
                i <= self.entries@.len(),
                forall|j: int| 0 <= j < i ==> #[trigger] self.entries@[j].0@ != name@,
            decreases self.entries@.len() - i,
        {
            if str_eq(self.entries[i].0.as_str(), name) {
                return Some(i);
            }
            i = i + 1;
        }
        None
    }

    /// The value under `name`, if there is one.
    pub fn get(&self, name: &str) -> (r: Option<&V>)
        ensures
            match r {
                None => !self.table().contains_key(name@),
                Some(c) => self.table().contains_key(name@) && *c == self.table()[name@],
            },
    {
        proof {
            use_type_invariant(self);
            self.lemma_order();
        }
        match self.position(name) {
            Some(i) => {
                proof {
                    self.lemma_entry(i as int);
                }
                Some(&self.entries[i].1)
            },
            None => {
                assert(!self.order().contains(name@));
                None
            },
        }
    }

    /// Files `value` under `name`; a value already under `name` is replaced, and the key keeps
    /// its place in the order.
    pub fn insert(&mut self, name: String, value: V)
        ensures
            final(self).table() == old(self).table().insert(name@, value),
            old(self).table().contains_key(name@) ==> final(self).order() == old(self).order(),
            !old(self).table().contains_key(name@) ==> final(self).order() == old(self).order().push(
                name@,
            ),
    {
        proof {
            use_type_invariant(&*self);
            self.lemma_order();
        }
        let ghost old_self = *self;
        let ghost k = name@;
        match self.position(name.as_str()) {
            Some(i) => {
                let ghost old_entries = self.entries@;
                let mut entries = Vec::new();
                std::mem::swap(&mut entries, &mut self.entries);
                entries.set(i, (name, value));
                self.entries = entries;
                assert(self.entries@ == old_entries.update(i as int, (self.entries@[i as int].0, value)));
                proof {
                    use_type_invariant(&*self);
                    self.lemma_order();
                    assert(self.order() =~= old_self.order());
                    assert forall|key: Seq<char>|
                        #[trigger] self.table().contains_key(key) implies self.table()[key]
                        == old_self.table().insert(k, value)[key] by {
                        assert(self.order().contains(key));
                        let j = choose|j: int| 0 <= j < self.order().len() && self.order()[j] == key;
                        assert(0 <= j < self.entries@.len());
                        self.lemma_entry(j);
                        old_self.lemma_entry(j);
                    }
                    assert forall|key: Seq<char>|
                        #[trigger] self.table().contains_key(key) <==> old_self.table().insert(
                            k,
                            value,
                        ).contains_key(key) by {
                        old_self.lemma_entry(i as int);
                        old_self.lemma_order();
                        self.lemma_order();
                        assert(self.order().contains(key) == old_self.order().contains(key));
                    }
                    assert(self.table() =~= old_self.table().insert(k, value));
                }
            },
            None => {
                let ghost old_entries = self.entries@;
                let mut entries = Vec::new();
                std::mem::swap(&mut entries, &mut self.entries);
                entries.push((name, value));
                self.entries = entries;
                proof {
                    use_type_invariant(&*self);
                    self.lemma_order();
                    assert(self.order() =~= old_self.order().push(k));
                    assert forall|key: Seq<char>|
                        #[trigger] self.table().contains_key(key) implies self.table()[key]
                        == old_self.table().insert(k, value)[key] by {
                        assert(self.order().contains(key));
                        let j = choose|j: int| 0 <= j < self.order().len() && self.order()[j] == key;
                        assert(0 <= j < self.entries@.len());
                        self.lemma_entry(j);
                        if j < old_entries.len() {
                            old_self.lemma_entry(j);
                        }
                    }
                    assert forall|key: Seq<char>|
                        #[trigger] self.table().contains_key(key) <==> old_self.table().insert(
                            k,
                            value,
                        ).contains_key(key) by {
                        if old_self.order().contains(key) {
                            let j = choose|j: int|
                                0 <= j < old_self.order().len() && old_self.order()[j] == key;
                            assert(self.order()[j] == key);
                        }
                        if key == k {
                            assert(self.order()[old_entries.len() as int] == key);
                        }
                        if self.order().contains(key) {
                            let j = choose|j: int| 0 <= j < self.order().len() && self.order()[j] == key;
                            if j < old_entries.len() {
                                assert(old_self.order()[j] == key);
                            }
                        }
                    }
                    assert(self.table() =~= old_self.table().insert(k, value));
                }
            },
        }
    }

    /// The key and value at position `i` of the order.
    pub fn entry(&self, i: usize) -> (r: (&String, &V))
        requires
            i < self.order().len(),
        ensures
            r.0@ == self.order()[i as int],
            self.table().contains_key(self.order()[i as int]),
            *r.1 == self.table()[self.order()[i as int]],
    {
        proof {
            use_type_invariant(self);
            self.lemma_order();
            self.lemma_entry(i as int);
        }
        (&self.entries[i].0, &self.entries[i].1)
    }
}

} // verus!
