use vstd::prelude::*;
use vstd::string::*;
use crate::types::{DataValue, ValueModel};

verus! {

/// The validated fields of one request: field names with their decoded
/// values, no name twice.
#[derive(Debug)]
pub struct FieldMap {
    entries: Vec<(String, DataValue)>,
}

impl View for FieldMap {
    type V = Map<Seq<char>, ValueModel>;

    closed spec fn view(&self) -> Map<Seq<char>, ValueModel> {
        Map::new(
            |k: Seq<char>| self.names().contains(k),
            |k: Seq<char>| self.values()[self.names().index_of(k)],
        )
    }
}

/// The names of a list of entries, in order.
spec fn names_of(entries: Seq<(String, DataValue)>) -> Seq<Seq<char>> {
    Seq::new(entries.len(), |i: int| entries[i].0@)
}

/// The values of a list of entries, in order.
spec fn values_of(entries: Seq<(String, DataValue)>) -> Seq<ValueModel> {
    Seq::new(entries.len(), |i: int| entries[i].1@)
}

impl FieldMap {
    /// The names, in the order in which they are stored.
    spec fn names(&self) -> Seq<Seq<char>> {
        names_of(self.entries@)
    }

    /// The values, in the order in which they are stored.
    spec fn values(&self) -> Seq<ValueModel> {
        values_of(self.entries@)
    }

    #[verifier::type_invariant]
    spec fn unique(&self) -> bool {
        self.names().no_duplicates()
    }

    /// The position of `key`, if it is stored.
    fn position(&self, key: &String) -> (r: Option<usize>)
        ensures
            match r {
                Some(i) => i < self.entries.len() && self.names()[i as int] == key@,
                None => !self.names().contains(key@),
            },
    {
        let mut i: usize = 0;
        while i < self.entries.len()
            invariant
                i <= self.entries.len(),
                forall|j: int| 0 <= j < i ==> self.names()[j] != key@,
            decreases self.entries.len() - i,
        {
            if self.entries[i].0 == *key {
                return Some(i);
            }
            i += 1;
        }
        None
    }

    /// An empty map.
    pub fn new() -> (m: Self)
        ensures
            m@ == Map::<Seq<char>, ValueModel>::empty(),
    {
        let m = FieldMap { entries: Vec::new() };
        assert(m@ =~= Map::<Seq<char>, ValueModel>::empty());
        m
    }

    /// Stores `value` under `name`, in place of any value that was there, and
    /// returns the value that was there.
    pub fn insert(&mut self, name: String, value: DataValue) -> (previous: Option<DataValue>)
        ensures
            final(self)@ == old(self)@.insert(name@, value@),
            match previous {
                Some(v) => old(self)@.contains_key(name@) && old(self)@[name@] == v@,
                None => !old(self)@.contains_key(name@),
            },
    {
        proof {
            use_type_invariant(&*self);
        }
        match self.position(&name) {
            Some(i) => {
                let ghost before = *self;
                let mut entries: Vec<(String, DataValue)> = Vec::new();
                core::mem::swap(&mut self.entries, &mut entries);
                let old_entry = entries.remove(i);
                entries.insert(i, (name, value));
                assert(names_of(entries@) =~= before.names());
                self.entries = entries;
                proof {
                    assert(self.names() =~= before.names());
                    assert(self.values() =~= before.values().update(i as int, value@));
                    assert(before.names().index_of(name@) == i as int);
                    assert forall|k: Seq<char>| self.names().contains(k) implies #[trigger] self@[k]
                        == before@.insert(name@, value@)[k] by {
                        let j = self.names().index_of(k);
                        assert(self.names()[j] == k);
                    }
                    assert(self@ =~= before@.insert(name@, value@));
                }
                Some(old_entry.1)
            },
            None => {
                let ghost before = *self;
                let mut entries: Vec<(String, DataValue)> = Vec::new();
                core::mem::swap(&mut self.entries, &mut entries);
                entries.push((name, value));
                assert(names_of(entries@) =~= before.names().push(name@));
                self.entries = entries;
                proof {
                    assert(self.names() =~= before.names().push(name@));
                    assert(self.values() =~= before.values().push(value@));
                    assert forall|k: Seq<char>| self.names().contains(k) implies #[trigger] self@[k]
                        == before@.insert(name@, value@)[k] by {
                        let j = self.names().index_of(k);
                        assert(self.names()[j] == k);
                        if k != name@ {
                            assert(before.names()[j] == k);
                            let j0 = before.names().index_of(k);
                            assert(before.names()[j0] == k);
                        }
                    }
                    assert forall|k: Seq<char>|
                        before@.insert(name@, value@).contains_key(k) implies self.names().contains(
                        k,
                    ) by {
                        if k == name@ {
                            assert(self.names()[before.names().len() as int] == k);
                        } else {
                            let j0 = before.names().index_of(k);
                            assert(self.names()[j0] == k);
                        }
                    }
                    assert(self@ =~= before@.insert(name@, value@));
                }
                None
            },
        }
    }

    /// The value stored under `name`.
    pub fn get(&self, name: &str) -> (r: Option<&DataValue>)
        ensures
            match r {
                Some(v) => self@.contains_key(name@) && self@[name@] == v@,
                None => !self@.contains_key(name@),
            },
    {
        proof {
            use_type_invariant(self);
        }
        let key = String::from_str(name);
        match self.position(&key) {
            Some(i) => {
                assert(self.names().index_of(name@) == i as int);
                Some(&self.entries[i].1)
            },
            None => None,
        }
    }

    /// Whether a value is stored under `name`.
    pub fn contains_key(&self, name: &str) -> (b: bool)
        ensures
            b == self@.contains_key(name@),
    {
        self.get(name).is_some()
    }

    /// Takes the value stored under `name` out of the map.
    pub fn remove(&mut self, name: &str) -> (r: Option<DataValue>)
        ensures
            final(self)@ == old(self)@.remove(name@),
            match r {
                Some(v) => old(self)@.contains_key(name@) && old(self)@[name@] == v@,
                None => !old(self)@.contains_key(name@),
            },
    {
        proof {
            use_type_invariant(&*self);
        }
        let key = String::from_str(name);
        match self.position(&key) {
            Some(i) => {
                let ghost before = *self;
                let mut entries: Vec<(String, DataValue)> = Vec::new();
                core::mem::swap(&mut self.entries, &mut entries);
                let entry = entries.remove(i);
                assert(names_of(entries@) =~= before.names().remove(i as int));
                self.entries = entries;
                proof {
                    assert(before.names().index_of(name@) == i as int);
                    assert(self.names() =~= before.names().remove(i as int));
                    assert(self.values() =~= before.values().remove(i as int));
                    assert forall|k: Seq<char>| self.names().contains(k) implies k != name@
                        && before.names().contains(k) && #[trigger] self@[k] == before@[k] by {
                        let j = self.names().index_of(k);
                        assert(self.names()[j] == k);
                        let j1 = if j < i { j } else { j + 1 };
                        assert(before.names()[j1] == k);
                        assert(before.names().index_of(k) == j1);
                    }
                    assert forall|k: Seq<char>|
                        before.names().contains(k) && k != name@ implies self.names().contains(
                        k,
                    ) by {
                        let j1 = before.names().index_of(k);
                        assert(before.names()[j1] == k);
                        let j = if j1 < i { j1 } else { j1 - 1 };
                        assert(self.names()[j] == k);
                    }
                    assert(self@ =~= before@.remove(name@));
                }
                Some(entry.1)
            },
            None => {
                assert(self@ =~= old(self)@.remove(name@));
                None
            },
        }
    }

    /// The number of fields.
    pub fn len(&self) -> (n: usize)
        ensures
            self@.dom().finite(),
            n == self@.len(),
    {
        proof {
            use_type_invariant(self);
            self.names().unique_seq_to_set();
            assert(self@.dom() =~= self.names().to_set());
        }
        self.entries.len()
    }

    /// Whether the map holds no field.
    pub fn is_empty(&self) -> (b: bool)
        ensures
            b == (self@ == Map::<Seq<char>, ValueModel>::empty()),
    {
        let b = self.entries.len() == 0;
        proof {
            if b {
                assert(self@ =~= Map::<Seq<char>, ValueModel>::empty());
            } else {
                assert(self.names()[0] == self.names()[0]);
                assert(self.names().contains(self.names()[0]));
                assert(self@.contains_key(self.names()[0]));
            }
        }
        b
    }
}

} // verus!
