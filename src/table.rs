//! A table of values keyed by name: at most one value per name, in a `Vec`, with
//! the map from names to values as its model.
use vstd::prelude::*;

verus! {

struct NamedEntry<V> {
    name: String,
    value: V,
}

pub struct NameTable<V> {
    entries: Vec<NamedEntry<V>>,
    model: Ghost<Map<Seq<char>, V>>,
}

impl<V> NameTable<V> {
    /// The values, by name.
    pub closed spec fn map(&self) -> Map<Seq<char>, V> {
        self.model@
    }

    pub closed spec fn wf(&self) -> bool {
        &&& forall|i: int, j: int|
            0 <= i < j < self.entries.len() ==> self.entries@[i].name@ != self.entries@[j].name@
        &&& forall|i: int|
            0 <= i < self.entries.len() ==> {
                &&& self.model@.contains_key(#[trigger] self.entries@[i].name@)
                &&& self.model@[self.entries@[i].name@] == self.entries@[i].value
            }
        &&& forall|k: Seq<char>|
            #[trigger] self.model@.contains_key(k) ==> exists|i: int|
                0 <= i < self.entries.len() && self.entries@[i].name@ == k
    }

    pub fn new() -> (r: Self)
        ensures
            r.wf(),
            r.map() == Map::<Seq<char>, V>::empty(),
    {
        NameTable { entries: Vec::new(), model: Ghost(Map::empty()) }
    }

    fn find(&self, name: &String) -> (r: Option<usize>)
        requires
            self.wf(),
        ensures
            match r {
                Some(i) => i < self.entries.len() && self.entries@[i as int].name@ == name@,
                None => !self.map().contains_key(name@),
            },
    {
        let mut i: usize = 0;
        while i < self.entries.len()
            invariant
                self.wf(),
                i <= self.entries.len(),
                forall|j: int| 0 <= j < i ==> self.entries@[j].name@ != name@,
            decreases self.entries.len() - i,
        {
            if self.entries[i].name == *name {
                return Some(i);
            }
            i = i + 1;
        }
        None
    }

    /// Sets the value under `name`, replacing any value there.
    pub fn insert(&mut self, name: String, value: V)
        requires
            old(self).wf(),
        ensures
            final(self).wf(),
            final(self).map() == old(self).map().insert(name@, value),
    {
        let ghost old_entries = self.entries@;
        let ghost old_model = self.model@;
        let found = self.find(&name);
        proof {
            self.model@ = self.model@.insert(name@, value);
        }
        match found {
            Some(i) => {
                self.entries[i].value = value;
                proof {
                    assert forall|j: int| 0 <= j < self.entries.len() && j != i implies #[trigger] self.entries@[j] == old_entries[j] by {}
                    assert forall|k: Seq<char>| #[trigger] self.model@.contains_key(k) implies exists|j: int|
                        0 <= j < self.entries.len() && self.entries@[j].name@ == k by {
                        if k != name@ {
                            assert(old_model.contains_key(k));
                            let j = choose|j: int| 0 <= j < old_entries.len() && old_entries[j].name@ == k;
                            assert(self.entries@[j].name@ == k);
                        } else {
                            assert(self.entries@[i as int].name@ == k);
                        }
                    }
                }
            },
            None => {
                self.entries.push(NamedEntry { name, value });
                proof {
                    let n = old_entries.len() as int;
                    assert forall|k: Seq<char>| #[trigger] self.model@.contains_key(k) implies exists|j: int|
                        0 <= j < self.entries.len() && self.entries@[j].name@ == k by {
                        if k != self.entries@[n].name@ {
                            assert(old_model.contains_key(k));
                            let j = choose|j: int| 0 <= j < old_entries.len() && old_entries[j].name@ == k;
                            assert(self.entries@[j].name@ == k);
                        } else {
                            assert(self.entries@[n].name@ == k);
                        }
                    }
                }
            },
        }
    }

    /// The value under `name`, if any.
    pub fn get(&self, name: &String) -> (r: Option<&V>)
        requires
            self.wf(),
        ensures
            match r {
                Some(v) => self.map().contains_key(name@) && *v == self.map()[name@],
                None => !self.map().contains_key(name@),
            },
    {
        match self.find(name) {
            None => None,
            Some(i) => Some(&self.entries[i].value),
        }
    }

    /// The number of names in the table.
    pub fn len(&self) -> (r: usize)
        requires
            self.wf(),
        ensures
            r == self.map().len(),
    {
        proof {
            self.lemma_len();
        }
        self.entries.len()
    }

    /// The `i`-th name in the table and its value; every name is some `i`-th one.
    pub fn entry(&self, i: usize) -> (r: (&String, &V))
        requires
            self.wf(),
            i < self.map().len(),
        ensures
            self.map().contains_key(r.0@),
            *r.1 == self.map()[r.0@],
    {
        proof {
            self.lemma_len();
        }
        (&self.entries[i].name, &self.entries[i].value)
    }

    proof fn lemma_len(&self)
        requires
            self.wf(),
        ensures
            self.map().len() == self.entries.len(),
    {
        let names = Seq::new(self.entries.len() as nat, |i: int| self.entries@[i].name@);
        assert(names.no_duplicates());
        assert(self.model@.dom() =~= names.to_set()) by {
            assert forall|k: Seq<char>| self.model@.dom().contains(k) implies names.to_set().contains(k) by {
                let i = choose|i: int| 0 <= i < self.entries.len() && self.entries@[i].name@ == k;
                assert(names[i] == k);
            }
        }
        names.unique_seq_to_set();
    }
}

} // verus!
