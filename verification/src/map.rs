//! A map from names to registered items that remembers the order of insertion.

use crate::text::same_text;
use vstd::prelude::*;

verus! {

struct Entry<V> {
    name: &'static str,
    item: V,
}

/// A map keyed by name. No name occurs twice, and the entries keep the order in
/// which their names were first inserted.
pub struct NameMap<V> {
    entries: Vec<Entry<V>>,
}

impl<V> NameMap<V> {
    #[verifier::type_invariant]
    closed spec fn distinct(self) -> bool {
        forall|i: int, j: int|
            0 <= i < j < self.entries@.len() ==> self.entries@[i].name@ != self.entries@[j].name@
    }

    /// The names, in the order of insertion.
    pub closed spec fn keys(self) -> Seq<Seq<char>> {
        Seq::new(self.entries@.len(), |i: int| self.entries@[i].name@)
    }

    /// The items, each at the position of its name in `keys`.
    pub closed spec fn values(self) -> Seq<V> {
        Seq::new(self.entries@.len(), |i: int| self.entries@[i].item)
    }

    /// The map from each name to its item.
    pub open spec fn view(self) -> Map<Seq<char>, V> {
        Map::new(
            |k: Seq<char>| self.keys().contains(k),
            |k: Seq<char>| self.values()[self.keys().index_of(k)],
        )
    }

    /// An empty map.
    pub fn new() -> (r: Self)
        ensures
            r@ == Map::<Seq<char>, V>::empty(),
            r.keys() == Seq::<Seq<char>>::empty(),
            r.values() == Seq::<V>::empty(),
    {
        let r = NameMap { entries: Vec::new() };
        assert(r.keys() =~= Seq::<Seq<char>>::empty());
        assert(r.values() =~= Seq::<V>::empty());
        assert(r@ =~= Map::<Seq<char>, V>::empty());
        r
    }

    /// The number of entries.
    pub fn len(&self) -> (r: usize)
        ensures
            r == self.keys().len(),
            r == self.values().len(),
            r == self@.dom().len(),
            self@.dom().finite(),
    {
        proof {
            use_type_invariant(self);
            self.lemma_dom_len();
        }
        self.entries.len()
    }

    proof fn lemma_dom_len(self)
        requires
            self.distinct(),
        ensures
            self@.dom() == self.keys().to_set(),
            self@.dom().finite(),
            self@.dom().len() == self.keys().len(),
    {
        assert(self@.dom() =~= self.keys().to_set());
        assert(self.keys().no_duplicates());
        self.keys().unique_seq_to_set();
    }

    /// The position of `name` among the entries, if it is there.
    fn position(&self, name: &str) -> (r: Option<usize>)
        ensures
            match r {
                Some(i) => i < self.keys().len() && self.keys()[i as int] == name@,
                None => !self.keys().contains(name@),
            },
    {
        let mut i: usize = 0;
        while i < self.entries.len()
            invariant
                i <= self.entries@.len(),
                forall|j: int| 0 <= j < i ==> self.entries@[j].name@ != name@,
            decreases self.entries@.len() - i,
        {
            if same_text(self.entries[i].name, name) {
                return Some(i);
            }
            i += 1;
        }
        None
    }

    /// Whether `name` has an item.
    pub fn contains_key(&self, name: &str) -> (r: bool)
        ensures
            r == self@.contains_key(name@),
    {
        self.position(name).is_some()
    }

    /// The item registered under `name`.
    pub fn get(&self, name: &str) -> (r: Option<&V>)
        ensures
            r == (if self@.contains_key(name@) {
                Some(&self@[name@])
            } else {
                None
            }),
    {
        proof {
            use_type_invariant(self);
        }
        match self.position(name) {
            Some(i) => {
                assert(self.keys().contains(name@));
                assert(self.keys().index_of(name@) == i as int);
                Some(&self.entries[i].item)
            },
            None => None,
        }
    }

    /// The name of the entry at position `i`.
    pub fn key_at(&self, i: usize) -> (r: &'static str)
        requires
            i < self.keys().len(),
        ensures
            r@ == self.keys()[i as int],
    {
        self.entries[i].name
    }

    /// The item of the entry at position `i`.
    pub fn value_at(&self, i: usize) -> (r: &V)
        requires
            i < self.values().len(),
        ensures
            *r == self.values()[i as int],
            self@.contains_key(self.keys()[i as int]),
            self@[self.keys()[i as int]] == *r,
    {
        proof {
            use_type_invariant(self);
            let k = self.keys()[i as int];
            assert(self.keys().contains(k));
            assert(self.keys().index_of(k) == i as int);
        }
        &self.entries[i].item
    }

    /// Registers `item` under `name`. An item already registered under that
    /// name is replaced and keeps its position; a new name goes last.
    pub fn insert(&mut self, name: &'static str, item: V)
        ensures
            final(self)@ == old(self)@.insert(name@, item),
            old(self)@.contains_key(name@) ==> final(self).keys() == old(self).keys()
                && final(self).values() == old(self).values().update(
                old(self).keys().index_of(name@),
                item,
            ),
            !old(self)@.contains_key(name@) ==> final(self).keys() == old(self).keys().push(name@)
                && final(self).values() == old(self).values().push(item),
    {
        proof {
            use_type_invariant(&*self);
        }
        let ghost before = *self;
        let found = self.position(name);
        let mut entries: Vec<Entry<V>> = Vec::new();
        core::mem::swap(&mut self.entries, &mut entries);
        match found {
            Some(i) => {
                entries.set(i, Entry { name, item });
                self.entries = entries;
                assert(self.keys() =~= before.keys());
                assert(self.values() =~= before.values().update(i as int, item));
                assert(before.keys().index_of(name@) == i as int);
                assert(self@ =~= before@.insert(name@, item));
            },
            None => {
                entries.push(Entry { name, item });
                assert forall|i: int, j: int| 0 <= i < j < entries@.len() implies entries@[i].name@
                    != entries@[j].name@ by {
                    if j == before.entries@.len() {
                        assert(before.keys()[i] == entries@[i].name@);
                    }
                }
                self.entries = entries;
                assert(self.keys() =~= before.keys().push(name@));
                assert(self.values() =~= before.values().push(item));
                assert forall|k: Seq<char>| #[trigger]
                    before@.insert(name@, item).dom().contains(k) implies self@.dom().contains(k)
                    && self@[k] == before@.insert(name@, item)[k] by {
                    if k == name@ {
                        let n = before.keys().len() as int;
                        assert(self.keys()[n] == k);
                        assert(self.keys().index_of(k) == n);
                    } else {
                        let p = before.keys().index_of(k);
                        assert(self.keys()[p] == k);
                        assert(self.keys().index_of(k) == p);
                    }
                }
                assert(self@ =~= before@.insert(name@, item));
            },
        }
    }
}

} // verus!
