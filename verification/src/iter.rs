//! Taking options out of a list by name.

use crate::scan::{first_index, lemma_first_index_absent, lemma_first_index_found};
use crate::text::same_text;
use crate::value::DataOption;
use vstd::prelude::*;

verus! {

/// The property of an option of having the given name.
pub open spec fn option_named(name: Seq<char>) -> spec_fn(DataOption) -> bool {
    |o: DataOption| o.name@ == name
}

/// The options of one command level that no argument has taken yet, in the
/// order in which they arrived.
pub struct DataIterator<'a> {
    src: Vec<&'a DataOption>,
}

impl<'a> DataIterator<'a> {
    /// The options that are left.
    pub closed spec fn view(&self) -> Seq<DataOption> {
        Seq::new(self.src@.len(), |i: int| *self.src@[i])
    }

    /// Starts with all of `data`.
    pub fn new(data: &'a Vec<DataOption>) -> (r: Self)
        ensures
            r@ == data@,
    {
        let mut src: Vec<&'a DataOption> = Vec::new();
        let mut i: usize = 0;
        while i < data.len()
            invariant
                i <= data@.len(),
                src@.len() == i,
                forall|j: int| 0 <= j < i ==> *src@[j] == data@[j],
            decreases data@.len() - i,
        {
            src.push(&data[i]);
            i += 1;
        }
        let r = DataIterator { src };
        assert(r@ =~= data@);
        r
    }

    /// The number of options that are left.
    pub fn len(&self) -> (r: usize)
        ensures
            r == self@.len(),
    {
        self.src.len()
    }

    /// Takes out the first option called `name`, if there is one. The others
    /// stay, in their order.
    pub fn get(&mut self, name: &str) -> (r: Option<&'a DataOption>)
        ensures
            match first_index(old(self)@, option_named(name@)) {
                Some(i) => r == Some(&old(self)@[i]) && final(self)@ == old(self)@.remove(i),
                None => r is None && final(self)@ == old(self)@,
            },
    {
        let mut i: usize = 0;
        while i < self.src.len()
            invariant
                i <= self.src@.len(),
                *self == *old(self),
                forall|j: int| 0 <= j < i ==> !option_named(name@)(self@[j]),
            decreases self.src@.len() - i,
        {
            if same_text(self.src[i].name.as_str(), name) {
                proof {
                    lemma_first_index_found(self@, option_named(name@), i as int);
                }
                let found = self.src.remove(i);
                assert(self@ =~= old(self)@.remove(i as int));
                return Some(found);
            }
            i += 1;
        }
        proof {
            lemma_first_index_absent(self@, option_named(name@));
        }
        None
    }
}

} // verus!
