use vstd::prelude::*;

use crate::animal::{noise_of, Animal};
use crate::laws::insertion_order_is_kept;

verus! {

/// The one failure of the registry: an index outside `[0, len)`.
#[derive(Debug, PartialEq, Eq, Structural)]
pub enum RegistryError {
    IndexOutOfRange { index: usize, len: usize },
}

/// The contents of a sequence of strings.
pub open spec fn string_views(v: Seq<String>) -> Seq<Seq<char>> {
    v.map_values(|s: String| s@)
}

/// The noises held after inserting `items`, in order, where `start` was held.
pub open spec fn after_insertions<A: Animal>(start: Seq<Seq<char>>, items: Seq<A>) -> Seq<Seq<char>>
    decreases items.len(),
{
    if items.len() == 0 {
        start
    } else {
        after_insertions(start, items.drop_last()).push(noise_of(&items.last()))
    }
}

/// What dispatching the entry at `index` gives, for a registry whose entries
/// make `noises`.
pub open spec fn at_outcome(noises: Seq<Seq<char>>, index: usize) -> Result<
    Seq<char>,
    RegistryError,
> {
    if index < noises.len() {
        Ok(noises[index as int])
    } else {
        Err(RegistryError::IndexOutOfRange { index, len: noises.len() as usize })
    }
}

/// The contents of a dispatch result.
pub open spec fn outcome_view(r: Result<String, RegistryError>) -> Result<Seq<char>, RegistryError> {
    match r {
        Ok(s) => Ok(s@),
        Err(e) => Err(e),
    }
}

/// A registry of animals, owned by it and kept in insertion order. With an
/// enum of kinds for `A` it holds a mix of kinds, and each dispatch runs the
/// implementation of the entry's own kind.
pub struct Managerie<A: Animal> {
    animals: Vec<A>,
}

impl<A: Animal> View for Managerie<A> {
    type V = Seq<Seq<char>>;

    /// The noise of each entry, in insertion order.
    closed spec fn view(&self) -> Seq<Seq<char>> {
        self.animals@.map_values(|a: A| noise_of(&a))
    }
}

impl<A: Animal> Managerie<A> {
    pub fn new() -> (r: Managerie<A>)
        ensures
            r@ == Seq::<Seq<char>>::empty(),
    {
        let r = Managerie { animals: Vec::new() };
        assert(r@ =~= Seq::<Seq<char>>::empty());
        r
    }

    /// A registry holding `animals`, as if each had been inserted in turn.
    pub fn from_animals(animals: Vec<A>) -> (r: Managerie<A>)
        ensures
            r@ == after_insertions(Seq::<Seq<char>>::empty(), animals@),
    {
        let r = Managerie { animals };
        proof {
            insertion_order_is_kept(Seq::<Seq<char>>::empty(), r.animals@);
            assert(r@ =~= after_insertions(Seq::<Seq<char>>::empty(), r.animals@));
        }
        r
    }

    pub fn len(&self) -> (r: usize)
        ensures
            r == self@.len(),
    {
        self.animals.len()
    }

    /// Takes ownership of `animal` and appends it after the current entries.
    pub fn insert(&mut self, animal: A)
        ensures
            final(self)@ == old(self)@.push(noise_of(&animal)),
    {
        let ghost a = animal;
        self.animals.push(animal);
        assert(self@ =~= old(self)@.push(noise_of(&a)));
    }

    /// The noise of every entry, in insertion order; the registry is left as it is.
    pub fn dispatch_all(&self) -> (r: Vec<String>)
        ensures
            string_views(r@) == self@,
    {
        let mut out: Vec<String> = Vec::new();
        let mut i: usize = 0;
        while i < self.animals.len()
            invariant
                i <= self.animals@.len(),
                self@.len() == self.animals@.len(),
                string_views(out@) == self@.take(i as int),
            decreases self.animals@.len() - i,
        {
            let noise = self.animals[i].make_noise();
            assert(noise@ == self@[i as int]);
            let ghost before = out@;
            out.push(noise);
            assert(string_views(out@) =~= string_views(before).push(self@[i as int]));
            i = i + 1;
            assert(string_views(out@) =~= self@.take(i as int));
        }
        assert(self@.take(i as int) =~= self@);
        out
    }

    /// The noise of the entry at `index`, or `IndexOutOfRange` where there is none.
    pub fn dispatch_at(&self, index: usize) -> (r: Result<String, RegistryError>)
        ensures
            outcome_view(r) == at_outcome(self@, index),
    {
        if index < self.animals.len() {
            Ok(self.animals[index].make_noise())
        } else {
            Err(RegistryError::IndexOutOfRange { index, len: self.animals.len() })
        }
    }
}

} // verus!
