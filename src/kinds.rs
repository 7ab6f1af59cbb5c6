use vstd::prelude::*;

use crate::animal::{default_noise, Animal};

verus! {

/// A pangolin keeps the default noise.
pub struct Pangolin {
    pub name: String,
}

impl Pangolin {
    pub fn new(name: String) -> (r: Pangolin)
        ensures
            r.name@ == name@,
    {
        Pangolin { name }
    }
}

impl Animal for Pangolin {
    open spec fn own_noise(&self) -> Option<Seq<char>> {
        None
    }

    fn noise_override(&self) -> (r: Option<String>) {
        None
    }
}

/// What a cow called `name` says.
pub open spec fn cow_noise(name: Seq<char>) -> Seq<char> {
    "Dairy is scary "@ + name + "!"@
}

/// A cow overrides the default noise with one that names it.
pub struct Cow {
    pub name: String,
}

impl Cow {
    pub fn new(name: String) -> (r: Cow)
        ensures
            r.name@ == name@,
    {
        Cow { name }
    }
}

impl Animal for Cow {
    open spec fn own_noise(&self) -> Option<Seq<char>> {
        Some(cow_noise(self.name@))
    }

    fn noise_override(&self) -> (r: Option<String>) {
        let mut s = String::from_str("Dairy is scary ");
        s.append(self.name.as_str());
        s.append("!");
        Some(s)
    }
}

/// An animal of one of the known kinds, so that one registry can hold both.
/// Each call runs the implementation of the kind inside.
pub enum Creature {
    Pangolin(Pangolin),
    Cow(Cow),
}

impl Animal for Creature {
    open spec fn own_noise(&self) -> Option<Seq<char>> {
        match self {
            Creature::Pangolin(p) => p.own_noise(),
            Creature::Cow(c) => c.own_noise(),
        }
    }

    fn noise_override(&self) -> (r: Option<String>) {
        match self {
            Creature::Pangolin(p) => p.noise_override(),
            Creature::Cow(c) => c.noise_override(),
        }
    }

    fn make_noise(&self) -> (r: String) {
        match self {
            Creature::Pangolin(p) => p.make_noise(),
            Creature::Cow(c) => c.make_noise(),
        }
    }
}

/// A cow's noise is never the default one.
pub proof fn cow_noise_is_not_default(name: Seq<char>)
    ensures
        cow_noise(name) != default_noise(),
{
    reveal_strlit("Dairy is scary ");
    reveal_strlit("Derpy derp!");
    assert(cow_noise(name)[1] == 'a');
    assert(default_noise()[1] == 'e');
}

} // verus!
