use vstd::prelude::*;

verus! {

/// The noise of every kind that keeps the default behaviour.
pub open spec fn default_noise() -> Seq<char> {
    "Derpy derp!"@
}

/// A kind's own noise where it has one, else the default.
pub open spec fn noise_or_default(own: Option<Seq<char>>) -> Seq<char> {
    match own {
        Some(s) => s,
        None => default_noise(),
    }
}

/// What `make_noise` returns for `a`.
pub open spec fn noise_of<A: Animal + ?Sized>(a: &A) -> Seq<char> {
    noise_or_default(a.own_noise())
}

/// The capability to make a noise. A kind supplies its own noise through
/// `noise_override`, or returns `None` there and keeps the default one.
pub trait Animal {
    /// The noise this kind makes in place of the default, if any.
    spec fn own_noise(&self) -> Option<Seq<char>>;

    /// The kind's own noise, or `None` where it keeps the default.
    fn noise_override(&self) -> (r: Option<String>)
        ensures
            r is None <==> self.own_noise() is None,
            r matches Some(s) ==> self.own_noise() == Some(s@),
    ;

    /// Produces the noise: the kind's own where it has one, else the default.
    fn make_noise(&self) -> (r: String)
        ensures
            r@ == noise_or_default(self.own_noise()),
    {
        match self.noise_override() {
            Some(s) => s,
            None => String::from_str("Derpy derp!"),
        }
    }
}

/// Static dispatch: the call is bound to `T`'s implementation at build time.
pub fn make_animal_noise<T: Animal>(animal: &T) -> (r: String)
    ensures
        r@ == noise_of(animal),
{
    animal.make_noise()
}

} // verus!
