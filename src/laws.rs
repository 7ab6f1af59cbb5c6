use vstd::prelude::*;

use crate::animal::{default_noise, noise_of, Animal};
use crate::registry::{after_insertions, at_outcome, string_views, Managerie, RegistryError};

verus! {

/// Any two kinds that keep the default behaviour make the same noise through
/// the static invoker: the default one.
pub proof fn default_kinds_agree<K1: Animal, K2: Animal>(a: &K1, b: &K2)
    requires
        a.own_noise() is None,
        b.own_noise() is None,
    ensures
        noise_of(a) == default_noise(),
        noise_of(b) == default_noise(),
{
}

/// A kind with a noise of its own makes that noise through the static
/// invoker, and not the default one unless its own noise has the same text.
pub proof fn overriding_kind_keeps_its_noise<K: Animal>(a: &K, own: Seq<char>)
    requires
        a.own_noise() == Some(own),
    ensures
        noise_of(a) == own,
        own != default_noise() ==> noise_of(a) != default_noise(),
{
}

/// Inserting `items` one after another after the noises `start` keeps what
/// was there, adds one entry per item, and puts the items' noises in the
/// order in which they were inserted.
pub proof fn insertion_order_is_kept<A: Animal>(start: Seq<Seq<char>>, items: Seq<A>)
    ensures
        after_insertions(start, items).len() == start.len() + items.len(),
        forall|i: int| 0 <= i < start.len() ==> #[trigger] after_insertions(start, items)[i] == start[i],
        forall|i: int|
            0 <= i < items.len() ==> after_insertions(start, items)[start.len() + i] == noise_of(
                &#[trigger] items[i],
            ),
    decreases items.len(),
{
    if items.len() > 0 {
        let rest = items.drop_last();
        insertion_order_is_kept(start, rest);
        assert forall|i: int| 0 <= i < items.len() implies after_insertions(start, items)[start.len()
            + i] == noise_of(&#[trigger] items[i]) by {
            if i < rest.len() {
                assert(items[i] == rest[i]);
            }
        }
    }
}

/// For an index in range, `dispatch_at` gives the entry at that index of what
/// `dispatch_all` gives; for any other index it fails with `IndexOutOfRange`.
pub proof fn dispatch_at_agrees_with_dispatch_all<A: Animal>(
    m: &Managerie<A>,
    all: Seq<String>,
    index: usize,
)
    requires
        string_views(all) == m@,
    ensures
        index < all.len() ==> at_outcome(m@, index) == Ok::<Seq<char>, RegistryError>(
            all[index as int]@,
        ),
        index >= all.len() ==> at_outcome(m@, index) == Err::<Seq<char>, RegistryError>(
            RegistryError::IndexOutOfRange { index, len: all.len() as usize },
        ),
{
    assert(string_views(all).len() == all.len());
    if index < all.len() {
        assert(string_views(all)[index as int] == all[index as int]@);
    }
}

/// Two calls of `dispatch_all` on a registry that was not changed between
/// them give the same noises.
pub proof fn dispatch_all_is_idempotent<A: Animal>(
    m: &Managerie<A>,
    first: Seq<String>,
    second: Seq<String>,
)
    requires
        string_views(first) == m@,
        string_views(second) == m@,
    ensures
        string_views(first) == string_views(second),
{
}

} // verus!
