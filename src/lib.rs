//! Default trait behaviour, static dispatch through a generic function, and
//! dispatch at run time over a registry that may mix kinds of animals, with
//! contracts over the noise each one makes.

mod animal;
mod kinds;
mod laws;
mod registry;
mod summary;

pub use animal::{default_noise, make_animal_noise, noise_of, noise_or_default, Animal};
pub use kinds::{cow_noise, cow_noise_is_not_default, Cow, Creature, Pangolin};
pub use laws::{
    default_kinds_agree, dispatch_all_is_idempotent, dispatch_at_agrees_with_dispatch_all,
    insertion_order_is_kept, overriding_kind_keeps_its_noise,
};
pub use registry::{after_insertions, at_outcome, outcome_view, string_views, Managerie, RegistryError};
pub use summary::{decimal, digit_char, digits, Person, Summary};
