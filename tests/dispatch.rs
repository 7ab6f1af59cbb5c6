use traits::{make_animal_noise, Animal, Cow, Creature, Managerie, Pangolin, RegistryError};

fn pangolin() -> Pangolin {
    Pangolin::new("Pangy Pangerson".to_string())
}

fn clara() -> Cow {
    Cow::new("Clara".to_string())
}

fn mixed() -> Managerie<Creature> {
    let mut m = Managerie::new();
    m.insert(Creature::Pangolin(pangolin()));
    m.insert(Creature::Cow(clara()));
    m
}

#[test]
fn default_kinds_make_the_default_noise() {
    assert_eq!(make_animal_noise(&pangolin()), "Derpy derp!");
    assert_eq!(make_animal_noise(&Creature::Pangolin(pangolin())), "Derpy derp!");
    assert_eq!(pangolin().make_noise(), "Derpy derp!");
    assert_eq!(pangolin().noise_override(), None);
}

#[test]
fn overriding_kind_makes_its_own_noise() {
    let noise = make_animal_noise(&clara());
    assert_eq!(noise, "Dairy is scary Clara!");
    assert_ne!(noise, "Derpy derp!");
    assert_eq!(clara().noise_override(), Some("Dairy is scary Clara!".to_string()));
}

#[test]
fn cow_noise_names_the_cow() {
    assert_eq!(make_animal_noise(&Cow::new("Bessie".to_string())), "Dairy is scary Bessie!");
    assert_eq!(make_animal_noise(&Cow::new(String::new())), "Dairy is scary !");
}

#[test]
fn creature_runs_its_kinds_implementation() {
    assert_eq!(Creature::Cow(clara()).make_noise(), "Dairy is scary Clara!");
    assert_eq!(Creature::Pangolin(pangolin()).make_noise(), "Derpy derp!");
}

#[test]
fn dispatch_all_on_default_then_overridden() {
    let m = mixed();
    assert_eq!(m.dispatch_all(), vec!["Derpy derp!".to_string(), "Dairy is scary Clara!".to_string()]);
}

#[test]
fn dispatch_at_past_the_end_fails() {
    let m = mixed();
    assert_eq!(m.dispatch_at(2), Err(RegistryError::IndexOutOfRange { index: 2, len: 2 }));
    let all = m.dispatch_all();
    assert_eq!(m.dispatch_at(0), Ok(all[0].clone()));
    assert_eq!(m.dispatch_at(1), Ok(all[1].clone()));
}

#[test]
fn dispatch_all_keeps_insertion_order() {
    let mut m = Managerie::new();
    m.insert(Creature::Cow(Cow::new("A".to_string())));
    m.insert(Creature::Pangolin(pangolin()));
    m.insert(Creature::Cow(Cow::new("B".to_string())));
    assert_eq!(m.len(), 3);
    let all = m.dispatch_all();
    assert_eq!(all.len(), 3);
    assert_eq!(all, vec![
        "Dairy is scary A!".to_string(),
        "Derpy derp!".to_string(),
        "Dairy is scary B!".to_string(),
    ]);
}

#[test]
fn dispatch_at_matches_dispatch_all() {
    let mut m = Managerie::new();
    m.insert(Creature::Cow(Cow::new("A".to_string())));
    m.insert(Creature::Pangolin(pangolin()));
    m.insert(Creature::Cow(Cow::new("B".to_string())));
    let all = m.dispatch_all();
    for (i, noise) in all.iter().enumerate() {
        assert_eq!(m.dispatch_at(i), Ok(noise.clone()));
    }
    assert_eq!(m.dispatch_at(3), Err(RegistryError::IndexOutOfRange { index: 3, len: 3 }));
    assert_eq!(m.dispatch_at(usize::MAX), Err(RegistryError::IndexOutOfRange { index: usize::MAX, len: 3 }));
}

#[test]
fn dispatch_all_twice_gives_the_same() {
    let m = mixed();
    let first = m.dispatch_all();
    let second = m.dispatch_all();
    assert_eq!(first, second);
    assert_eq!(m.len(), 2);
}

#[test]
fn empty_registry() {
    let m: Managerie<Pangolin> = Managerie::new();
    assert_eq!(m.len(), 0);
    assert!(m.dispatch_all().is_empty());
    assert_eq!(m.dispatch_at(0), Err(RegistryError::IndexOutOfRange { index: 0, len: 0 }));
}

#[test]
fn registry_of_one_kind() {
    let mut m = Managerie::new();
    m.insert(Cow::new("Clara".to_string()));
    m.insert(Cow::new("Bessie".to_string()));
    assert_eq!(m.dispatch_all(), vec!["Dairy is scary Clara!".to_string(), "Dairy is scary Bessie!".to_string()]);
}

#[test]
fn from_animals_matches_inserting_in_turn() {
    let built = Managerie::from_animals(vec![Creature::Pangolin(pangolin()), Creature::Cow(clara())]);
    assert_eq!(built.len(), 2);
    assert_eq!(built.dispatch_all(), mixed().dispatch_all());
}
