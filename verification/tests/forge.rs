use common_game::components::energy_cell::EnergyCell;
use common_game::components::forge::{Forge, ForgeSlot};

#[test]
fn first_creation_succeeds() {
    let mut slot = ForgeSlot::new();
    assert!(Forge::new(&mut slot).is_ok());
}

#[test]
fn second_creation_fails() {
    let mut slot = ForgeSlot::new();

    let g0 = Forge::new(&mut slot);
    assert!(g0.is_ok());

    let g1 = Forge::new(&mut slot);
    assert!(g1.is_err());
}

#[test]
fn second_creation_reports_the_reason() {
    let mut slot = ForgeSlot::new();
    assert!(!slot.is_taken());
    let first = Forge::new(&mut slot);
    assert!(first.is_ok());
    assert!(slot.is_taken());
    let second = Forge::new(&mut slot);
    assert_eq!(
        second.err().unwrap(),
        "Another generator has already been created"
    );
    assert!(slot.is_taken());
}

#[test]
fn slots_are_independent() {
    let mut one = ForgeSlot::new();
    let mut other = ForgeSlot::new();
    assert!(Forge::new(&mut one).is_ok());
    assert!(Forge::new(&mut other).is_ok());
    assert!(Forge::new(&mut one).is_err());
}

#[test]
fn forge_makes_sunrays_and_asteroids() {
    let mut slot = ForgeSlot::new();
    let forge = Forge::new(&mut slot).unwrap();
    let _asteroid = forge.generate_asteroid();
    let mut cell = EnergyCell::new();
    cell.charge(forge.generate_sunray());
    assert!(cell.is_charged());
}
