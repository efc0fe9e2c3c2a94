use common_game::components::energy_cell::EnergyCell;
use common_game::components::sunray::Sunray;

#[test]
fn constructor_creates_uncharged_cell() {
    let cell = EnergyCell::new();
    assert!(!cell.is_charged(), "New cells should start uncharged");
}

#[test]
fn charging_sets_state_to_charged() {
    let mut cell = EnergyCell::new();
    cell.charge(Sunray::new());

    assert!(
        cell.is_charged(),
        "Cell should become charged after calling charge()"
    );
}

#[test]
fn discharge_works_when_charged() {
    let mut cell = EnergyCell::new();
    cell.charge(Sunray::new());

    let result = cell.discharge();
    assert!(
        result.is_ok(),
        "Discharging a charged cell should return Ok"
    );
    assert!(
        !cell.is_charged(),
        "Cell should no longer be charged after discharge()"
    );
}

#[test]
fn discharge_fails_when_empty() {
    let mut cell = EnergyCell::new();
    let result = cell.discharge();

    assert!(
        result.is_err(),
        "Discharging an empty cell should return Err"
    );
    assert_eq!(result.unwrap_err(), "EnergyCell not charged!");
}

#[test]
fn default_cell_is_uncharged() {
    let cell = EnergyCell::default();
    assert!(!cell.is_charged());
}

#[test]
fn charge_then_discharge_is_ok_for_any_cell() {
    let mut fresh = EnergyCell::new();
    fresh.charge(Sunray::new());
    assert_eq!(fresh.discharge(), Ok(()));

    let mut charged = EnergyCell::new();
    charged.charge(Sunray::new());
    charged.charge(Sunray::new());
    assert_eq!(charged.discharge(), Ok(()));
    assert!(!charged.is_charged());
}

#[test]
fn charging_a_charged_cell_changes_nothing() {
    let mut cell = EnergyCell::new();
    cell.charge(Sunray::new());
    assert!(cell.is_charged());
    cell.charge(Sunray::default());
    assert!(cell.is_charged());
    assert_eq!(cell.discharge(), Ok(()));
    assert_eq!(
        cell.discharge(),
        Err("EnergyCell not charged!".to_string())
    );
}

#[test]
fn failed_discharge_leaves_cell_empty() {
    let mut cell = EnergyCell::new();
    assert!(cell.discharge().is_err());
    assert!(!cell.is_charged());
    cell.charge(Sunray::new());
    assert!(cell.is_charged());
}
