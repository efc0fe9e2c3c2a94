use common_game::components::energy_cell::EnergyCell;
use common_game::components::resource::{
    BasicResource, BasicResourceType, Combinator, ComplexResource, ComplexResourceRequest,
    ComplexResourceType, Generator, GenericResource, Hydrogen, Oxygen, Resource, ResourceType,
    Water,
};
use common_game::components::sunray::Sunray;
use std::collections::HashSet;

fn get_charged_cell() -> EnergyCell {
    let mut cell = EnergyCell::new();
    cell.charge(Sunray::new());
    cell
}

fn full_generator() -> Generator {
    let mut generator = Generator::new();
    generator.add(BasicResourceType::Oxygen).unwrap();
    generator.add(BasicResourceType::Hydrogen).unwrap();
    generator.add(BasicResourceType::Carbon).unwrap();
    generator.add(BasicResourceType::Silicon).unwrap();
    generator
}

fn make_hydrogen_and_oxygen() -> (Hydrogen, Oxygen) {
    let generator = full_generator();
    let hydrogen = generator.make_hydrogen(&mut get_charged_cell()).unwrap();
    let oxygen = generator.make_oxygen(&mut get_charged_cell()).unwrap();
    (hydrogen, oxygen)
}

fn make_water() -> Water {
    let mut combinator = Combinator::new();
    combinator.add(ComplexResourceType::Water).unwrap();
    let (hydrogen, oxygen) = make_hydrogen_and_oxygen();
    combinator
        .make_water(hydrogen, oxygen, &mut get_charged_cell())
        .unwrap()
}

#[test]
fn test_generator_success() {
    let mut generator = Generator::new();
    let mut cell = get_charged_cell();

    // 1. Add recipe
    assert!(generator.add(BasicResourceType::Oxygen).is_ok());

    // 2. Generate resource
    let result = generator.make_oxygen(&mut cell);

    assert!(result.is_ok());
    assert_eq!(result.unwrap().to_static_str(), "Oxygen");

    // 3. Ensure cell is discharged
    assert!(!cell.is_charged());
}

#[test]
fn test_generator_fail_no_charge() {
    let mut generator = Generator::new();
    let mut cell = EnergyCell::new(); // Not charged

    generator.add(BasicResourceType::Oxygen).unwrap();

    let result = generator.make_oxygen(&mut cell);

    assert!(result.is_err());
    assert_eq!(result.err().unwrap(), "EnergyCell not charged!");
}

#[test]
fn test_generator_fail_no_recipe() {
    let generator = Generator::new(); // Empty, no recipes added
    let mut cell = get_charged_cell();

    // Try to make Oxygen without adding the recipe first
    let result = generator.make_oxygen(&mut cell);

    assert!(result.is_err());
    assert!(result.err().unwrap().contains("there isn't a recipe for"));
}

#[test]
fn test_combinator_success() {
    let mut generator = Generator::new();
    let mut comb = Combinator::new();
    let mut cell = get_charged_cell();

    // Setup
    generator.add(BasicResourceType::Oxygen).unwrap();
    generator.add(BasicResourceType::Hydrogen).unwrap();
    comb.add(ComplexResourceType::Water).unwrap();

    let oxygen = generator.make_oxygen(&mut cell).unwrap();

    // Recharge cell
    cell.charge(Sunray::new());
    let hydrogen = generator.make_hydrogen(&mut cell).unwrap();

    // Test Combination: Water = Hydrogen + Oxygen
    cell.charge(Sunray::new());
    let result = comb.make_water(hydrogen, oxygen, &mut cell);

    assert!(result.is_ok());
    assert_eq!(result.unwrap().to_static_str(), "Water");
}

#[test]
fn test_combinator_fail_no_recipe_returns_resources() {
    let mut generator = Generator::new();
    let mut comb = Combinator::new(); // No recipes added
    let mut cell = get_charged_cell();

    generator.add(BasicResourceType::Oxygen).unwrap();
    generator.add(BasicResourceType::Hydrogen).unwrap();

    let oxygen = generator.make_oxygen(&mut cell).unwrap();

    cell.charge(Sunray::new());
    let hydrogen = generator.make_hydrogen(&mut cell).unwrap();

    // Attempt make_water without recipe
    let result = comb.make_water(hydrogen, oxygen, &mut cell);

    assert!(result.is_err());
    let (_s, r1, r2) = result.err().unwrap();
    comb.add(ComplexResourceType::Water).unwrap();
    let result = comb.make_water(r1, r2, &mut cell);
    assert!(result.is_err());

    // Critical: Ensure we got our resources back in the error tuple
    let (_err_msg, returned_h, returned_o) = result.err().unwrap();

    assert_eq!(returned_h.to_static_str(), "Hydrogen");
    assert_eq!(returned_o.to_static_str(), "Oxygen");
}

#[test]
fn test_recipe_management() {
    let mut generator = Generator::new();

    assert!(generator.add(BasicResourceType::Carbon).is_ok());
    assert!(generator.contains(BasicResourceType::Carbon));
    assert!(!generator.contains(BasicResourceType::Silicon));

    // Test duplicate addition error
    assert!(generator.add(BasicResourceType::Carbon).is_err());
}

#[test]
fn test_enum_equality_and_hashing() {
    let t1 = BasicResourceType::Oxygen;
    let t2 = BasicResourceType::Oxygen;
    let t3 = BasicResourceType::Carbon;

    assert_eq!(t1, t2);
    assert_ne!(t1, t3);

    // Test Hashing implicitly via HashSet
    let mut set = HashSet::new();
    set.insert(BasicResourceType::Oxygen);
    set.insert(BasicResourceType::Oxygen);
    assert_eq!(set.len(), 1);
}

#[test]
fn test_complex_chain() {
    // Tests a multi-step chain: Carbon + Carbon -> Diamond; Robot + Diamond -> AIPartner
    let mut generator = Generator::new();
    let mut comb = Combinator::new();
    let mut cell = get_charged_cell();

    // Add Recipes
    generator.add(BasicResourceType::Carbon).unwrap();
    generator.add(BasicResourceType::Silicon).unwrap();
    generator.add(BasicResourceType::Oxygen).unwrap();
    generator.add(BasicResourceType::Hydrogen).unwrap();

    comb.add(ComplexResourceType::Diamond).unwrap();
    comb.add(ComplexResourceType::Water).unwrap();
    comb.add(ComplexResourceType::Life).unwrap();
    comb.add(ComplexResourceType::Robot).unwrap();
    comb.add(ComplexResourceType::AIPartner).unwrap();

    // 1. Make Diamond (Carbon + Carbon)
    let c1 = generator.make_carbon(&mut cell).unwrap();
    cell.charge(Sunray::new());
    let c2 = generator.make_carbon(&mut cell).unwrap();
    cell.charge(Sunray::new());
    let diamond = comb.make_diamond(c1, c2, &mut cell).unwrap();

    // 2. Make Robot (Silicon + Life) -> Needs Life (Water + Carbon) -> Needs Water (H + O)

    // Make Water
    cell.charge(Sunray::new());
    let h = generator.make_hydrogen(&mut cell).unwrap();
    cell.charge(Sunray::new());
    let o = generator.make_oxygen(&mut cell).unwrap();
    cell.charge(Sunray::new());
    let water = comb.make_water(h, o, &mut cell).unwrap();

    // Make Life
    cell.charge(Sunray::new());
    let c3 = generator.make_carbon(&mut cell).unwrap();
    cell.charge(Sunray::new());
    let life = comb.make_life(water, c3, &mut cell).unwrap();

    // Make Robot
    cell.charge(Sunray::new());
    let silicon = generator.make_silicon(&mut cell).unwrap();
    cell.charge(Sunray::new());
    let robot = comb.make_robot(silicon, life, &mut cell).unwrap();

    // 3. Make AIPartner (Robot + Diamond)
    cell.charge(Sunray::new());
    let ai = comb.make_aipartner(robot, diamond, &mut cell);

    assert!(ai.is_ok());
    assert_eq!(ai.unwrap().to_static_str(), "AIPartner");
}

#[test]
fn test_generator_try_make() {
    let mut generator = Generator::new();
    let mut cell = get_charged_cell();
    generator.add(BasicResourceType::Oxygen).unwrap();

    // Test success
    let result = generator.try_make(BasicResourceType::Oxygen, &mut cell);
    assert!(result.is_ok());
    let resource = result.unwrap();
    assert_eq!(resource.get_type(), BasicResourceType::Oxygen);
    assert!(!cell.is_charged());

    // Test fail no charge
    let result = generator.try_make(BasicResourceType::Oxygen, &mut cell);
    assert!(result.is_err());
    assert_eq!(result.err().unwrap(), "The energy is not charged");

    // Test fail no recipe
    let mut cell = get_charged_cell();
    let result = generator.try_make(BasicResourceType::Hydrogen, &mut cell);
    assert!(result.is_err());
    assert!(result.err().unwrap().contains("Missing recipe for"));
}

#[test]
fn test_combinator_try_make() {
    let mut generator = Generator::new();
    let mut combinator = Combinator::new();
    combinator.add(ComplexResourceType::Water).unwrap();
    generator.add(BasicResourceType::Hydrogen).unwrap();
    generator.add(BasicResourceType::Oxygen).unwrap();

    let mut cell = get_charged_cell();
    let hydrogen = generator.make_hydrogen(&mut cell).unwrap();
    cell.charge(Sunray::new());
    let oxygen = generator.make_oxygen(&mut cell).unwrap();

    // Test success
    cell.charge(Sunray::new());
    let request = ComplexResourceRequest::Water(hydrogen, oxygen);
    let result = combinator.try_make(request, &mut cell);
    assert!(result.is_ok());
    let resource = result.unwrap();
    assert_eq!(resource.get_type(), ComplexResourceType::Water);
    assert!(!cell.is_charged());

    let hydrogen = generator.make_hydrogen(&mut get_charged_cell()).unwrap();
    let oxygen = generator.make_oxygen(&mut get_charged_cell()).unwrap();

    // Test fail no charge
    let request = ComplexResourceRequest::Water(hydrogen, oxygen);
    let result = combinator.try_make(request, &mut cell);
    assert!(result.is_err());
    let (err, _, _) = result.err().unwrap();
    assert_eq!(err, "EnergyCell not charged!");

    // Test fail no recipe
    let mut cell = get_charged_cell();
    let combinator = Combinator::new(); // No recipes
    let hydrogen = generator.make_hydrogen(&mut get_charged_cell()).unwrap();
    let oxygen = generator.make_oxygen(&mut get_charged_cell()).unwrap();
    let request = ComplexResourceRequest::Water(hydrogen, oxygen);
    let result = combinator.try_make(request, &mut cell);
    assert!(result.is_err());
    let (err, _, _) = result.err().unwrap();
    assert!(err.contains("there isn't a recipe for"));
}

#[test]
fn test_generic_resource_conversions() {
    let (_, oxygen) = make_hydrogen_and_oxygen();
    let generic_basic = oxygen.to_generic();
    assert_eq!(
        generic_basic.get_type(),
        ResourceType::Basic(BasicResourceType::Oxygen)
    );
    assert!(generic_basic.to_oxygen().is_ok());

    let water = make_water();
    let generic_complex = water.to_generic();
    assert_eq!(
        generic_complex.get_type(),
        ResourceType::Complex(ComplexResourceType::Water)
    );
    assert!(generic_complex.to_water().is_ok());
}

#[test]
fn make_succeeds_only_with_recipe_and_charge() {
    let mut generator = Generator::new();
    generator.add(BasicResourceType::Silicon).unwrap();

    // recipe and charge
    let mut cell = get_charged_cell();
    assert!(generator.make_silicon(&mut cell).is_ok());
    assert!(!cell.is_charged());

    // recipe, no charge
    let mut cell = EnergyCell::new();
    assert_eq!(
        generator.make_silicon(&mut cell).err().unwrap(),
        "EnergyCell not charged!"
    );
    assert!(!cell.is_charged());

    // no recipe, charge: the cell keeps its charge
    let mut cell = get_charged_cell();
    assert_eq!(
        generator.make_carbon(&mut cell).err().unwrap(),
        "there isn't a recipe for Carbon"
    );
    assert!(cell.is_charged());

    // no recipe, no charge: the recipe is reported
    let mut cell = EnergyCell::new();
    assert_eq!(
        generator.make_hydrogen(&mut cell).err().unwrap(),
        "there isn't a recipe for Hydrogen"
    );
    assert_eq!(
        generator.make_oxygen(&mut cell).err().unwrap(),
        "there isn't a recipe for Oxygen"
    );
    assert!(!cell.is_charged());
}

#[test]
fn try_make_checks_the_charge_before_the_recipe() {
    let generator = Generator::new();
    let mut cell = EnergyCell::new();
    assert_eq!(
        generator
            .try_make(BasicResourceType::Oxygen, &mut cell)
            .err()
            .unwrap(),
        "The energy is not charged"
    );
    let mut cell = get_charged_cell();
    assert_eq!(
        generator
            .try_make(BasicResourceType::Hydrogen, &mut cell)
            .err()
            .unwrap(),
        "Missing recipe for \"Hydrogen\""
    );
    assert!(cell.is_charged());

    let combinator = Combinator::new();
    let (hydrogen, oxygen) = make_hydrogen_and_oxygen();
    let mut cell = EnergyCell::new();
    let (err, lhs, rhs) = combinator
        .try_make(ComplexResourceRequest::Water(hydrogen, oxygen), &mut cell)
        .err()
        .unwrap();
    assert_eq!(err, "EnergyCell not charged!");
    assert_eq!(
        lhs.get_type(),
        ResourceType::Basic(BasicResourceType::Hydrogen)
    );
    assert_eq!(
        rhs.get_type(),
        ResourceType::Basic(BasicResourceType::Oxygen)
    );

    let mut cell = get_charged_cell();
    let (err, lhs, rhs) = combinator
        .try_make(
            ComplexResourceRequest::Water(lhs.to_hydrogen().unwrap(), rhs.to_oxygen().unwrap()),
            &mut cell,
        )
        .err()
        .unwrap();
    assert_eq!(err, "there isn't a recipe for \"Water\"");
    assert!(cell.is_charged());
    assert!(lhs.to_hydrogen().is_ok());
    assert!(rhs.to_oxygen().is_ok());
}

#[test]
fn make_of_a_combinator_checks_the_recipe_before_the_charge() {
    let mut combinator = Combinator::new();
    let (hydrogen, oxygen) = make_hydrogen_and_oxygen();
    let mut cell = EnergyCell::new();
    let (err, hydrogen, oxygen) = combinator
        .make_water(hydrogen, oxygen, &mut cell)
        .err()
        .unwrap();
    assert_eq!(err, "there isn't a recipe for Water");

    combinator.add(ComplexResourceType::Water).unwrap();
    let (err, hydrogen, oxygen) = combinator
        .make_water(hydrogen, oxygen, &mut cell)
        .err()
        .unwrap();
    assert_eq!(err, "EnergyCell not charged!");

    cell.charge(Sunray::new());
    let water = combinator.make_water(hydrogen, oxygen, &mut cell);
    assert!(water.is_ok());
    assert!(!cell.is_charged());
}

#[test]
fn dolphin_is_made_from_water_and_life() {
    let generator = full_generator();
    let mut combinator = Combinator::new();
    combinator.add(ComplexResourceType::Water).unwrap();
    combinator.add(ComplexResourceType::Life).unwrap();
    combinator.add(ComplexResourceType::Dolphin).unwrap();

    let carbon = generator.make_carbon(&mut get_charged_cell()).unwrap();
    let life = combinator
        .make_life(make_water(), carbon, &mut get_charged_cell())
        .unwrap();
    let request = ComplexResourceRequest::Dolphin(make_water(), life);
    let dolphin = combinator
        .try_make(request, &mut get_charged_cell())
        .unwrap();
    assert_eq!(dolphin.get_type(), ComplexResourceType::Dolphin);
    let dolphin = dolphin.to_dolphin().unwrap();
    assert_eq!(dolphin.to_static_str(), "Dolphin");
    assert_eq!(
        dolphin.to_type(),
        ResourceType::Complex(ComplexResourceType::Dolphin)
    );
    assert_eq!(dolphin.to_complex_type(), ComplexResourceType::Dolphin);
}

#[test]
fn duplicate_recipes_are_refused() {
    let mut generator = Generator::new();
    assert_eq!(generator.add(BasicResourceType::Carbon), Ok(()));
    assert_eq!(
        generator.add(BasicResourceType::Carbon),
        Err("There was already a recipe for Carbon, the value should never be updated".to_string())
    );
    assert_eq!(
        generator.all_available_recipes(),
        vec![BasicResourceType::Carbon]
    );

    let mut combinator = Combinator::default();
    assert!(!combinator.contains(ComplexResourceType::AIPartner));
    assert_eq!(combinator.add(ComplexResourceType::AIPartner), Ok(()));
    assert_eq!(combinator.add(ComplexResourceType::Robot), Ok(()));
    assert_eq!(
        combinator.add(ComplexResourceType::AIPartner),
        Err(
            "There was already a recipe for AIPartner, the value should never be updated"
                .to_string()
        )
    );
    assert!(combinator.contains(ComplexResourceType::AIPartner));
    assert!(combinator.contains(ComplexResourceType::Robot));
    assert!(!combinator.contains(ComplexResourceType::Water));
    let recipes: HashSet<ComplexResourceType> =
        combinator.all_available_recipes().into_iter().collect();
    assert_eq!(recipes.len(), 2);
    assert_eq!(combinator.all_available_recipes().len(), 2);
}

#[test]
fn conversions_to_another_kind_fail() {
    let (hydrogen, oxygen) = make_hydrogen_and_oxygen();
    let basic: BasicResource = hydrogen.to_basic();
    assert_eq!(basic.get_type(), BasicResourceType::Hydrogen);
    assert_eq!(
        basic.to_oxygen().err().unwrap(),
        "Different type found"
    );
    let generic: GenericResource = oxygen.to_generic();
    assert_eq!(generic.to_water().err().unwrap(), "Different type found");

    let complex: ComplexResource = make_water().to_complex();
    assert_eq!(complex.get_type(), ComplexResourceType::Water);
    assert_eq!(complex.to_diamond().err().unwrap(), "Different type found");
    let complex: ComplexResource = make_water().to_complex();
    assert!(complex.to_water().is_ok());
}

#[test]
fn resource_type_names_and_tests() {
    assert_eq!(
        ResourceType::make_oxygen(),
        ResourceType::Basic(BasicResourceType::Oxygen)
    );
    assert_eq!(
        ResourceType::make_aipartner(),
        ResourceType::Complex(ComplexResourceType::AIPartner)
    );
    assert!(ResourceType::make_water().is_water());
    assert!(!ResourceType::make_water().is_diamond());
    assert!(!ResourceType::make_carbon().is_silicon());
    assert!(ResourceType::make_silicon().is_silicon());
    assert!(BasicResourceType::Hydrogen.is_hydrogen());
    assert!(!BasicResourceType::Hydrogen.is_oxygen());
    assert!(ComplexResourceType::Life.is_life());
    assert!(!ComplexResourceType::Life.is_robot());

    let (hydrogen, oxygen) = make_hydrogen_and_oxygen();
    assert_eq!(
        hydrogen.to_type(),
        ResourceType::Basic(BasicResourceType::Hydrogen)
    );
    assert_eq!(oxygen.to_basic_type(), BasicResourceType::Oxygen);
    assert_eq!(hydrogen.to_static_str(), "Hydrogen");
}

#[test]
fn resources_are_written_with_their_family() {
    let (hydrogen, oxygen) = make_hydrogen_and_oxygen();
    assert_eq!(hydrogen.to_string(), "Basic Resource Hydrogen");
    assert_eq!(oxygen.to_string(), "Basic Resource Oxygen");
    let water = make_water();
    assert_eq!(water.to_string(), "Complex Resource Water");
    assert_eq!(water.to_static_str(), "Water");
}
