//! Planets: their kinds, their state, the behaviour that a user supplies,
//! and the actor that ties them together.
//!
//! A planet is an actor. It starts out stopped, and reacts to one message at
//! a time: `Planet::handle_orchestrator_msg` and
//! `Planet::handle_explorer_msg` take the planet from one state to the next
//! and return what has to be sent in answer. The code that runs a planet
//! waits on the channels, giving the orchestrator precedence, calls these
//! functions, and sends what they return.

use crate::components::energy_cell::{not_charged_message, EnergyCell};
use crate::components::resource::{BasicResourceType, Combinator, ComplexResourceType, Generator};
use crate::components::rocket::Rocket;
use crate::components::sunray::Sunray;
use crate::protocols::messages::{
    ExplorerToPlanet, OrchestratorToPlanet, PlanetToExplorer, PlanetToOrchestrator,
};
use crossbeam_channel::{Receiver, Sender};
use std::collections::HashMap;
use std::slice::{Iter, IterMut};
use vstd::prelude::*;
use vstd::std_specs::slice::into_iter_elts;
use vstd::string::StringExecFns;

verus! {

broadcast use vstd::std_specs::hash::group_hash_axioms;

/// The limits that the kind of a planet sets.
#[derive(Debug, Clone, Copy)]
pub struct PlanetConstraints {
    /// The number of energy cells.
    pub n_energy_cells: usize,
    /// Whether the planet may have any number of generation rules. A planet
    /// that may not has exactly one.
    pub unbounded_gen_rules: bool,
    /// Whether the planet may hold a rocket.
    pub can_have_rocket: bool,
    /// The largest number of combination rules.
    pub n_comb_rules: usize,
}

/// The kind of a planet.
#[derive(Debug, Clone, Copy, PartialEq, Eq, Structural)]
pub enum PlanetType {
    A,
    B,
    C,
    D,
}

impl PlanetType {
    /// The limits of this kind of planet.
    pub open spec fn limits(&self) -> PlanetConstraints {
        match self {
            PlanetType::A => PlanetConstraints {
                n_energy_cells: 5,
                unbounded_gen_rules: false,
                can_have_rocket: true,
                n_comb_rules: 0,
            },
            PlanetType::B => PlanetConstraints {
                n_energy_cells: 1,
                unbounded_gen_rules: true,
                can_have_rocket: false,
                n_comb_rules: 1,
            },
            PlanetType::C => PlanetConstraints {
                n_energy_cells: 1,
                unbounded_gen_rules: false,
                can_have_rocket: true,
                n_comb_rules: 6,
            },
            PlanetType::D => PlanetConstraints {
                n_energy_cells: 5,
                unbounded_gen_rules: true,
                can_have_rocket: false,
                n_comb_rules: 0,
            },
        }
    }

    /// Returns the limits of this kind of planet.
    pub fn constraints(&self) -> (constraints: PlanetConstraints)
        ensures
            constraints == self.limits(),
    {
        match self {
            PlanetType::A => PlanetConstraints {
                n_energy_cells: 5,
                unbounded_gen_rules: false,
                can_have_rocket: true,
                n_comb_rules: 0,
            },
            PlanetType::B => PlanetConstraints {
                n_energy_cells: 1,
                unbounded_gen_rules: true,
                can_have_rocket: false,
                n_comb_rules: 1,
            },
            PlanetType::C => PlanetConstraints {
                n_energy_cells: 1,
                unbounded_gen_rules: false,
                can_have_rocket: true,
                n_comb_rules: 6,
            },
            PlanetType::D => PlanetConstraints {
                n_energy_cells: 5,
                unbounded_gen_rules: true,
                can_have_rocket: false,
                n_comb_rules: 0,
            },
        }
    }
}

/// What the contracts say of the state of a planet.
pub struct PlanetStateView {
    /// The id of the planet.
    pub id: u32,
    /// The charge of each energy cell.
    pub cells: Seq<bool>,
    /// Whether a rocket is built and ready.
    pub has_rocket: bool,
    /// Whether the planet may hold a rocket.
    pub can_have_rocket: bool,
}

impl PlanetStateView {
    /// A planet that holds a rocket is one that may hold it.
    pub open spec fn wf(self) -> bool {
        self.has_rocket ==> self.can_have_rocket
    }

    /// The state `self` belongs to the same planet as the earlier state
    /// `before`: the id, the number of cells and the permission to hold a
    /// rocket are those of `before`, and a rocket has appeared only where
    /// it is permitted.
    pub open spec fn evolves_from(self, before: PlanetStateView) -> bool {
        &&& self.id == before.id
        &&& self.cells.len() == before.cells.len()
        &&& self.can_have_rocket == before.can_have_rocket
        &&& before.wf() ==> self.wf()
    }
}

/// `i` is the first cell of `cells` with the charge `charge`.
pub open spec fn is_first_cell(cells: Seq<bool>, charge: bool, i: int) -> bool {
    &&& 0 <= i < cells.len()
    &&& cells[i] == charge
    &&& forall|j: int| 0 <= j < i ==> cells[j] != charge
}

/// No cell of `cells` has the charge `charge`.
pub open spec fn no_cell(cells: Seq<bool>, charge: bool) -> bool {
    forall|j: int| 0 <= j < cells.len() ==> cells[j] != charge
}

/// The number of charged cells among `cells`.
pub open spec fn charged_count(cells: Seq<bool>) -> nat
    decreases cells.len(),
{
    if cells.len() == 0 {
        0
    } else {
        charged_count(cells.drop_last()) + if cells.last() {
            1nat
        } else {
            0nat
        }
    }
}

/// The text of the error that building a rocket reports on a planet that
/// may not hold one.
pub open spec fn rocket_forbidden_message() -> Seq<char> {
    "This planet type can't have rockets."@
}

/// The text of the error that building a rocket reports on a planet that
/// already holds one.
pub open spec fn rocket_present_message() -> Seq<char> {
    "This planet already has a rocket."@
}

/// `std::slice::IterMut`, the iterator that hands out each element of a
/// slice for change in place. Nothing is claimed of it.
#[verifier::external_type_specification]
#[verifier::external_body]
#[verifier::reject_recursive_types(T)]
pub struct ExIterMut<'a, T: 'a>(IterMut<'a, T>);

/// The charge of each cell of `cells`.
pub open spec fn charges(cells: Seq<EnergyCell>) -> Seq<bool> {
    Seq::new(cells.len(), |i: int| cells[i]@)
}

/// Replacing the cell at the index `i` replaces its charge and no other.
proof fn lemma_charges_update(cells: Seq<EnergyCell>, i: int)
    requires
        0 <= i < cells.len(),
    ensures
        forall|cell: EnergyCell| #[trigger]
            charges(cells.update(i, cell)) == charges(cells).update(i, cell@),
{
    assert forall|cell: EnergyCell| #[trigger]
        charges(cells.update(i, cell)) == charges(cells).update(i, cell@) by {
        assert(charges(cells.update(i, cell)) =~= charges(cells).update(i, cell@));
    }
}

/// The state of a planet: its id, its energy cells and its rocket, if it
/// holds one.
///
/// A state is made with its planet and lives in it. Code outside this
/// library meets one only through a reference that the planet hands out,
/// and so can change it only by the methods below.
pub struct PlanetState {
    id: u32,
    energy_cells: Vec<EnergyCell>,
    rocket: Option<Rocket>,
    can_have_rocket: bool,
}

impl View for PlanetState {
    type V = PlanetStateView;

    closed spec fn view(&self) -> PlanetStateView {
        PlanetStateView {
            id: self.id,
            cells: charges(self.energy_cells@),
            has_rocket: self.rocket is Some,
            can_have_rocket: self.can_have_rocket,
        }
    }
}

impl PlanetState {
    /// Creates the state of a new planet of the kind `planet_type`: all its
    /// cells are empty and it holds no rocket.
    pub(crate) fn new(id: u32, planet_type: PlanetType) -> (state: PlanetState)
        ensures
            state@ == (PlanetStateView {
                id,
                cells: Seq::new(planet_type.limits().n_energy_cells as nat, |i: int| false),
                has_rocket: false,
                can_have_rocket: planet_type.limits().can_have_rocket,
            }),
    {
        let constraints = planet_type.constraints();
        let mut energy_cells: Vec<EnergyCell> = Vec::new();
        let mut i: usize = 0;
        while i < constraints.n_energy_cells
            invariant
                i <= constraints.n_energy_cells,
                energy_cells@.len() == i,
                forall|j: int| 0 <= j < i ==> !(#[trigger] energy_cells@[j])@,
            decreases constraints.n_energy_cells - i,
        {
            energy_cells.push(EnergyCell::new());
            i += 1;
        }
        let state = PlanetState {
            id,
            energy_cells,
            rocket: None,
            can_have_rocket: constraints.can_have_rocket,
        };
        assert(state@.cells =~= Seq::new(state@.cells.len(), |i: int| false));
        state
    }

    /// Returns the id of the planet.
    pub fn id(&self) -> (id: u32)
        ensures
            id == self@.id,
    {
        self.id
    }

    /// Returns the cell at the index `i`.
    pub fn cell(&self, i: usize) -> (cell: &EnergyCell)
        requires
            i < self@.cells.len(),
        ensures
            cell@ == self@.cells[i as int],
    {
        &self.energy_cells[i]
    }

    /// Returns the cell at the index `i`, to be charged or discharged in
    /// place. Nothing else of the state changes.
    pub fn cell_mut(&mut self, i: usize) -> (cell: &mut EnergyCell)
        requires
            i < old(self)@.cells.len(),
        ensures
            cell@ == old(self)@.cells[i as int],
            final(self)@ == (PlanetStateView {
                cells: old(self)@.cells.update(i as int, final(cell)@),
                ..old(self)@
            }),
            final(self)@.evolves_from(old(self)@),
    {
        proof {
            lemma_charges_update(self.energy_cells@, i as int);
        }
        &mut self.energy_cells[i]
    }

    /// Returns the number of cells.
    pub fn cells_count(&self) -> (count: usize)
        ensures
            count == self@.cells.len(),
    {
        self.energy_cells.len()
    }

    /// Returns an iterator over the cells, in their order.
    pub fn cells_iter(&self) -> (cells: Iter<'_, EnergyCell>)
        ensures
            charges(into_iter_elts(cells)) == self@.cells,
    {
        self.energy_cells.as_slice().iter()
    }

    /// Returns an iterator that hands out each cell, in their order, to be
    /// charged or discharged in place.
    ///
    /// This is `iter_mut` of the standard library on the cells, which Verus
    /// does not look into. The contract claims what a borrow of the
    /// elements of a vector cannot undo: once the iterator is gone the
    /// planet has as many cells as before, and nothing but their charge
    /// has changed.
    #[verifier::external_body]
    pub fn cells_iter_mut(&mut self) -> (cells: IterMut<'_, EnergyCell>)
        ensures
            final(self)@ == (PlanetStateView { cells: final(self)@.cells, ..old(self)@ }),
            final(self)@.cells.len() == old(self)@.cells.len(),
    {
        self.energy_cells.iter_mut()
    }

    /// Charges the first empty cell with the sunray. If every cell is
    /// charged, nothing changes and the sunray comes back.
    pub fn charge_cell(&mut self, sunray: Sunray) -> (leftover: Option<Sunray>)
        ensures
            match leftover {
                None => exists|i: int|
                    is_first_cell(old(self)@.cells, false, i) && final(self)@ == (PlanetStateView {
                        cells: old(self)@.cells.update(i, true),
                        ..old(self)@
                    }),
                Some(unused) => unused == sunray && no_cell(old(self)@.cells, false) && final(self)@
                    == old(self)@,
            },
            final(self)@.evolves_from(old(self)@),
    {
        match self.empty_cell() {
            None => Some(sunray),
            Some((cell, i)) => {
                cell.charge(sunray);
                None
            },
        }
    }

    /// Returns the first empty cell, to be charged in place, and its index,
    /// or `None` if every cell is charged.
    pub fn empty_cell(&mut self) -> (found: Option<(&mut EnergyCell, usize)>)
        ensures
            match found {
                Some((cell, i)) => {
                    &&& is_first_cell(old(self)@.cells, false, i as int)
                    &&& !cell@
                    &&& final(self)@ == (PlanetStateView {
                        cells: old(self)@.cells.update(i as int, final(cell)@),
                        ..old(self)@
                    })
                },
                None => no_cell(old(self)@.cells, false) && final(self)@ == old(self)@,
            },
            final(self)@.evolves_from(old(self)@),
    {
        let mut i: usize = 0;
        while i < self.energy_cells.len()
            invariant
                i <= self.energy_cells.len(),
                *self == *old(self),
                forall|j: int| 0 <= j < i ==> self@.cells[j],
            decreases self.energy_cells.len() - i,
        {
            if !self.energy_cells[i].is_charged() {
                proof {
                    lemma_charges_update(self.energy_cells@, i as int);
                }
                return Some((&mut self.energy_cells[i], i));
            }
            i += 1;
        }
        None
    }

    /// Returns the first charged cell, to be discharged in place, and its
    /// index, or `None` if every cell is empty.
    pub fn full_cell(&mut self) -> (found: Option<(&mut EnergyCell, usize)>)
        ensures
            match found {
                Some((cell, i)) => {
                    &&& is_first_cell(old(self)@.cells, true, i as int)
                    &&& cell@
                    &&& final(self)@ == (PlanetStateView {
                        cells: old(self)@.cells.update(i as int, final(cell)@),
                        ..old(self)@
                    })
                },
                None => no_cell(old(self)@.cells, true) && final(self)@ == old(self)@,
            },
            final(self)@.evolves_from(old(self)@),
    {
        let mut i: usize = 0;
        while i < self.energy_cells.len()
            invariant
                i <= self.energy_cells.len(),
                *self == *old(self),
                forall|j: int| 0 <= j < i ==> !self@.cells[j],
            decreases self.energy_cells.len() - i,
        {
            if self.energy_cells[i].is_charged() {
                proof {
                    lemma_charges_update(self.energy_cells@, i as int);
                }
                return Some((&mut self.energy_cells[i], i));
            }
            i += 1;
        }
        None
    }

    /// Tells whether the planet may hold a rocket.
    pub fn can_have_rocket(&self) -> (allowed: bool)
        ensures
            allowed == self@.can_have_rocket,
    {
        self.can_have_rocket
    }

    /// Tells whether a rocket is built and ready.
    pub fn has_rocket(&self) -> (ready: bool)
        ensures
            ready == self@.has_rocket,
    {
        self.rocket.is_some()
    }

    /// Takes the rocket out of the planet, if it holds one.
    pub fn take_rocket(&mut self) -> (rocket: Option<Rocket>)
        ensures
            rocket.is_some() == old(self)@.has_rocket,
            final(self)@ == (PlanetStateView { has_rocket: false, ..old(self)@ }),
            final(self)@.evolves_from(old(self)@),
    {
        self.rocket.take()
    }

    /// Builds a rocket from the charge of the cell at the index `i` and
    /// keeps it in the planet.
    ///
    /// Fails with `rocket_forbidden_message()` on a planet that may not
    /// hold a rocket, and with `rocket_present_message()` on one that
    /// already holds one; neither changes anything. Otherwise the cell is
    /// discharged, and the rocket is built exactly when the cell held a
    /// charge.
    pub fn build_rocket(&mut self, i: usize) -> (result: Result<(), String>)
        requires
            old(self)@.can_have_rocket && !old(self)@.has_rocket ==> i < old(self)@.cells.len(),
        ensures
            result.is_ok() <==> old(self)@.can_have_rocket && !old(self)@.has_rocket && old(self)@.cells[i as int],
            !old(self)@.can_have_rocket ==> final(self)@ == old(self)@ && result.unwrap_err()@
                == rocket_forbidden_message(),
            old(self)@.can_have_rocket && old(self)@.has_rocket ==> final(self)@ == old(self)@
                && result.unwrap_err()@ == rocket_present_message(),
            old(self)@.can_have_rocket && !old(self)@.has_rocket ==> final(self)@
                == (PlanetStateView {
                cells: old(self)@.cells.update(i as int, false),
                has_rocket: old(self)@.cells[i as int],
                ..old(self)@
            }),
            old(self)@.can_have_rocket && !old(self)@.has_rocket && !old(self)@.cells[i as int]
                ==> result.unwrap_err()@ == not_charged_message(),
            final(self)@.evolves_from(old(self)@),
    {
        if !self.can_have_rocket {
            Err(String::from_str("This planet type can't have rockets."))
        } else if self.has_rocket() {
            Err(String::from_str("This planet already has a rocket."))
        } else {
            proof {
                lemma_charges_update(self.energy_cells@, i as int);
            }
            let built = Rocket::new(&mut self.energy_cells[i]);
            match built {
                Ok(rocket) => {
                    self.rocket = Some(rocket);
                    Ok(())
                },
                Err(e) => Err(e),
            }
        }
    }

    /// Returns an overview of the state: the charge of each cell, the
    /// number of charged cells, and whether a rocket is ready.
    pub fn to_dummy(&self) -> (overview: DummyPlanetState)
        ensures
            overview.energy_cells@ == self@.cells,
            overview.charged_cells_count == charged_count(self@.cells),
            overview.has_rocket == self@.has_rocket,
    {
        let mut energy_cells: Vec<bool> = Vec::new();
        let mut charged_cells_count: usize = 0;
        let mut i: usize = 0;
        while i < self.energy_cells.len()
            invariant
                i <= self.energy_cells.len(),
                energy_cells@ == self@.cells.take(i as int),
                charged_cells_count == charged_count(self@.cells.take(i as int)),
                charged_cells_count <= i,
            decreases self.energy_cells.len() - i,
        {
            let charged = self.energy_cells[i].is_charged();
            proof {
                let next = self@.cells.take(i + 1);
                assert(next.drop_last() =~= self@.cells.take(i as int));
                assert(next =~= self@.cells.take(i as int).push(charged));
            }
            energy_cells.push(charged);
            if charged {
                charged_cells_count += 1;
            }
            i += 1;
        }
        assert(self@.cells.take(i as int) =~= self@.cells);
        DummyPlanetState { energy_cells, charged_cells_count, has_rocket: self.has_rocket() }
    }
}

/// An overview of the state of a planet.
#[derive(Debug, Clone)]
pub struct DummyPlanetState {
    /// The charge of each cell, in the order of the cells.
    pub energy_cells: Vec<bool>,
    /// The number of charged cells.
    pub charged_cells_count: usize,
    /// Whether the planet holds a rocket.
    pub has_rocket: bool,
}

/// The behaviour of a planet, supplied by its user.
///
/// The planet calls these methods when the matching message arrives while
/// it is running. A method may charge and discharge cells, build and take
/// the rocket, and make resources; whatever it does, the state it leaves
/// must still be that of the same planet (`PlanetStateView::evolves_from`).
/// The methods of `PlanetState` all keep to that, and they are the only
/// way to change a state from outside this library.
pub trait PlanetAI: Send {
    /// Called for each sunray. The handler is expected to charge a cell
    /// with it.
    fn handle_sunray(
        &mut self,
        state: &mut PlanetState,
        generator: &Generator,
        combinator: &Combinator,
        sunray: Sunray,
    )
        ensures
            final(state)@.evolves_from(old(state)@),
    ;

    /// Called for each asteroid. The planet survives exactly when the
    /// handler returns a rocket.
    fn handle_asteroid(
        &mut self,
        state: &mut PlanetState,
        generator: &Generator,
        combinator: &Combinator,
    ) -> (rocket: Option<Rocket>)
        ensures
            final(state)@.evolves_from(old(state)@),
    ;

    /// Called when the orchestrator asks for an overview of the state.
    fn handle_internal_state_req(
        &mut self,
        state: &mut PlanetState,
        generator: &Generator,
        combinator: &Combinator,
    ) -> (overview: DummyPlanetState)
        ensures
            final(state)@.evolves_from(old(state)@),
    ;

    /// Called for each message of an explorer that is on the planet. What
    /// the handler returns is sent to that explorer.
    fn handle_explorer_msg(
        &mut self,
        state: &mut PlanetState,
        generator: &Generator,
        combinator: &Combinator,
        msg: ExplorerToPlanet,
    ) -> (reply: Option<PlanetToExplorer>)
        ensures
            final(state)@.evolves_from(old(state)@),
    ;

    /// Called when the explorer `explorer_id` has landed.
    fn on_explorer_arrival(
        &mut self,
        state: &mut PlanetState,
        generator: &Generator,
        combinator: &Combinator,
        explorer_id: u32,
    )
        ensures
            final(state)@.evolves_from(old(state)@),
    {
    }

    /// Called when the explorer `explorer_id` has left.
    fn on_explorer_departure(
        &mut self,
        state: &mut PlanetState,
        generator: &Generator,
        combinator: &Combinator,
        explorer_id: u32,
    )
        ensures
            final(state)@.evolves_from(old(state)@),
    {
    }

    /// Called when a stopped planet starts. A start message that reaches a
    /// running planet does not lead here.
    fn on_start(&mut self, state: &PlanetState, generator: &Generator, combinator: &Combinator) {
    }

    /// Called when a running planet stops. A stop message that reaches a
    /// stopped planet does not lead here.
    fn on_stop(&mut self, state: &PlanetState, generator: &Generator, combinator: &Combinator) {
    }
}

/// A boxed behaviour is a behaviour: every call is handed on to the value
/// in the box. This is what lets a planet hold a `Box<dyn PlanetAI>`.
impl<T: PlanetAI + ?Sized> PlanetAI for Box<T> {
    fn handle_sunray(
        &mut self,
        state: &mut PlanetState,
        generator: &Generator,
        combinator: &Combinator,
        sunray: Sunray,
    ) {
        (**self).handle_sunray(state, generator, combinator, sunray)
    }

    fn handle_asteroid(
        &mut self,
        state: &mut PlanetState,
        generator: &Generator,
        combinator: &Combinator,
    ) -> (rocket: Option<Rocket>) {
        (**self).handle_asteroid(state, generator, combinator)
    }

    fn handle_internal_state_req(
        &mut self,
        state: &mut PlanetState,
        generator: &Generator,
        combinator: &Combinator,
    ) -> (overview: DummyPlanetState) {
        (**self).handle_internal_state_req(state, generator, combinator)
    }

    fn handle_explorer_msg(
        &mut self,
        state: &mut PlanetState,
        generator: &Generator,
        combinator: &Combinator,
        msg: ExplorerToPlanet,
    ) -> (reply: Option<PlanetToExplorer>) {
        (**self).handle_explorer_msg(state, generator, combinator, msg)
    }

    fn on_explorer_arrival(
        &mut self,
        state: &mut PlanetState,
        generator: &Generator,
        combinator: &Combinator,
        explorer_id: u32,
    ) {
        (**self).on_explorer_arrival(state, generator, combinator, explorer_id)
    }

    fn on_explorer_departure(
        &mut self,
        state: &mut PlanetState,
        generator: &Generator,
        combinator: &Combinator,
        explorer_id: u32,
    ) {
        (**self).on_explorer_departure(state, generator, combinator, explorer_id)
    }

    fn on_start(&mut self, state: &PlanetState, generator: &Generator, combinator: &Combinator) {
        (**self).on_start(state, generator, combinator)
    }

    fn on_stop(&mut self, state: &PlanetState, generator: &Generator, combinator: &Combinator) {
        (**self).on_stop(state, generator, combinator)
    }
}

/// Where a planet stands in its life.
#[derive(Debug, Clone, Copy, PartialEq, Eq, Structural)]
pub enum PlanetStatus {
    /// The planet waits to be started. Every planet begins here.
    Stopped,
    /// The planet acts on its messages.
    Running,
    /// The planet is gone: it was killed, it lost to an asteroid, or the
    /// orchestrator has hung up.
    Terminated,
}

/// What the contracts say of a planet.
pub struct PlanetView {
    /// The state of the planet.
    pub state: PlanetStateView,
    /// The kind of the planet.
    pub planet_type: PlanetType,
    /// The basic resources that the planet can make.
    pub generator: Set<BasicResourceType>,
    /// The complex resources that the planet can make.
    pub combinator: Set<ComplexResourceType>,
    /// Where the planet stands in its life.
    pub status: PlanetStatus,
    /// The explorers on the planet, each with the channel on which the
    /// planet answers it.
    pub explorers: Map<u32, Sender<PlanetToExplorer>>,
    /// The channel on which the orchestrator speaks to the planet.
    pub from_orchestrator: Receiver<OrchestratorToPlanet>,
    /// The channel on which the planet answers the orchestrator.
    pub to_orchestrator: Sender<PlanetToOrchestrator>,
    /// The channel on which all explorers speak to the planet.
    pub from_explorers: Receiver<ExplorerToPlanet>,
}

impl PlanetView {
    /// The planet is within the limits of its kind: it has the cells and
    /// the rocket permission of its kind, at least one generation rule, and
    /// no more rules than its kind allows.
    pub open spec fn wf(self) -> bool {
        let limits = self.planet_type.limits();
        &&& self.state.cells.len() == limits.n_energy_cells
        &&& self.state.can_have_rocket == limits.can_have_rocket
        &&& self.state.wf()
        &&& self.generator.finite()
        &&& self.combinator.finite()
        &&& self.generator.len() >= 1
        &&& !limits.unbounded_gen_rules ==> self.generator.len() <= 1
        &&& self.combinator.len() <= limits.n_comb_rules
    }

    /// `self` is `before` after a call of the user's behaviour: only the
    /// state may differ, and it is still that of the same planet.
    pub open spec fn differs_in_state_from(self, before: PlanetView) -> bool {
        &&& self == (PlanetView { state: self.state, ..before })
        &&& self.state.evolves_from(before.state)
    }
}

/// A turn in the life of a planet of which its user's behaviour is told.
#[derive(Debug, Clone, Copy, PartialEq, Eq, Structural)]
pub enum LifecycleHook {
    /// The planet was stopped and has started.
    Start,
    /// The planet was running and has stopped.
    Stop,
}

/// What a planet does in answer to one message of the orchestrator.
#[derive(Debug)]
pub struct OrchestratorStep {
    /// The message to send to the orchestrator, if there is one.
    pub ack: Option<PlanetToOrchestrator>,
    /// What to tell the user's behaviour with `Planet::run_hook` once the
    /// message is sent, if the planet has started or stopped.
    pub hook: Option<LifecycleHook>,
    /// Whether the planet is gone after this message.
    pub terminated: bool,
}

/// What a planet answers to one message of an explorer.
#[derive(Debug)]
pub struct ExplorerReply {
    /// The explorer to answer, on its own channel.
    pub explorer_id: u32,
    /// The message to send.
    pub message: PlanetToExplorer,
}

/// Whether a planet with the status `status` calls the user's behaviour
/// for the message `msg` of the orchestrator.
pub open spec fn consults_ai(status: PlanetStatus, msg: OrchestratorToPlanet) -> bool {
    match status {
        PlanetStatus::Terminated => false,
        PlanetStatus::Stopped => false,
        PlanetStatus::Running => !(msg is StartPlanetAI) && !(msg is StopPlanetAI) && !(msg
            is KillPlanet),
    }
}

/// The step of a planet for one message of the orchestrator: from `pre` the
/// message `msg` leads to `post` and to `step`.
///
/// A stopped planet only starts or dies, and answers `Stopped` to anything
/// else without acting on it. A running planet acts on every message but a
/// second start. A planet that is gone does nothing. The step names a hook
/// exactly when the planet goes from stopped to running or back.
pub open spec fn orchestrator_transition(
    pre: PlanetView,
    msg: OrchestratorToPlanet,
    post: PlanetView,
    step: OrchestratorStep,
) -> bool {
    let planet_id = pre.state.id;
    &&& step.hook == if pre.status is Stopped && msg is StartPlanetAI {
        Some(LifecycleHook::Start)
    } else if pre.status is Running && msg is StopPlanetAI {
        Some(LifecycleHook::Stop)
    } else {
        None
    }
    &&& match pre.status {
        PlanetStatus::Terminated => post == pre && step.ack is None && step.terminated,
        PlanetStatus::Stopped => match msg {
            OrchestratorToPlanet::StartPlanetAI => {
                &&& post == (PlanetView { status: PlanetStatus::Running, ..pre })
                &&& step.ack == Some(PlanetToOrchestrator::StartPlanetAIResult { planet_id })
                &&& !step.terminated
            },
            OrchestratorToPlanet::KillPlanet => {
                &&& post == (PlanetView { status: PlanetStatus::Terminated, ..pre })
                &&& step.ack == Some(PlanetToOrchestrator::KillPlanetResult { planet_id })
                &&& step.terminated
            },
            _ => {
                &&& post == pre
                &&& step.ack == Some(PlanetToOrchestrator::Stopped { planet_id })
                &&& !step.terminated
            },
        },
        PlanetStatus::Running => match msg {
            OrchestratorToPlanet::StartPlanetAI => {
                &&& post == pre
                &&& step.ack is None
                &&& !step.terminated
            },
            OrchestratorToPlanet::StopPlanetAI => {
                &&& post == (PlanetView { status: PlanetStatus::Stopped, ..pre })
                &&& step.ack == Some(PlanetToOrchestrator::StopPlanetAIResult { planet_id })
                &&& !step.terminated
            },
            OrchestratorToPlanet::KillPlanet => {
                &&& post == (PlanetView { status: PlanetStatus::Terminated, ..pre })
                &&& step.ack == Some(PlanetToOrchestrator::KillPlanetResult { planet_id })
                &&& step.terminated
            },
            OrchestratorToPlanet::Sunray(_) => {
                &&& post.differs_in_state_from(pre)
                &&& step.ack == Some(PlanetToOrchestrator::SunrayAck { planet_id })
                &&& !step.terminated
            },
            OrchestratorToPlanet::Asteroid(_) => {
                &&& step.ack matches Some(
                    PlanetToOrchestrator::AsteroidAck { planet_id: acked, rocket },
                )
                &&& acked == planet_id
                &&& step.terminated == (rocket is None)
                &&& post.differs_in_state_from(
                    PlanetView {
                        status: if rocket is None {
                            PlanetStatus::Terminated
                        } else {
                            PlanetStatus::Running
                        },
                        ..pre
                    },
                )
            },
            OrchestratorToPlanet::InternalStateRequest => {
                &&& post.differs_in_state_from(pre)
                &&& step.ack matches Some(
                    PlanetToOrchestrator::InternalStateResponse { planet_id: acked, .. },
                )
                &&& acked == planet_id
                &&& !step.terminated
            },
            OrchestratorToPlanet::IncomingExplorerRequest { explorer_id, new_mpsc_sender } => {
                &&& post.differs_in_state_from(
                    PlanetView { explorers: pre.explorers.insert(explorer_id, new_mpsc_sender), ..pre },
                )
                &&& step.ack == Some(
                    PlanetToOrchestrator::IncomingExplorerResponse {
                        planet_id,
                        explorer_id,
                        res: Ok(()),
                    },
                )
                &&& !step.terminated
            },
            OrchestratorToPlanet::OutgoingExplorerRequest { explorer_id } => {
                &&& post.differs_in_state_from(
                    PlanetView { explorers: pre.explorers.remove(explorer_id), ..pre },
                )
                &&& step.ack == Some(
                    PlanetToOrchestrator::OutgoingExplorerResponse {
                        planet_id,
                        explorer_id,
                        res: Ok(()),
                    },
                )
                &&& !step.terminated
            },
        },
    }
}

/// How the run of a planet goes on after a step for a message of the
/// orchestrator: `terminated` is what the step said, `delivered` whether
/// its answer could be sent, and `exit` the result with which the run
/// ends, or `None` if it goes on.
pub open spec fn run_exit(terminated: bool, delivered: bool, exit: Option<Result<(), String>>) -> bool {
    if !delivered {
        exit matches Some(Err(error)) && error@ == orchestrator_disconnected_message()
    } else if terminated {
        exit == Some(Ok::<(), String>(()))
    } else {
        exit is None
    }
}

/// The step of a planet for one message of an explorer: from `pre` the
/// message `msg` leads to `post` and to `reply`.
///
/// Only an explorer that is on the planet is answered, and only on its own
/// channel. A stopped planet answers `Stopped` without acting on the
/// message; a running planet answers what the user's behaviour returns.
pub open spec fn explorer_transition(
    pre: PlanetView,
    msg: ExplorerToPlanet,
    post: PlanetView,
    reply: Option<ExplorerReply>,
) -> bool {
    let explorer_id = msg.sender_id();
    if pre.status is Terminated || !pre.explorers.contains_key(explorer_id) {
        post == pre && reply is None
    } else if pre.status is Stopped {
        post == pre && reply == Some(
            ExplorerReply { explorer_id, message: PlanetToExplorer::Stopped },
        )
    } else {
        &&& post.differs_in_state_from(pre)
        &&& reply matches Some(r) ==> r.explorer_id == explorer_id
    }
}

/// The text of the error that construction reports for an empty list of
/// generation rules.
pub open spec fn no_gen_rules_message() -> Seq<char> {
    "gen_rules is empty"@
}

/// The text of the error that construction reports for more than one
/// generation rule on a planet whose kind allows one.
pub open spec fn too_many_gen_rules_message(planet_type: PlanetType) -> Seq<char> {
    match planet_type {
        PlanetType::A => "Too many generation rules (Planet type A is limited to 1)"@,
        PlanetType::B => "Too many generation rules (Planet type B is limited to 1)"@,
        PlanetType::C => "Too many generation rules (Planet type C is limited to 1)"@,
        PlanetType::D => "Too many generation rules (Planet type D is limited to 1)"@,
    }
}

/// The text of the error that construction reports for more combination
/// rules than the kind of the planet allows.
pub open spec fn too_many_comb_rules_message(planet_type: PlanetType) -> Seq<char> {
    match planet_type {
        PlanetType::A => "Too many combination rules (Planet type A is limited to 0)"@,
        PlanetType::B => "Too many combination rules (Planet type B is limited to 1)"@,
        PlanetType::C => "Too many combination rules (Planet type C is limited to 6)"@,
        PlanetType::D => "Too many combination rules (Planet type D is limited to 0)"@,
    }
}

/// The text of the error that ends a planet whose orchestrator has hung up.
pub open spec fn orchestrator_disconnected_message() -> Seq<char> {
    "Orchestrator disconnected."@
}

/// The character of the decimal digit `d`.
pub open spec fn digit(d: nat) -> char {
    if d == 0 {
        '0'
    } else if d == 1 {
        '1'
    } else if d == 2 {
        '2'
    } else if d == 3 {
        '3'
    } else if d == 4 {
        '4'
    } else if d == 5 {
        '5'
    } else if d == 6 {
        '6'
    } else if d == 7 {
        '7'
    } else if d == 8 {
        '8'
    } else {
        '9'
    }
}

/// The number `n` written in decimal, without leading zeros.
pub open spec fn decimal(n: nat) -> Seq<char>
    decreases n,
{
    if n < 10 {
        seq![digit(n)]
    } else {
        decimal(n / 10).push(digit(n % 10))
    }
}

/// The text of the error that ends a running planet when its answer to
/// the explorer `explorer_id` could not be sent.
pub open spec fn explorer_disconnected_message(explorer_id: u32) -> Seq<char> {
    "Explorer "@ + decimal(explorer_id as nat) + " disconnected."@
}

/// Why a planet of the kind `planet_type` cannot be built with `n_gen_rules`
/// generation rules and `n_comb_rules` combination rules, or `None` if it
/// can. The generation rules are checked first.
pub open spec fn construction_error(
    planet_type: PlanetType,
    n_gen_rules: nat,
    n_comb_rules: nat,
) -> Option<Seq<char>> {
    let limits = planet_type.limits();
    if n_gen_rules == 0 {
        Some(no_gen_rules_message())
    } else if !limits.unbounded_gen_rules && n_gen_rules > 1 {
        Some(too_many_gen_rules_message(planet_type))
    } else if n_comb_rules > limits.n_comb_rules {
        Some(too_many_comb_rules_message(planet_type))
    } else {
        None
    }
}

/// The set of the rules of a list: it is finite, no larger than the list,
/// and not empty unless the list is.
proof fn lemma_rules_as_set<T>(rules: Seq<T>)
    ensures
        rules.to_set().finite(),
        rules.to_set().len() <= rules.len(),
        rules.len() > 0 ==> rules.to_set().len() >= 1,
{
    vstd::seq_lib::seq_to_set_is_finite(rules);
    rules.lemma_cardinality_of_set();
    if rules.len() > 0 {
        assert(rules.to_set().contains(rules[0]));
        if rules.to_set().len() == 0 {
            rules.to_set().lemma_len0_is_empty();
            assert(Set::<T>::empty().contains(rules[0]));
        }
    }
}

/// A planet stays within the limits of its kind for as long as it lives:
/// a step for a message of the orchestrator changes neither its id, its
/// kind, its recipes, the number of its cells nor its permission to hold a
/// rocket.
pub proof fn lemma_orchestrator_step_keeps_limits(
    pre: PlanetView,
    msg: OrchestratorToPlanet,
    post: PlanetView,
    step: OrchestratorStep,
)
    requires
        orchestrator_transition(pre, msg, post, step),
    ensures
        post.state.id == pre.state.id,
        post.planet_type == pre.planet_type,
        post.generator == pre.generator,
        post.combinator == pre.combinator,
        post.state.cells.len() == pre.state.cells.len(),
        post.state.can_have_rocket == pre.state.can_have_rocket,
        pre.wf() ==> post.wf(),
{
}

/// A planet stays within the limits of its kind for as long as it lives:
/// a step for a message of an explorer changes neither its id, its kind,
/// its recipes, the number of its cells, its permission to hold a rocket,
/// its status nor the explorers on it.
pub proof fn lemma_explorer_step_keeps_limits(
    pre: PlanetView,
    msg: ExplorerToPlanet,
    post: PlanetView,
    reply: Option<ExplorerReply>,
)
    requires
        explorer_transition(pre, msg, post, reply),
    ensures
        post == (PlanetView { state: post.state, ..pre }),
        post.state.id == pre.state.id,
        post.state.cells.len() == pre.state.cells.len(),
        post.state.can_have_rocket == pre.state.can_have_rocket,
        pre.wf() ==> post.wf(),
{
}

/// A stopped planet answers `Stopped` to every message of the orchestrator
/// but start and kill, and nothing of it changes.
pub proof fn lemma_stopped_planet_answers_stopped(
    pre: PlanetView,
    msg: OrchestratorToPlanet,
    post: PlanetView,
    step: OrchestratorStep,
)
    requires
        pre.status is Stopped,
        !(msg is StartPlanetAI),
        !(msg is KillPlanet),
        orchestrator_transition(pre, msg, post, step),
    ensures
        post == pre,
        step.ack == Some(PlanetToOrchestrator::Stopped { planet_id: pre.state.id }),
        !step.terminated,
{
}

/// A stopped planet answers `Stopped` to every message of an explorer that
/// is on it, and nothing of it changes.
pub proof fn lemma_stopped_planet_answers_explorers_stopped(
    pre: PlanetView,
    msg: ExplorerToPlanet,
    post: PlanetView,
    reply: Option<ExplorerReply>,
)
    requires
        pre.status is Stopped,
        pre.explorers.contains_key(msg.sender_id()),
        explorer_transition(pre, msg, post, reply),
    ensures
        post == pre,
        reply == Some(
            ExplorerReply { explorer_id: msg.sender_id(), message: PlanetToExplorer::Stopped },
        ),
{
}

/// Once a running planet has been told that an explorer leaves, a message
/// of that explorer gets no reply and changes nothing.
pub proof fn lemma_departed_explorer_gets_no_reply(
    pre: PlanetView,
    explorer_id: u32,
    left: PlanetView,
    step: OrchestratorStep,
    msg: ExplorerToPlanet,
    post: PlanetView,
    reply: Option<ExplorerReply>,
)
    requires
        pre.status is Running,
        orchestrator_transition(
            pre,
            OrchestratorToPlanet::OutgoingExplorerRequest { explorer_id },
            left,
            step,
        ),
        msg.sender_id() == explorer_id,
        explorer_transition(left, msg, post, reply),
    ensures
        !left.explorers.contains_key(explorer_id),
        reply is None,
        post == left,
{
}

/// An explorer that is not on the planet stays away until the orchestrator
/// announces it: no other message of the orchestrator, and no message of
/// an explorer, brings it onto the planet.
pub proof fn lemma_absent_explorer_stays_absent(
    pre: PlanetView,
    explorer_id: u32,
    msg: OrchestratorToPlanet,
    post: PlanetView,
    step: OrchestratorStep,
)
    requires
        !pre.explorers.contains_key(explorer_id),
        orchestrator_transition(pre, msg, post, step),
        msg matches OrchestratorToPlanet::IncomingExplorerRequest { explorer_id: arriving, .. }
            ==> arriving != explorer_id,
    ensures
        !post.explorers.contains_key(explorer_id),
{
}

/// A kill message ends a planet that is stopped or running: the planet
/// answers `KillPlanetResult` and is gone, and once that answer is sent
/// its run ends with `Ok`.
pub proof fn lemma_kill_ends_the_planet(
    pre: PlanetView,
    post: PlanetView,
    step: OrchestratorStep,
    exit: Option<Result<(), String>>,
)
    requires
        !(pre.status is Terminated),
        orchestrator_transition(pre, OrchestratorToPlanet::KillPlanet, post, step),
        run_exit(step.terminated, true, exit),
    ensures
        step.terminated,
        step.ack == Some(PlanetToOrchestrator::KillPlanetResult { planet_id: pre.state.id }),
        post == (PlanetView { status: PlanetStatus::Terminated, ..pre }),
        exit == Some(Ok::<(), String>(())),
{
}

/// A planet can be built exactly when it has a generation rule, no more
/// than one where its kind bounds them, and no more combination rules than
/// its kind allows. In particular more generation rules than the bound are
/// always refused.
pub proof fn lemma_construction_respects_the_limits(
    planet_type: PlanetType,
    n_gen_rules: nat,
    n_comb_rules: nat,
)
    ensures
        construction_error(planet_type, n_gen_rules, n_comb_rules) is None <==> {
            &&& n_gen_rules >= 1
            &&& planet_type.limits().unbounded_gen_rules || n_gen_rules <= 1
            &&& n_comb_rules <= planet_type.limits().n_comb_rules
        },
        !planet_type.limits().unbounded_gen_rules && n_gen_rules > 1 ==> construction_error(
            planet_type,
            n_gen_rules,
            n_comb_rules,
        ) is Some,
{
}

fn digit_text(d: u32) -> (text: &'static str)
    requires
        d < 10,
    ensures
        text@ == seq![digit(d as nat)],
{
    proof {
        reveal_strlit("0");
        reveal_strlit("1");
        reveal_strlit("2");
        reveal_strlit("3");
        reveal_strlit("4");
        reveal_strlit("5");
        reveal_strlit("6");
        reveal_strlit("7");
        reveal_strlit("8");
        reveal_strlit("9");
    }
    let text = if d == 0 {
        "0"
    } else if d == 1 {
        "1"
    } else if d == 2 {
        "2"
    } else if d == 3 {
        "3"
    } else if d == 4 {
        "4"
    } else if d == 5 {
        "5"
    } else if d == 6 {
        "6"
    } else if d == 7 {
        "7"
    } else if d == 8 {
        "8"
    } else {
        "9"
    };
    assert(text@ =~= seq![digit(d as nat)]);
    text
}

fn append_decimal(text: &mut String, n: u32)
    ensures
        final(text)@ == old(text)@ + decimal(n as nat),
    decreases n,
{
    if n >= 10 {
        append_decimal(text, n / 10);
    }
    text.append(digit_text(n % 10));
    assert(text@ =~= old(text)@ + decimal(n as nat));
}

fn explorer_disconnected_text(explorer_id: u32) -> (text: String)
    ensures
        text@ == explorer_disconnected_message(explorer_id),
{
    let mut text = String::from_str("Explorer ");
    append_decimal(&mut text, explorer_id);
    text.append(" disconnected.");
    text
}

fn too_many_gen_rules_text(planet_type: PlanetType) -> (text: String)
    ensures
        text@ == too_many_gen_rules_message(planet_type),
{
    match planet_type {
        PlanetType::A => String::from_str(
            "Too many generation rules (Planet type A is limited to 1)",
        ),
        PlanetType::B => String::from_str(
            "Too many generation rules (Planet type B is limited to 1)",
        ),
        PlanetType::C => String::from_str(
            "Too many generation rules (Planet type C is limited to 1)",
        ),
        PlanetType::D => String::from_str(
            "Too many generation rules (Planet type D is limited to 1)",
        ),
    }
}

fn too_many_comb_rules_text(planet_type: PlanetType) -> (text: String)
    ensures
        text@ == too_many_comb_rules_message(planet_type),
{
    match planet_type {
        PlanetType::A => String::from_str(
            "Too many combination rules (Planet type A is limited to 0)",
        ),
        PlanetType::B => String::from_str(
            "Too many combination rules (Planet type B is limited to 1)",
        ),
        PlanetType::C => String::from_str(
            "Too many combination rules (Planet type C is limited to 6)",
        ),
        PlanetType::D => String::from_str(
            "Too many combination rules (Planet type D is limited to 0)",
        ),
    }
}

/// A planet: its state, its recipes, the behaviour that its user supplied,
/// and the ends of its channels.
pub struct Planet<AI: PlanetAI> {
    state: PlanetState,
    planet_type: PlanetType,
    /// The behaviour of the planet.
    pub ai: AI,
    generator: Generator,
    combinator: Combinator,
    status: PlanetStatus,
    from_orchestrator: Receiver<OrchestratorToPlanet>,
    to_orchestrator: Sender<PlanetToOrchestrator>,
    from_explorers: Receiver<ExplorerToPlanet>,
    to_explorers: HashMap<u32, Sender<PlanetToExplorer>>,
}

impl<AI: PlanetAI> View for Planet<AI> {
    type V = PlanetView;

    closed spec fn view(&self) -> PlanetView {
        PlanetView {
            state: self.state@,
            planet_type: self.planet_type,
            generator: self.generator@,
            combinator: self.combinator@,
            status: self.status,
            explorers: self.to_explorers@,
            from_orchestrator: self.from_orchestrator,
            to_orchestrator: self.to_orchestrator,
            from_explorers: self.from_explorers,
        }
    }
}

impl<AI: PlanetAI> Planet<AI> {
    /// The behaviour of the planet, as the contracts speak of it.
    pub closed spec fn behaviour(&self) -> AI {
        self.ai
    }

    /// Builds a planet of the kind `planet_type`.
    ///
    /// Fails exactly when the rules break the limits of the kind, with the
    /// text that `construction_error` gives. The new planet is stopped, its
    /// cells are empty, it holds no rocket, no explorer is on it, and its
    /// recipes are the rules given.
    pub fn new(
        id: u32,
        planet_type: PlanetType,
        ai: AI,
        gen_rules: Vec<BasicResourceType>,
        comb_rules: Vec<ComplexResourceType>,
        orchestrator_channels: (Receiver<OrchestratorToPlanet>, Sender<PlanetToOrchestrator>),
        explorers_receiver: Receiver<ExplorerToPlanet>,
    ) -> (result: Result<Planet<AI>, String>)
        ensures
            result.is_ok() <==> construction_error(
                planet_type,
                gen_rules@.len(),
                comb_rules@.len(),
            ) is None,
            match result {
                Ok(planet) => {
                    &&& planet@ == (PlanetView {
                        state: PlanetStateView {
                            id,
                            cells: Seq::new(
                                planet_type.limits().n_energy_cells as nat,
                                |i: int| false,
                            ),
                            has_rocket: false,
                            can_have_rocket: planet_type.limits().can_have_rocket,
                        },
                        planet_type,
                        generator: gen_rules@.to_set(),
                        combinator: comb_rules@.to_set(),
                        status: PlanetStatus::Stopped,
                        explorers: Map::empty(),
                        from_orchestrator: orchestrator_channels.0,
                        to_orchestrator: orchestrator_channels.1,
                        from_explorers: explorers_receiver,
                    })
                    &&& planet.behaviour() == ai
                    &&& planet@.wf()
                },
                Err(e) => Some(e@) == construction_error(
                    planet_type,
                    gen_rules@.len(),
                    comb_rules@.len(),
                ),
            },
    {
        let constraints = planet_type.constraints();
        let (from_orchestrator, to_orchestrator) = orchestrator_channels;
        if gen_rules.len() == 0 {
            Err(String::from_str("gen_rules is empty"))
        } else if !constraints.unbounded_gen_rules && gen_rules.len() > 1 {
            Err(too_many_gen_rules_text(planet_type))
        } else if comb_rules.len() > constraints.n_comb_rules {
            Err(too_many_comb_rules_text(planet_type))
        } else {
            let mut generator = Generator::new();
            let mut i: usize = 0;
            while i < gen_rules.len()
                invariant
                    i <= gen_rules.len(),
                    generator@ == gen_rules@.take(i as int).to_set(),
                decreases gen_rules.len() - i,
            {
                proof {
                    gen_rules@.take(i as int).lemma_push_to_set_commute(gen_rules@[i as int]);
                    assert(gen_rules@.take(i + 1) =~= gen_rules@.take(i as int).push(
                        gen_rules@[i as int],
                    ));
                }
                let _ = generator.add(gen_rules[i]);
                i += 1;
            }
            let mut combinator = Combinator::new();
            let mut k: usize = 0;
            while k < comb_rules.len()
                invariant
                    k <= comb_rules.len(),
                    combinator@ == comb_rules@.take(k as int).to_set(),
                decreases comb_rules.len() - k,
            {
                proof {
                    comb_rules@.take(k as int).lemma_push_to_set_commute(comb_rules@[k as int]);
                    assert(comb_rules@.take(k + 1) =~= comb_rules@.take(k as int).push(
                        comb_rules@[k as int],
                    ));
                }
                let _ = combinator.add(comb_rules[k]);
                k += 1;
            }
            assert(gen_rules@.take(i as int) =~= gen_rules@);
            assert(comb_rules@.take(k as int) =~= comb_rules@);
            proof {
                lemma_rules_as_set(gen_rules@);
                lemma_rules_as_set(comb_rules@);
            }
            Ok(
                Planet {
                    state: PlanetState::new(id, planet_type),
                    planet_type,
                    ai,
                    generator,
                    combinator,
                    status: PlanetStatus::Stopped,
                    from_orchestrator,
                    to_orchestrator,
                    from_explorers: explorers_receiver,
                    to_explorers: HashMap::new(),
                },
            )
        }
    }

    /// Takes the planet one step further for the message `msg` of the
    /// orchestrator, and returns what to send back.
    ///
    /// The step is the one that `orchestrator_transition` describes. The
    /// user's behaviour is called only for the messages that `consults_ai`
    /// names, each of which has its handler. When the planet starts or
    /// stops, the step names the hook to run once the answer is sent.
    pub fn handle_orchestrator_msg(&mut self, msg: OrchestratorToPlanet) -> (step: OrchestratorStep)
        ensures
            orchestrator_transition(old(self)@, msg, final(self)@, step),
            !consults_ai(old(self)@.status, msg) ==> final(self).behaviour() == old(self).behaviour(),
    {
        let planet_id = self.state.id();
        match self.status {
            PlanetStatus::Terminated => OrchestratorStep {
                ack: None,
                hook: None,
                terminated: true,
            },
            PlanetStatus::Stopped => match msg {
                OrchestratorToPlanet::StartPlanetAI => {
                    self.status = PlanetStatus::Running;
                    OrchestratorStep {
                        ack: Some(PlanetToOrchestrator::StartPlanetAIResult { planet_id }),
                        hook: Some(LifecycleHook::Start),
                        terminated: false,
                    }
                },
                OrchestratorToPlanet::KillPlanet => {
                    self.status = PlanetStatus::Terminated;
                    OrchestratorStep {
                        ack: Some(PlanetToOrchestrator::KillPlanetResult { planet_id }),
                        hook: None,
                        terminated: true,
                    }
                },
                _ => OrchestratorStep {
                    ack: Some(PlanetToOrchestrator::Stopped { planet_id }),
                    hook: None,
                    terminated: false,
                },
            },
            PlanetStatus::Running => match msg {
                OrchestratorToPlanet::StartPlanetAI => OrchestratorStep {
                    ack: None,
                    hook: None,
                    terminated: false,
                },
                OrchestratorToPlanet::StopPlanetAI => {
                    self.status = PlanetStatus::Stopped;
                    OrchestratorStep {
                        ack: Some(PlanetToOrchestrator::StopPlanetAIResult { planet_id }),
                        hook: Some(LifecycleHook::Stop),
                        terminated: false,
                    }
                },
                OrchestratorToPlanet::KillPlanet => {
                    self.status = PlanetStatus::Terminated;
                    OrchestratorStep {
                        ack: Some(PlanetToOrchestrator::KillPlanetResult { planet_id }),
                        hook: None,
                        terminated: true,
                    }
                },
                OrchestratorToPlanet::Sunray(sunray) => {
                    self.ai.handle_sunray(
                        &mut self.state,
                        &self.generator,
                        &self.combinator,
                        sunray,
                    );
                    OrchestratorStep {
                        ack: Some(PlanetToOrchestrator::SunrayAck { planet_id }),
                        hook: None,
                        terminated: false,
                    }
                },
                OrchestratorToPlanet::Asteroid(_) => {
                    let rocket = self.ai.handle_asteroid(
                        &mut self.state,
                        &self.generator,
                        &self.combinator,
                    );
                    let terminated = rocket.is_none();
                    if terminated {
                        self.status = PlanetStatus::Terminated;
                    }
                    OrchestratorStep {
                        ack: Some(PlanetToOrchestrator::AsteroidAck { planet_id, rocket }),
                        hook: None,
                        terminated,
                    }
                },
                OrchestratorToPlanet::InternalStateRequest => {
                    let planet_state = self.ai.handle_internal_state_req(
                        &mut self.state,
                        &self.generator,
                        &self.combinator,
                    );
                    OrchestratorStep {
                        ack: Some(
                            PlanetToOrchestrator::InternalStateResponse { planet_id, planet_state },
                        ),
                        hook: None,
                        terminated: false,
                    }
                },
                OrchestratorToPlanet::IncomingExplorerRequest { explorer_id, new_mpsc_sender } => {
                    self.to_explorers.insert(explorer_id, new_mpsc_sender);
                    self.ai.on_explorer_arrival(
                        &mut self.state,
                        &self.generator,
                        &self.combinator,
                        explorer_id,
                    );
                    OrchestratorStep {
                        ack: Some(
                            PlanetToOrchestrator::IncomingExplorerResponse {
                                planet_id,
                                explorer_id,
                                res: Ok(()),
                            },
                        ),
                        hook: None,
                        terminated: false,
                    }
                },
                OrchestratorToPlanet::OutgoingExplorerRequest { explorer_id } => {
                    self.to_explorers.remove(&explorer_id);
                    self.ai.on_explorer_departure(
                        &mut self.state,
                        &self.generator,
                        &self.combinator,
                        explorer_id,
                    );
                    OrchestratorStep {
                        ack: Some(
                            PlanetToOrchestrator::OutgoingExplorerResponse {
                                planet_id,
                                explorer_id,
                                res: Ok(()),
                            },
                        ),
                        hook: None,
                        terminated: false,
                    }
                },
            },
        }
    }

    /// Tells the user's behaviour that the planet has started or stopped.
    /// Nothing of the planet changes.
    pub fn run_hook(&mut self, hook: LifecycleHook)
        ensures
            final(self)@ == old(self)@,
    {
        match hook {
            LifecycleHook::Start => self.ai.on_start(
                &self.state,
                &self.generator,
                &self.combinator,
            ),
            LifecycleHook::Stop => self.ai.on_stop(&self.state, &self.generator, &self.combinator),
        }
    }

    /// Concludes a step for a message of the orchestrator, once its answer
    /// has been sent or has failed to be: `hook` and `terminated` are those
    /// of the step, and `delivered` tells whether the answer went out (a
    /// step without an answer counts as delivered).
    ///
    /// If the answer could not be sent, the orchestrator has hung up: the
    /// planet ends with the error of `orchestrator_disconnected_message()`
    /// and the hook is not run. Otherwise the hook is run, if there is
    /// one, and the planet ends with `Ok` exactly when the step had ended
    /// it. `None` means that the planet carries on.
    pub fn finish_orchestrator_step(
        &mut self,
        hook: Option<LifecycleHook>,
        terminated: bool,
        delivered: bool,
    ) -> (exit: Option<Result<(), String>>)
        ensures
            run_exit(terminated, delivered, exit),
            delivered ==> final(self)@ == old(self)@,
            !delivered ==> final(self)@ == (PlanetView {
                status: PlanetStatus::Terminated,
                ..old(self)@
            }),
            !delivered || hook is None ==> final(self).behaviour() == old(self).behaviour(),
    {
        if !delivered {
            return Some(Err(self.handle_orchestrator_disconnect()));
        }
        match hook {
            Some(hook) => self.run_hook(hook),
            None => {},
        }
        if terminated {
            Some(Ok(()))
        } else {
            None
        }
    }

    /// Takes the planet one step further for the message `msg` of an
    /// explorer, and returns the answer and the explorer to send it to.
    ///
    /// The step is the one that `explorer_transition` describes. The user's
    /// behaviour is called only while the planet is running and the
    /// explorer is on it.
    pub fn handle_explorer_msg(&mut self, msg: ExplorerToPlanet) -> (reply: Option<ExplorerReply>)
        ensures
            explorer_transition(old(self)@, msg, final(self)@, reply),
            !(old(self)@.status is Running && old(self)@.explorers.contains_key(msg.sender_id()))
                ==> final(self).behaviour() == old(self).behaviour(),
    {
        let explorer_id = msg.explorer_id();
        if !self.to_explorers.contains_key(&explorer_id) {
            return None;
        }
        match self.status {
            PlanetStatus::Terminated => None,
            PlanetStatus::Stopped => Some(
                ExplorerReply { explorer_id, message: PlanetToExplorer::Stopped },
            ),
            PlanetStatus::Running => {
                match self.ai.handle_explorer_msg(
                    &mut self.state,
                    &self.generator,
                    &self.combinator,
                    msg,
                ) {
                    Some(message) => Some(ExplorerReply { explorer_id, message }),
                    None => None,
                }
            },
        }
    }

    /// Ends the planet because the orchestrator has hung up: its channel
    /// is closed, or a message to it could not be sent. Returns the error
    /// with which the planet ends.
    pub fn handle_orchestrator_disconnect(&mut self) -> (error: String)
        ensures
            final(self)@ == (PlanetView { status: PlanetStatus::Terminated, ..old(self)@ }),
            final(self).behaviour() == old(self).behaviour(),
            error@ == orchestrator_disconnected_message(),
    {
        self.status = PlanetStatus::Terminated;
        String::from_str("Orchestrator disconnected.")
    }

    /// Decides what becomes of the planet when its answer to the explorer
    /// `explorer_id` could not be sent. A running planet ends, and the call
    /// returns the error with which it ends; a planet that is not running
    /// carries on as it is.
    pub fn handle_explorer_disconnect(&mut self, explorer_id: u32) -> (error: Option<String>)
        ensures
            error is Some <==> old(self)@.status is Running,
            error matches Some(text) ==> text@ == explorer_disconnected_message(explorer_id),
            error is Some ==> final(self)@ == (PlanetView {
                status: PlanetStatus::Terminated,
                ..old(self)@
            }),
            error is None ==> final(self)@ == old(self)@,
            final(self).behaviour() == old(self).behaviour(),
    {
        match self.status {
            PlanetStatus::Running => {
                self.status = PlanetStatus::Terminated;
                Some(explorer_disconnected_text(explorer_id))
            },
            _ => None,
        }
    }

    /// Returns the id of the planet.
    pub fn id(&self) -> (id: u32)
        ensures
            id == self@.state.id,
    {
        self.state.id()
    }

    /// Returns the kind of the planet.
    pub fn planet_type(&self) -> (planet_type: PlanetType)
        ensures
            planet_type == self@.planet_type,
    {
        self.planet_type
    }

    /// Returns where the planet stands in its life.
    pub fn status(&self) -> (status: PlanetStatus)
        ensures
            status == self@.status,
    {
        self.status
    }

    /// Returns the state of the planet.
    pub fn state(&self) -> (state: &PlanetState)
        ensures
            state@ == self@.state,
    {
        &self.state
    }

    /// Returns the recipes of the planet for basic resources.
    pub fn generator(&self) -> (generator: &Generator)
        ensures
            generator@ == self@.generator,
    {
        &self.generator
    }

    /// Returns the recipes of the planet for complex resources.
    pub fn combinator(&self) -> (combinator: &Combinator)
        ensures
            combinator@ == self@.combinator,
    {
        &self.combinator
    }

    /// Returns the channel on which the planet answers the explorer
    /// `explorer_id`, or `None` if that explorer is not on the planet.
    pub fn explorer_sender(&self, explorer_id: u32) -> (sender: Option<&Sender<PlanetToExplorer>>)
        ensures
            match sender {
                Some(sender) => self@.explorers.contains_key(explorer_id)
                    && *sender == self@.explorers[explorer_id],
                None => !self@.explorers.contains_key(explorer_id),
            },
    {
        self.to_explorers.get(&explorer_id)
    }

    /// Returns the channel on which the orchestrator speaks to the planet.
    pub fn orchestrator_receiver(&self) -> (receiver: &Receiver<OrchestratorToPlanet>)
        ensures
            *receiver == self@.from_orchestrator,
    {
        &self.from_orchestrator
    }

    /// Returns the channel on which the planet answers the orchestrator.
    pub fn orchestrator_sender(&self) -> (sender: &Sender<PlanetToOrchestrator>)
        ensures
            *sender == self@.to_orchestrator,
    {
        &self.to_orchestrator
    }

    /// Returns the channel on which all explorers speak to the planet.
    pub fn explorers_receiver(&self) -> (receiver: &Receiver<ExplorerToPlanet>)
        ensures
            *receiver == self@.from_explorers,
    {
        &self.from_explorers
    }
}

} // verus!
