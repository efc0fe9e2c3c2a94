//! The entities of the simulation: energy cells, the privileged tokens that
//! drive them, resources with their recipes, and the planet itself.

pub mod asteroid;
pub mod energy_cell;
pub mod forge;
pub mod planet;
pub mod resource;
pub mod rocket;
pub mod sunray;
