//! Planet actor for a space simulation.
//!
//! A planet owns a row of energy cells and an optional rocket, produces
//! resources by spending the charge of a cell, and reacts to the typed
//! messages of an orchestrator and of visiting explorers. Every transition
//! of the actor and every crafting rule carries a contract that is checked
//! by Verus.

pub mod components;
pub mod logging;
pub mod protocols;
