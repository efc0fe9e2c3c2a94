//! The messages that the actors of the simulation exchange.

pub mod messages;
