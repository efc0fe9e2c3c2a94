//! The forge: the one place where sunrays and asteroids come from.

use crate::components::asteroid::Asteroid;
use crate::components::sunray::Sunray;
use vstd::prelude::*;
use vstd::string::StringExecFns;

verus! {

/// The record of whether the forge has been created.
///
/// A simulation keeps exactly one slot, behind whatever guards shared
/// state in its process, and hands it to `Forge::new`. The view of a slot
/// tells whether it is taken.
#[derive(Debug)]
pub struct ForgeSlot {
    created: bool,
}

impl View for ForgeSlot {
    type V = bool;

    closed spec fn view(&self) -> bool {
        self.created
    }
}

impl ForgeSlot {
    /// Creates a free slot.
    pub fn new() -> (slot: ForgeSlot)
        ensures
            !slot@,
    {
        ForgeSlot { created: false }
    }

    /// Tells whether a forge has been created on this slot.
    pub fn is_taken(&self) -> (taken: bool)
        ensures
            taken == self@,
    {
        self.created
    }
}

/// The text of the error that a second creation reports.
pub open spec fn already_created_message() -> Seq<char> {
    "Another generator has already been created"@
}

/// The source of every sunray and asteroid of a simulation. Only one forge
/// can be created on a slot.
#[derive(Debug)]
pub struct Forge {
    _private: (),
}

impl Forge {
    /// Creates the forge of `slot`.
    ///
    /// Succeeds exactly when the slot is free, and takes it. On a slot
    /// that is taken nothing changes and the call reports
    /// `already_created_message()`.
    pub fn new(slot: &mut ForgeSlot) -> (result: Result<Forge, String>)
        ensures
            final(slot)@,
            result.is_ok() <==> !old(slot)@,
            result.is_err() ==> result.unwrap_err()@ == already_created_message(),
    {
        if slot.created {
            Err(String::from_str("Another generator has already been created"))
        } else {
            slot.created = true;
            Ok(Forge { _private: () })
        }
    }

    /// Creates an asteroid.
    pub fn generate_asteroid(&self) -> (asteroid: Asteroid)
        ensures
            asteroid == Asteroid::new_spec(),
    {
        Asteroid::new()
    }

    /// Creates a sunray.
    pub fn generate_sunray(&self) -> (sunray: Sunray)
        ensures
            sunray == Sunray::new_spec(),
    {
        Sunray::new()
    }
}

} // verus!
