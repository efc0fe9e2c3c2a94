//! The token that charges an energy cell.

use vstd::prelude::*;

verus! {

/// A ray of sunlight. It carries no data: holding one is what allows a
/// caller to charge an energy cell, and charging consumes it.
#[derive(Debug)]
pub struct Sunray {
    _private: (),
}

impl Sunray {
    /// The one value of this type.
    pub closed spec fn new_spec() -> Sunray {
        Sunray { _private: () }
    }

    /// Creates a sunray. Simulation code obtains its sunrays from a forge.
    pub fn new() -> (sunray: Sunray)
        ensures
            sunray == Sunray::new_spec(),
    {
        Sunray { _private: () }
    }
}

impl Default for Sunray {
    fn default() -> (sunray: Sunray)
        ensures
            sunray == Sunray::new_spec(),
    {
        Sunray::new()
    }
}

} // verus!
