//! The token that threatens a planet.

use vstd::prelude::*;

verus! {

/// An incoming asteroid. It carries no data: receiving one is the event
/// that a planet has to answer with a rocket.
#[derive(Debug)]
pub struct Asteroid {
    _private: (),
}

impl Asteroid {
    /// The one value of this type.
    pub closed spec fn new_spec() -> Asteroid {
        Asteroid { _private: () }
    }

    /// Creates an asteroid. Simulation code obtains its asteroids from a forge.
    pub fn new() -> (asteroid: Asteroid)
        ensures
            asteroid == Asteroid::new_spec(),
    {
        Asteroid { _private: () }
    }
}

impl Default for Asteroid {
    fn default() -> (asteroid: Asteroid)
        ensures
            asteroid == Asteroid::new_spec(),
    {
        Asteroid::new()
    }
}

} // verus!
