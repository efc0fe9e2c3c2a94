//! The rocket that defends a planet.

use crate::components::energy_cell::EnergyCell;
use vstd::prelude::*;

verus! {

/// A rocket. It carries no data: each one stands for the charge of one
/// energy cell that was spent to build it.
#[derive(Debug)]
pub struct Rocket {
    _private: (),
}

impl Rocket {
    /// Builds a rocket from the charge of `energy_cell`.
    ///
    /// Succeeds exactly when the cell is charged; the cell is empty
    /// afterwards. On an empty cell the error of the discharge is returned.
    pub fn new(energy_cell: &mut EnergyCell) -> (result: Result<Rocket, String>)
        ensures
            !final(energy_cell)@,
            result.is_ok() <==> old(energy_cell)@,
            result.is_err() ==> result.unwrap_err()@
                == crate::components::energy_cell::not_charged_message(),
    {
        match energy_cell.discharge() {
            Ok(()) => Ok(Rocket { _private: () }),
            Err(e) => Err(e),
        }
    }
}

} // verus!
