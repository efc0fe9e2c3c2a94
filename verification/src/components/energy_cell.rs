//! A cell that stores one unit of energy.

use crate::components::sunray::Sunray;
use vstd::prelude::*;
use vstd::string::StringExecFns;

verus! {

/// An energy cell: it is either charged or empty.
///
/// The view of a cell is its charge.
#[derive(Debug)]
pub struct EnergyCell {
    charge: bool,
}

impl View for EnergyCell {
    type V = bool;

    closed spec fn view(&self) -> bool {
        self.charge
    }
}

/// The charge of a cell after a sunray has reached it.
pub open spec fn charged(charge: bool) -> bool {
    true
}

/// Whether a cell with this charge can be discharged.
pub open spec fn discharge_succeeds(charge: bool) -> bool {
    charge
}

/// The charge of a cell after an attempt to discharge it.
pub open spec fn discharged(charge: bool) -> bool {
    false
}

/// The text of the error that discharging an empty cell reports.
pub open spec fn not_charged_message() -> Seq<char> {
    "EnergyCell not charged!"@
}

impl EnergyCell {
    /// Creates an empty cell.
    pub fn new() -> (cell: EnergyCell)
        ensures
            !cell@,
    {
        EnergyCell { charge: false }
    }

    /// Charges the cell with a sunray. The sunray is consumed either way:
    /// on a cell that is already charged it is wasted and nothing changes.
    pub fn charge(&mut self, _sunray: Sunray)
        ensures
            final(self)@ == charged(old(self)@),
            old(self)@ ==> *final(self) == *old(self),
    {
        if !self.charge {
            self.charge = true;
        }
    }

    /// Spends the charge of the cell.
    ///
    /// Succeeds exactly on a charged cell and leaves it empty. An empty
    /// cell stays empty and the call reports `not_charged_message()`.
    pub fn discharge(&mut self) -> (result: Result<(), String>)
        ensures
            final(self)@ == discharged(old(self)@),
            result.is_ok() <==> discharge_succeeds(old(self)@),
            result.is_err() ==> result.unwrap_err()@ == not_charged_message(),
    {
        if self.charge {
            self.charge = false;
            Ok(())
        } else {
            Err(String::from_str("EnergyCell not charged!"))
        }
    }

    /// Tells whether the cell holds a charge.
    pub fn is_charged(&self) -> (charged: bool)
        ensures
            charged == self@,
    {
        self.charge
    }
}

impl Default for EnergyCell {
    fn default() -> (cell: EnergyCell)
        ensures
            !cell@,
    {
        EnergyCell::new()
    }
}

/// A charged cell can always be discharged: whatever the charge of a cell
/// was, once it has been charged a discharge succeeds and leaves it empty.
/// A cell that was never charged cannot be discharged.
pub proof fn lemma_charge_then_discharge(charge: bool)
    ensures
        discharge_succeeds(charged(charge)),
        !discharged(charged(charge)),
        !discharge_succeeds(false),
{
}

/// Charging a cell that is already charged changes nothing.
pub proof fn lemma_charge_is_idempotent(charge: bool)
    ensures
        charged(true) == true,
        charged(charged(charge)) == charged(charge),
{
}

} // verus!
