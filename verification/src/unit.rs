//! What a plug-in tells its host about its units and program lists.

use crate::error::Error;
use vstd::prelude::*;

verus! {

/// The part of a host that a plug-in tells about changes of its units. A
/// host that does not care for a call leaves it as it is: not implemented.
pub trait UnitHandler {
    /// Called when a program list was updated.
    fn notify_program_list_change(&self, list_id: i32, program_index: i32) -> Result<(), Error> {
        Err(Error::NotImplemented)
    }

    /// Called when a unit was selected.
    fn notify_unit_selection(&self, unit_id: i32) -> Result<(), Error> {
        Err(Error::NotImplemented)
    }

    /// Called when the assignment of units to buses changed.
    fn notify_unit_by_bus_change(&self) -> Result<(), Error> {
        Err(Error::NotImplemented)
    }
}

} // verus!
