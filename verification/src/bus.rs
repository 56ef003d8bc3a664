//! The wires between the driver and the display controller, and the steps a
//! driver carries out on them.

use vstd::prelude::*;

verus! {

/// One output line of the parallel bus.
#[derive(Clone, Copy, Debug, PartialEq, Eq, Structural)]
pub enum Line {
    /// Low selects the instruction register, high the data register.
    RegisterSelect,
    /// Strobe: the controller latches the bus when this line falls.
    Enable,
    /// A data line; index 0 carries the least significant bit.
    Data(usize),
}

/// One thing a driver does on the bus.
#[derive(Clone, Copy, Debug, PartialEq, Eq, Structural)]
pub enum Step {
    /// Drive the line high (`true`) or low (`false`).
    Drive(Line, bool),
    /// Leave the bus untouched for at least this many microseconds.
    Wait(u64),
}

} // verus!
