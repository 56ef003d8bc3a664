//! The delays of the bus protocol, in microseconds.
//!
//! They are the worst-case times of the controller's data sheet. The engine
//! never polls the busy flag; it waits these times instead.

use vstd::prelude::*;

verus! {

/// After power-up, before the first access.
pub const POWER_UP_US: u64 = 50_000;

/// After the first wake-up transfer, and in 4-bit mode after the second too.
pub const WAKE_LONG_US: u64 = 5_000;

/// After each of the other wake-up transfers.
pub const WAKE_SHORT_US: u64 = 150;

/// After the function-set command.
pub const FUNCTION_SET_US: u64 = 1_000;

/// After the display-control and the entry-mode command.
pub const COMMAND_US: u64 = 50;

/// After the clear command, which rewrites the whole display memory.
pub const CLEAR_US: u64 = 2_000;

/// At the end of the initialization, before the display counts as ready.
pub const READY_US: u64 = 100_000;

/// After register-select has been driven, before the transfer.
pub const SELECT_US: u64 = 100;

/// Low time before the strobe rises, and the width of the strobe.
pub const STROBE_US: u64 = 2;

/// After the strobe has fallen.
pub const LATCH_US: u64 = 1_000;

/// After each character of a text, and once more after the text.
pub const CHARACTER_US: u64 = 150;

} // verus!
