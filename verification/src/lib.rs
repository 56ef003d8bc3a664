//! Protocol engine for HD44780-compatible character displays on a parallel bus.
//!
//! The engine never touches hardware. Each display operation yields the exact
//! sequence of line changes and delays that has to be carried out on the bus,
//! and a thin driver performs them on real output lines.
//!
//! - [`bus`]: the lines of the bus and the steps a driver carries out.
//! - [`timing`]: the delays of the protocol.
//! - [`protocol`]: the sequence of steps of each operation.
//! - [`lcd`]: the engine and its operations.
//! - [`receiver`]: what the display controller latches from a sequence of steps.
//! - [`wiring`]: which data lines a sequence of steps drives.

pub mod bus;
pub mod lcd;
pub mod protocol;
pub mod receiver;
pub mod timing;
pub mod wiring;

pub use lcd::LCD;
