//! Session control for an HD44780 character display behind an I2C backpack.
//!
//! The library decides what a display session does and in which order; it
//! performs no I/O itself. Every command of the session yields a [`Run`]: the
//! steps to carry out, one at a time, each an optional pause followed by one
//! controller capability. The surrounding program performs a step, reports how
//! it ended, and receives either the next step or the command's outcome.

pub mod capability;
pub mod command;
pub mod decimal;
pub mod error;
pub mod run;
pub mod session;
pub mod startup;
pub mod timing;

pub use capability::{Capability, CursorBlink, CursorMoveDirection, CursorVisibility, DisplayMode, Step};
pub use command::Command;
pub use error::LcdError;
pub use run::{Progress, Run};
pub use session::Lcd;
pub use startup::{InitProgress, InitState, Initializing, Startup, BUS_ADDRESS};
