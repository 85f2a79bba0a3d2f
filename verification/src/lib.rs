//! Register-level driver logic for the AW2013 three-channel LED controller.
//!
//! The chip sits on a two-wire serial bus. This crate holds everything about
//! the chip that can be decided without touching the bus: how brightness,
//! current limits and breathing timings are packed into register bytes, and
//! in which order the registers are written so that no stale value is ever
//! shown. Each driver call yields an [`Operation`]: a list of register
//! commands together with a cursor. The owner of the bus asks the operation
//! for its pending [`Transfer`], performs it, and reports the [`Reply`]; the
//! first transfer that fails ends the operation, and whatever was written up
//! to then stays written.
//!
//! Access to one chip must be serialised by the caller: switching a single
//! channel on or off reads the shared enable register and writes it back,
//! and two such sequences interleaved on the same chip can lose an update.
//!
//! [`driver`] holds the driver and the command list of each of its calls,
//! [`operation`] the stepping through a command list, [`timing`] and
//! [`registers`] the encodings and the register map. [`chip`] models the
//! chip's registers; over that model [`effects`] states what each call leaves
//! in the chip, and [`ordering`] what holds while a call is under way or
//! after it has failed.

pub mod chip;
pub mod command;
pub mod driver;
pub mod effects;
pub mod led;
pub mod operation;
pub mod ordering;
pub mod registers;
pub mod timing;

pub use crate::command::Command;
pub use crate::driver::Aw2013;
pub use crate::led::{Current, Led};
pub use crate::operation::{Operation, Reply, Transfer};
pub use crate::timing::Timing;
