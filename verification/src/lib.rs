//! Restores the option bytes of a microcontroller to their factory values.
//!
//! The library holds every decision of the routine and none of its register
//! accesses. A reset operation is a state machine: it names the next request
//! to the flash controller, the caller performs it and hands back what the
//! hardware answered.
//!
//! - `bus`: the requests and the answers.
//! - `pac`: the cells, their doubled storage format, and the erase and write
//!   cycles on one cell.
//! - `ob`: the reset operations, with the unlock and relock of the two locks.
//! - `device`: a reference model of the controller and of the cells.
//! - `run`: a reset operation driven against the model to its end, and the
//!   state it leaves, in closed form.
//! - `laws`: what holds of every such run.

pub mod bus;
pub mod pac;
pub mod ob;
pub mod device;
pub mod run;
pub mod laws;
