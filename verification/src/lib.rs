//! Inspecting and changing the CPU scheduling policy and priority of a process.
//!
//! The crate holds the decisions of that task and leaves the system calls to its
//! caller: [`SCHED`] maps the scheduling classes to their numeric codes and their
//! names, and a [`Controller`] leads through the calls that read, write and
//! report, and classifies what fails.

pub mod controller;
pub mod errno;
pub mod error;
pub mod sched;
pub mod text;

pub use controller::{Action, Answer, Command, Controller, Phase, Report, Request};
pub use errno::ErrnoCodes;
pub use error::{Operation, SchedError, WriteFailure};
pub use sched::SCHED;
