//! The control contract of a freestanding kernel entry shim.
//!
//! A kernel image that runs with no operating system beneath it has two
//! contact points with the machine: the entry symbol that the boot process
//! jumps to, and the handler that every unrecoverable fault is routed to.
//! Neither ever gives control back. This crate models who holds control as a
//! small state machine, decides each transition in a verified function, and
//! proves the laws of that contract over every trace of events.
pub mod control;
pub mod trace;

pub use control::{next, Control, Event, FaultInfo, Location};
