//! Register-level models of two memory-mapped peripherals of an embedded
//! system-on-chip: a wrapping down-counter timer and a vectored interrupt
//! controller.
//!
//! Every device is a register-addressable state machine. Each has a
//! mathematical state (its view), and every register access is specified as a
//! function of that state.

pub mod bits;
pub mod clock;
pub mod devices;
pub mod memory;
