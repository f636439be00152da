//! The emulated devices.

pub mod timer;
pub mod vic;

use vstd::prelude::*;

verus! {

/// What lies at an offset of a device, for tracing tools.
#[derive(Clone, Copy, Debug, PartialEq, Eq)]
pub enum Probe {
    /// A register, by its name.
    Register(&'static str),
    /// Nothing.
    Unmapped,
}

} // verus!
