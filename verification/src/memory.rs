//! Outcomes of a register access that is not a plain success.

use vstd::prelude::*;

verus! {

/// A violation of the hardware contract by the guest or by the wiring.
///
/// The device cannot continue meaningfully after one of these; a harness is
/// expected to stop the simulation run.
#[derive(Clone, Copy, Debug, PartialEq, Eq, Structural)]
pub enum Misuse {
    /// The timer's load value was needed (read, or reloaded in periodic mode)
    /// before it was ever written.
    LoadUnset,
    /// The timer's load register was written while the timer was counting.
    LoadWriteWhileEnabled,
    /// The timer's read-only value register was written.
    ValueWrite,
    /// In periodic mode more ticks elapsed between two accesses than one
    /// reload can absorb, so the counter wrapped more than once.
    ReloadOverrun,
}

/// Why a register access did not complete normally.
#[derive(Clone, Copy, Debug, PartialEq, Eq, Structural)]
pub enum MemException {
    /// A read-only register was written, or a write-only register read.
    InvalidAccess,
    /// The offset maps to no register of the device.
    Unexpected,
    /// The register exists in hardware but is not modelled.
    Unimplemented,
    /// The register is stubbed; the read yields the carried value.
    StubRead(u32),
    /// The register is stubbed; the write was dropped.
    StubWrite,
    /// The access broke the hardware contract.
    Fatal(Misuse),
}

pub type MemResult<T> = Result<T, MemException>;

impl MemException {
    /// Whether the simulation must stop.
    pub open spec fn fatal(self) -> bool {
        self is Fatal
    }

    /// Whether the access hit a stubbed register.
    pub open spec fn stub(self) -> bool {
        self is StubRead || self is StubWrite
    }

    pub fn is_fatal(&self) -> (r: bool)
        ensures
            r == self.fatal(),
    {
        match self {
            MemException::Fatal(_) => true,
            _ => false,
        }
    }

    pub fn is_stub(&self) -> (r: bool)
        ensures
            r == self.stub(),
    {
        match self {
            MemException::StubRead(_) => true,
            MemException::StubWrite => true,
            _ => false,
        }
    }
}

} // verus!
