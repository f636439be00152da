//! The timer as a mathematical state machine: its state, the effect of
//! elapsed time on it, and the effect of each register access.

use vstd::prelude::*;
use vstd::arithmetic::power2::pow2;
use crate::devices::timer::control::{Clock, Control, Mode};
use crate::memory::{MemException, MemResult, Misuse};

verus! {

/// Offset of the load register.
pub const LOAD: u32 = 0x00;

/// Offset of the value register.
pub const VALUE: u32 = 0x04;

/// Offset of the control register.
pub const CONTROL: u32 = 0x08;

/// Offset of the clear register.
pub const CLEAR: u32 = 0x0C;

/// Sub-tick units in one tick. One nanosecond at a rate of one kilohertz is
/// one such unit.
pub const MICROTICKS_PER_TICK: u32 = 1_000_000;

/// What a timer is, apart from its label and the instant it last sampled.
pub ghost struct TimerState {
    /// Width of the counter.
    pub bits: nat,
    /// The reload value, absent until it is written.
    pub load: Option<u32>,
    /// The counter.
    pub value: u32,
    /// Clock, mode and whether the timer counts.
    pub control: Control,
    /// Sub-tick remainder carried from the last update.
    pub fraction: u32,
}

impl TimerState {
    /// The number of values the counter can take: `2^bits`.
    pub open spec fn modulus(self) -> int {
        pow2(self.bits) as int
    }

    /// The counter and the load value fit the width, and the carried
    /// remainder is less than one tick.
    pub open spec fn wf(self) -> bool {
        &&& self.bits <= 32
        &&& self.value < self.modulus()
        &&& (self.load matches Some(load) ==> load < self.modulus())
        &&& self.fraction < MICROTICKS_PER_TICK
    }

    /// A timer of the given width as it is created: stopped, free-running on
    /// the slow clock, with no load value.
    pub open spec fn initial(bits: nat) -> TimerState {
        TimerState {
            bits,
            load: None,
            value: 0,
            control: Control { clock: Clock::Khz2, mode: Mode::FreeRunning, enabled: false },
            fraction: 0,
        }
    }

    /// Sub-tick units accumulated once `ns` nanoseconds have passed.
    pub open spec fn microticks(self, ns: nat) -> int {
        ns * self.control.clock.khz() + self.fraction
    }

    /// Whole ticks that `ns` nanoseconds amount to, rounded toward zero.
    pub open spec fn ticks(self, ns: nat) -> int {
        self.microticks(ns) / (MICROTICKS_PER_TICK as int)
    }

    /// The remainder that `ns` nanoseconds leave for the next update.
    pub open spec fn carry(self, ns: nat) -> int {
        self.microticks(ns) % (MICROTICKS_PER_TICK as int)
    }

    /// The state with a new counter value and the remainder left by `ns`.
    pub open spec fn counted(self, value: int, ns: nat) -> TimerState {
        TimerState { value: value as u32, fraction: self.carry(ns) as u32, ..self }
    }

    /// The effect of `ns` nanoseconds of elapsed time.
    ///
    /// A stopped timer does not change. A free-running timer counts down
    /// modulo `2^bits`. A periodic timer counts down; when it would pass
    /// zero it restarts from the load value, less the ticks that were left
    /// over. That needs a load value, and the ticks left over must not
    /// exceed it: otherwise the update fails and the state stays as it was.
    pub open spec fn advanced(self, ns: nat) -> (TimerState, Result<(), Misuse>) {
        let ticks = self.ticks(ns);
        if !self.control.enabled {
            (self, Ok(()))
        } else if self.control.mode == Mode::FreeRunning {
            (self.counted((self.value - ticks) % self.modulus(), ns), Ok(()))
        } else if self.value >= ticks {
            (self.counted(self.value - ticks, ns), Ok(()))
        } else {
            match self.load {
                None => (self, Err(Misuse::LoadUnset)),
                Some(load) => {
                    if ticks - self.value <= load {
                        (self.counted(load - (ticks - self.value), ns), Ok(()))
                    } else {
                        (self, Err(Misuse::ReloadOverrun))
                    }
                },
            }
        }
    }

    /// What a read of the register at `offset` returns.
    pub open spec fn read(self, offset: u32) -> MemResult<u32> {
        if offset == LOAD {
            match self.load {
                Some(load) => Ok(load),
                None => Err(MemException::Fatal(Misuse::LoadUnset)),
            }
        } else if offset == VALUE {
            Ok(self.value)
        } else if offset == CONTROL {
            Ok(self.control.encoded())
        } else if offset == CLEAR {
            Err(MemException::Unimplemented)
        } else {
            Err(MemException::Unexpected)
        }
    }

    /// The state after a write to the load register of a stopped timer: the
    /// word, reduced to the counter's width, is both load value and counter.
    pub open spec fn loaded(self, word: u32) -> TimerState {
        let kept = (word as int % self.modulus()) as u32;
        TimerState { load: Some(kept), value: kept, ..self }
    }

    /// The state after a write to the control register. Starting the timer
    /// clears the carried remainder; a stopped timer has no load value.
    pub open spec fn controlled(self, word: u32) -> TimerState {
        let control = Control::decoded(word);
        TimerState {
            control,
            fraction: if control.enabled && !self.control.enabled {
                0
            } else {
                self.fraction
            },
            load: if control.enabled {
                self.load
            } else {
                None
            },
            ..self
        }
    }

    /// The effect of a write of `word` to the register at `offset`: the state
    /// after it and what the write returns. A write that fails changes
    /// nothing.
    pub open spec fn written(self, offset: u32, word: u32) -> (TimerState, MemResult<()>) {
        if offset == LOAD {
            if self.control.enabled {
                (self, Err(MemException::Fatal(Misuse::LoadWriteWhileEnabled)))
            } else {
                (self.loaded(word), Ok(()))
            }
        } else if offset == VALUE {
            (self, Err(MemException::Fatal(Misuse::ValueWrite)))
        } else if offset == CONTROL {
            (self.controlled(word), Ok(()))
        } else if offset == CLEAR {
            (self, Err(MemException::Unimplemented))
        } else {
            (self, Err(MemException::Unexpected))
        }
    }

    /// A read at `offset` made `ns` nanoseconds after the previous access:
    /// time takes effect first, and a failure of that comes before any
    /// failure of the read itself.
    pub open spec fn read_after(self, ns: nat, offset: u32) -> (TimerState, MemResult<u32>) {
        match self.advanced(ns).1 {
            Ok(()) => (self.advanced(ns).0, self.advanced(ns).0.read(offset)),
            Err(misuse) => (self, Err(MemException::Fatal(misuse))),
        }
    }

    /// A write at `offset` made `ns` nanoseconds after the previous access.
    pub open spec fn write_after(self, ns: nat, offset: u32, word: u32) -> (
        TimerState,
        MemResult<()>,
    ) {
        match self.advanced(ns).1 {
            Ok(()) => self.advanced(ns).0.written(offset, word),
            Err(misuse) => (self, Err(MemException::Fatal(misuse))),
        }
    }
}

} // verus!
