//! A wrapping down-counter whose value decays with elapsed time.
//!
//! The counter is not driven by a tick call. Every register access first
//! works out how much time has passed since the previous one and lets the
//! counter decay by that much; only then is the register read or written.

pub mod control;
pub mod laws;
pub mod state;

use vstd::prelude::*;
use vstd::arithmetic::div_mod::lemma_mod_multiples_vanish;
use vstd::arithmetic::power2::{lemma2_to64, lemma_pow2_adds, pow2};
use vstd::bits::{lemma_u32_low_bits_mask_is_mod, lemma_u64_shl_is_mul, low_bits_mask};
use std::time::Instant;
use crate::clock::{nanos_apart, nanos_between};
use crate::devices::timer::control::{Clock, Control, Mode};
use crate::devices::timer::state::{
    TimerState, CLEAR, CONTROL, LOAD, MICROTICKS_PER_TICK, VALUE,
};
use crate::memory::{MemException, MemResult, Misuse};

verus! {

/// One timer of the chip.
pub struct Timer {
    label: &'static str,
    loadval: Option<u32>,
    val: u32,
    enabled: bool,
    mode: Mode,
    clksel: Clock,
    bits: u32,
    wrapmask: u32,
    last_time: Instant,
    microticks: u32,
}

impl View for Timer {
    type V = TimerState;

    closed spec fn view(&self) -> TimerState {
        TimerState {
            bits: self.bits as nat,
            load: self.loadval,
            value: self.val,
            control: Control { clock: self.clksel, mode: self.mode, enabled: self.enabled },
            fraction: self.microticks,
        }
    }
}

/// Keeping the low `bits` bits of a word is reduction modulo `2^bits`.
proof fn lemma_mask_is_mod(word: u32, bits: nat)
    requires
        bits <= 32,
    ensures
        low_bits_mask(bits) == pow2(bits) - 1,
        0 < pow2(bits) <= 0x1_0000_0000,
        (word & (low_bits_mask(bits) as u32)) as int == word as int % (pow2(bits) as int),
{
    lemma2_to64();
    if bits < 32 {
        lemma_u32_low_bits_mask_is_mod(word, bits);
    } else {
        assert(word & 0xffff_ffffu32 == word) by (bit_vector);
    }
}

/// Masking with the low `bits` ones after a wrapping subtraction of the low
/// 32 bits of `ticks` is subtraction modulo `2^bits`.
proof fn lemma_masked_wrapping_sub(value: u32, ticks: int, bits: nat)
    requires
        bits <= 32,
        0 <= ticks,
    ensures
        (value.wrapping_sub((ticks % 0x1_0000_0000) as u32) & (low_bits_mask(bits) as u32)) as int
            == (value - ticks) % (pow2(bits) as int),
{
    let full: int = 0x1_0000_0000;
    let low: int = ticks % full;
    let high: int = ticks / full;
    let diff: u32 = value.wrapping_sub(low as u32);
    let m: int = pow2(bits) as int;
    let rest: int = pow2((32 - bits) as nat) as int;
    lemma_mask_is_mod(diff, bits);
    assert(m * rest == full) by {
        lemma2_to64();
        lemma_pow2_adds(bits, (32 - bits) as nat);
    }
    // The wrapped difference is the true one plus a multiple of 2^32.
    let wraps: int = if value - low < 0 { 1 } else { 0 };
    assert(diff as int == m * (rest * (wraps + high)) + (value - ticks)) by (nonlinear_arith)
        requires
            diff as int == (value - ticks) + full * (wraps + high),
            m * rest == full,
    ;
    lemma_mod_multiples_vanish(rest * (wraps + high), value - ticks, m);
}

impl Timer {
    #[verifier::type_invariant]
    spec fn inv(self) -> bool {
        &&& self@.wf()
        &&& self.wrapmask == low_bits_mask(self.bits as nat)
    }

    /// The name the timer was created with.
    pub closed spec fn name(&self) -> &'static str {
        self.label
    }

    /// The point on the clock at which the timer last measured time.
    pub closed spec fn sampled(&self) -> Instant {
        self.last_time
    }

    /// Creates a stopped timer whose counter is `bits` wide.
    pub fn new(label: &'static str, bits: usize) -> (timer: Timer)
        requires
            bits <= 32,
        ensures
            timer@ == TimerState::initial(bits as nat),
            timer@.wf(),
            timer.name() == label,
    {
        proof {
            lemma_mask_is_mod(0, bits as nat);
            lemma_u64_shl_is_mul(1u64, bits as u64);
        }
        Timer {
            label,
            loadval: None,
            val: 0,
            enabled: false,
            mode: Mode::FreeRunning,
            clksel: Clock::Khz2,
            bits: bits as u32,
            wrapmask: ((1u64 << bits) - 1) as u32,
            last_time: Instant::now(),
            microticks: 0,
        }
    }

    /// Lets `elapsed_ns` nanoseconds take effect on the counter.
    pub fn advance(&mut self, elapsed_ns: u64) -> (r: Result<(), Misuse>)
        ensures
            (final(self)@, r) == old(self)@.advanced(elapsed_ns as nat),
            final(self)@.wf(),
            final(self).name() == old(self).name(),
            final(self).sampled() == old(self).sampled(),
    {
        proof {
            use_type_invariant(&*self);
        }
        if !self.enabled {
            return Ok(());
        }
        let khz: u128 = self.clksel.rate_khz() as u128;
        assert(elapsed_ns * khz <= 0xffff_ffff_ffff_ffff * 508) by (nonlinear_arith)
            requires
                elapsed_ns <= 0xffff_ffff_ffff_ffff,
                khz <= 508,
        ;
        let microticks: u128 = elapsed_ns as u128 * khz + self.microticks as u128;
        let ticks: u128 = microticks / (MICROTICKS_PER_TICK as u128);
        let fraction: u32 = (microticks % (MICROTICKS_PER_TICK as u128)) as u32;
        match self.mode {
            Mode::FreeRunning => {
                let low: u32 = (ticks % 0x1_0000_0000) as u32;
                proof {
                    lemma_masked_wrapping_sub(self.val, ticks as int, self.bits as nat);
                }
                self.val = self.val.wrapping_sub(low) & self.wrapmask;
                self.microticks = fraction;
                Ok(())
            },
            Mode::Periodic => {
                if self.val as u128 >= ticks {
                    self.val = self.val - (ticks as u32);
                    self.microticks = fraction;
                    Ok(())
                } else {
                    match self.loadval {
                        None => Err(Misuse::LoadUnset),
                        Some(load) => {
                            let remaining: u128 = ticks - self.val as u128;
                            if remaining <= load as u128 {
                                self.val = load - (remaining as u32);
                                self.microticks = fraction;
                                Ok(())
                            } else {
                                Err(Misuse::ReloadOverrun)
                            }
                        },
                    }
                }
            },
        }
    }

    /// Makes `now` the timer's sample of the clock and returns the time from
    /// the previous sample to it.
    pub fn sample_at(&mut self, now: Instant) -> (elapsed_ns: u64)
        ensures
            final(self).sampled() == now,
            elapsed_ns == nanos_apart(old(self).sampled(), now),
            final(self)@ == old(self)@,
            final(self).name() == old(self).name(),
    {
        proof {
            use_type_invariant(&*self);
        }
        let elapsed_ns: u64 = nanos_between(&self.last_time, &now);
        self.last_time = now;
        elapsed_ns
    }

    /// Lets the time up to `now` take effect on the counter.
    ///
    /// `now` becomes the timer's sample of the clock, whether the timer
    /// counts or not and whether the update succeeds or not, so that no
    /// stretch of time is charged to the counter twice, and none that the
    /// timer spent stopped is charged at all. The outcome is that of
    /// `advance` for the time from the previous sample to `now`.
    pub fn update_regs_at(&mut self, now: Instant) -> (r: Result<(), Misuse>)
        ensures
            final(self).sampled() == now,
            (final(self)@, r) == old(self)@.advanced(
                nanos_apart(old(self).sampled(), now) as nat,
            ),
            !old(self)@.control.enabled ==> final(self)@ == old(self)@ && r is Ok,
            final(self)@.wf(),
            final(self).name() == old(self).name(),
    {
        let elapsed_ns: u64 = self.sample_at(now);
        self.advance(elapsed_ns)
    }

    /// Lets the time since the previous access take effect on the counter.
    ///
    /// The timer takes a new sample of the clock; the outcome is that of
    /// `advance` for the time from the previous sample to the new one.
    pub fn update_regs(&mut self) -> (r: Result<(), Misuse>)
        ensures
            (final(self)@, r) == old(self)@.advanced(
                nanos_apart(old(self).sampled(), final(self).sampled()) as nat,
            ),
            !old(self)@.control.enabled ==> final(self)@ == old(self)@ && r is Ok,
            final(self)@.wf(),
            final(self).name() == old(self).name(),
    {
        self.update_regs_at(Instant::now())
    }

    /// The clock, the mode and whether the timer counts.
    pub fn control(&self) -> (c: Control)
        ensures
            c == self@.control,
    {
        Control { clock: self.clksel, mode: self.mode, enabled: self.enabled }
    }

    /// Reads the register at `offset` as the timer stands, with no time
    /// passing.
    pub fn read_register(&self, offset: u32) -> (r: MemResult<u32>)
        ensures
            r == self@.read(offset),
            self@.wf(),
    {
        proof {
            use_type_invariant(self);
        }
        match offset {
            LOAD => match self.loadval {
                Some(load) => Ok(load),
                None => Err(MemException::Fatal(Misuse::LoadUnset)),
            },
            VALUE => Ok(self.val),
            CONTROL => Ok(self.control().encode()),
            CLEAR => Err(MemException::Unimplemented),
            _ => Err(MemException::Unexpected),
        }
    }

    /// Writes `word` to the register at `offset` as the timer stands, with
    /// no time passing.
    pub fn write_register(&mut self, offset: u32, word: u32) -> (r: MemResult<()>)
        ensures
            (final(self)@, r) == old(self)@.written(offset, word),
            final(self)@.wf(),
            final(self).name() == old(self).name(),
            final(self).sampled() == old(self).sampled(),
    {
        proof {
            use_type_invariant(&*self);
        }
        match offset {
            LOAD => {
                if self.enabled {
                    return Err(MemException::Fatal(Misuse::LoadWriteWhileEnabled));
                }
                let kept: u32 = word & self.wrapmask;
                proof {
                    lemma_mask_is_mod(word, self.bits as nat);
                }
                self.loadval = Some(kept);
                self.val = kept;
                Ok(())
            },
            VALUE => Err(MemException::Fatal(Misuse::ValueWrite)),
            CONTROL => {
                let control = Control::decode(word);
                let previous_enabled = self.enabled;
                self.clksel = control.clock;
                self.mode = control.mode;
                self.enabled = control.enabled;
                if self.enabled && !previous_enabled {
                    self.microticks = 0;
                }
                if !self.enabled {
                    self.loadval = None;
                }
                Ok(())
            },
            CLEAR => Err(MemException::Unimplemented),
            _ => Err(MemException::Unexpected),
        }
    }

    /// Reads the register at `offset`, `elapsed_ns` nanoseconds after the
    /// previous access.
    pub fn read_after(&mut self, elapsed_ns: u64, offset: u32) -> (r: MemResult<u32>)
        ensures
            (final(self)@, r) == old(self)@.read_after(elapsed_ns as nat, offset),
            final(self)@.wf(),
            final(self).name() == old(self).name(),
            final(self).sampled() == old(self).sampled(),
    {
        match self.advance(elapsed_ns) {
            Ok(()) => self.read_register(offset),
            Err(misuse) => Err(MemException::Fatal(misuse)),
        }
    }

    /// Writes `word` to the register at `offset`, `elapsed_ns` nanoseconds
    /// after the previous access.
    pub fn write_after(&mut self, elapsed_ns: u64, offset: u32, word: u32) -> (r: MemResult<()>)
        ensures
            (final(self)@, r) == old(self)@.write_after(elapsed_ns as nat, offset, word),
            final(self)@.wf(),
            final(self).name() == old(self).name(),
            final(self).sampled() == old(self).sampled(),
    {
        match self.advance(elapsed_ns) {
            Ok(()) => self.write_register(offset, word),
            Err(misuse) => Err(MemException::Fatal(misuse)),
        }
    }

    /// Reads the register at `offset` at the instant `now`.
    ///
    /// `now` becomes the timer's sample of the clock; the outcome is that of
    /// `read_after` for the time from the previous sample to `now`.
    pub fn r32_at(&mut self, now: Instant, offset: u32) -> (r: MemResult<u32>)
        ensures
            final(self).sampled() == now,
            (final(self)@, r) == old(self)@.read_after(
                nanos_apart(old(self).sampled(), now) as nat,
                offset,
            ),
            !old(self)@.control.enabled ==> final(self)@ == old(self)@ && r == old(self)@.read(
                offset,
            ),
            final(self)@.wf(),
            final(self).name() == old(self).name(),
    {
        let elapsed_ns: u64 = self.sample_at(now);
        self.read_after(elapsed_ns, offset)
    }

    /// Writes `word` to the register at `offset` at the instant `now`.
    ///
    /// `now` becomes the timer's sample of the clock; the outcome is that of
    /// `write_after` for the time from the previous sample to `now`.
    pub fn w32_at(&mut self, now: Instant, offset: u32, word: u32) -> (r: MemResult<()>)
        ensures
            final(self).sampled() == now,
            (final(self)@, r) == old(self)@.write_after(
                nanos_apart(old(self).sampled(), now) as nat,
                offset,
                word,
            ),
            !old(self)@.control.enabled ==> (final(self)@, r) == old(self)@.written(offset, word),
            final(self)@.wf(),
            final(self).name() == old(self).name(),
    {
        let elapsed_ns: u64 = self.sample_at(now);
        self.write_after(elapsed_ns, offset, word)
    }

    /// Reads the register at `offset` now.
    ///
    /// The timer takes a new sample of the clock; the outcome is that of
    /// `read_after` for the time from the previous sample to the new one.
    pub fn r32(&mut self, offset: u32) -> (r: MemResult<u32>)
        ensures
            (final(self)@, r) == old(self)@.read_after(
                nanos_apart(old(self).sampled(), final(self).sampled()) as nat,
                offset,
            ),
            !old(self)@.control.enabled ==> final(self)@ == old(self)@ && r == old(self)@.read(
                offset,
            ),
            final(self)@.wf(),
            final(self).name() == old(self).name(),
    {
        self.r32_at(Instant::now(), offset)
    }

    /// Writes `word` to the register at `offset` now.
    ///
    /// The timer takes a new sample of the clock; the outcome is that of
    /// `write_after` for the time from the previous sample to the new one.
    pub fn w32(&mut self, offset: u32, word: u32) -> (r: MemResult<()>)
        ensures
            (final(self)@, r) == old(self)@.write_after(
                nanos_apart(old(self).sampled(), final(self).sampled()) as nat,
                offset,
                word,
            ),
            !old(self)@.control.enabled ==> (final(self)@, r) == old(self)@.written(offset, word),
            final(self)@.wf(),
            final(self).name() == old(self).name(),
    {
        self.w32_at(Instant::now(), offset, word)
    }

    /// The name the timer was created with.
    pub fn label(&self) -> (r: Option<&str>)
        ensures
            r == Some(self.name()),
    {
        Some(self.label)
    }

    /// The kind of device this is.
    pub fn device(&self) -> (r: &'static str)
        ensures
            r@ == "Timer"@,
    {
        "Timer"
    }
}

} // verus!
