//! What holds of the timer's state machine whatever is done with it.

use vstd::prelude::*;
use vstd::arithmetic::div_mod::{
    lemma_fundamental_div_mod, lemma_mod_multiples_vanish, lemma_small_mod,
};
use vstd::arithmetic::power2::{lemma2_to64, pow2};
use crate::bits::bit_set;
use crate::devices::timer::control::{Control, Mode, ENABLE_BIT};
use crate::devices::timer::state::{TimerState, CONTROL, LOAD, MICROTICKS_PER_TICK, VALUE};
use crate::memory::{MemException, Misuse};

verus! {

/// One register access, made some time after the one before it.
pub ghost enum Access {
    Read { after_ns: nat, offset: u32 },
    Write { after_ns: nat, offset: u32, word: u32 },
}

impl TimerState {
    /// The state that an access leaves.
    pub open spec fn accessed(self, access: Access) -> TimerState {
        match access {
            Access::Read { after_ns, offset } => self.read_after(after_ns, offset).0,
            Access::Write { after_ns, offset, word } => self.write_after(
                after_ns,
                offset,
                word,
            ).0,
        }
    }

    /// The state that a sequence of accesses leaves, made in order.
    pub open spec fn run(self, accesses: Seq<Access>) -> TimerState
        decreases accesses.len(),
    {
        if accesses.len() == 0 {
            self
        } else {
            self.run(accesses.drop_last()).accessed(accesses.last())
        }
    }

    /// The width bounds the modulus: `0 < 2^bits <= 2^32`.
    pub proof fn lemma_modulus_bounds(self)
        requires
            self.bits <= 32,
        ensures
            0 < self.modulus() <= 0x1_0000_0000,
    {
        lemma2_to64();
    }

    /// Elapsed time does not change the width, keeps the counter within it
    /// and the carried remainder below one tick.
    pub proof fn lemma_advanced_wf(self, ns: nat)
        requires
            self.wf(),
        ensures
            self.advanced(ns).0.wf(),
            self.advanced(ns).0.bits == self.bits,
    {
    }

    /// A write does not change the width and keeps the counter within it.
    pub proof fn lemma_written_wf(self, offset: u32, word: u32)
        requires
            self.wf(),
        ensures
            self.written(offset, word).0.wf(),
            self.written(offset, word).0.bits == self.bits,
    {
    }

    /// The tick count and the remainder of a non-negative time are
    /// non-negative, and the remainder is less than one tick.
    pub proof fn lemma_ticks_nonnegative(self, ns: nat)
        requires
            self.fraction < MICROTICKS_PER_TICK,
        ensures
            0 <= self.ticks(ns),
            0 <= self.carry(ns) < MICROTICKS_PER_TICK,
            self.microticks(ns) == self.ticks(ns) * MICROTICKS_PER_TICK + self.carry(ns),
    {
        assert(0 <= ns * self.control.clock.khz()) by (nonlinear_arith)
            requires
                0 <= self.control.clock.khz(),
        ;
        assert(self.ticks(ns) * MICROTICKS_PER_TICK == MICROTICKS_PER_TICK * self.ticks(ns))
            by (nonlinear_arith);
    }

    /// Every access leaves the counter within its width.
    pub proof fn lemma_accessed_wf(self, access: Access)
        requires
            self.wf(),
        ensures
            self.accessed(access).wf(),
            self.accessed(access).bits == self.bits,
    {
        if let Access::Write { after_ns, offset, word } = access {
            self.advanced(after_ns).0.lemma_written_wf(offset, word);
        }
    }

    /// Whatever sequence of reads and writes a new timer goes through, at
    /// whatever times, its counter stays within `[0, 2^bits - 1]`, and so
    /// does every value that the value register then reads.
    pub proof fn lemma_wrap_invariant(bits: nat, accesses: Seq<Access>)
        requires
            bits <= 32,
        ensures
            TimerState::initial(bits).run(accesses).wf(),
            TimerState::initial(bits).run(accesses).bits == bits,
            0 <= TimerState::initial(bits).run(accesses).value <= pow2(bits) - 1,
            TimerState::initial(bits).run(accesses).read(VALUE) matches Ok(value) && value <= pow2(
                bits,
            ) - 1,
        decreases accesses.len(),
    {
        let start = TimerState::initial(bits);
        start.lemma_modulus_bounds();
        if accesses.len() > 0 {
            Self::lemma_wrap_invariant(bits, accesses.drop_last());
            start.run(accesses.drop_last()).lemma_accessed_wf(accesses.last());
        }
    }

    /// Time does nothing to a stopped timer: an access to it, however long
    /// after the one before, is an access to the timer as it stood.
    pub proof fn lemma_stopped_ignores_time(self, ns: nat, offset: u32, word: u32)
        requires
            !self.control.enabled,
        ensures
            self.advanced(ns) == (self, Ok::<(), Misuse>(())),
            self.read_after(ns, offset) == (self, self.read(offset)),
            self.write_after(ns, offset, word) == self.written(offset, word),
    {
    }

    /// A running free-running timer always updates. After `ns` nanoseconds
    /// its counter is the old one less the elapsed ticks, modulo `2^bits`;
    /// the elapsed ticks are those of the selected rate, rounded down, or one
    /// more; and short of wrapping around the counter does not increase.
    pub proof fn lemma_free_running_decay(self, ns: nat)
        requires
            self.wf(),
            self.control.enabled,
            self.control.mode == Mode::FreeRunning,
        ensures
            self.advanced(ns).1 is Ok,
            self.advanced(ns).0.value == (self.value - self.ticks(ns)) % self.modulus(),
            self.advanced(ns).0.control == self.control,
            self.advanced(ns).0.load == self.load,
            (ns * self.control.clock.khz()) / 1_000_000 <= self.ticks(ns) <= (ns
                * self.control.clock.khz()) / 1_000_000 + 1,
            self.ticks(ns) <= self.value ==> self.advanced(ns).0.value == self.value - self.ticks(
                ns,
            ),
            self.advanced(ns).0.value <= self.value || self.ticks(ns) > self.value,
    {
        self.lemma_modulus_bounds();
        if self.ticks(ns) <= self.value {
            lemma_small_mod((self.value - self.ticks(ns)) as nat, self.modulus() as nat);
        }
    }

    /// For a running free-running timer, two updates in a row amount to one
    /// update over the whole time: no tick is lost or gained by observing
    /// the counter in between.
    pub proof fn lemma_decay_composes(self, first_ns: nat, then_ns: nat)
        requires
            self.wf(),
            self.control.enabled,
            self.control.mode == Mode::FreeRunning,
        ensures
            self.advanced(first_ns).0.advanced(then_ns) == self.advanced(first_ns + then_ns),
    {
        let per = MICROTICKS_PER_TICK as int;
        let khz = self.control.clock.khz();
        let m = self.modulus();
        let mid = self.advanced(first_ns).0;
        self.lemma_modulus_bounds();
        let q1 = self.ticks(first_ns);
        let q2 = mid.ticks(then_ns);
        let r2 = mid.carry(then_ns);
        // The carried remainder makes the tick counts add up exactly.
        assert(self.microticks(first_ns + then_ns) == (q1 + q2) * per + r2) by (nonlinear_arith)
            requires
                self.microticks(first_ns + then_ns) == (first_ns + then_ns) * khz + self.fraction,
                first_ns * khz + self.fraction == q1 * per + mid.fraction,
                then_ns * khz + mid.fraction == q2 * per + r2,
        ;
        // Reducing in between does not change the final residue.
        let once = (self.value - q1) % m;
        lemma_fundamental_div_mod(self.value - q1, m);
        assert(once - q2 == m * (-((self.value - q1) / m)) + (self.value - (q1 + q2)))
            by (nonlinear_arith)
            requires
                self.value - q1 == m * ((self.value - q1) / m) + once,
        ;
        lemma_mod_multiples_vanish(-((self.value - q1) / m), self.value - (q1 + q2), m);
    }

    /// A word written to the load register of a stopped timer is, reduced to
    /// the counter's width, what the load register and the value register
    /// both read from then on, however long after; a word that fits the
    /// width reads back as it is.
    pub proof fn lemma_load_reads_back(self, word: u32, ns: nat)
        requires
            self.wf(),
            !self.control.enabled,
        ensures
            self.written(LOAD, word).1 is Ok,
            self.written(LOAD, word).0.read_after(ns, LOAD).1 == Ok::<u32, MemException>(
                (word as int % self.modulus()) as u32,
            ),
            self.written(LOAD, word).0.read_after(ns, VALUE).1 == Ok::<u32, MemException>(
                (word as int % self.modulus()) as u32,
            ),
            word < self.modulus() ==> (word as int % self.modulus()) as u32 == word,
    {
        if word < self.modulus() {
            lemma_small_mod(word as nat, self.modulus() as nat);
        }
    }

    /// Starting a stopped timer clears the carried remainder, so the ticks
    /// counted over a given time from then on are those of the new rate
    /// alone, whatever remainder the timer carried before.
    pub proof fn lemma_enable_clears_fraction(self, other: TimerState, word: u32, ns: nat)
        requires
            !self.control.enabled,
            !other.control.enabled,
            bit_set(word, ENABLE_BIT),
        ensures
            self.written(CONTROL, word).1 is Ok,
            self.written(CONTROL, word).0.control.enabled,
            self.written(CONTROL, word).0.fraction == 0,
            self.written(CONTROL, word).0.ticks(ns) == (ns * Control::decoded(word).clock.khz())
                / 1_000_000,
            self.written(CONTROL, word).0.ticks(ns) == other.written(CONTROL, word).0.ticks(ns),
    {
    }
}

} // verus!
