//! The timer's control register: its three fields and their wire encoding.

use vstd::prelude::*;
use crate::bits::{bit_set, test_bit};

verus! {

/// What the counter does when it passes zero.
#[derive(Clone, Copy, Debug, PartialEq, Eq, Structural)]
pub enum Mode {
    /// Wraps around at the counter's bit width.
    FreeRunning,
    /// Reloads from the load value.
    Periodic,
}

/// The rate at which the counter decrements.
#[derive(Clone, Copy, Debug, PartialEq, Eq, Structural)]
pub enum Clock {
    Khz2,
    Khz508,
}

impl Clock {
    /// Ticks per millisecond.
    pub open spec fn khz(self) -> int {
        match self {
            Clock::Khz2 => 2,
            Clock::Khz508 => 508,
        }
    }

    pub fn rate_khz(self) -> (r: u32)
        ensures
            r == self.khz(),
    {
        match self {
            Clock::Khz2 => 2,
            Clock::Khz508 => 508,
        }
    }
}

/// The decoded control register.
#[derive(Clone, Copy, Debug, PartialEq, Eq, Structural)]
pub struct Control {
    pub clock: Clock,
    pub mode: Mode,
    pub enabled: bool,
}

pub const CLOCK_BIT: u32 = 3;

pub const MODE_BIT: u32 = 6;

pub const ENABLE_BIT: u32 = 7;

impl Control {
    /// The fields that a register word selects: bit 3 the clock, bit 6 the
    /// mode, bit 7 whether the timer counts. All other bits are ignored.
    pub open spec fn decoded(word: u32) -> Control {
        Control {
            clock: if bit_set(word, CLOCK_BIT) {
                Clock::Khz508
            } else {
                Clock::Khz2
            },
            mode: if bit_set(word, MODE_BIT) {
                Mode::Periodic
            } else {
                Mode::FreeRunning
            },
            enabled: bit_set(word, ENABLE_BIT),
        }
    }

    /// The register word that holds these fields, with all other bits zero.
    pub open spec fn encoded(self) -> u32 {
        ((if self.clock == Clock::Khz508 { 0x08int } else { 0 })
            + (if self.mode == Mode::Periodic { 0x40int } else { 0 })
            + (if self.enabled { 0x80int } else { 0 })) as u32
    }

    pub fn decode(word: u32) -> (c: Control)
        ensures
            c == Control::decoded(word),
    {
        Control {
            clock: if test_bit(word, CLOCK_BIT) {
                Clock::Khz508
            } else {
                Clock::Khz2
            },
            mode: if test_bit(word, MODE_BIT) {
                Mode::Periodic
            } else {
                Mode::FreeRunning
            },
            enabled: test_bit(word, ENABLE_BIT),
        }
    }

    pub fn encode(self) -> (word: u32)
        ensures
            word == self.encoded(),
    {
        let clock: u32 = match self.clock {
            Clock::Khz2 => 0,
            Clock::Khz508 => 1,
        };
        let mode: u32 = match self.mode {
            Mode::FreeRunning => 0,
            Mode::Periodic => 1,
        };
        let enabled: u32 = if self.enabled { 1 } else { 0 };
        assert((clock << 3) | (mode << 6) | (enabled << 7) == clock * 0x08 + mode * 0x40 + enabled
            * 0x80) by (bit_vector)
            requires
                clock <= 1,
                mode <= 1,
                enabled <= 1,
        ;
        (clock << 3) | (mode << 6) | (enabled << 7)
    }

    /// Decoding an encoded control gives the control back.
    pub proof fn lemma_decode_encode(self)
        ensures
            Control::decoded(self.encoded()) == self,
    {
        let word = self.encoded();
        let c: u32 = if self.clock == Clock::Khz508 { 1 } else { 0 };
        let m: u32 = if self.mode == Mode::Periodic { 1 } else { 0 };
        let e: u32 = if self.enabled { 1 } else { 0 };
        assert((word & (1u32 << 3u32) != 0) == (c == 1) && (word & (1u32 << 6u32) != 0) == (m
            == 1) && (word & (1u32 << 7u32) != 0) == (e == 1)) by (bit_vector)
            requires
                c <= 1,
                m <= 1,
                e <= 1,
                word == c * 0x08 + m * 0x40 + e * 0x80,
        ;
    }

    /// Encoding a decoded word keeps exactly its three control bits.
    pub proof fn lemma_encode_decode(word: u32)
        ensures
            Control::decoded(word).encoded() == word & 0xC8,
    {
        let c: u32 = if word & (1u32 << 3u32) != 0 { 0x08 } else { 0 };
        let m: u32 = if word & (1u32 << 6u32) != 0 { 0x40 } else { 0 };
        let e: u32 = if word & (1u32 << 7u32) != 0 { 0x80 } else { 0 };
        assert(c + m + e == word & 0xC8) by (bit_vector)
            requires
                c == (if word & (1u32 << 3u32) != 0 { 0x08u32 } else { 0 }),
                m == (if word & (1u32 << 6u32) != 0 { 0x40u32 } else { 0 }),
                e == (if word & (1u32 << 7u32) != 0 { 0x80u32 } else { 0 }),
        ;
    }
}

} // verus!
