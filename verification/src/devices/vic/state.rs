//! The interrupt controller as a mathematical state machine: its state, its
//! two output lines, the vector it resolves, and the effect of each
//! register access.

use vstd::prelude::*;
use crate::bits::{bit_set, with_bit, without_bit};
use crate::devices::Probe;
use crate::memory::{MemException, MemResult};

verus! {

/// Number of slots in the vector table.
pub const VECTORS: usize = 16;

/// Number of interrupt lines.
pub const LINES: u8 = 32;

pub const IRQ_STATUS: u32 = 0x00;

pub const FIQ_STATUS: u32 = 0x04;

pub const RAW_INTR: u32 = 0x08;

pub const INT_SELECT: u32 = 0x0C;

pub const INT_ENABLE: u32 = 0x10;

pub const INT_EN_CLEAR: u32 = 0x14;

pub const SOFT_INT: u32 = 0x18;

pub const SOFT_INT_CLEAR: u32 = 0x1C;

pub const PROTECTION: u32 = 0x20;

pub const VECT_ADDR: u32 = 0x30;

pub const DEF_VECT_ADDR: u32 = 0x34;

/// First and last offset of the sixteen vector address registers.
pub const VECT_ADDR_FIRST: u32 = 0x100;

pub const VECT_ADDR_LAST: u32 = 0x13C;

/// First and last offset of the sixteen vector control registers.
pub const VECT_CNTL_FIRST: u32 = 0x200;

pub const VECT_CNTL_LAST: u32 = 0x23C;

/// The four identification registers and what they read.
pub const PERIPH_ID0: u32 = 0xFE0;

pub const PERIPH_ID1: u32 = 0xFE4;

pub const PERIPH_ID2: u32 = 0xFE8;

pub const PERIPH_ID3: u32 = 0xFEC;

pub const PERIPH_ID0_VALUE: u32 = 0x90;

pub const PERIPH_ID1_VALUE: u32 = 0x11;

pub const PERIPH_ID2_VALUE: u32 = 0x04;

pub const PERIPH_ID3_VALUE: u32 = 0x00;

/// The bit of a vector control word that enables the slot.
pub const SLOT_ENABLE: u32 = 0x20;

/// One slot of the vector table.
#[derive(Clone, Copy, Debug, PartialEq, Eq, Structural)]
pub struct VectorEntry {
    /// The interrupt line the slot serves.
    pub source: u8,
    /// Where the service routine for that line starts.
    pub isr_addr: u32,
    /// Whether the slot takes part in vector resolution.
    pub enabled: bool,
}

impl VectorEntry {
    /// A slot as it is after reset.
    pub open spec fn cleared() -> VectorEntry {
        VectorEntry { source: 0, isr_addr: 0, enabled: false }
    }

    /// What the slot's control register reads: bit 5 for enabled, the low
    /// five bits for the source.
    pub open spec fn control_word(self) -> u32 {
        ((if self.enabled { SLOT_ENABLE as int } else { 0 }) + self.source) as u32
    }

    /// The slot after `word` is written to its control register.
    pub open spec fn controlled(self, word: u32) -> VectorEntry {
        VectorEntry { source: (word % 32) as u8, enabled: bit_set(word, 5), ..self }
    }
}

/// What an interrupt controller is, apart from its label.
pub ghost struct VicState {
    /// Lines asserted by hardware sources.
    pub hardware: u32,
    /// Lines asserted by software.
    pub software: u32,
    /// Lines that take part in the outputs.
    pub enabled: u32,
    /// Lines routed to FIQ; the others go to IRQ.
    pub select: u32,
    /// The address returned when no slot of the table applies.
    pub default_isr: u32,
    /// The vector table, slot 0 first.
    pub vectors: Seq<VectorEntry>,
}

impl VicState {
    /// The table has sixteen slots and every slot names one of the 32 lines.
    pub open spec fn wf(self) -> bool {
        &&& self.vectors.len() == VECTORS
        &&& forall|i: int| 0 <= i < self.vectors.len() ==> (#[trigger] self.vectors[i]).source < LINES
    }

    /// The controller after reset: everything zero.
    pub open spec fn initial() -> VicState {
        VicState {
            hardware: 0,
            software: 0,
            enabled: 0,
            select: 0,
            default_isr: 0,
            vectors: Seq::new(VECTORS as nat, |i: int| VectorEntry::cleared()),
        }
    }

    /// Lines asserted by hardware or by software.
    pub open spec fn raw(self) -> u32 {
        self.hardware | self.software
    }

    /// Asserted lines that are enabled.
    pub open spec fn active(self) -> u32 {
        self.raw() & self.enabled
    }

    /// Enabled, asserted lines routed to IRQ.
    pub open spec fn irq_lines(self) -> u32 {
        self.active() & !self.select
    }

    /// Enabled, asserted lines routed to FIQ.
    pub open spec fn fiq_lines(self) -> u32 {
        self.active() & self.select
    }

    /// Whether the IRQ output is raised.
    pub open spec fn irq(self) -> bool {
        self.irq_lines() != 0
    }

    /// Whether the FIQ output is raised.
    pub open spec fn fiq(self) -> bool {
        self.fiq_lines() != 0
    }

    /// Whether slot `i` is enabled and its line requests an IRQ.
    pub open spec fn slot_matches(self, i: int) -> bool {
        self.vectors[i].enabled && bit_set(self.irq_lines(), self.vectors[i].source as u32)
    }

    /// The address found by going through the table from slot `from` on:
    /// that of the first slot that matches, or the default address.
    pub open spec fn scan(self, from: int) -> u32
        decreases self.vectors.len() - from,
    {
        if from < 0 || from >= self.vectors.len() {
            self.default_isr
        } else if self.slot_matches(from) {
            self.vectors[from].isr_addr
        } else {
            self.scan(from + 1)
        }
    }

    /// The address the processor should jump to. While an FIQ is pending, or
    /// no IRQ is, that is the default address; otherwise the table decides.
    pub open spec fn isr_address(self) -> u32 {
        if self.fiq() || !self.irq() {
            self.default_isr
        } else {
            self.scan(0)
        }
    }

    /// The controller with hardware line `source` asserted.
    pub open spec fn asserted(self, source: u8) -> VicState {
        VicState { hardware: with_bit(self.hardware, source as u32), ..self }
    }

    /// The controller with hardware line `source` no longer asserted.
    pub open spec fn cleared(self, source: u8) -> VicState {
        VicState { hardware: without_bit(self.hardware, source as u32), ..self }
    }

    /// The slot that a vector register at `offset` belongs to, counted from
    /// the first register of its block at `first`.
    pub open spec fn slot_of(offset: u32, first: u32) -> int {
        (offset - first) / 4
    }

    /// What lies at `offset`, for tracing tools. The three register blocks
    /// go under one name each.
    pub open spec fn probe(offset: u32) -> Probe {
        if offset == IRQ_STATUS {
            Probe::Register("IRQStatus")
        } else if offset == FIQ_STATUS {
            Probe::Register("FIQStatus")
        } else if offset == RAW_INTR {
            Probe::Register("RawIntr")
        } else if offset == INT_SELECT {
            Probe::Register("IntSelect")
        } else if offset == INT_ENABLE {
            Probe::Register("IntEnable")
        } else if offset == INT_EN_CLEAR {
            Probe::Register("IntEnClear")
        } else if offset == SOFT_INT {
            Probe::Register("SoftInt")
        } else if offset == SOFT_INT_CLEAR {
            Probe::Register("SoftIntClear")
        } else if offset == PROTECTION {
            Probe::Register("Protection")
        } else if offset == VECT_ADDR {
            Probe::Register("VectAddr")
        } else if offset == DEF_VECT_ADDR {
            Probe::Register("DefVectAddr")
        } else if VECT_ADDR_FIRST <= offset <= VECT_ADDR_LAST {
            Probe::Register("VectAddrX")
        } else if VECT_CNTL_FIRST <= offset <= VECT_CNTL_LAST {
            Probe::Register("VectCntlX")
        } else if PERIPH_ID0 <= offset <= PERIPH_ID3 {
            Probe::Register("PeriphIDX")
        } else {
            Probe::Unmapped
        }
    }

    /// What a read of the register at `offset` returns.
    pub open spec fn read(self, offset: u32) -> MemResult<u32> {
        if offset == IRQ_STATUS {
            Ok(self.irq_lines())
        } else if offset == FIQ_STATUS {
            Ok(self.fiq_lines())
        } else if offset == RAW_INTR {
            Ok(self.raw())
        } else if offset == INT_SELECT {
            Ok(self.select)
        } else if offset == INT_ENABLE {
            Ok(self.enabled)
        } else if offset == INT_EN_CLEAR {
            Err(MemException::InvalidAccess)
        } else if offset == SOFT_INT {
            Ok(self.software)
        } else if offset == SOFT_INT_CLEAR {
            Err(MemException::InvalidAccess)
        } else if offset == PROTECTION {
            Err(MemException::StubRead(0))
        } else if offset == VECT_ADDR {
            Ok(self.isr_address())
        } else if offset == DEF_VECT_ADDR {
            Ok(self.default_isr)
        } else if VECT_ADDR_FIRST <= offset <= VECT_ADDR_LAST {
            Ok(self.vectors[Self::slot_of(offset, VECT_ADDR_FIRST)].isr_addr)
        } else if VECT_CNTL_FIRST <= offset <= VECT_CNTL_LAST {
            Ok(self.vectors[Self::slot_of(offset, VECT_CNTL_FIRST)].control_word())
        } else if offset == PERIPH_ID0 {
            Ok(PERIPH_ID0_VALUE)
        } else if offset == PERIPH_ID1 {
            Ok(PERIPH_ID1_VALUE)
        } else if offset == PERIPH_ID2 {
            Ok(PERIPH_ID2_VALUE)
        } else if offset == PERIPH_ID3 {
            Ok(PERIPH_ID3_VALUE)
        } else {
            Err(MemException::Unexpected)
        }
    }

    /// The controller with slot `i` of the table replaced.
    pub open spec fn with_slot(self, i: int, entry: VectorEntry) -> VicState {
        VicState { vectors: self.vectors.update(i, entry), ..self }
    }

    /// The effect of a write of `word` to the register at `offset`: the state
    /// after it and what the write returns. A write that fails changes
    /// nothing.
    pub open spec fn written(self, offset: u32, word: u32) -> (VicState, MemResult<()>) {
        if offset == IRQ_STATUS || offset == FIQ_STATUS || offset == RAW_INTR {
            (self, Err(MemException::InvalidAccess))
        } else if offset == INT_SELECT {
            (VicState { select: word, ..self }, Ok(()))
        } else if offset == INT_ENABLE {
            (VicState { enabled: word, ..self }, Ok(()))
        } else if offset == INT_EN_CLEAR {
            (VicState { enabled: self.enabled & !word, ..self }, Ok(()))
        } else if offset == SOFT_INT {
            (VicState { software: self.software | word, ..self }, Ok(()))
        } else if offset == SOFT_INT_CLEAR {
            (VicState { software: self.software & !word, ..self }, Ok(()))
        } else if offset == PROTECTION {
            (self, Err(MemException::StubWrite))
        } else if offset == VECT_ADDR {
            (self, Ok(()))
        } else if offset == DEF_VECT_ADDR {
            (VicState { default_isr: word, ..self }, Ok(()))
        } else if VECT_ADDR_FIRST <= offset <= VECT_ADDR_LAST {
            let i = Self::slot_of(offset, VECT_ADDR_FIRST);
            (self.with_slot(i, VectorEntry { isr_addr: word, ..self.vectors[i] }), Ok(()))
        } else if VECT_CNTL_FIRST <= offset <= VECT_CNTL_LAST {
            let i = Self::slot_of(offset, VECT_CNTL_FIRST);
            (self.with_slot(i, self.vectors[i].controlled(word)), Ok(()))
        } else if offset == PERIPH_ID0 || offset == PERIPH_ID1 || offset == PERIPH_ID2 || offset
            == PERIPH_ID3 {
            (self, Err(MemException::InvalidAccess))
        } else {
            (self, Err(MemException::Unexpected))
        }
    }
}

} // verus!
