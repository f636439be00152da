//! A vectored interrupt controller.
//!
//! It gathers the interrupt lines that hardware and software assert into
//! the two outputs IRQ and FIQ, and resolves on demand which service routine
//! the processor should run.

pub mod laws;
pub mod state;

use vstd::prelude::*;
use crate::bits::test_bit;
use crate::devices::vic::state::{
    VectorEntry, VicState, DEF_VECT_ADDR, FIQ_STATUS, INT_ENABLE, INT_EN_CLEAR, INT_SELECT,
    IRQ_STATUS, LINES, PERIPH_ID0, PERIPH_ID0_VALUE, PERIPH_ID1, PERIPH_ID1_VALUE, PERIPH_ID2,
    PERIPH_ID2_VALUE, PERIPH_ID3, PERIPH_ID3_VALUE, PROTECTION, RAW_INTR, SLOT_ENABLE, SOFT_INT,
    SOFT_INT_CLEAR, VECTORS, VECT_ADDR, VECT_ADDR_FIRST, VECT_ADDR_LAST, VECT_CNTL_FIRST,
    VECT_CNTL_LAST,
};
use crate::devices::Probe;
use crate::memory::{MemException, MemResult};

verus! {

/// The interrupt controller of the chip.
#[derive(Debug)]
pub struct Vic {
    label: &'static str,
    status: u32,
    enabled: u32,
    select: u32,
    software_status: u32,
    default_isr: u32,
    vector_entries: [VectorEntry; 16],
}

impl View for Vic {
    type V = VicState;

    closed spec fn view(&self) -> VicState {
        VicState {
            hardware: self.status,
            software: self.software_status,
            enabled: self.enabled,
            select: self.select,
            default_isr: self.default_isr,
            vectors: self.vector_entries@,
        }
    }
}

impl Vic {
    #[verifier::type_invariant]
    spec fn inv(self) -> bool {
        self@.wf()
    }

    /// The name the controller was created with.
    pub closed spec fn name(&self) -> &'static str {
        self.label
    }

    /// Creates a controller with everything zero.
    pub fn new(label: &'static str) -> (vic: Vic)
        ensures
            vic@ == VicState::initial(),
            vic@.wf(),
            vic.name() == label,
    {
        let vic = Vic {
            label,
            status: 0,
            enabled: 0,
            select: 0,
            software_status: 0,
            default_isr: 0,
            vector_entries: [VectorEntry { source: 0, isr_addr: 0, enabled: false }; 16],
        };
        assert(vic@.vectors =~= VicState::initial().vectors);
        vic
    }

    /// The lines asserted by hardware or by software.
    pub fn rawstatus(&self) -> (lines: u32)
        ensures
            lines == self@.raw(),
    {
        self.status | self.software_status
    }

    /// The asserted lines that are enabled.
    pub fn enabled_active_interrupts(&self) -> (lines: u32)
        ensures
            lines == self@.active(),
    {
        self.rawstatus() & self.enabled
    }

    /// Whether an IRQ should be requested: some enabled line that is not
    /// routed to FIQ is asserted.
    pub fn irq(&self) -> (raised: bool)
        ensures
            raised == self@.irq(),
    {
        (self.enabled_active_interrupts() & !self.select) != 0
    }

    /// Whether an FIQ should be requested: some enabled line that is routed
    /// to FIQ is asserted.
    pub fn fiq(&self) -> (raised: bool)
        ensures
            raised == self@.fiq(),
    {
        (self.enabled_active_interrupts() & self.select) != 0
    }

    /// The address of the service routine the processor should run.
    pub fn isr_address(&self) -> (address: u32)
        ensures
            address == self@.isr_address(),
    {
        proof {
            use_type_invariant(self);
        }
        if self.fiq() || !self.irq() {
            return self.default_isr;
        }
        let irqs: u32 = self.enabled_active_interrupts() & !self.select;
        let mut i: usize = 0;
        while i < VECTORS
            invariant
                i <= VECTORS,
                self@.wf(),
                irqs == self@.irq_lines(),
                self@.isr_address() == self@.scan(i as int),
            decreases VECTORS - i,
        {
            let entry = self.vector_entries[i];
            if entry.enabled && test_bit(irqs, entry.source as u32) {
                return entry.isr_addr;
            }
            i += 1;
        }
        self.default_isr
    }

    /// Records that the hardware source on line `source` requests an
    /// interrupt.
    pub fn assert_interrupt(&mut self, source: u8)
        requires
            source < LINES,
        ensures
            final(self)@ == old(self)@.asserted(source),
            final(self)@.wf(),
            final(self).name() == old(self).name(),
    {
        proof {
            use_type_invariant(&*self);
        }
        self.status |= 1u32 << (source as u32);
    }

    /// Records that the hardware source on line `source` no longer requests
    /// an interrupt.
    pub fn clear_interrupt(&mut self, source: u8)
        requires
            source < LINES,
        ensures
            final(self)@ == old(self)@.cleared(source),
            final(self)@.wf(),
            final(self).name() == old(self).name(),
    {
        proof {
            use_type_invariant(&*self);
        }
        self.status &= !(1u32 << (source as u32));
    }

    /// The kind of device this is.
    pub fn kind(&self) -> (r: &'static str)
        ensures
            r@ == "VIC"@,
    {
        "VIC"
    }

    /// The name the controller was created with.
    pub fn label(&self) -> (r: Option<&str>)
        ensures
            r == Some(self.name()),
    {
        Some(self.label)
    }
    /// The name of the register at `offset`, for tracing tools.
    pub fn probe(&self, offset: u32) -> (r: Probe)
        ensures
            r == VicState::probe(offset),
    {
        let reg = match offset {
            IRQ_STATUS => "IRQStatus",
            FIQ_STATUS => "FIQStatus",
            RAW_INTR => "RawIntr",
            INT_SELECT => "IntSelect",
            INT_ENABLE => "IntEnable",
            INT_EN_CLEAR => "IntEnClear",
            SOFT_INT => "SoftInt",
            SOFT_INT_CLEAR => "SoftIntClear",
            PROTECTION => "Protection",
            VECT_ADDR => "VectAddr",
            DEF_VECT_ADDR => "DefVectAddr",
            VECT_ADDR_FIRST..=VECT_ADDR_LAST => "VectAddrX",
            VECT_CNTL_FIRST..=VECT_CNTL_LAST => "VectCntlX",
            PERIPH_ID0..=PERIPH_ID3 => "PeriphIDX",
            _ => return Probe::Unmapped,
        };
        Probe::Register(reg)
    }

    /// Reads the register at `offset`. The controller does not change.
    pub fn r32(&mut self, offset: u32) -> (r: MemResult<u32>)
        ensures
            r == old(self)@.read(offset),
            final(self)@ == old(self)@,
            final(self)@.wf(),
            final(self).name() == old(self).name(),
    {
        proof {
            use_type_invariant(&*self);
        }
        match offset {
            IRQ_STATUS => Ok(self.enabled_active_interrupts() & !self.select),
            FIQ_STATUS => Ok(self.enabled_active_interrupts() & self.select),
            RAW_INTR => Ok(self.rawstatus()),
            INT_SELECT => Ok(self.select),
            INT_ENABLE => Ok(self.enabled),
            INT_EN_CLEAR => Err(MemException::InvalidAccess),
            SOFT_INT => Ok(self.software_status),
            SOFT_INT_CLEAR => Err(MemException::InvalidAccess),
            PROTECTION => Err(MemException::StubRead(0)),
            VECT_ADDR => Ok(self.isr_address()),
            DEF_VECT_ADDR => Ok(self.default_isr),
            VECT_ADDR_FIRST..=VECT_ADDR_LAST => {
                let index: usize = ((offset - VECT_ADDR_FIRST) / 4) as usize;
                Ok(self.vector_entries[index].isr_addr)
            },
            VECT_CNTL_FIRST..=VECT_CNTL_LAST => {
                let index: usize = ((offset - VECT_CNTL_FIRST) / 4) as usize;
                let entry = self.vector_entries[index];
                let flag: u32 = if entry.enabled { SLOT_ENABLE } else { 0 };
                Ok(flag + entry.source as u32)
            },
            PERIPH_ID0 => Ok(PERIPH_ID0_VALUE),
            PERIPH_ID1 => Ok(PERIPH_ID1_VALUE),
            PERIPH_ID2 => Ok(PERIPH_ID2_VALUE),
            PERIPH_ID3 => Ok(PERIPH_ID3_VALUE),
            _ => Err(MemException::Unexpected),
        }
    }

    /// Writes `word` to the register at `offset`.
    pub fn w32(&mut self, offset: u32, word: u32) -> (r: MemResult<()>)
        ensures
            (final(self)@, r) == old(self)@.written(offset, word),
            final(self)@.wf(),
            final(self).name() == old(self).name(),
    {
        proof {
            use_type_invariant(&*self);
        }
        match offset {
            IRQ_STATUS => Err(MemException::InvalidAccess),
            FIQ_STATUS => Err(MemException::InvalidAccess),
            RAW_INTR => Err(MemException::InvalidAccess),
            INT_SELECT => {
                self.select = word;
                Ok(())
            },
            INT_ENABLE => {
                self.enabled = word;
                Ok(())
            },
            INT_EN_CLEAR => {
                self.enabled &= !word;
                Ok(())
            },
            SOFT_INT => {
                self.software_status |= word;
                Ok(())
            },
            SOFT_INT_CLEAR => {
                self.software_status &= !word;
                Ok(())
            },
            PROTECTION => Err(MemException::StubWrite),
            VECT_ADDR => Ok(()),
            DEF_VECT_ADDR => {
                self.default_isr = word;
                Ok(())
            },
            VECT_ADDR_FIRST..=VECT_ADDR_LAST => {
                let index: usize = ((offset - VECT_ADDR_FIRST) / 4) as usize;
                self.vector_entries[index].isr_addr = word;
                Ok(())
            },
            VECT_CNTL_FIRST..=VECT_CNTL_LAST => {
                let index: usize = ((offset - VECT_CNTL_FIRST) / 4) as usize;
                assert(word & 0x1f == word % 32) by (bit_vector);
                self.vector_entries[index].enabled = test_bit(word, 5);
                self.vector_entries[index].source = (word & 0x1f) as u8;
                assert(self@.vectors =~= old(self)@.written(offset, word).0.vectors);
                Ok(())
            },
            PERIPH_ID0 => Err(MemException::InvalidAccess),
            PERIPH_ID1 => Err(MemException::InvalidAccess),
            PERIPH_ID2 => Err(MemException::InvalidAccess),
            PERIPH_ID3 => Err(MemException::InvalidAccess),
            _ => Err(MemException::Unexpected),
        }
    }
}

} // verus!
