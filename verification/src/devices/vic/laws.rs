//! What holds of the interrupt controller's state machine in every state.

use vstd::prelude::*;
use crate::bits::{bit_set, lemma_nonzero_iff_some_bit, lemma_with_bit, lemma_without_bit};
use crate::devices::vic::state::{VicState, LINES};

verus! {

impl VicState {
    /// Whether `line` is asserted, by hardware or by software, and enabled.
    pub open spec fn line_active(self, line: u32) -> bool {
        (bit_set(self.hardware, line) || bit_set(self.software, line)) && bit_set(
            self.enabled,
            line,
        )
    }

    /// Whether `line` is active and routed to IRQ.
    pub open spec fn line_requests_irq(self, line: u32) -> bool {
        self.line_active(line) && !bit_set(self.select, line)
    }

    /// Whether `line` is active and routed to FIQ.
    pub open spec fn line_requests_fiq(self, line: u32) -> bool {
        self.line_active(line) && bit_set(self.select, line)
    }

    /// The bits of the two line sets are what their names say, line by line.
    pub proof fn lemma_lines(self, line: u32)
        requires
            line < LINES,
        ensures
            bit_set(self.raw(), line) == (bit_set(self.hardware, line) || bit_set(
                self.software,
                line,
            )),
            bit_set(self.active(), line) == self.line_active(line),
            bit_set(self.irq_lines(), line) == self.line_requests_irq(line),
            bit_set(self.fiq_lines(), line) == self.line_requests_fiq(line),
    {
        let h = self.hardware;
        let s = self.software;
        let e = self.enabled;
        let f = self.select;
        assert(((h | s) & (1u32 << line) != 0) == (h & (1u32 << line) != 0 || s & (1u32 << line)
            != 0)) by (bit_vector);
        assert((((h | s) & e) & (1u32 << line) != 0) == ((h & (1u32 << line) != 0 || s & (1u32
            << line) != 0) && e & (1u32 << line) != 0)) by (bit_vector);
        assert(((((h | s) & e) & !f) & (1u32 << line) != 0) == ((h & (1u32 << line) != 0 || s & (
        1u32 << line) != 0) && e & (1u32 << line) != 0 && !(f & (1u32 << line) != 0)))
            by (bit_vector)
            requires
                line < 32,
        ;
        assert(((((h | s) & e) & f) & (1u32 << line) != 0) == ((h & (1u32 << line) != 0 || s & (
        1u32 << line) != 0) && e & (1u32 << line) != 0 && f & (1u32 << line) != 0))
            by (bit_vector);
    }

    /// The IRQ output is raised exactly when some line is asserted, enabled
    /// and not routed to FIQ; the FIQ output exactly when some line is
    /// asserted, enabled and routed to FIQ.
    pub proof fn lemma_routing(self)
        ensures
            self.irq() <==> exists|line: u32| line < LINES && #[trigger] self.line_requests_irq(line),
            self.fiq() <==> exists|line: u32| line < LINES && #[trigger] self.line_requests_fiq(line),
    {
        lemma_nonzero_iff_some_bit(self.irq_lines());
        lemma_nonzero_iff_some_bit(self.fiq_lines());
        if self.irq() {
            let line = choose|i: u32| i < 32 && #[trigger] bit_set(self.irq_lines(), i);
            self.lemma_lines(line);
        }
        if exists|line: u32| line < LINES && #[trigger] self.line_requests_irq(line) {
            let line = choose|line: u32| line < LINES && #[trigger] self.line_requests_irq(line);
            self.lemma_lines(line);
        }
        if self.fiq() {
            let line = choose|i: u32| i < 32 && #[trigger] bit_set(self.fiq_lines(), i);
            self.lemma_lines(line);
        }
        if exists|line: u32| line < LINES && #[trigger] self.line_requests_fiq(line) {
            let line = choose|line: u32| line < LINES && #[trigger] self.line_requests_fiq(line);
            self.lemma_lines(line);
        }
    }

    /// Asserting a hardware line sets that line and no other; clearing it
    /// clears that line and no other.
    pub proof fn lemma_assert_clear(self, source: u8, line: u32)
        requires
            source < LINES,
            line < LINES,
        ensures
            bit_set(self.asserted(source).hardware, line) == (line == source || bit_set(
                self.hardware,
                line,
            )),
            bit_set(self.cleared(source).hardware, line) == (line != source && bit_set(
                self.hardware,
                line,
            )),
    {
        lemma_with_bit(self.hardware, source as u32, line);
        lemma_without_bit(self.hardware, source as u32, line);
    }

    /// An enabled line that hardware asserts raises the output it is routed
    /// to.
    pub proof fn lemma_asserted_raises(self, source: u8)
        requires
            source < LINES,
            bit_set(self.enabled, source as u32),
        ensures
            bit_set(self.select, source as u32) ==> self.asserted(source).fiq(),
            !bit_set(self.select, source as u32) ==> self.asserted(source).irq(),
    {
        let after = self.asserted(source);
        self.lemma_assert_clear(source, source as u32);
        after.lemma_routing();
        if bit_set(self.select, source as u32) {
            assert(after.line_requests_fiq(source as u32));
        } else {
            assert(after.line_requests_irq(source as u32));
        }
    }

    /// A slot that matches raises the IRQ output.
    pub proof fn lemma_match_is_pending(self, i: int)
        requires
            self.wf(),
            0 <= i < self.vectors.len(),
            self.slot_matches(i),
        ensures
            self.irq(),
    {
        lemma_nonzero_iff_some_bit(self.irq_lines());
    }

    /// Going through the table from `from` on finds the first slot that
    /// matches.
    pub proof fn lemma_scan_finds_first(self, from: int, i: int)
        requires
            0 <= from <= i < self.vectors.len(),
            self.slot_matches(i),
            forall|j: int| from <= j < i ==> !self.slot_matches(j),
        ensures
            self.scan(from) == self.vectors[i].isr_addr,
        decreases i - from,
    {
        if from < i {
            self.lemma_scan_finds_first(from + 1, i);
        }
    }

    /// Where no slot from `from` on matches, the table yields the default
    /// address.
    pub proof fn lemma_scan_finds_none(self, from: int)
        requires
            0 <= from,
            forall|j: int| from <= j < self.vectors.len() ==> !self.slot_matches(j),
        ensures
            self.scan(from) == self.default_isr,
        decreases self.vectors.len() - from,
    {
        if from < self.vectors.len() {
            self.lemma_scan_finds_none(from + 1);
        }
    }

    /// With no FIQ pending, the resolved address is that of the matching
    /// slot with the lowest index.
    pub proof fn lemma_lowest_match_wins(self, i: int)
        requires
            self.wf(),
            !self.fiq(),
            0 <= i < self.vectors.len(),
            self.slot_matches(i),
            forall|j: int| 0 <= j < i ==> !self.slot_matches(j),
        ensures
            self.isr_address() == self.vectors[i].isr_addr,
    {
        self.lemma_match_is_pending(i);
        self.lemma_scan_finds_first(0, i);
    }

    /// Of two enabled slots that serve different lines, both requesting an
    /// IRQ, the one with the lower index gives the resolved address, as long
    /// as no FIQ is pending and no slot before it matches as well.
    pub proof fn lemma_vector_priority(self, first: int, second: int)
        requires
            self.wf(),
            !self.fiq(),
            0 <= first < second < self.vectors.len(),
            self.vectors[first].source != self.vectors[second].source,
            self.slot_matches(first),
            self.slot_matches(second),
            forall|j: int| 0 <= j < first ==> !self.slot_matches(j),
        ensures
            self.irq(),
            self.isr_address() == self.vectors[first].isr_addr,
    {
        self.lemma_match_is_pending(first);
        self.lemma_lowest_match_wins(first);
    }

    /// While an FIQ is pending, or no IRQ is, the resolved address is the
    /// default address; and so it is when an IRQ is pending that no slot
    /// serves.
    pub proof fn lemma_default_fallback(self)
        ensures
            self.fiq() ==> self.isr_address() == self.default_isr,
            !self.irq() ==> self.isr_address() == self.default_isr,
            (forall|j: int| 0 <= j < self.vectors.len() ==> !self.slot_matches(j))
                ==> self.isr_address() == self.default_isr,
    {
        if forall|j: int| 0 <= j < self.vectors.len() ==> !self.slot_matches(j) {
            self.lemma_scan_finds_none(0);
        }
    }

    /// A write keeps the table at sixteen slots that each name one of the 32
    /// lines: a source written to a slot is reduced to five bits.
    pub proof fn lemma_written_wf(self, offset: u32, word: u32)
        requires
            self.wf(),
        ensures
            self.written(offset, word).0.wf(),
    {
    }
}

} // verus!
