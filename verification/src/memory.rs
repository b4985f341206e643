//! The addressable memory block: parallel-in/parallel-out register cells
//! composed behind one control demultiplexer (which broadcasts a packed
//! 3-bit control word to exactly the addressed cell), one write-path
//! demultiplexer and one read-path multiplexer, giving one-clock-cycle
//! addressed reads and writes.

use vstd::prelude::*;
use crate::word::Word;
use crate::error::EmulationError;
use crate::signal::{Demultiplexer, DemultiplexerView, Multiplexer, MultiplexerView};

verus! {

/// The abstract state of a `RegisterParallelInParallelOut` cell.
#[verifier::ext_equal]
pub struct RegisterView<W> {
    /// The last clock level the cell accepted while write-enabled.
    pub clock_bit: bool,
    /// The input queued to be stored at the next accepted rising edge.
    pub queued_input: W,
    /// Gates read visibility: a deselected cell reads as zero.
    pub chip_select: bool,
    /// Gates writes: without it the clock is ignored entirely.
    pub write_enable: bool,
    /// The stored data word.
    pub data_word: W,
}

impl<W: Word> RegisterView<W> {
    /// The state of a fresh cell: everything low, zero stored and queued.
    pub open spec fn spec_new() -> Self {
        RegisterView {
            clock_bit: false,
            queued_input: W::zero_spec(),
            chip_select: false,
            write_enable: false,
            data_word: W::zero_spec(),
        }
    }

    /// The state after the clock line is driven to `clock_bit`: ignored
    /// entirely without write-enable; otherwise a genuine level change is
    /// recorded and a rising edge stores the queued input.
    pub open spec fn spec_set_clock(self, clock_bit: bool) -> Self {
        if !self.write_enable {
            self
        } else if clock_bit != self.clock_bit {
            if clock_bit {
                RegisterView { clock_bit: clock_bit, data_word: self.queued_input, ..self }
            } else {
                RegisterView { clock_bit: clock_bit, ..self }
            }
        } else {
            self
        }
    }

    /// The state after the queued input is replaced.
    pub open spec fn spec_set_queued_input(self, input_data: W) -> Self {
        RegisterView { queued_input: input_data, ..self }
    }

    /// The state after the chip-select flag is driven.
    pub open spec fn spec_set_chip_select(self, chip_select: bool) -> Self {
        RegisterView { chip_select: chip_select, ..self }
    }

    /// The state after the write-enable flag is driven.
    pub open spec fn spec_set_write_enable(self, write_enable: bool) -> Self {
        RegisterView { write_enable: write_enable, ..self }
    }

    /// What the cell reads as: zero when deselected, else the stored word.
    pub open spec fn spec_read(self) -> W {
        if !self.chip_select {
            W::zero_spec()
        } else {
            self.data_word
        }
    }
}

/// A parallel-in/parallel-out register cell: one stored word, gated by
/// independent chip-select (read visibility) and write-enable (clocked
/// writes) flags. The write path is hard-wired rising-edge.
#[derive(Debug, Clone, Copy)]
pub struct RegisterParallelInParallelOut<W: Word> {
    clock_bit: bool,
    queued_input: W,
    chip_select: bool,
    write_enable: bool,
    data_word: W,
}

impl<W: Word> View for RegisterParallelInParallelOut<W> {
    type V = RegisterView<W>;

    closed spec fn view(&self) -> RegisterView<W> {
        RegisterView {
            clock_bit: self.clock_bit,
            queued_input: self.queued_input,
            chip_select: self.chip_select,
            write_enable: self.write_enable,
            data_word: self.data_word,
        }
    }
}

impl<W: Word> RegisterParallelInParallelOut<W> {
    /// A fresh cell: everything low, zero stored and queued.
    pub fn new() -> (r: Self)
        ensures
            r@ == RegisterView::<W>::spec_new(),
    {
        RegisterParallelInParallelOut {
            clock_bit: false,
            queued_input: W::zero(),
            data_word: W::zero(),
            chip_select: false,
            write_enable: false,
        }
    }

    /// Drive the cell's clock line. Without write-enable the signal is
    /// ignored; with it, a rising edge stores the queued input.
    pub fn set_clock(&mut self, clock_bit: bool)
        ensures
            final(self)@ == old(self)@.spec_set_clock(clock_bit),
    {
        if !self.write_enable {
            return;
        }
        if clock_bit != self.clock_bit {
            self.clock_bit = clock_bit;
            if clock_bit {
                self.data_word = self.queued_input;
            }
        }
    }

    /// Queue `input_data` for the next accepted rising edge.
    pub fn set_queued_input(&mut self, input_data: W)
        ensures
            final(self)@ == old(self)@.spec_set_queued_input(input_data),
    {
        self.queued_input = input_data;
    }

    /// Drive the chip-select flag.
    pub fn set_chip_select(&mut self, chip_select: bool)
        ensures
            final(self)@ == old(self)@.spec_set_chip_select(chip_select),
    {
        self.chip_select = chip_select;
    }

    /// Drive the write-enable flag.
    pub fn set_write_enable(&mut self, chip_enable: bool)
        ensures
            final(self)@ == old(self)@.spec_set_write_enable(chip_enable),
    {
        self.write_enable = chip_enable;
    }

    /// Read the cell: zero when deselected, else the stored word.
    pub fn read_word(&self) -> (r: W)
        ensures
            r == self@.spec_read(),
    {
        if !self.chip_select {
            return W::zero();
        }
        self.data_word
    }
}

impl Default for RegisterParallelInParallelOut<u8> {
    /// A default cell is a fresh cell.
    fn default() -> (r: Self)
        ensures
            r@ == RegisterView::<u8>::spec_new(),
    {
        RegisterParallelInParallelOut::new()
    }
}

/// The packed control word broadcast to the addressed cell: bit 0 carries
/// chip-select, bit 1 write-enable, bit 2 the clock level.
pub open spec fn spec_control_word(chip_select: bool, write_enable: bool, clock_bit: bool) -> u8 {
    (if chip_select { 1u8 } else { 0u8 })
        | ((if write_enable { 1u8 } else { 0u8 }) << 1)
        | ((if clock_bit { 1u8 } else { 0u8 }) << 2)
}

/// The chip-select bit of a control word.
pub open spec fn spec_chip_select_bit(control_word: u8) -> bool {
    (control_word & 0b00000001) != 0
}

/// The write-enable bit of a control word.
pub open spec fn spec_write_enable_bit(control_word: u8) -> bool {
    (control_word & 0b00000010) != 0
}

/// The clock bit of a control word.
pub open spec fn spec_clock_bit(control_word: u8) -> bool {
    (control_word & 0b00000100) != 0
}

/// Decoding a packed control word recovers the three gating signals, and the
/// zero word carries none of them.
pub proof fn lemma_control_word_bits(chip_select: bool, write_enable: bool, clock_bit: bool)
    ensures
        spec_chip_select_bit(spec_control_word(chip_select, write_enable, clock_bit)) == chip_select,
        spec_write_enable_bit(spec_control_word(chip_select, write_enable, clock_bit)) == write_enable,
        spec_clock_bit(spec_control_word(chip_select, write_enable, clock_bit)) == clock_bit,
        !spec_chip_select_bit(0u8),
        !spec_write_enable_bit(0u8),
        !spec_clock_bit(0u8),
{
    let a: u8 = if chip_select { 1u8 } else { 0u8 };
    let b: u8 = if write_enable { 1u8 } else { 0u8 };
    let c: u8 = if clock_bit { 1u8 } else { 0u8 };
    assert(forall|x: u8, y: u8, z: u8|
        x < 2 && y < 2 && z < 2 ==> (((x | (y << 1) | (z << 2)) & 0b00000001) == x)) by (bit_vector);
    assert(forall|x: u8, y: u8, z: u8|
        x < 2 && y < 2 && z < 2 ==> ((((x | (y << 1) | (z << 2)) & 0b00000010) != 0) <==> y == 1)) by (bit_vector);
    assert(forall|x: u8, y: u8, z: u8|
        x < 2 && y < 2 && z < 2 ==> ((((x | (y << 1) | (z << 2)) & 0b00000100) != 0) <==> z == 1)) by (bit_vector);
    assert((0u8 & 0b00000001) == 0 && (0u8 & 0b00000010) == 0 && (0u8 & 0b00000100) == 0) by (bit_vector);
    assert(spec_control_word(chip_select, write_enable, clock_bit) == (a | (b << 1) | (c << 2)));
}

/// The state of one register cell after the control demultiplexer hands it
/// `control_word`: the decoded chip-select and write-enable flags are applied
/// first, then the decoded clock level.
pub open spec fn spec_apply_control_to_line<W: Word>(line: RegisterView<W>, control_word: u8) -> RegisterView<W> {
    line.spec_set_chip_select(spec_chip_select_bit(control_word))
        .spec_set_write_enable(spec_write_enable_bit(control_word))
        .spec_set_clock(spec_clock_bit(control_word))
}

/// The abstract state of a `StaticRandomAccessMemory` block.
#[verifier::ext_equal]
pub struct SramView<W> {
    /// The write-path demultiplexer feeding data to the addressed cell.
    pub data_feed_demultiplexer: DemultiplexerView<W>,
    /// The read-path multiplexer following the addressed cell.
    pub data_read_multiplexer: MultiplexerView<W>,
    /// The demultiplexer broadcasting the packed control word to the
    /// addressed cell.
    pub control_demultiplexer: DemultiplexerView<u8>,
    /// The last applied block clock level.
    pub clock_bit: bool,
    /// The word queued to be written to the addressed cell.
    pub queued_input: W,
    /// Block-level chip-select; without it the block reads as zero.
    pub chip_select: bool,
    /// Block-level write-enable, forwarded to the addressed cell.
    pub write_enable: bool,
    /// The address selecting which cell the routers target.
    pub queued_address: usize,
    /// The register cells, one per address line.
    pub memory_lines: Seq<RegisterView<W>>,
}

impl<W: Word> SramView<W> {
    /// The block's routers are sized to its line count.
    pub open spec fn wf(self) -> bool {
        self.data_read_multiplexer.inputs.len() == self.memory_lines.len()
    }

    /// The state of a fresh block with `address_space_count` lines.
    pub open spec fn spec_new(address_space_count: usize) -> Self {
        SramView {
            data_feed_demultiplexer: DemultiplexerView {
                input: W::zero_spec(),
                output_selector: 0,
                chip_select: false,
                architecture_bypass: address_space_count < 8,
            },
            data_read_multiplexer: MultiplexerView {
                inputs: Seq::new(address_space_count as nat, |i: int| W::zero_spec()),
                input_selector: 0,
                chip_select: false,
                architecture_bypass: address_space_count < 8,
            },
            control_demultiplexer: DemultiplexerView {
                input: 0u8,
                output_selector: 0,
                chip_select: false,
                architecture_bypass: address_space_count < 8,
            },
            clock_bit: false,
            queued_input: W::zero_spec(),
            chip_select: false,
            write_enable: false,
            queued_address: 0,
            memory_lines: Seq::new(address_space_count as nat, |i: int| RegisterView::spec_new()),
        }
    }

    /// The state after the packed control word is re-broadcast: both
    /// demultiplexers are enabled, the control demultiplexer carries the
    /// current control word to the current address, and every cell receives
    /// its routed word (the addressed cell the real control word, all others
    /// zero).
    pub open spec fn spec_apply_control(self) -> Self {
        let control = self.control_demultiplexer
            .spec_set_chip_select(true)
            .spec_set_input_word(spec_control_word(self.chip_select, self.write_enable, self.clock_bit))
            .spec_set_selector(self.queued_address);
        SramView {
            data_feed_demultiplexer: self.data_feed_demultiplexer.spec_set_chip_select(true),
            control_demultiplexer: control,
            memory_lines: Seq::new(
                self.memory_lines.len(),
                |i: int| spec_apply_control_to_line(self.memory_lines[i], control.spec_read(i as usize)),
            ),
            ..self
        }
    }

    /// The state after the queued data word is re-broadcast: the write-path
    /// demultiplexer carries it to the current address, every cell's queued
    /// input is replaced by its routed word, and the read-path multiplexer is
    /// reloaded from the cells' outputs.
    pub open spec fn spec_apply_data(self) -> Self {
        let feed = self.data_feed_demultiplexer
            .spec_set_input_word(self.queued_input)
            .spec_set_selector(self.queued_address);
        let lines = Seq::new(
            self.memory_lines.len(),
            |i: int| self.memory_lines[i].spec_set_queued_input(feed.spec_read(i as usize)),
        );
        SramView {
            data_feed_demultiplexer: feed,
            memory_lines: lines,
            data_read_multiplexer: MultiplexerView {
                inputs: Seq::new(
                    self.data_read_multiplexer.inputs.len(),
                    |j: int| if j < lines.len() {
                        lines[j].spec_read()
                    } else {
                        self.data_read_multiplexer.inputs[j]
                    },
                ),
                ..self.data_read_multiplexer
            },
            ..self
        }
    }

    /// The state after block chip-select is driven: the read multiplexer is
    /// gated alike, and the control word is re-broadcast.
    pub open spec fn spec_set_chip_select(self, chip_select: bool) -> Self {
        SramView {
            chip_select: chip_select,
            data_read_multiplexer: self.data_read_multiplexer.spec_set_chip_select(chip_select),
            ..self
        }.spec_apply_control()
    }

    /// The state after block write-enable is driven and the control word
    /// re-broadcast.
    pub open spec fn spec_set_write_enable(self, write_enable: bool) -> Self {
        SramView { write_enable: write_enable, ..self }.spec_apply_control()
    }

    /// The state after the block clock is driven: a re-asserted level is a
    /// no-op; a genuine change is recorded and re-broadcast.
    pub open spec fn spec_set_clock(self, clock_bit: bool) -> Self {
        if clock_bit == self.clock_bit {
            self
        } else {
            SramView { clock_bit: clock_bit, ..self }.spec_apply_control()
        }
    }

    /// The state after the block address is driven and the control word
    /// re-broadcast, re-gating the newly addressed cell.
    pub open spec fn spec_set_address(self, address: usize) -> Self {
        SramView { queued_address: address, ..self }.spec_apply_control()
    }

    /// The state after the data feed is driven and re-broadcast.
    pub open spec fn spec_set_feed(self, input_data: W) -> Self {
        SramView { queued_input: input_data, ..self }.spec_apply_data()
    }

    /// The read multiplexer as a read prepares it: selector on the current
    /// address, inputs reloaded from the cells' outputs.
    pub open spec fn spec_prepared_multiplexer(self) -> MultiplexerView<W> {
        MultiplexerView {
            inputs: Seq::new(
                self.data_read_multiplexer.inputs.len(),
                |j: int| if j < self.memory_lines.len() {
                    self.memory_lines[j].spec_read()
                } else {
                    self.data_read_multiplexer.inputs[j]
                },
            ),
            ..self.data_read_multiplexer.spec_set_selector(self.queued_address)
        }
    }

    /// The state a read leaves the block in: deselected blocks are untouched,
    /// otherwise the read multiplexer has been prepared.
    pub open spec fn spec_read_prepared(self) -> Self {
        if !self.chip_select {
            self
        } else {
            SramView { data_read_multiplexer: self.spec_prepared_multiplexer(), ..self }
        }
    }

    /// What a read returns: zero when the block is deselected, the addressed
    /// cell's output when the address is in range, and `SelectorOutOfRange`
    /// otherwise.
    pub open spec fn spec_read_result(self) -> Result<W, EmulationError> {
        if !self.chip_select {
            Ok(W::zero_spec())
        } else {
            let prepared = self.spec_prepared_multiplexer();
            if prepared.spec_read_ok() {
                Ok(prepared.spec_read())
            } else {
                Err(EmulationError::SelectorOutOfRange)
            }
        }
    }

    /// Re-asserting a clock level on the block is idempotent.
    pub proof fn lemma_set_clock_idempotent(self, clock_bit: bool)
        ensures
            self.spec_set_clock(clock_bit).spec_set_clock(clock_bit) == self.spec_set_clock(clock_bit),
    {
    }

    /// Write/read round-trip law: from any well-formed block state with the
    /// clock low, enabling writes, deselecting the chip, addressing line `a`,
    /// feeding word `w`, pulsing the clock high then low, then selecting the
    /// chip and disabling writes leaves the block reading back exactly `w`.
    pub proof fn lemma_write_read_round_trip(self, a: usize, w: W)
        requires
            self.wf(),
            !self.clock_bit,
            a < self.memory_lines.len(),
        ensures
            self.spec_set_write_enable(true)
                .spec_set_chip_select(false)
                .spec_set_address(a)
                .spec_set_feed(w)
                .spec_set_clock(true)
                .spec_set_clock(false)
                .spec_set_chip_select(true)
                .spec_set_write_enable(false)
                .spec_read_result() == Ok::<W, EmulationError>(w),
    {
        let n = self.memory_lines.len();
        let ai = a as int;

        lemma_control_word_bits(self.chip_select, true, false);
        lemma_control_word_bits(false, true, false);
        lemma_control_word_bits(false, true, true);
        lemma_control_word_bits(true, true, false);
        lemma_control_word_bits(true, false, false);

        let s1 = self.spec_set_write_enable(true);
        assert(s1.memory_lines.len() == n);
        assert(!s1.clock_bit && s1.write_enable && s1.queued_address == self.queued_address);
        assert(s1.memory_lines[ai].data_word == self.memory_lines[ai].data_word);

        let s2 = s1.spec_set_chip_select(false);
        assert(s2.memory_lines.len() == n);
        assert(!s2.chip_select && s2.write_enable && !s2.clock_bit);
        assert(s2.memory_lines[ai].data_word == self.memory_lines[ai].data_word);

        let s3 = s2.spec_set_address(a);
        assert(s3.memory_lines.len() == n);
        assert(s3.queued_address == a);
        assert(s3.data_feed_demultiplexer.chip_select);
        // Addressing line `a` re-gates it: write-enabled, clock driven low.
        assert(s3.memory_lines[ai] == (RegisterView {
            chip_select: false,
            write_enable: true,
            clock_bit: false,
            data_word: s2.memory_lines[ai].data_word,
            queued_input: s2.memory_lines[ai].queued_input,
        }));

        let s4 = s3.spec_set_feed(w);
        assert(s4.memory_lines.len() == n);
        assert(s4.queued_address == a && !s4.clock_bit && s4.write_enable && !s4.chip_select);
        // The feed demultiplexer routes the fed word into line `a`'s queue.
        assert(s4.memory_lines[ai].queued_input == w);
        assert(s4.memory_lines[ai].write_enable && !s4.memory_lines[ai].clock_bit);

        let s5 = s4.spec_set_clock(true);
        assert(s5.memory_lines.len() == n);
        // The rising edge stores the queued word into line `a`.
        assert(s5.memory_lines[ai].data_word == w);
        assert(s5.queued_address == a && s5.clock_bit && s5.write_enable && !s5.chip_select);
        assert(s5.memory_lines[ai].write_enable && s5.memory_lines[ai].clock_bit);

        let s6 = s5.spec_set_clock(false);
        assert(s6.memory_lines.len() == n);
        assert(s6.memory_lines[ai].data_word == w);
        assert(s6.queued_address == a && !s6.clock_bit && s6.write_enable && !s6.chip_select);

        let s7 = s6.spec_set_chip_select(true);
        assert(s7.memory_lines.len() == n);
        assert(s7.memory_lines[ai].data_word == w && s7.memory_lines[ai].chip_select);
        assert(s7.chip_select && s7.queued_address == a);

        let s8 = s7.spec_set_write_enable(false);
        assert(s8.memory_lines.len() == n);
        assert(s8.memory_lines[ai].data_word == w && s8.memory_lines[ai].chip_select);
        assert(s8.chip_select && s8.queued_address == a);
        assert(s8.data_read_multiplexer.inputs.len() == self.data_read_multiplexer.inputs.len());
        assert(s8.data_read_multiplexer.chip_select);

        let prepared = s8.spec_prepared_multiplexer();
        assert(prepared.input_selector == a && prepared.inputs.len() == n);
        assert(prepared.spec_read_ok());
        assert(prepared.inputs[ai] == s8.memory_lines[ai].spec_read());
        assert(prepared.spec_read() == w);
    }

    /// Gating invariant: each re-broadcast of the control word leaves every
    /// cell other than the addressed one deselected and write-disabled, with
    /// its stored and queued words untouched; a stale address cannot be
    /// written or read through.
    pub proof fn lemma_control_gates_only_addressed_cell(self, i: int)
        requires
            0 <= i < self.memory_lines.len(),
            i <= usize::MAX,
            i != self.queued_address,
        ensures
            !self.spec_apply_control().memory_lines[i].chip_select,
            !self.spec_apply_control().memory_lines[i].write_enable,
            self.spec_apply_control().memory_lines[i].data_word == self.memory_lines[i].data_word,
            self.spec_apply_control().memory_lines[i].queued_input == self.memory_lines[i].queued_input,
            self.spec_apply_control().memory_lines[i].clock_bit == self.memory_lines[i].clock_bit,
    {
        lemma_control_word_bits(self.chip_select, self.write_enable, self.clock_bit);
    }

    /// A write sequence never changes how many lines the block spans.
    pub proof fn lemma_write_sequence_preserves_line_count(self, a: usize, w: W)
        ensures
            self.spec_set_write_enable(true)
                .spec_set_chip_select(false)
                .spec_set_address(a)
                .spec_set_feed(w)
                .spec_set_clock(true)
                .spec_set_clock(false)
                .memory_lines.len() == self.memory_lines.len(),
    {
    }

    /// Isolation law: from a block state with the clock low, a write sequence
    /// addressed to line `a` leaves the stored word of every other line
    /// untouched; only the addressed cell can be mutated.
    pub proof fn lemma_write_preserves_other_lines(self, a: usize, w: W, b: int)
        requires
            !self.clock_bit,
            0 <= b < self.memory_lines.len(),
            b <= usize::MAX,
            b != a,
        ensures
            self.spec_set_write_enable(true)
                .spec_set_chip_select(false)
                .spec_set_address(a)
                .spec_set_feed(w)
                .spec_set_clock(true)
                .spec_set_clock(false)
                .memory_lines[b].data_word == self.memory_lines[b].data_word,
    {
        let n = self.memory_lines.len();
        let d0 = self.memory_lines[b].data_word;

        lemma_control_word_bits(self.chip_select, true, false);
        lemma_control_word_bits(false, true, false);
        lemma_control_word_bits(false, true, true);

        let s1 = self.spec_set_write_enable(true);
        assert(s1.memory_lines.len() == n);
        // Re-gating with the clock low stores nothing, whichever cell is
        // currently addressed.
        assert(s1.memory_lines[b].data_word == d0);

        let s2 = s1.spec_set_chip_select(false);
        assert(s2.memory_lines.len() == n);
        assert(s2.memory_lines[b].data_word == d0);

        let s3 = s2.spec_set_address(a);
        assert(s3.memory_lines.len() == n);
        assert(s3.memory_lines[b].data_word == d0);
        // Once line `a` is addressed, line `b` is deselected and
        // write-disabled, so later clock edges cannot touch it.
        assert(!s3.memory_lines[b].write_enable);

        let s4 = s3.spec_set_feed(w);
        assert(s4.memory_lines.len() == n);
        assert(s4.memory_lines[b].data_word == d0);
        assert(!s4.memory_lines[b].write_enable);
        assert(s4.queued_address == a && !s4.clock_bit);

        let s5 = s4.spec_set_clock(true);
        assert(s5.memory_lines.len() == n);
        assert(s5.memory_lines[b].data_word == d0);
        assert(s5.queued_address == a && s5.clock_bit);

        let s6 = s5.spec_set_clock(false);
        assert(s6.memory_lines.len() == n);
        assert(s6.memory_lines[b].data_word == d0);
    }
}

/// An addressable static-memory block: `N` register cells behind one control
/// demultiplexer, one write-path demultiplexer and one read-path multiplexer,
/// all sized to `N`. Only the cell addressed at the time of each setter call
/// receives a nonzero control or data word; every other cell is re-gated to a
/// zeroed control word the instant the address moves away.
#[derive(Debug, Clone)]
pub struct StaticRandomAccessMemory<W: Word> {
    data_feed_demultiplexer: Demultiplexer<W>,
    data_read_multiplexer: Multiplexer<W>,
    control_demultiplexer: Demultiplexer<u8>,
    clock_bit: bool,
    queued_input: W,
    chip_select: bool,
    write_enable: bool,
    queued_address: usize,
    memory_lines: Vec<RegisterParallelInParallelOut<W>>,
}

impl<W: Word> View for StaticRandomAccessMemory<W> {
    type V = SramView<W>;

    closed spec fn view(&self) -> SramView<W> {
        SramView {
            data_feed_demultiplexer: self.data_feed_demultiplexer@,
            data_read_multiplexer: self.data_read_multiplexer@,
            control_demultiplexer: self.control_demultiplexer@,
            clock_bit: self.clock_bit,
            queued_input: self.queued_input,
            chip_select: self.chip_select,
            write_enable: self.write_enable,
            queued_address: self.queued_address,
            memory_lines: self.memory_lines@.map_values(|line: RegisterParallelInParallelOut<W>| line@),
        }
    }
}

impl<W: Word> StaticRandomAccessMemory<W> {
    /// A fresh block with `address_space_count` zeroed, deselected lines.
    pub fn new(address_space_count: usize) -> (r: Self)
        ensures
            r@ == SramView::<W>::spec_new(address_space_count),
            r@.wf(),
    {
        let mut memory_lines: Vec<RegisterParallelInParallelOut<W>> = Vec::new();
        let mut i: usize = 0;
        while i < address_space_count
            invariant
                i <= address_space_count,
                memory_lines@.len() == i,
                forall|k: int| 0 <= k < i ==> memory_lines@[k]@ == RegisterView::<W>::spec_new(),
            decreases address_space_count - i,
        {
            memory_lines.push(RegisterParallelInParallelOut::new());
            i = i + 1;
        }
        let r = StaticRandomAccessMemory {
            data_feed_demultiplexer: Demultiplexer::new(address_space_count),
            data_read_multiplexer: Multiplexer::new(address_space_count),
            control_demultiplexer: Demultiplexer::new(address_space_count),
            clock_bit: false,
            queued_input: W::zero(),
            chip_select: false,
            write_enable: false,
            queued_address: 0,
            memory_lines,
        };
        proof {
            assert(r@ =~= SramView::<W>::spec_new(address_space_count));
        }
        r
    }

    /// Drive block chip-select: gates the read multiplexer alike and
    /// re-broadcasts the control word to the addressed cell.
    pub fn set_chip_select(&mut self, chip_select: bool)
        ensures
            final(self)@ == old(self)@.spec_set_chip_select(chip_select),
    {
        self.chip_select = chip_select;
        self.data_read_multiplexer.set_chip_select(chip_select);
        self.apply_control_demultiplexer();
    }

    /// Drive block write-enable and re-broadcast the control word.
    pub fn set_write_enable(&mut self, write_enable: bool)
        ensures
            final(self)@ == old(self)@.spec_set_write_enable(write_enable),
    {
        self.write_enable = write_enable;
        self.apply_control_demultiplexer();
    }

    /// Drive the block clock: a re-asserted level is a no-op, a genuine
    /// change is recorded and re-broadcast to the addressed cell.
    pub fn set_clock(&mut self, clock_bit: bool)
        ensures
            final(self)@ == old(self)@.spec_set_clock(clock_bit),
    {
        if clock_bit != self.clock_bit {
            self.clock_bit = clock_bit;
            self.apply_control_demultiplexer();
        }
    }

    /// Address a cell: all three routers follow, and the control word is
    /// re-broadcast so the newly addressed cell is re-gated before any
    /// further control change takes effect.
    pub fn set_address(&mut self, address: usize)
        ensures
            final(self)@ == old(self)@.spec_set_address(address),
    {
        self.queued_address = address;
        self.apply_control_demultiplexer();
    }

    /// Feed a data word: it is routed through the write-path demultiplexer
    /// into the addressed cell's queued input (every other cell's queue is
    /// zeroed), and the read multiplexer is refreshed.
    pub fn set_feed(&mut self, input_data: W)
        ensures
            final(self)@ == old(self)@.spec_set_feed(input_data),
    {
        self.queued_input = input_data;
        self.apply_data_demultiplexer();
    }

    /// Re-broadcast the packed control word through the control
    /// demultiplexer: the addressed cell receives the current chip-select,
    /// write-enable and clock signals; every other cell receives a zeroed
    /// control word.
    #[verifier::loop_isolation(false)]
    fn apply_control_demultiplexer(&mut self)
        ensures
            final(self)@ == old(self)@.spec_apply_control(),
    {
        self.data_feed_demultiplexer.set_chip_select(true);
        self.control_demultiplexer.set_chip_select(true);

        let control_word: u8 = (if self.chip_select { 1u8 } else { 0u8 })
            | ((if self.write_enable { 1u8 } else { 0u8 }) << 1)
            | ((if self.clock_bit { 1u8 } else { 0u8 }) << 2);
        self.control_demultiplexer.set_input_word(control_word);
        self.control_demultiplexer.set_selector(self.queued_address);

        let ghost target = old(self)@.spec_apply_control();
        let line_count = self.memory_lines.len();
        let mut address_index: usize = 0;
        while address_index < line_count
            invariant
                line_count == self.memory_lines@.len(),
                address_index <= line_count,
                self.data_feed_demultiplexer@ == target.data_feed_demultiplexer,
                self.data_read_multiplexer@ == target.data_read_multiplexer,
                self.control_demultiplexer@ == target.control_demultiplexer,
                self.clock_bit == target.clock_bit,
                self.queued_input == target.queued_input,
                self.chip_select == target.chip_select,
                self.write_enable == target.write_enable,
                self.queued_address == target.queued_address,
                target.memory_lines.len() == line_count,
                forall|j: int| 0 <= j < address_index ==> self.memory_lines@[j]@ == target.memory_lines[j],
                forall|j: int| address_index <= j < line_count
                    ==> self.memory_lines@[j]@ == old(self)@.memory_lines[j],
            decreases line_count - address_index,
        {
            let routed_word = self.control_demultiplexer.read_word(address_index);
            let mut line = self.memory_lines[address_index];
            line.set_chip_select((routed_word & 0b00000001) != 0);
            line.set_write_enable((routed_word & 0b00000010) != 0);
            line.set_clock((routed_word & 0b00000100) != 0);
            self.memory_lines[address_index] = line;
            address_index = address_index + 1;
        }
        proof {
            assert(self@ =~= target);
        }
    }

    /// Re-broadcast the queued data word through the write-path
    /// demultiplexer: the addressed cell's queued input takes the word, every
    /// other cell's queue is zeroed, and the read multiplexer is reloaded
    /// from the cells' outputs.
    #[verifier::loop_isolation(false)]
    fn apply_data_demultiplexer(&mut self)
        ensures
            final(self)@ == old(self)@.spec_apply_data(),
    {
        self.data_feed_demultiplexer.set_input_word(self.queued_input);
        self.data_feed_demultiplexer.set_selector(self.queued_address);

        let ghost target = old(self)@.spec_apply_data();
        let line_count = self.memory_lines.len();
        let mut address_index: usize = 0;
        while address_index < line_count
            invariant
                line_count == self.memory_lines@.len(),
                address_index <= line_count,
                self.data_feed_demultiplexer@ == target.data_feed_demultiplexer,
                self.control_demultiplexer@ == target.control_demultiplexer,
                self.clock_bit == target.clock_bit,
                self.queued_input == target.queued_input,
                self.chip_select == target.chip_select,
                self.write_enable == target.write_enable,
                self.queued_address == target.queued_address,
                target.memory_lines.len() == line_count,
                forall|j: int| 0 <= j < address_index ==> self.memory_lines@[j]@ == target.memory_lines[j],
                forall|j: int| address_index <= j < line_count
                    ==> self.memory_lines@[j]@ == old(self)@.memory_lines[j],
                self.data_read_multiplexer@.inputs.len() == target.data_read_multiplexer.inputs.len(),
                self.data_read_multiplexer@.input_selector == target.data_read_multiplexer.input_selector,
                self.data_read_multiplexer@.chip_select == target.data_read_multiplexer.chip_select,
                self.data_read_multiplexer@.architecture_bypass
                    == target.data_read_multiplexer.architecture_bypass,
                forall|j: int| 0 <= j < address_index && j < self.data_read_multiplexer@.inputs.len()
                    ==> self.data_read_multiplexer@.inputs[j] == target.data_read_multiplexer.inputs[j],
                forall|j: int| 0 <= j < self.data_read_multiplexer@.inputs.len() && j >= address_index
                    ==> self.data_read_multiplexer@.inputs[j] == old(self)@.data_read_multiplexer.inputs[j],
            decreases line_count - address_index,
        {
            let routed_word = self.data_feed_demultiplexer.read_word(address_index);
            let mut line = self.memory_lines[address_index];
            line.set_queued_input(routed_word);
            self.memory_lines[address_index] = line;

            let line_word = line.read_word();
            self.data_read_multiplexer.set_input_word(line_word, address_index);
            address_index = address_index + 1;
        }
        proof {
            assert(self@.data_read_multiplexer.inputs =~= target.data_read_multiplexer.inputs);
            assert(self@ =~= target);
        }
    }

    /// Read the addressed word. A deselected block returns zero; otherwise
    /// the read multiplexer is pointed at the current address, reloaded from
    /// the cells, and read, failing fast with `SelectorOutOfRange` when the
    /// address exceeds the line count.
    #[verifier::loop_isolation(false)]
    pub fn read_word(&mut self) -> (r: Result<W, EmulationError>)
        ensures
            final(self)@ == old(self)@.spec_read_prepared(),
            r == old(self)@.spec_read_result(),
    {
        if !self.chip_select {
            return Ok(W::zero());
        }
        self.data_read_multiplexer.set_selector(self.queued_address);

        let ghost target = old(self)@.spec_read_prepared();
        let line_count = self.memory_lines.len();
        let mut memory_line_index: usize = 0;
        while memory_line_index < line_count
            invariant
                line_count == self.memory_lines@.len(),
                memory_line_index <= line_count,
                self.data_feed_demultiplexer@ == target.data_feed_demultiplexer,
                self.control_demultiplexer@ == target.control_demultiplexer,
                self.clock_bit == target.clock_bit,
                self.queued_input == target.queued_input,
                self.chip_select == target.chip_select,
                self.write_enable == target.write_enable,
                self.queued_address == target.queued_address,
                self.memory_lines@.map_values(|line: RegisterParallelInParallelOut<W>| line@)
                    == target.memory_lines,
                self.data_read_multiplexer@.inputs.len() == target.data_read_multiplexer.inputs.len(),
                self.data_read_multiplexer@.input_selector == target.data_read_multiplexer.input_selector,
                self.data_read_multiplexer@.chip_select == target.data_read_multiplexer.chip_select,
                self.data_read_multiplexer@.architecture_bypass
                    == target.data_read_multiplexer.architecture_bypass,
                forall|j: int| 0 <= j < memory_line_index && j < self.data_read_multiplexer@.inputs.len()
                    ==> self.data_read_multiplexer@.inputs[j] == target.data_read_multiplexer.inputs[j],
                forall|j: int| 0 <= j < self.data_read_multiplexer@.inputs.len() && j >= memory_line_index
                    ==> self.data_read_multiplexer@.inputs[j] == old(self)@.data_read_multiplexer.inputs[j],
            decreases line_count - memory_line_index,
        {
            let line_word = self.memory_lines[memory_line_index].read_word();
            self.data_read_multiplexer.set_input_word(line_word, memory_line_index);
            memory_line_index = memory_line_index + 1;
        }
        proof {
            assert(self@.data_read_multiplexer.inputs =~= target.data_read_multiplexer.inputs);
            assert(self@ =~= target);
        }
        self.data_read_multiplexer.read_word()
    }

    /// How many address lines the block spans.
    pub fn get_memory_lines_count(&self) -> (r: usize)
        ensures
            r == self@.memory_lines.len(),
    {
        self.memory_lines.len()
    }
}

} // verus!
