//! Signal routers: a multiplexer that funnels N input words down to one
//! selected output, and a demultiplexer that fans one input word out to the
//! single selected output. Both are gated by a chip-select signal and read
//! zero when deselected.

use vstd::prelude::*;
use crate::word::Word;
use crate::error::EmulationError;

verus! {

/// The abstract state of a `Multiplexer`.
#[verifier::ext_equal]
pub struct MultiplexerView<W> {
    /// The input words, one per selectable line.
    pub inputs: Seq<W>,
    /// Which input line the output follows.
    pub input_selector: usize,
    /// Whether the output is enabled; a deselected multiplexer reads zero.
    pub chip_select: bool,
    /// Advisory hint that the line count is small enough for a caller to
    /// index directly instead of routing.
    pub architecture_bypass: bool,
}

impl<W: Word> MultiplexerView<W> {
    /// The state after input line `input_index` is loaded with `input_word`;
    /// an out-of-range line leaves the multiplexer unchanged.
    pub open spec fn spec_set_input_word(self, input_word: W, input_index: usize) -> Self {
        if input_index >= self.inputs.len() {
            self
        } else {
            MultiplexerView { inputs: self.inputs.update(input_index as int, input_word), ..self }
        }
    }

    /// The state after the chip-select line is driven to `chip_select`.
    pub open spec fn spec_set_chip_select(self, chip_select: bool) -> Self {
        MultiplexerView { chip_select: chip_select, ..self }
    }

    /// The state after the selector is driven to `selector`.
    pub open spec fn spec_set_selector(self, selector: usize) -> Self {
        MultiplexerView { input_selector: selector, ..self }
    }

    /// Reading succeeds unless the multiplexer is selected with a selector
    /// beyond its line count.
    pub open spec fn spec_read_ok(self) -> bool {
        !self.chip_select || self.input_selector < self.inputs.len()
    }

    /// What a successful read returns: zero when deselected, otherwise the
    /// selected input word.
    pub open spec fn spec_read(self) -> W {
        if !self.chip_select {
            W::zero_spec()
        } else {
            self.inputs[self.input_selector as int]
        }
    }
}

/// An N-to-1 signal router: holds one input word per line and forwards the
/// selected one when chip-select is asserted.
#[derive(Debug, Clone)]
pub struct Multiplexer<W: Word> {
    inputs: Vec<W>,
    input_selector: usize,
    chip_select: bool,
    architecture_bypass: bool,
}

impl<W: Word> View for Multiplexer<W> {
    type V = MultiplexerView<W>;

    closed spec fn view(&self) -> MultiplexerView<W> {
        MultiplexerView {
            inputs: self.inputs@,
            input_selector: self.input_selector,
            chip_select: self.chip_select,
            architecture_bypass: self.architecture_bypass,
        }
    }
}

impl<W: Word> Multiplexer<W> {
    /// A fresh multiplexer with `selection_size` lines, all zeroed, selector
    /// zero and chip-select deasserted. Fewer than 8 lines set the advisory
    /// bypass hint.
    pub fn new(selection_size: usize) -> (r: Self)
        ensures
            r@.inputs.len() == selection_size,
            forall|k: int| 0 <= k < selection_size ==> r@.inputs[k] == W::zero_spec(),
            r@.input_selector == 0,
            r@.chip_select == false,
            r@.architecture_bypass == (selection_size < 8),
    {
        let mut inputs: Vec<W> = Vec::new();
        let mut i: usize = 0;
        while i < selection_size
            invariant
                i <= selection_size,
                inputs@.len() == i,
                forall|k: int| 0 <= k < i ==> inputs@[k] == W::zero_spec(),
            decreases selection_size - i,
        {
            inputs.push(W::zero());
            i = i + 1;
        }
        Multiplexer {
            inputs,
            input_selector: 0,
            chip_select: false,
            architecture_bypass: selection_size < 8,
        }
    }

    /// Load input line `input_index` with `input_word`; an out-of-range line
    /// is ignored.
    pub fn set_input_word(&mut self, input_word: W, input_index: usize)
        ensures
            final(self)@ == old(self)@.spec_set_input_word(input_word, input_index),
    {
        if input_index >= self.inputs.len() {
            return;
        }
        self.inputs[input_index] = input_word;
        proof {
            assert(self@ =~= old(self)@.spec_set_input_word(input_word, input_index));
        }
    }

    /// Drive the chip-select line.
    pub fn set_chip_select(&mut self, chip_select: bool)
        ensures
            final(self)@ == old(self)@.spec_set_chip_select(chip_select),
    {
        self.chip_select = chip_select;
    }

    /// Drive the selector.
    pub fn set_selector(&mut self, selector: usize)
        ensures
            final(self)@ == old(self)@.spec_set_selector(selector),
    {
        self.input_selector = selector;
    }

    /// Read the routed output: zero when deselected, the selected input word
    /// otherwise. A selected read with the selector beyond the line count
    /// fails fast with `SelectorOutOfRange`.
    pub fn read_word(&self) -> (r: Result<W, EmulationError>)
        ensures
            self@.spec_read_ok() ==> r == Ok::<W, EmulationError>(self@.spec_read()),
            !self@.spec_read_ok() ==> r == Err::<W, EmulationError>(EmulationError::SelectorOutOfRange),
    {
        if !self.chip_select {
            return Ok(W::zero());
        }
        if self.input_selector >= self.inputs.len() {
            return Err(EmulationError::SelectorOutOfRange);
        }
        Ok(self.inputs[self.input_selector])
    }

    /// Advisory hint: the line count is small enough that a caller may index
    /// directly instead of routing. It alters no behaviour.
    pub fn is_architecture_bypassed(&self) -> (r: bool)
        ensures
            r == self@.architecture_bypass,
    {
        self.architecture_bypass
    }
}

/// The abstract state of a `Demultiplexer`.
#[verifier::ext_equal]
pub struct DemultiplexerView<W> {
    /// The one input word being fanned out.
    pub input: W,
    /// Which output line observes the input.
    pub output_selector: usize,
    /// Whether any output is enabled; a deselected demultiplexer fans out
    /// zero everywhere.
    pub chip_select: bool,
    /// Advisory hint that the line count is small enough for a caller to
    /// index directly instead of routing.
    pub architecture_bypass: bool,
}

impl<W: Word> DemultiplexerView<W> {
    /// The state after the input word is replaced.
    pub open spec fn spec_set_input_word(self, input_word: W) -> Self {
        DemultiplexerView { input: input_word, ..self }
    }

    /// The state after the chip-select line is driven to `chip_select`.
    pub open spec fn spec_set_chip_select(self, chip_select: bool) -> Self {
        DemultiplexerView { chip_select: chip_select, ..self }
    }

    /// The state after the selector is driven to `selector`.
    pub open spec fn spec_set_selector(self, selector: usize) -> Self {
        DemultiplexerView { output_selector: selector, ..self }
    }

    /// What output line `output_index` observes: the input word exactly when
    /// chip-select is asserted and the line is the selected one, else zero.
    pub open spec fn spec_read(self, output_index: usize) -> W {
        if self.chip_select && output_index == self.output_selector {
            self.input
        } else {
            W::zero_spec()
        }
    }

    /// Fan-out law: with chip-select asserted, the selected output alone
    /// observes the input word; every other output observes zero.
    pub proof fn lemma_fan_out(self, k: usize, j: usize)
        requires
            self.chip_select,
            self.output_selector == k,
            j != k,
        ensures
            self.spec_read(k) == self.input,
            self.spec_read(j) == W::zero_spec(),
    {
    }
}

/// A 1-to-N signal router: exactly one requested output index observes the
/// held input word per cycle; all others observe zero.
#[derive(Debug, Clone)]
pub struct Demultiplexer<W: Word> {
    input: W,
    output_selector: usize,
    chip_select: bool,
    architecture_bypass: bool,
}

impl<W: Word> View for Demultiplexer<W> {
    type V = DemultiplexerView<W>;

    closed spec fn view(&self) -> DemultiplexerView<W> {
        DemultiplexerView {
            input: self.input,
            output_selector: self.output_selector,
            chip_select: self.chip_select,
            architecture_bypass: self.architecture_bypass,
        }
    }
}

impl<W: Word> Demultiplexer<W> {
    /// A fresh demultiplexer sized for `selection_size` lines: zero input,
    /// selector zero, chip-select deasserted. Fewer than 8 lines set the
    /// advisory bypass hint.
    pub fn new(selection_size: usize) -> (r: Self)
        ensures
            r@.input == W::zero_spec(),
            r@.output_selector == 0,
            r@.chip_select == false,
            r@.architecture_bypass == (selection_size < 8),
    {
        Demultiplexer {
            input: W::zero(),
            output_selector: 0,
            chip_select: false,
            architecture_bypass: selection_size < 8,
        }
    }

    /// Replace the input word being fanned out.
    pub fn set_input_word(&mut self, input_word: W)
        ensures
            final(self)@ == old(self)@.spec_set_input_word(input_word),
    {
        self.input = input_word;
    }

    /// Drive the chip-select line.
    pub fn set_chip_select(&mut self, chip_select: bool)
        ensures
            final(self)@ == old(self)@.spec_set_chip_select(chip_select),
    {
        self.chip_select = chip_select;
    }

    /// Drive the selector.
    pub fn set_selector(&mut self, selector: usize)
        ensures
            final(self)@ == old(self)@.spec_set_selector(selector),
    {
        self.output_selector = selector;
    }

    /// Read output line `output_index`: the input word exactly when
    /// chip-select is asserted and the line is the selected one, else zero.
    pub fn read_word(&self, output_index: usize) -> (r: W)
        ensures
            r == self@.spec_read(output_index),
    {
        if !self.chip_select {
            return W::zero();
        }
        if output_index == self.output_selector {
            self.input
        } else {
            W::zero()
        }
    }

    /// Advisory hint: the line count is small enough that a caller may index
    /// directly instead of routing. It alters no behaviour.
    pub fn is_architecture_bypassed(&self) -> (r: bool)
        ensures
            r == self@.architecture_bypass,
    {
        self.architecture_bypass
    }
}

} // verus!
