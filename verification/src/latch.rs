//! Set/reset latches: an unclocked latch that stores unconditionally, and a
//! clocked variant that samples its queued input on a qualifying clock edge.

use vstd::prelude::*;
use crate::word::Word;
use crate::trigger::{TriggerMode, fires, should_trigger};

verus! {

/// An unclocked set/reset latch: `set` stores immediately, `reset` stores the
/// zero value. No edge sensitivity; it serves as the ground-truth reference
/// for the clocked variants.
#[derive(Debug, Clone)]
pub struct SetResetLatch<W: Word> {
    /// The word currently stored in the latch.
    pub stored_word: W,
}

impl<W: Word> SetResetLatch<W> {
    /// A fresh latch stores the zero value.
    pub fn new() -> (r: Self)
        ensures
            r.stored_word == W::zero_spec(),
    {
        SetResetLatch { stored_word: W::zero() }
    }

    /// Store `word` immediately.
    pub fn set(&mut self, word: W)
        ensures
            final(self).stored_word == word,
    {
        self.stored_word = word;
    }

    /// Store the zero value immediately.
    pub fn reset(&mut self)
        ensures
            final(self).stored_word == W::zero_spec(),
    {
        self.stored_word = W::zero();
    }
}

impl Default for SetResetLatch<u8> {
    /// A default latch stores zero.
    fn default() -> (r: Self)
        ensures
            r.stored_word == 0u8,
    {
        SetResetLatch::new()
    }
}

/// Which clock transition lets the clocked latch sample its queued input.
#[derive(PartialEq, Eq, Structural, Clone, Copy, Debug)]
pub enum ClockTriggerMode {
    /// Sample when the clock signal rises.
    Rising,
    /// Sample when the clock signal falls.
    Falling,
    /// Sample on either transition.
    RisingFalling,
}

impl ClockTriggerMode {
    /// The mode of the shared edge predicate that this latch mode stands for.
    pub open spec fn trigger_mode_spec(self) -> TriggerMode {
        match self {
            ClockTriggerMode::Rising => TriggerMode::RisingEdge,
            ClockTriggerMode::Falling => TriggerMode::FallingEdge,
            ClockTriggerMode::RisingFalling => TriggerMode::BothEdges,
        }
    }

    /// Translate to the shared edge predicate's mode.
    pub fn trigger_mode(self) -> (r: TriggerMode)
        ensures
            r == self.trigger_mode_spec(),
    {
        match self {
            ClockTriggerMode::Rising => TriggerMode::RisingEdge,
            ClockTriggerMode::Falling => TriggerMode::FallingEdge,
            ClockTriggerMode::RisingFalling => TriggerMode::BothEdges,
        }
    }
}

/// A set/reset latch that only samples its queued `direct_input` when the
/// clock level genuinely changes and the change matches the trigger mode.
#[derive(Debug, Clone)]
pub struct ClockedSetResetLatch<W: Word> {
    /// The word currently stored in the latch.
    pub stored_word: W,
    /// The last observed clock level.
    pub clock_state: bool,
    /// Which clock transition samples the queued input.
    pub clock_trigger_mode: ClockTriggerMode,
    /// The queued input, copied into `stored_word` at the next qualifying edge.
    pub direct_input: W,
}

impl<W: Word> ClockedSetResetLatch<W> {
    /// The state after the clock is driven to `state`: a no-op when the level
    /// is re-asserted, otherwise the level is recorded and, if the transition
    /// fires under the trigger mode, the queued input is stored.
    pub open spec fn spec_set_clock(self, state: bool) -> Self {
        if self.clock_state == state {
            self
        } else if fires(self.clock_state, state, self.clock_trigger_mode.trigger_mode_spec()) {
            ClockedSetResetLatch { clock_state: state, stored_word: self.direct_input, ..self }
        } else {
            ClockedSetResetLatch { clock_state: state, ..self }
        }
    }

    /// The state after the queued input is replaced by `word`.
    pub open spec fn spec_set_data_input(self, word: W) -> Self {
        ClockedSetResetLatch { direct_input: word, ..self }
    }

    /// A fresh latch stores zero, queues zero, and has seen a low clock.
    pub fn new(trigger_mode: ClockTriggerMode) -> (r: Self)
        ensures
            r.stored_word == W::zero_spec(),
            r.clock_state == false,
            r.clock_trigger_mode == trigger_mode,
            r.direct_input == W::zero_spec(),
    {
        ClockedSetResetLatch {
            stored_word: W::zero(),
            clock_state: false,
            clock_trigger_mode: trigger_mode,
            direct_input: W::zero(),
        }
    }

    /// Drive the clock to `state`.
    pub fn set_clock(&mut self, state: bool)
        ensures
            *final(self) == old(self).spec_set_clock(state),
    {
        if self.clock_state != state {
            let fired = should_trigger(self.clock_state, state, self.clock_trigger_mode.trigger_mode());
            self.clock_state = state;
            if fired {
                self.stored_word = self.direct_input;
            }
        }
    }

    /// Queue `word` for the next qualifying clock edge.
    pub fn set_data_input(&mut self, word: W)
        ensures
            *final(self) == old(self).spec_set_data_input(word),
    {
        self.direct_input = word;
    }

    /// Zero both the stored word and the queued input; the clock level is
    /// left untouched.
    pub fn reset(&mut self)
        ensures
            final(self).stored_word == W::zero_spec(),
            final(self).direct_input == W::zero_spec(),
            final(self).clock_state == old(self).clock_state,
            final(self).clock_trigger_mode == old(self).clock_trigger_mode,
    {
        self.stored_word = W::zero();
        self.direct_input = W::zero();
    }

    /// Re-asserting a clock level is idempotent: under every trigger mode,
    /// driving the clock to the same level twice changes nothing beyond the
    /// first call.
    pub proof fn lemma_set_clock_idempotent(self, state: bool)
        ensures
            self.spec_set_clock(state).spec_set_clock(state) == self.spec_set_clock(state),
    {
    }

    /// Rising-edge law: from a low clock, queueing a word and raising the
    /// clock stores that word, and lowering the clock afterwards leaves it
    /// stored.
    pub proof fn lemma_rising_edge_stores_input(self, x: W)
        requires
            self.clock_trigger_mode is Rising,
            !self.clock_state,
        ensures
            self.spec_set_data_input(x).spec_set_clock(true).stored_word == x,
            self.spec_set_data_input(x).spec_set_clock(true).spec_set_clock(false).stored_word == x,
    {
    }

    /// Falling-edge law: from a low clock, queueing a word and raising the
    /// clock leaves the prior stored word in place; lowering the clock then
    /// stores the queued word.
    pub proof fn lemma_falling_edge_defers_input(self, x: W)
        requires
            self.clock_trigger_mode is Falling,
            !self.clock_state,
        ensures
            self.spec_set_data_input(x).spec_set_clock(true).stored_word == self.stored_word,
            self.spec_set_data_input(x).spec_set_clock(true).spec_set_clock(false).stored_word == x,
    {
    }
}

} // verus!
