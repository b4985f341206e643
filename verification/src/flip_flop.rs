//! Edge-triggered flip-flops over a single bit: the set/reset flip-flop with
//! its deliberate set-and-reset toggle resolution, and the toggle flip-flop.

use vstd::prelude::*;
use crate::trigger::{TriggerMode, fires, should_trigger};

verus! {

/// A clocked set/reset flip-flop. Both input queues are sampled at the
/// qualifying edge; asserting set and reset together toggles the stored bit
/// (the race resolution of a JK flip-flop, kept deliberately).
pub struct SrFf {
    /// The stored bit.
    pub bit: bool,
    /// The last observed clock level.
    pub clock: bool,
    /// When true the flip-flop triggers on the falling edge of the clock,
    /// otherwise on the rising edge.
    pub trigger_falling: bool,
    /// The queued set input, applied at the next qualifying edge.
    pub input_queue: bool,
    /// The queued reset input, applied at the next qualifying edge.
    pub reset_queue: bool,
}

impl SrFf {
    /// The edge this flip-flop triggers on, as the shared predicate's mode.
    pub open spec fn trigger_mode_spec(self) -> TriggerMode {
        if self.trigger_falling {
            TriggerMode::FallingEdge
        } else {
            TriggerMode::RisingEdge
        }
    }

    /// The state after the clock is driven to `clock_bit`. On a qualifying
    /// edge the queues resolve as: reset alone clears, set alone sets, both
    /// together toggle, neither holds.
    pub open spec fn spec_set_clock(self, clock_bit: bool) -> Self {
        if self.clock == clock_bit {
            self
        } else {
            let new_bit = if !fires(self.clock, clock_bit, self.trigger_mode_spec()) {
                self.bit
            } else if self.reset_queue && !self.input_queue {
                false
            } else if !self.reset_queue && self.input_queue {
                true
            } else if self.reset_queue && self.input_queue {
                !self.bit
            } else {
                self.bit
            };
            SrFf { bit: new_bit, clock: clock_bit, ..self }
        }
    }

    /// A fresh flip-flop holds a low bit, a low clock and empty queues.
    pub fn new(trigger_falling: bool) -> (r: Self)
        ensures
            r.bit == false,
            r.clock == false,
            r.trigger_falling == trigger_falling,
            r.input_queue == false,
            r.reset_queue == false,
    {
        SrFf {
            bit: false,
            clock: false,
            trigger_falling,
            input_queue: false,
            reset_queue: false,
        }
    }

    /// Queue the set input.
    pub fn set(&mut self, input_bit: bool)
        ensures
            *final(self) == (SrFf { input_queue: input_bit, ..*old(self) }),
    {
        self.input_queue = input_bit;
    }

    /// Queue the reset input.
    pub fn reset(&mut self, input_bit: bool)
        ensures
            *final(self) == (SrFf { reset_queue: input_bit, ..*old(self) }),
    {
        self.reset_queue = input_bit;
    }

    /// Drive the clock to `clock_bit`.
    pub fn set_clock(&mut self, clock_bit: bool)
        ensures
            *final(self) == old(self).spec_set_clock(clock_bit),
    {
        if self.clock != clock_bit {
            let mode = if self.trigger_falling {
                TriggerMode::FallingEdge
            } else {
                TriggerMode::RisingEdge
            };
            let fired = should_trigger(self.clock, clock_bit, mode);
            self.clock = clock_bit;
            if fired {
                if self.reset_queue && !self.input_queue {
                    self.bit = false;
                } else if !self.reset_queue && self.input_queue {
                    self.bit = true;
                } else if self.reset_queue && self.input_queue {
                    self.bit = !self.bit;
                }
            }
        }
    }

    /// Re-asserting a clock level is idempotent: driving the clock to the
    /// same level twice changes nothing beyond the first call.
    pub proof fn lemma_set_clock_idempotent(self, clock_bit: bool)
        ensures
            self.spec_set_clock(clock_bit).spec_set_clock(clock_bit) == self.spec_set_clock(clock_bit),
    {
    }

    /// Toggle law: with both queues asserted, a qualifying edge inverts the
    /// stored bit, whatever its prior value.
    pub proof fn lemma_set_and_reset_toggle(self, clock_bit: bool)
        requires
            self.input_queue,
            self.reset_queue,
            fires(self.clock, clock_bit, self.trigger_mode_spec()),
        ensures
            self.spec_set_clock(clock_bit).bit == !self.bit,
    {
    }
}

/// A clocked toggle flip-flop: at a qualifying edge, a high queued input
/// inverts the stored bit, a low one holds it.
pub struct TFf {
    /// The stored bit.
    pub bit: bool,
    /// The last observed clock level.
    pub clock: bool,
    /// When true the flip-flop triggers on the falling edge of the clock,
    /// otherwise on the rising edge.
    pub trigger_falling: bool,
    /// The queued toggle input, sampled at the next qualifying edge.
    pub input_queue: bool,
}

impl TFf {
    /// The edge this flip-flop triggers on, as the shared predicate's mode.
    pub open spec fn trigger_mode_spec(self) -> TriggerMode {
        if self.trigger_falling {
            TriggerMode::FallingEdge
        } else {
            TriggerMode::RisingEdge
        }
    }

    /// The state after the clock is driven to `clock_bit`.
    pub open spec fn spec_set_clock(self, clock_bit: bool) -> Self {
        if self.clock == clock_bit {
            self
        } else {
            let new_bit = if fires(self.clock, clock_bit, self.trigger_mode_spec()) && self.input_queue {
                !self.bit
            } else {
                self.bit
            };
            TFf { bit: new_bit, clock: clock_bit, ..self }
        }
    }

    /// The state after a whole sequence of clock levels is applied in order.
    pub open spec fn spec_apply_clock_levels(self, levels: Seq<bool>) -> Self
        decreases levels.len(),
    {
        if levels.len() == 0 {
            self
        } else {
            self.spec_set_clock(levels[0]).spec_apply_clock_levels(levels.skip(1))
        }
    }

    /// A fresh flip-flop holds a low bit, a low clock and an empty queue.
    pub fn new(trigger_falling: bool) -> (r: Self)
        ensures
            r.bit == false,
            r.clock == false,
            r.trigger_falling == trigger_falling,
            r.input_queue == false,
    {
        TFf {
            bit: false,
            clock: false,
            trigger_falling,
            input_queue: false,
        }
    }

    /// Queue the toggle input.
    pub fn set_input(&mut self, input_bit: bool)
        ensures
            *final(self) == (TFf { input_queue: input_bit, ..*old(self) }),
    {
        self.input_queue = input_bit;
    }

    /// Drive the clock to `clock_bit`.
    pub fn set_clock(&mut self, clock_bit: bool)
        ensures
            *final(self) == old(self).spec_set_clock(clock_bit),
    {
        if self.clock != clock_bit {
            let mode = if self.trigger_falling {
                TriggerMode::FallingEdge
            } else {
                TriggerMode::RisingEdge
            };
            let fired = should_trigger(self.clock, clock_bit, mode);
            self.clock = clock_bit;
            if fired && self.input_queue {
                self.bit = !self.bit;
            }
        }
    }

    /// Re-asserting a clock level is idempotent: driving the clock to the
    /// same level twice changes nothing beyond the first call.
    pub proof fn lemma_set_clock_idempotent(self, clock_bit: bool)
        ensures
            self.spec_set_clock(clock_bit).spec_set_clock(clock_bit) == self.spec_set_clock(clock_bit),
    {
    }

    /// Hold law: with the toggle input low, no sequence of clock transitions,
    /// however long, changes the stored bit.
    pub proof fn lemma_hold_when_input_low(self, levels: Seq<bool>)
        requires
            !self.input_queue,
        ensures
            self.spec_apply_clock_levels(levels).bit == self.bit,
        decreases levels.len(),
    {
        if levels.len() > 0 {
            self.spec_set_clock(levels[0]).lemma_hold_when_input_low(levels.skip(1));
        }
    }
}

} // verus!
