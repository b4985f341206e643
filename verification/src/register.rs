//! A byte-wide parallel-in/parallel-out register bank with an edge-sensitive
//! clock input: bytes are written directly into the buffer, and a clock
//! transition that matches the trigger mode reports a trigger event to the
//! caller.

use vstd::prelude::*;
use crate::trigger::{TriggerMode, fires, should_trigger};

verus! {

/// A bank of `byte_quantity` bytes with an edge-sensitive clock. Writing is
/// immediate; the clock only signals when a transition fires, so the caller
/// can react to the event explicitly.
pub struct PIPORegister {
    /// How many bytes the bank holds.
    pub byte_quantity: usize,
    /// The last observed clock level.
    pub clock_state: bool,
    /// Which clock transition reports a trigger event.
    pub trigger_mode: TriggerMode,
    /// The stored bytes.
    pub byte_buffer: Vec<u8>,
}

impl PIPORegister {
    /// A fresh bank of `byte_quantity` zeroed bytes with a low clock.
    pub fn new(byte_quantity: usize, trigger_mode: TriggerMode) -> (r: PIPORegister)
        ensures
            r.byte_quantity == byte_quantity,
            r.clock_state == false,
            r.trigger_mode == trigger_mode,
            r.byte_buffer@ == Seq::new(byte_quantity as nat, |i: int| 0u8),
    {
        let mut byte_buffer: Vec<u8> = Vec::new();
        let mut i: usize = 0;
        while i < byte_quantity
            invariant
                i <= byte_quantity,
                byte_buffer@.len() == i,
                forall|k: int| 0 <= k < i ==> byte_buffer@[k] == 0u8,
            decreases byte_quantity - i,
        {
            byte_buffer.push(0u8);
            i = i + 1;
        }
        proof {
            assert(byte_buffer@ =~= Seq::new(byte_quantity as nat, |i: int| 0u8));
        }
        PIPORegister {
            clock_state: false,
            byte_buffer,
            byte_quantity,
            trigger_mode,
        }
    }

    /// Store `byte` at `index` immediately, without waiting for a clock.
    pub fn set_byte(&mut self, byte: u8, index: usize)
        requires
            index < old(self).byte_buffer@.len(),
        ensures
            final(self).byte_buffer@ == old(self).byte_buffer@.update(index as int, byte),
            final(self).byte_quantity == old(self).byte_quantity,
            final(self).clock_state == old(self).clock_state,
            final(self).trigger_mode == old(self).trigger_mode,
    {
        self.byte_buffer[index] = byte;
    }

    /// Drive the clock to `clock_state` and report whether the transition
    /// fired under the trigger mode; the stored bytes are never touched.
    pub fn set_clock_state(&mut self, clock_state: bool) -> (triggered: bool)
        ensures
            triggered == fires(old(self).clock_state, clock_state, old(self).trigger_mode),
            final(self).clock_state == clock_state,
            final(self).byte_buffer == old(self).byte_buffer,
            final(self).byte_quantity == old(self).byte_quantity,
            final(self).trigger_mode == old(self).trigger_mode,
    {
        let triggered = should_trigger(self.clock_state, clock_state, self.trigger_mode);
        self.clock_state = clock_state;
        triggered
    }
}

} // verus!
