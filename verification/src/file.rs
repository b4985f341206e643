//! A register file: a byte bank addressed one byte at a time, with a staged
//! job (read or write) and an edge-sensitive clock. A clock transition that
//! fires reports a trigger event to the caller, who reads the file's state
//! to act on the staged job; no callbacks are stored in the file itself.

use vstd::prelude::*;
use crate::trigger::{TriggerMode, fires};
use crate::register::PIPORegister;

verus! {

/// What a file trigger asks of its surroundings.
#[derive(PartialEq, Eq, Structural, Clone, Copy, Debug)]
pub enum Command {
    /// Present the file's content.
    Read,
    /// Accept the file's changed content.
    Write,
}

/// A byte-addressed register file. Bytes land in the backing bank
/// immediately; the clock only reports, through the value returned by
/// `set_clock_state`, when a qualifying transition occurred, and `job` says
/// what the caller should do about it.
pub struct File {
    /// How many bytes the file holds.
    pub byte_quantity: usize,
    /// The job staged for the next trigger.
    pub job: Command,
    /// The last observed clock level.
    pub clock_state: bool,
    /// Which clock transition reports a trigger event.
    pub trigger_mode: TriggerMode,
    /// The backing byte bank.
    pub byte_buffer: PIPORegister,
    /// The byte address the next `set_byte` writes to.
    pub address_index: usize,
}

impl File {
    /// A fresh file of `byte_quantity` zeroed bytes: address zero, a read
    /// job, a low clock.
    pub fn new(byte_quantity: usize, trigger_mode: TriggerMode) -> (r: File)
        ensures
            r.byte_quantity == byte_quantity,
            r.job == Command::Read,
            r.clock_state == false,
            r.trigger_mode == trigger_mode,
            r.address_index == 0,
            r.byte_buffer.byte_quantity == byte_quantity,
            r.byte_buffer.trigger_mode == trigger_mode,
            r.byte_buffer.clock_state == false,
            r.byte_buffer.byte_buffer@ == Seq::new(byte_quantity as nat, |i: int| 0u8),
    {
        File {
            byte_buffer: PIPORegister::new(byte_quantity, trigger_mode),
            byte_quantity,
            trigger_mode,
            clock_state: false,
            address_index: 0,
            job: Command::Read,
        }
    }

    /// Store `byte` at the current address immediately.
    pub fn set_byte(&mut self, byte: u8)
        requires
            old(self).address_index < old(self).byte_buffer.byte_buffer@.len(),
        ensures
            final(self).byte_buffer.byte_buffer@
                == old(self).byte_buffer.byte_buffer@.update(old(self).address_index as int, byte),
            final(self).byte_buffer.clock_state == old(self).byte_buffer.clock_state,
            final(self).byte_buffer.byte_quantity == old(self).byte_buffer.byte_quantity,
            final(self).byte_buffer.trigger_mode == old(self).byte_buffer.trigger_mode,
            final(self).byte_quantity == old(self).byte_quantity,
            final(self).job == old(self).job,
            final(self).clock_state == old(self).clock_state,
            final(self).trigger_mode == old(self).trigger_mode,
            final(self).address_index == old(self).address_index,
    {
        self.byte_buffer.set_byte(byte, self.address_index);
    }

    /// Aim the next `set_byte` at `address`.
    pub fn set_address(&mut self, address: usize)
        ensures
            *final(self) == (File { address_index: address, ..*old(self) }),
    {
        self.address_index = address;
    }

    /// Stage the job the next trigger asks for.
    pub fn set_job(&mut self, job: Command)
        ensures
            *final(self) == (File { job: job, ..*old(self) }),
    {
        self.job = job;
    }

    /// Drive the clock to `clock_state` and report whether the transition
    /// fired; on a trigger the caller acts on the staged `job` against the
    /// file's state. The stored bytes are never touched by the clock.
    pub fn set_clock_state(&mut self, clock_state: bool) -> (triggered: bool)
        ensures
            triggered == fires(
                old(self).byte_buffer.clock_state,
                clock_state,
                old(self).byte_buffer.trigger_mode,
            ),
            final(self).clock_state == clock_state,
            final(self).byte_buffer.clock_state == clock_state,
            final(self).byte_buffer.byte_buffer == old(self).byte_buffer.byte_buffer,
            final(self).byte_buffer.byte_quantity == old(self).byte_buffer.byte_quantity,
            final(self).byte_buffer.trigger_mode == old(self).byte_buffer.trigger_mode,
            final(self).byte_quantity == old(self).byte_quantity,
            final(self).job == old(self).job,
            final(self).trigger_mode == old(self).trigger_mode,
            final(self).address_index == old(self).address_index,
    {
        let changing = self.byte_buffer.set_clock_state(clock_state);
        self.clock_state = clock_state;
        changing
    }
}

} // verus!
