//! A cycle-level emulator for the digital-logic building blocks of a small
//! processor's memory subsystem: bistable storage primitives (latches and
//! flip-flops), signal routers (multiplexer and demultiplexer), an addressable
//! static-memory block built from register cells, a multi-block driver that
//! joins blocks into one flat address space, and a round-robin memory
//! controller that arbitrates that space between several cores.
//!
//! Every state change is an explicit, synchronous call: the caller drives the
//! clock by hand and the components react only to genuine level transitions.

pub mod word;
pub mod trigger;
pub mod error;
pub mod latch;
pub mod sr_latch;
pub mod flip_flop;
pub mod signal;
pub mod memory;
pub mod driver;
pub mod controller;
pub mod register;
pub mod file;
