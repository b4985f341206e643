//! The shared capability bound for the values that flow through the emulated
//! components: a word is a copyable value with a distinguished zero, the value
//! every storage element holds after a reset.

use vstd::prelude::*;

verus! {

/// A storage word. Implementors supply the zero value that latches, cells and
/// routers fall back to when cleared or deselected.
pub trait Word: Copy {
    /// The zero value, as contracts speak of it.
    spec fn zero_spec() -> Self;

    /// The zero value.
    fn zero() -> (r: Self)
        ensures
            r == Self::zero_spec(),
    ;
}

impl Word for u8 {
    open spec fn zero_spec() -> u8 {
        0u8
    }

    fn zero() -> u8 {
        0u8
    }
}

impl Word for u16 {
    open spec fn zero_spec() -> u16 {
        0u16
    }

    fn zero() -> u16 {
        0u16
    }
}

impl Word for u32 {
    open spec fn zero_spec() -> u32 {
        0u32
    }

    fn zero() -> u32 {
        0u32
    }
}

impl Word for u64 {
    open spec fn zero_spec() -> u64 {
        0u64
    }

    fn zero() -> u64 {
        0u64
    }
}

impl Word for usize {
    open spec fn zero_spec() -> usize {
        0usize
    }

    fn zero() -> usize {
        0usize
    }
}

} // verus!
