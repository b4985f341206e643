//! A minimal word-wide set/reset latch.

use vstd::prelude::*;
use crate::word::Word;

verus! {

/// A set/reset latch over a whole word: `set` stores a value, `reset` returns
/// the latch to the zero value.
pub struct SRLatch<W: Word> {
    /// The word currently held by the latch.
    pub value: W,
}

impl<W: Word> SRLatch<W> {
    /// A fresh latch holds the zero value.
    pub fn new() -> (r: Self)
        ensures
            r.value == W::zero_spec(),
    {
        SRLatch { value: W::zero() }
    }

    /// Store `value` immediately.
    pub fn set(&mut self, value: W)
        ensures
            final(self).value == value,
    {
        self.value = value;
    }

    /// Return to the zero value.
    pub fn reset(&mut self)
        ensures
            final(self).value == W::zero_spec(),
    {
        self.value = W::zero();
    }
}

impl<W: Word> Default for SRLatch<W> {
    /// A default latch holds zero.
    fn default() -> (r: Self)
        ensures
            r.value == W::zero_spec(),
    {
        SRLatch::new()
    }
}

} // verus!
