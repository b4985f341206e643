//! The error taxonomy of the emulation core. Both variants signal a
//! configuration or programming error: retrying cannot succeed without a
//! topology change, so callers should surface them immediately.

use vstd::prelude::*;

verus! {

/// An unrecoverable addressing fault.
#[derive(PartialEq, Eq, Structural, Clone, Copy, Debug)]
pub enum EmulationError {
    /// A computed or supplied address exceeds the union of configured
    /// blocks and lines.
    AddressOutOfRange,
    /// A router's selector exceeds its configured input or output count.
    SelectorOutOfRange,
}

} // verus!
