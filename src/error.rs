//! Failures of decoding and of range reads.

use vstd::prelude::*;

verus! {

/// Why a header could not be decoded or a range could not be read.
#[derive(Clone, Copy, Debug, PartialEq, Eq, Structural)]
pub enum PciError {
    /// The header-type field (the value carried) is neither general nor PCI-to-PCI.
    UnsupportedHeaderType(u8),
    /// A byte range reaches past the 256-byte configuration space.
    OutOfRange,
    /// Fewer than the 64 bytes of the common header were supplied.
    Truncated,
}

} // verus!
