//! The header-type byte: a two-bit layout selector and the multifunction flag.

use vstd::prelude::*;

verus! {

/// Header-type field value of a general device.
pub const GENERAL: u8 = 0b0000_0000;

/// Header-type field value of a PCI-to-PCI bridge.
pub const PCITOPCI: u8 = 0b0000_0001;

/// Header-type field value of a CardBus bridge.
pub const CARDBUSBRIDGE: u8 = 0b0000_0010;

/// Bit set in the header-type byte of a multifunction device.
pub const MULTIFUNCTION: u8 = 0b0100_0000;

/// Mask that isolates the header-type field from the multifunction bit.
pub const HEADER_TYPE: u8 = 0b0000_0011;

/// Every bit that has a name.
pub const KNOWN_BITS: u8 = 0b0100_0011;

/// The structural variant selected by the header-type field.
#[derive(Clone, Copy, Debug, PartialEq, Eq, Structural)]
pub enum HeaderKind {
    General,
    PciToPci,
    CardBusBridge,
    Reserved,
}

/// The variant that a header-type field value (0 to 3) selects.
pub open spec fn kind_of_field(field: u8) -> HeaderKind {
    if field == GENERAL {
        HeaderKind::General
    } else if field == PCITOPCI {
        HeaderKind::PciToPci
    } else if field == CARDBUSBRIDGE {
        HeaderKind::CardBusBridge
    } else {
        HeaderKind::Reserved
    }
}

/// The header-type byte, with the bits that have no name cleared.
#[derive(Clone, Copy, Debug, PartialEq, Eq, Structural)]
pub struct HeaderType {
    pub bits: u8,
}

impl HeaderType {
    /// The header-type field: bits 0 and 1.
    pub open spec fn spec_field(self) -> u8 {
        self.bits & HEADER_TYPE
    }

    pub open spec fn spec_multifunction(self) -> bool {
        self.bits & MULTIFUNCTION != 0
    }

    /// Keeps the named bits of a raw header-type byte.
    pub fn from_bits_truncate(bits: u8) -> (r: HeaderType)
        ensures
            r.bits == bits & KNOWN_BITS,
            r.spec_field() == bits & HEADER_TYPE,
            r.spec_multifunction() == (bits & MULTIFUNCTION != 0),
    {
        proof {
            assert((bits & 0x43u8) & 0x03u8 == bits & 0x03u8) by (bit_vector);
            assert((bits & 0x43u8) & 0x40u8 == bits & 0x40u8) by (bit_vector);
        }
        HeaderType { bits: bits & KNOWN_BITS }
    }

    /// The raw bits kept.
    pub fn bits(&self) -> (r: u8)
        ensures
            r == self.bits,
    {
        self.bits
    }

    /// The header-type field value, 0 to 3.
    pub fn field(&self) -> (r: u8)
        ensures
            r == self.spec_field(),
            r < 4,
    {
        let r = self.bits & HEADER_TYPE;
        proof {
            let b = self.bits;
            assert(b & 0x03u8 < 4u8) by (bit_vector);
        }
        r
    }

    /// The structural variant that the header-type field selects.
    pub fn kind(&self) -> (r: HeaderKind)
        ensures
            r == kind_of_field(self.spec_field()),
    {
        let field = self.field();
        if field == GENERAL {
            HeaderKind::General
        } else if field == PCITOPCI {
            HeaderKind::PciToPci
        } else if field == CARDBUSBRIDGE {
            HeaderKind::CardBusBridge
        } else {
            HeaderKind::Reserved
        }
    }

    /// Whether the multifunction bit is set.
    pub fn is_multifunction(&self) -> (r: bool)
        ensures
            r == self.spec_multifunction(),
    {
        self.bits & MULTIFUNCTION != 0
    }
}

/// Splits a raw header-type byte into its variant and its multifunction flag.
pub fn classify(byte: u8) -> (r: (HeaderKind, bool))
    ensures
        r.0 == kind_of_field(byte & HEADER_TYPE),
        r.1 == (byte & MULTIFUNCTION != 0),
{
    let t = HeaderType::from_bits_truncate(byte);
    (t.kind(), t.is_multifunction())
}

/// The multifunction flag does not depend on the header-type field: whichever of
/// the four field values a byte carries, its flag is bit 6 of the byte, and the
/// field does not see bit 6.
pub proof fn lemma_multifunction_independent(byte: u8, field: u8)
    requires
        field < 4,
    ensures
        ({
            let with_field = (byte & !HEADER_TYPE) | field;
            &&& (with_field & HEADER_TYPE) == field
            &&& (with_field & MULTIFUNCTION != 0) == (byte & MULTIFUNCTION != 0)
            &&& ((byte ^ MULTIFUNCTION) & HEADER_TYPE) == byte & HEADER_TYPE
        }),
{
    assert(((byte & !0x03u8) | field) & 0x03u8 == field) by (bit_vector)
        requires
            field < 4u8,
    ;
    assert((((byte & !0x03u8) | field) & 0x40u8 != 0u8) == (byte & 0x40u8 != 0u8)) by (bit_vector)
        requires
            field < 4u8,
    ;
    assert(((byte ^ 0x40u8) & 0x03u8) == byte & 0x03u8) by (bit_vector);
}

} // verus!
