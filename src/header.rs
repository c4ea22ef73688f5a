//! The decoded configuration-space header and the decoder that builds it.

use vstd::prelude::*;

use crate::bytes::{le16, le32, read_u16, read_u32};
use crate::class::{class_of, PciClass};
use crate::error::PciError;
use crate::header_type::{
    HeaderType, CARDBUSBRIDGE, GENERAL, HEADER_TYPE, KNOWN_BITS, MULTIFUNCTION, PCITOPCI,
};

verus! {

/// Bytes in the header region shared by every layout (sixteen dwords).
pub const HEADER_LEN: usize = 64;

/// The value of an absent function's first dword.
pub const ABSENT: u32 = 0xFFFF_FFFF;

/// A decoded configuration-space header, one case per supported layout.
#[derive(Clone, Debug, PartialEq, Eq)]
#[allow(inconsistent_fields)]
pub enum PciHeader {
    General {
        vendor_id: u16,
        device_id: u16,
        command: u16,
        status: u16,
        revision: u8,
        interface: u8,
        subclass: u8,
        class: PciClass,
        cache_line_size: u8,
        latency_timer: u8,
        header_type: HeaderType,
        bist: u8,
        bars: [u32; 6],
        cardbus_cis_ptr: u32,
        subsystem_vendor_id: u16,
        subsystem_id: u16,
        expansion_rom_bar: u32,
        capabilities: u8,
        interrupt_line: u8,
        interrupt_pin: u8,
        min_grant: u8,
        max_latency: u8,
    },
    PciToPci {
        vendor_id: u16,
        device_id: u16,
        command: u16,
        status: u16,
        revision: u8,
        interface: u8,
        subclass: u8,
        class: PciClass,
        cache_line_size: u8,
        latency_timer: u8,
        header_type: HeaderType,
        bist: u8,
        bars: [u32; 2],
        primary_bus_num: u8,
        secondary_bus_num: u8,
        subordinate_bus_num: u8,
        secondary_latency_timer: u8,
        io_base: u8,
        io_limit: u8,
        secondary_status: u16,
        mem_base: u16,
        mem_limit: u16,
        prefetch_base: u16,
        prefetch_limit: u16,
        prefetch_base_upper: u32,
        prefetch_limit_upper: u32,
        io_base_upper: u16,
        io_limit_upper: u16,
        cap_pointer: u8,
        expansion_rom: u32,
        interrupt_line: u8,
        interrupt_pin: u8,
        bridge_control: u16,
    },
}

/// The header-type field of a header held in `b`: bits 0 and 1 of byte 0x0E.
pub open spec fn header_field(b: Seq<u8>) -> u8 {
    b[0x0E] & HEADER_TYPE
}

/// The header-type flags kept from byte 0x0E.
pub open spec fn header_type_of(b: Seq<u8>) -> HeaderType {
    HeaderType { bits: b[0x0E] & KNOWN_BITS }
}

/// The general-device header laid out in the first 64 bytes of `b`.
pub open spec fn general_of(b: Seq<u8>, t: HeaderType) -> PciHeader {
    PciHeader::General {
        vendor_id: le16(b, 0x00),
        device_id: le16(b, 0x02),
        command: le16(b, 0x04),
        status: le16(b, 0x06),
        revision: b[0x08],
        interface: b[0x09],
        subclass: b[0x0A],
        class: class_of(b[0x0B]),
        cache_line_size: b[0x0C],
        latency_timer: b[0x0D],
        header_type: t,
        bist: b[0x0F],
        bars: [
            le32(b, 0x10),
            le32(b, 0x14),
            le32(b, 0x18),
            le32(b, 0x1C),
            le32(b, 0x20),
            le32(b, 0x24),
        ],
        cardbus_cis_ptr: le32(b, 0x28),
        subsystem_vendor_id: le16(b, 0x2C),
        subsystem_id: le16(b, 0x2E),
        expansion_rom_bar: le32(b, 0x30),
        capabilities: b[0x34],
        interrupt_line: b[0x3C],
        interrupt_pin: b[0x3D],
        min_grant: b[0x3E],
        max_latency: b[0x3F],
    }
}

/// The PCI-to-PCI bridge header laid out in the first 64 bytes of `b`.
pub open spec fn bridge_of(b: Seq<u8>, t: HeaderType) -> PciHeader {
    PciHeader::PciToPci {
        vendor_id: le16(b, 0x00),
        device_id: le16(b, 0x02),
        command: le16(b, 0x04),
        status: le16(b, 0x06),
        revision: b[0x08],
        interface: b[0x09],
        subclass: b[0x0A],
        class: class_of(b[0x0B]),
        cache_line_size: b[0x0C],
        latency_timer: b[0x0D],
        header_type: t,
        bist: b[0x0F],
        bars: [le32(b, 0x10), le32(b, 0x14)],
        primary_bus_num: b[0x18],
        secondary_bus_num: b[0x19],
        subordinate_bus_num: b[0x1A],
        secondary_latency_timer: b[0x1B],
        io_base: b[0x1C],
        io_limit: b[0x1D],
        secondary_status: le16(b, 0x1E),
        mem_base: le16(b, 0x20),
        mem_limit: le16(b, 0x22),
        prefetch_base: le16(b, 0x24),
        prefetch_limit: le16(b, 0x26),
        prefetch_base_upper: le32(b, 0x28),
        prefetch_limit_upper: le32(b, 0x2C),
        io_base_upper: le16(b, 0x30),
        io_limit_upper: le16(b, 0x32),
        cap_pointer: b[0x34],
        expansion_rom: le32(b, 0x38),
        interrupt_line: b[0x3C],
        interrupt_pin: b[0x3D],
        bridge_control: le16(b, 0x3E),
    }
}

/// What the 64 header bytes at the start of `b` decode to: the header-type field
/// alone picks the layout, and any field but general or PCI-to-PCI is refused.
pub open spec fn decode_header(b: Seq<u8>) -> Result<PciHeader, PciError>
    recommends
        b.len() >= HEADER_LEN,
{
    let field = header_field(b);
    if field == GENERAL {
        Ok(general_of(b, header_type_of(b)))
    } else if field == PCITOPCI {
        Ok(bridge_of(b, header_type_of(b)))
    } else {
        Err(PciError::UnsupportedHeaderType(field))
    }
}

/// The number of bytes that `from_bytes` may read: `len`, but no more than the slice holds.
pub open spec fn available(bytes: Seq<u8>, len: usize) -> int {
    if len as int <= bytes.len() {
        len as int
    } else {
        bytes.len() as int
    }
}

/// What `from_bytes` returns for the first `len` bytes of `bytes`.
pub open spec fn from_bytes_result(bytes: Seq<u8>, len: usize) -> Result<PciHeader, PciError> {
    if available(bytes, len) < HEADER_LEN {
        Err(PciError::Truncated)
    } else {
        decode_header(bytes)
    }
}

impl PciHeader {
    pub open spec fn spec_header_type(self) -> HeaderType {
        match self {
            PciHeader::General { header_type, .. } => header_type,
            PciHeader::PciToPci { header_type, .. } => header_type,
        }
    }

    /// The header-type flags the header was decoded with.
    pub fn header_type(&self) -> (r: HeaderType)
        ensures
            r == self.spec_header_type(),
    {
        match self {
            PciHeader::General { header_type, .. } => *header_type,
            PciHeader::PciToPci { header_type, .. } => *header_type,
        }
    }

    /// Parses the configuration-space bytes of a function, of which the first
    /// `len` are valid, into a header.
    pub fn from_bytes(bytes: &[u8], len: usize) -> (r: Result<PciHeader, PciError>)
        ensures
            r == from_bytes_result(bytes@, len),
    {
        if len < HEADER_LEN || bytes.len() < HEADER_LEN {
            return Err(PciError::Truncated);
        }
        let header_type = HeaderType::from_bits_truncate(bytes[0x0E]);
        let field = header_type.field();
        if field == GENERAL {
            Ok(Self::decode_general(bytes, header_type))
        } else if field == PCITOPCI {
            Ok(Self::decode_bridge(bytes, header_type))
        } else {
            Err(PciError::UnsupportedHeaderType(field))
        }
    }

    fn decode_general(bytes: &[u8], header_type: HeaderType) -> (r: PciHeader)
        requires
            bytes@.len() >= HEADER_LEN,
        ensures
            r == general_of(bytes@, header_type),
    {
        let bars = [
            read_u32(bytes, 0x10),
            read_u32(bytes, 0x14),
            read_u32(bytes, 0x18),
            read_u32(bytes, 0x1C),
            read_u32(bytes, 0x20),
            read_u32(bytes, 0x24),
        ];
        PciHeader::General {
            vendor_id: read_u16(bytes, 0x00),
            device_id: read_u16(bytes, 0x02),
            command: read_u16(bytes, 0x04),
            status: read_u16(bytes, 0x06),
            revision: bytes[0x08],
            interface: bytes[0x09],
            subclass: bytes[0x0A],
            class: PciClass::resolve(bytes[0x0B], bytes[0x0A], bytes[0x09]),
            cache_line_size: bytes[0x0C],
            latency_timer: bytes[0x0D],
            header_type,
            bist: bytes[0x0F],
            bars,
            cardbus_cis_ptr: read_u32(bytes, 0x28),
            subsystem_vendor_id: read_u16(bytes, 0x2C),
            subsystem_id: read_u16(bytes, 0x2E),
            expansion_rom_bar: read_u32(bytes, 0x30),
            capabilities: bytes[0x34],
            interrupt_line: bytes[0x3C],
            interrupt_pin: bytes[0x3D],
            min_grant: bytes[0x3E],
            max_latency: bytes[0x3F],
        }
    }

    fn decode_bridge(bytes: &[u8], header_type: HeaderType) -> (r: PciHeader)
        requires
            bytes@.len() >= HEADER_LEN,
        ensures
            r == bridge_of(bytes@, header_type),
    {
        let bars = [read_u32(bytes, 0x10), read_u32(bytes, 0x14)];
        PciHeader::PciToPci {
            vendor_id: read_u16(bytes, 0x00),
            device_id: read_u16(bytes, 0x02),
            command: read_u16(bytes, 0x04),
            status: read_u16(bytes, 0x06),
            revision: bytes[0x08],
            interface: bytes[0x09],
            subclass: bytes[0x0A],
            class: PciClass::resolve(bytes[0x0B], bytes[0x0A], bytes[0x09]),
            cache_line_size: bytes[0x0C],
            latency_timer: bytes[0x0D],
            header_type,
            bist: bytes[0x0F],
            bars,
            primary_bus_num: bytes[0x18],
            secondary_bus_num: bytes[0x19],
            subordinate_bus_num: bytes[0x1A],
            secondary_latency_timer: bytes[0x1B],
            io_base: bytes[0x1C],
            io_limit: bytes[0x1D],
            secondary_status: read_u16(bytes, 0x1E),
            mem_base: read_u16(bytes, 0x20),
            mem_limit: read_u16(bytes, 0x22),
            prefetch_base: read_u16(bytes, 0x24),
            prefetch_limit: read_u16(bytes, 0x26),
            prefetch_base_upper: read_u32(bytes, 0x28),
            prefetch_limit_upper: read_u32(bytes, 0x2C),
            io_base_upper: read_u16(bytes, 0x30),
            io_limit_upper: read_u16(bytes, 0x32),
            cap_pointer: bytes[0x34],
            expansion_rom: read_u32(bytes, 0x38),
            interrupt_line: bytes[0x3C],
            interrupt_pin: bytes[0x3D],
            bridge_control: read_u16(bytes, 0x3E),
        }
    }
}

/// A present function whose header-type field is general decodes to a general
/// header whose vendor and device ids are bytes 0-1 and 2-3 read little-endian.
pub proof fn lemma_general_ids(bytes: Seq<u8>, len: usize)
    requires
        available(bytes, len) >= HEADER_LEN,
        le32(bytes, 0) != ABSENT,
        header_field(bytes) == GENERAL,
    ensures
        from_bytes_result(bytes, len) matches Ok(PciHeader::General { vendor_id, device_id, .. })
            && vendor_id == bytes[0] + 0x100 * bytes[1] && device_id == bytes[2] + 0x100
            * bytes[3],
{
}

/// A header-type field of PCI-to-PCI decodes to a bridge header whose primary,
/// secondary and subordinate bus numbers are bytes 0x18, 0x19 and 0x1A.
pub proof fn lemma_bridge_bus_numbers(bytes: Seq<u8>, len: usize)
    requires
        available(bytes, len) >= HEADER_LEN,
        header_field(bytes) == PCITOPCI,
    ensures
        from_bytes_result(bytes, len) matches Ok(
            PciHeader::PciToPci { primary_bus_num, secondary_bus_num, subordinate_bus_num, .. },
        ) && primary_bus_num == bytes[0x18] && secondary_bus_num == bytes[0x19]
            && subordinate_bus_num == bytes[0x1A],
{
}

/// A CardBus or reserved header-type field is refused, and no header is built.
pub proof fn lemma_unsupported_header(bytes: Seq<u8>, len: usize)
    requires
        available(bytes, len) >= HEADER_LEN,
        header_field(bytes) == CARDBUSBRIDGE || header_field(bytes) == 3,
    ensures
        from_bytes_result(bytes, len) == Err::<PciHeader, PciError>(
            PciError::UnsupportedHeaderType(header_field(bytes)),
        ),
{
}

/// A decoded header reports bit 6 of byte 0x0E as its multifunction flag,
/// whichever supported layout it has.
pub proof fn lemma_header_multifunction(bytes: Seq<u8>, len: usize)
    requires
        from_bytes_result(bytes, len) is Ok,
    ensures
        from_bytes_result(bytes, len)->Ok_0.spec_header_type().spec_multifunction() == (bytes[0x0E]
            & MULTIFUNCTION != 0),
{
    let b = bytes[0x0E];
    assert((b & 0x43u8) & 0x40u8 == b & 0x40u8) by (bit_vector);
}

} // verus!
