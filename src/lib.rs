//! Decoding of the legacy PCI configuration-space header of one bus function.

pub mod bytes;
pub mod class;
pub mod error;
pub mod header_type;
pub mod header;
pub mod func;
