//! The device class carried by a header.

use vstd::prelude::*;

verus! {

/// The semantic device class named by a header's base-class byte.
#[derive(Clone, Copy, Debug, PartialEq, Eq, Structural)]
pub enum PciClass {
    Legacy,
    Storage,
    Network,
    Display,
    Multimedia,
    Memory,
    Bridge,
    SimpleComms,
    Peripheral,
    Input,
    Docking,
    Processor,
    SerialBus,
    Wireless,
    IntelligentIo,
    SatelliteComms,
    Cryptography,
    SignalProc,
    Reserved(u8),
    Unknown,
}

/// The class that a base-class byte names; the subclass and programming
/// interface refine it but never change it.
pub open spec fn class_of(class: u8) -> PciClass {
    if class == 0x00 {
        PciClass::Legacy
    } else if class == 0x01 {
        PciClass::Storage
    } else if class == 0x02 {
        PciClass::Network
    } else if class == 0x03 {
        PciClass::Display
    } else if class == 0x04 {
        PciClass::Multimedia
    } else if class == 0x05 {
        PciClass::Memory
    } else if class == 0x06 {
        PciClass::Bridge
    } else if class == 0x07 {
        PciClass::SimpleComms
    } else if class == 0x08 {
        PciClass::Peripheral
    } else if class == 0x09 {
        PciClass::Input
    } else if class == 0x0A {
        PciClass::Docking
    } else if class == 0x0B {
        PciClass::Processor
    } else if class == 0x0C {
        PciClass::SerialBus
    } else if class == 0x0D {
        PciClass::Wireless
    } else if class == 0x0E {
        PciClass::IntelligentIo
    } else if class == 0x0F {
        PciClass::SatelliteComms
    } else if class == 0x10 {
        PciClass::Cryptography
    } else if class == 0x11 {
        PciClass::SignalProc
    } else if class == 0xFF {
        PciClass::Unknown
    } else {
        PciClass::Reserved(class)
    }
}

impl PciClass {
    /// Resolves the (base class, subclass, programming interface) triple.
    /// Never fails: a base class without a name gives `Reserved`.
    pub fn resolve(class: u8, _subclass: u8, _interface: u8) -> (r: PciClass)
        ensures
            r == class_of(class),
    {
        match class {
            0x00 => PciClass::Legacy,
            0x01 => PciClass::Storage,
            0x02 => PciClass::Network,
            0x03 => PciClass::Display,
            0x04 => PciClass::Multimedia,
            0x05 => PciClass::Memory,
            0x06 => PciClass::Bridge,
            0x07 => PciClass::SimpleComms,
            0x08 => PciClass::Peripheral,
            0x09 => PciClass::Input,
            0x0A => PciClass::Docking,
            0x0B => PciClass::Processor,
            0x0C => PciClass::SerialBus,
            0x0D => PciClass::Wireless,
            0x0E => PciClass::IntelligentIo,
            0x0F => PciClass::SatelliteComms,
            0x10 => PciClass::Cryptography,
            0x11 => PciClass::SignalProc,
            0xFF => PciClass::Unknown,
            _ => PciClass::Reserved(class),
        }
    }
}

} // verus!
