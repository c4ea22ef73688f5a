use pcid::bytes::{byte_of_dword, read_u16, read_u32};
use pcid::error::PciError;
use pcid::func::{ConfigSpace, PciFunc};
use pcid::header::PciHeader;

fn space(func: u8, bytes: &[u8]) -> ConfigSpace {
    let mut dwords = [0u32; 64];
    for (i, d) in dwords.iter_mut().enumerate() {
        let mut four = [0u8; 4];
        for k in 0..4 {
            four[k] = *bytes.get(i * 4 + k).unwrap_or(&0);
        }
        *d = u32::from_le_bytes(four);
    }
    ConfigSpace { func, dwords }
}

fn counting_bytes() -> Vec<u8> {
    (0..256u32).map(|i| i as u8).collect()
}

#[test]
fn probe_absent_function() {
    let absent = ConfigSpace { func: 0, dwords: [0xFFFF_FFFF; 64] };
    let f = PciFunc { dev: &absent, num: 0 };
    assert!(!f.probe());
    assert_eq!(f.header(), Ok(None));
}

#[test]
fn other_function_numbers_are_absent() {
    let s = space(2, &counting_bytes());
    let f = PciFunc { dev: &s, num: 3 };
    assert!(!f.probe());
    assert_eq!(f.header(), Ok(None));
    let g = PciFunc { dev: &s, num: 2 };
    assert!(g.probe());
}

#[test]
fn header_of_present_general_function() {
    let mut b = vec![0u8; 256];
    b[0] = 0x34;
    b[1] = 0x12;
    b[2] = 0x78;
    b[3] = 0x56;
    b[0x3C] = 0x0B;
    b[0x3D] = 0x01;
    let s = space(0, &b);
    let f = PciFunc { dev: &s, num: 0 };
    assert!(f.probe());
    assert_eq!(f.read(0), 0x5678_1234);
    let h = f.header().unwrap().unwrap();
    assert_eq!(Ok(h.clone()), PciHeader::from_bytes(&b, 64));
    match h {
        PciHeader::General { vendor_id, device_id, interrupt_line, interrupt_pin, .. } => {
            assert_eq!(vendor_id, 0x1234);
            assert_eq!(device_id, 0x5678);
            assert_eq!(interrupt_line, 0x0B);
            assert_eq!(interrupt_pin, 0x01);
        }
        _ => panic!("expected a general header"),
    }
}

#[test]
fn header_of_bridge_function() {
    let mut b = counting_bytes();
    b[0x0E] = 0x01;
    let s = space(0, &b);
    let f = PciFunc { dev: &s, num: 0 };
    match f.header() {
        Ok(Some(PciHeader::PciToPci { primary_bus_num, secondary_bus_num, subordinate_bus_num, expansion_rom, .. })) => {
            assert_eq!(primary_bus_num, 0x18);
            assert_eq!(secondary_bus_num, 0x19);
            assert_eq!(subordinate_bus_num, 0x1A);
            assert_eq!(expansion_rom, 0x3B3A_3938);
        }
        other => panic!("unexpected {:?}", other),
    }
}

#[test]
fn header_of_cardbus_function_fails() {
    let mut b = counting_bytes();
    b[0x0E] = 0x42;
    let s = space(0, &b);
    let f = PciFunc { dev: &s, num: 0 };
    assert_eq!(f.header(), Err(PciError::UnsupportedHeaderType(2)));
}

#[test]
fn read_range_out_of_range() {
    let s = space(0, &counting_bytes());
    let f = PciFunc { dev: &s, num: 0 };
    assert_eq!(f.read_range(200, 57), Err(PciError::OutOfRange));
    assert_eq!(f.read_range(255, 2), Err(PciError::OutOfRange));
    assert_eq!(f.read_range(255, 255), Err(PciError::OutOfRange));
}

#[test]
fn read_range_exact_window() {
    let b = counting_bytes();
    let s = space(0, &b);
    let f = PciFunc { dev: &s, num: 0 };
    assert_eq!(f.read_range(1, 6).unwrap(), vec![1, 2, 3, 4, 5, 6]);
    assert_eq!(f.read_range(0x0E, 1).unwrap(), vec![0x0E]);
    assert_eq!(f.read_range(192, 64).unwrap(), b[192..256].to_vec());
    assert_eq!(f.read_range(255, 1).unwrap(), vec![255]);
    assert_eq!(f.read_range(7, 0).unwrap(), Vec::<u8>::new());
    assert_eq!(f.read_range(1, 255).unwrap(), b[1..256].to_vec());
}

#[test]
fn little_endian_extraction() {
    let b = [0x78u8, 0x56, 0x34, 0x12, 0xFF];
    assert_eq!(read_u16(&b, 0), 0x5678);
    assert_eq!(read_u16(&b, 3), 0xFF12);
    assert_eq!(read_u32(&b, 0), 0x1234_5678);
    assert_eq!(read_u32(&b, 1), 0xFF12_3456);
    assert_eq!(byte_of_dword(0xAABB_CCDD, 0), 0xDD);
    assert_eq!(byte_of_dword(0xAABB_CCDD, 1), 0xCC);
    assert_eq!(byte_of_dword(0xAABB_CCDD, 2), 0xBB);
    assert_eq!(byte_of_dword(0xAABB_CCDD, 3), 0xAA);
}
