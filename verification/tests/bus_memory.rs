//! Tests for the memory bus: RAM mirroring, region decoding and error
//! routing.

use tinfo::bus::{Bus, BusError};
use tinfo::cartridge::nrom::Nrom;
use tinfo::cartridge::{Cartridge, CartridgeError};

fn test_bus() -> Bus {
    Bus::new(Cartridge::Nrom(Nrom::new(false, vec![0u8; 16 * 1024])))
}

#[test]
fn test_ram_mirroring_after_write() {
    let mut bus = test_bus();

    for (address, value) in [(0x0000u16, 0x5Au8), (0x07FF, 0xA5), (0x0123, 0x42)] {
        bus.write(address, value).unwrap();
        for mirrors in 1u16..4 {
            let mirrored = address + 0x800 * mirrors;
            assert_eq!(bus.read(address).unwrap(), bus.read(mirrored).unwrap());
            assert_eq!(bus.read(mirrored).unwrap(), value);
        }
    }
}

#[test]
fn test_write_through_mirror_lands_in_ram() {
    let mut bus = test_bus();
    bus.write(0x1FFF, 0x77).unwrap();
    assert_eq!(bus.read(0x07FF).unwrap(), 0x77);
}

#[test]
fn test_unimplemented_regions_error() {
    let mut bus = test_bus();

    for address in [0x2000u16, 0x3FFF, 0x4000, 0x4017, 0x4018, 0x401F] {
        assert!(matches!(bus.read(address), Err(BusError::CannotRead)));
        assert!(matches!(bus.write(address, 0), Err(BusError::CannotWrite)));
    }
}

#[test]
fn test_cartridge_errors_are_wrapped() {
    let mut bus = test_bus();

    assert!(matches!(
        bus.read(0x4020),
        Err(BusError::CartridgeError(CartridgeError::CannotRead))
    ));
    assert!(matches!(
        bus.write(0x8000, 1),
        Err(BusError::CartridgeError(CartridgeError::CannotWrite))
    ));
}

#[test]
fn test_cartridge_region_reads_rom() {
    let mut rom = vec![0u8; 16 * 1024];
    rom[0x0003] = 0xBE;
    let bus = Bus::new(Cartridge::Nrom(Nrom::new(false, rom)));
    assert_eq!(bus.read(0x8003).unwrap(), 0xBE);
}

#[test]
fn test_ram_starts_zeroed() {
    let bus = test_bus();
    for address in [0x0000u16, 0x00FF, 0x07FF, 0x1ABC] {
        assert_eq!(bus.read(address).unwrap(), 0);
    }
}
