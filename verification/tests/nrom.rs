//! Tests for the NROM cartridge mapper and the iNES container decoding.

use tinfo::cartridge::nrom::Nrom;
use tinfo::cartridge::{Cartridge, CartridgeError};
use tinfo::rom::ines::{InesFile, InesFileError};

const INVALID_NROM_ADDRESS: u16 = 0x4020;
const NROM_FIRST_ROM_BANK_ADDRESS: u16 = 0x8000;
const NROM_SECOND_ROM_BANK_ADDRESS: u16 = 0xC000;

const MOCK_VALUE_ON_LOWER_HALF: u8 = 0;
const MOCK_VALUE_ON_HIGHER_HALF: u8 = 1;

/// A 32 KiB program ROM whose first KiB holds one marker value and whose
/// rest holds another, so a read tells the two halves of the window apart.
fn mock_rom() -> Vec<u8> {
    let mut rom = vec![MOCK_VALUE_ON_HIGHER_HALF; 32 * 1024];
    for index in 0..1024 {
        rom[index] = MOCK_VALUE_ON_LOWER_HALF;
    }
    rom
}

#[test]
fn test_write_protection() {
    let mut nrom_cartridge = Nrom::new(true, mock_rom());

    assert!(nrom_cartridge.write(INVALID_NROM_ADDRESS, 0).is_err());
    assert!(nrom_cartridge
        .write(NROM_FIRST_ROM_BANK_ADDRESS, 0)
        .is_err());
    assert!(nrom_cartridge
        .write(NROM_SECOND_ROM_BANK_ADDRESS, 0)
        .is_err());
}

#[test]
fn test_read_below_prg_protection() {
    let nrom_cartridge = Nrom::new(true, mock_rom());

    assert!(nrom_cartridge.read(INVALID_NROM_ADDRESS).is_err());
}

#[test]
fn test_read_on_32k() {
    let nrom_cartridge = Nrom::new(true, mock_rom());

    assert_eq!(
        nrom_cartridge.read(NROM_FIRST_ROM_BANK_ADDRESS).unwrap(),
        MOCK_VALUE_ON_LOWER_HALF
    );

    assert_eq!(
        nrom_cartridge.read(NROM_SECOND_ROM_BANK_ADDRESS).unwrap(),
        MOCK_VALUE_ON_HIGHER_HALF
    );
}

#[test]
fn test_read_on_16k() {
    let nrom_cartridge = Nrom::new(false, mock_rom());

    assert_eq!(
        nrom_cartridge.read(NROM_FIRST_ROM_BANK_ADDRESS).unwrap(),
        MOCK_VALUE_ON_LOWER_HALF
    );

    assert_eq!(
        nrom_cartridge.read(NROM_SECOND_ROM_BANK_ADDRESS).unwrap(),
        MOCK_VALUE_ON_LOWER_HALF
    );
}

#[test]
fn test_bank_mirroring_on_16k_across_window() {
    let mut rom = vec![0u8; 16 * 1024];
    rom[0x0000] = 0x11;
    rom[0x1234] = 0x22;
    rom[0x3FFF] = 0x33;
    let nrom_cartridge = Nrom::new(false, rom);

    for index in [0x0000u16, 0x1234, 0x3FFF] {
        assert_eq!(
            nrom_cartridge.read(0x8000 + index).unwrap(),
            nrom_cartridge.read(0xC000 + index).unwrap()
        );
    }
}

#[test]
fn test_no_bank_mirroring_on_32k() {
    let mut rom = vec![0u8; 32 * 1024];
    rom[0x0000] = 0x44;
    rom[0x4000] = 0x55;
    let nrom_cartridge = Nrom::new(true, rom);

    assert_ne!(
        nrom_cartridge.read(0x8000).unwrap(),
        nrom_cartridge.read(0xC000).unwrap()
    );
}

#[test]
fn test_read_error_variant_below_window() {
    let nrom_cartridge = Nrom::new(false, vec![0u8; 16 * 1024]);
    assert!(matches!(
        nrom_cartridge.read(0x7FFF),
        Err(CartridgeError::CannotRead)
    ));
    assert!(nrom_cartridge.read(0x8000).is_ok());
}

#[test]
fn test_write_error_variant() {
    let mut cartridge = Cartridge::Nrom(Nrom::new(false, vec![0u8; 16 * 1024]));
    assert!(matches!(
        cartridge.write(0x9000, 0xAB),
        Err(CartridgeError::CannotWrite)
    ));
}

#[test]
fn test_ines_decoding_takes_declared_bytes() {
    let mut image = vec![0x4E, 0x45, 0x53, 0x1A, 0x01];
    image.resize(16, 0);
    for index in 0..16 * 1024 {
        image.push((index % 251) as u8);
    }
    image.push(0xFF);

    let rom = InesFile::from_bytes(&image).unwrap();
    assert_eq!(rom.prg_rom_size, 16 * 1024);
    assert_eq!(rom.prg_rom.len(), 16 * 1024);
    assert_eq!(rom.prg_rom[0], 0);
    assert_eq!(rom.prg_rom[250], 250);
    assert_eq!(rom.prg_rom[251], 0);
}

#[test]
fn test_ines_decoding_rejects_missing_magic() {
    let image = vec![0x4E, 0x45, 0x53, 0x00, 0x01];
    assert!(matches!(
        InesFile::from_bytes(&image),
        Err(InesFileError::MagicBytesMissing)
    ));
}

#[test]
fn test_ines_decoding_rejects_short_image() {
    let image = vec![0x4E, 0x45];
    assert!(matches!(
        InesFile::from_bytes(&image),
        Err(InesFileError::ReadingRomFailed)
    ));

    let mut truncated = vec![0x4E, 0x45, 0x53, 0x1A, 0x02];
    truncated.resize(16 + 16 * 1024, 0);
    assert!(matches!(
        InesFile::from_bytes(&truncated),
        Err(InesFileError::ReadingRomFailed)
    ));
}

#[test]
fn test_ines_decoding_into_cartridge_with_two_banks() {
    let mut image = vec![0x4E, 0x45, 0x53, 0x1A, 0x02];
    image.resize(16, 0);
    let mut payload = vec![0u8; 32 * 1024];
    payload[0x0000] = 0x66;
    payload[0x4000] = 0x77;
    image.extend_from_slice(&payload);

    let rom = InesFile::from_bytes(&image).unwrap();
    assert_eq!(rom.prg_rom_size, 32 * 1024);
    let cartridge = rom.into_cartridge();
    // Both banks are reachable: the window is not mirrored.
    assert_eq!(cartridge.read(0x8000).unwrap(), 0x66);
    assert_eq!(cartridge.read(0xC000).unwrap(), 0x77);
}

#[test]
fn test_ines_decoding_into_cartridge_mirrors() {
    let mut image = vec![0x4E, 0x45, 0x53, 0x1A, 0x01];
    image.resize(16, 0);
    for index in 0..16 * 1024 {
        image.push((index % 7) as u8);
    }

    let rom = InesFile::from_bytes(&image).unwrap();
    let cartridge = rom.into_cartridge();
    assert_eq!(cartridge.read(0x8005).unwrap(), 5 % 7);
    assert_eq!(
        cartridge.read(0x8321).unwrap(),
        cartridge.read(0xC321).unwrap()
    );
}
