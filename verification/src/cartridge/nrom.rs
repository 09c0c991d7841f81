//! The NROM mapper chip: a fixed program-ROM window with no writable banks.

use crate::cartridge::CartridgeError;
use crate::BYTES_ON_A_KIBIBYTE;
use vstd::prelude::*;

verus! {

/// The first bus address decoded by the NROM read path; reads below it are
/// undefined for this mapper.
pub const NROM_PRG_ROM_START_ADDRESS: u16 = 0x8000;

/// A cartridge that uses the NROM mapper chip: program ROM only, either a
/// single mirrored 16 KiB bank or a full 32 KiB window.
pub struct Nrom {
    /// The program ROM bytes of the cartridge.
    pub rom: Vec<u8>,
    /// Whether the cartridge has 32 KiB of program ROM capacity; with 16 KiB
    /// the single bank is mirrored across both halves of the window.
    pub has_32_kibibytes_prg_rom_capacity: bool,
}

impl Nrom {
    /// How many program ROM bytes the mapper's window can reach.
    pub open spec fn spec_reachable_rom_len(self) -> int {
        if self.has_32_kibibytes_prg_rom_capacity {
            0x8000
        } else {
            0x4000
        }
    }

    /// The ROM holds at least every byte the mapper's window can reach.
    pub open spec fn wf(self) -> bool {
        self.rom@.len() >= self.spec_reachable_rom_len()
    }

    /// What a read at `address` returns: an addressing error below the
    /// program-ROM window, otherwise the ROM byte at the window-relative
    /// index, reduced modulo 16 KiB when the single bank is mirrored.
    pub open spec fn spec_read(self, address: u16) -> Result<u8, CartridgeError> {
        if address < NROM_PRG_ROM_START_ADDRESS {
            Err(CartridgeError::CannotRead)
        } else if self.has_32_kibibytes_prg_rom_capacity {
            Ok(self.rom@[address - NROM_PRG_ROM_START_ADDRESS])
        } else {
            Ok(self.rom@[(address - NROM_PRG_ROM_START_ADDRESS) % 0x4000])
        }
    }

    /// What a write at `address` returns: the program ROM is read-only on
    /// this mapper, so every write fails.
    pub open spec fn spec_write(self, address: u16) -> Result<(), CartridgeError> {
        Err(CartridgeError::CannotWrite)
    }

    /// Create a new NROM cartridge over the given program ROM bytes.
    pub fn new(has_32_kibibytes_prg_rom_capacity: bool, rom: Vec<u8>) -> (cartridge: Nrom)
        requires
            rom@.len() >= if has_32_kibibytes_prg_rom_capacity {
                0x8000int
            } else {
                0x4000int
            },
        ensures
            cartridge.wf(),
            cartridge.rom == rom,
            cartridge.has_32_kibibytes_prg_rom_capacity == has_32_kibibytes_prg_rom_capacity,
    {
        Nrom { rom, has_32_kibibytes_prg_rom_capacity }
    }

    /// Read a byte through the NROM mapper.
    pub fn read(&self, address: u16) -> (result: Result<u8, CartridgeError>)
        requires
            self.wf(),
        ensures
            result == self.spec_read(address),
    {
        if address < NROM_PRG_ROM_START_ADDRESS {
            return Err(CartridgeError::CannotRead);
        }
        let index: usize = (address - NROM_PRG_ROM_START_ADDRESS) as usize;
        if self.has_32_kibibytes_prg_rom_capacity {
            Ok(self.rom[index])
        } else {
            Ok(self.rom[index % (16 * BYTES_ON_A_KIBIBYTE)])
        }
    }

    /// Write a byte through the NROM mapper: program ROM is not writable, so
    /// every write fails and leaves the cartridge unchanged.
    pub fn write(&mut self, address: u16, value: u8) -> (result: Result<(), CartridgeError>)
        ensures
            *final(self) == *old(self),
            result == Err::<(), CartridgeError>(CartridgeError::CannotWrite),
    {
        Err(CartridgeError::CannotWrite)
    }
}

/// Write protection and read window: on the NROM mapper every write fails,
/// whatever the address, and every read below the program-ROM window fails.
pub proof fn lemma_nrom_protection(cartridge: Nrom, address: u16)
    ensures
        cartridge.spec_write(address) == Err::<(), CartridgeError>(CartridgeError::CannotWrite),
        address < 0x8000 ==> cartridge.spec_read(address) == Err::<u8, CartridgeError>(
            CartridgeError::CannotRead,
        ),
{
}

/// Bank mirroring: with 16 KiB of program ROM capacity, the two halves of the
/// NROM window read the same bytes.
pub proof fn lemma_nrom_bank_mirroring(cartridge: Nrom, index: u16)
    requires
        cartridge.wf(),
        !cartridge.has_32_kibibytes_prg_rom_capacity,
        index < 0x4000,
    ensures
        cartridge.spec_read((0x8000 + index) as u16) == cartridge.spec_read(
            (0xC000 + index) as u16,
        ),
{
    assert((0x8000 + index - 0x8000) % 0x4000 == index % 0x4000);
    assert((0xC000 + index - 0x8000) % 0x4000 == (0x4000 + index) % 0x4000);
    assert(index % 0x4000 == index);
    assert((0x4000 + index) % 0x4000 == index) by {
        vstd::arithmetic::div_mod::lemma_mod_multiples_vanish(1, index as int, 0x4000);
    }
}

} // verus!
