//! The cartridges that can be inserted in the console, each with the
//! addressing rules of its mapper chip.

pub mod nrom;

use crate::cartridge::nrom::Nrom;
use vstd::prelude::*;

verus! {

/// Errors that may happen when interacting with a cartridge.
#[derive(Clone, Copy, Debug, PartialEq, Eq, Structural)]
pub enum CartridgeError {
    /// Unable to read data from the cartridge: the address is not decoded by
    /// the mapper's read path.
    CannotRead,
    /// Unable to write data to the cartridge: the addressed memory is
    /// read-only.
    CannotWrite,
}

/// A cartridge inserted in the console. Each variant is one mapper chip with
/// its own addressing and write-protection rules; new mappers add new
/// variants without touching the bus or the CPU.
pub enum Cartridge {
    /// A cartridge wired through the NROM mapper chip.
    Nrom(Nrom),
}

impl Cartridge {
    /// The cartridge's program ROM holds enough bytes for its mapper's
    /// address window.
    pub open spec fn wf(self) -> bool {
        match self {
            Cartridge::Nrom(nrom) => nrom.wf(),
        }
    }

    /// What a read at `address` returns, by the mapper's addressing rules.
    pub open spec fn spec_read(self, address: u16) -> Result<u8, CartridgeError> {
        match self {
            Cartridge::Nrom(nrom) => nrom.spec_read(address),
        }
    }

    /// What a write at `address` returns, by the mapper's write-protection
    /// rules. No mapper variant alters its state on a failed write.
    pub open spec fn spec_write(self, address: u16) -> Result<(), CartridgeError> {
        match self {
            Cartridge::Nrom(nrom) => nrom.spec_write(address),
        }
    }

    /// Read data from the cartridge. The given `address` is relative to the
    /// CPU's global memory map; only addresses relegated by the bus are
    /// meaningful to a mapper.
    pub fn read(&self, address: u16) -> (result: Result<u8, CartridgeError>)
        requires
            self.wf(),
        ensures
            result == self.spec_read(address),
    {
        match self {
            Cartridge::Nrom(nrom) => nrom.read(address),
        }
    }

    /// Write data to the cartridge. The given `address` is relative to the
    /// CPU's global memory map.
    pub fn write(&mut self, address: u16, value: u8) -> (result: Result<(), CartridgeError>)
        ensures
            *final(self) == *old(self),
            result == old(self).spec_write(address),
    {
        match self {
            Cartridge::Nrom(nrom) => nrom.write(address, value),
        }
    }
}

} // verus!
