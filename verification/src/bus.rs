//! The memory bus: it owns the CPU-visible RAM, decodes the 16-bit address
//! space into fixed regions, and routes each access to the owning component.

use crate::cartridge::{Cartridge, CartridgeError};
use crate::BYTES_ON_A_KIBIBYTE;
use vstd::prelude::*;

verus! {

/// The address of the first byte of the CPU RAM.
pub const CPU_RAM_WITH_MIRRORING_START_ADDRESS: u16 = 0x0000;

/// The address of the last byte of the CPU RAM after its three mirrors.
pub const CPU_RAM_WITH_MIRRORING_END_ADDRESS: u16 = 0x1FFF;

/// The address of the first byte of the cartridge mapper chip controlled
/// address range.
pub const CARTRIDGE_CONTROLLED_REGION_START_ADDRESS: u16 = 0x4020;

/// Errors that may happen when interacting with the bus.
#[derive(Clone, Copy, Debug, PartialEq, Eq, Structural)]
pub enum BusError {
    /// Unable to read from the shared memory address space: the addressed
    /// region is reserved and not implemented by this core.
    CannotRead,
    /// Unable to write to the shared memory address space: the addressed
    /// region is reserved and not implemented by this core.
    CannotWrite,
    /// Unable to access the cartridge.
    CartridgeError(CartridgeError),
}

/// What a read at `address` returns over the given RAM contents and
/// cartridge: the mirrored RAM byte below 0x2000, a typed error for the
/// reserved picture/audio register windows, and the cartridge's answer from
/// 0x4020 up.
pub open spec fn spec_read_at(ram: Seq<u8>, cartridge: Cartridge, address: u16) -> Result<
    u8,
    BusError,
> {
    if address < 0x2000 {
        Ok(ram[address as int % 0x800])
    } else if address < 0x4020 {
        Err(BusError::CannotRead)
    } else {
        match cartridge.spec_read(address) {
            Ok(value) => Ok(value),
            Err(error) => Err(BusError::CartridgeError(error)),
        }
    }
}

/// Emulation of the chips and boards related to memory address management.
pub struct Bus {
    /// The RAM of the CPU: 2 KiB, mirrored four times across the first
    /// address region by 11-bit decoding.
    pub cpu_ram: Vec<u8>,
    /// The inserted cartridge in the board.
    pub cartridge: Cartridge,
}

impl Bus {
    /// The RAM holds exactly 2 KiB and the cartridge is well formed.
    pub open spec fn wf(self) -> bool {
        &&& self.cpu_ram@.len() == 2 * BYTES_ON_A_KIBIBYTE
        &&& self.cartridge.wf()
    }

    /// The RAM index an address in the mirrored RAM region decodes to: only
    /// the low 11 bits of the address reach the RAM chip.
    pub open spec fn spec_ram_index(address: u16) -> int {
        address as int % 0x800
    }

    /// What a read at `address` returns: the mirrored RAM byte below 0x2000,
    /// a typed error for the reserved picture/audio register windows, and the
    /// cartridge's answer from 0x4020 up.
    pub open spec fn spec_read(self, address: u16) -> Result<u8, BusError> {
        spec_read_at(self.cpu_ram@, self.cartridge, address)
    }

    /// What a write at `address` returns.
    pub open spec fn spec_write_result(self, address: u16) -> Result<(), BusError> {
        if address < 0x2000 {
            Ok(())
        } else if address < 0x4020 {
            Err(BusError::CannotWrite)
        } else {
            match self.cartridge.spec_write(address) {
                Ok(unit) => Ok(unit),
                Err(error) => Err(BusError::CartridgeError(error)),
            }
        }
    }

    /// The RAM contents after a write at `address`: a write in the mirrored
    /// RAM region lands at the decoded index, any other write leaves the RAM
    /// untouched.
    pub open spec fn spec_write_ram(self, address: u16, value: u8) -> Seq<u8> {
        if address < 0x2000 {
            self.cpu_ram@.update(Self::spec_ram_index(address), value)
        } else {
            self.cpu_ram@
        }
    }

    /// Create a new [`Bus`] around the given cartridge, with the RAM zeroed.
    pub fn new(cartridge: Cartridge) -> (bus: Bus)
        requires
            cartridge.wf(),
        ensures
            bus.wf(),
            bus.cartridge == cartridge,
            bus.cpu_ram@ == Seq::new(2 * BYTES_ON_A_KIBIBYTE as nat, |i: int| 0u8),
    {
        let mut cpu_ram: Vec<u8> = Vec::new();
        let mut filled: usize = 0;
        while filled < 2 * BYTES_ON_A_KIBIBYTE
            invariant
                filled == cpu_ram@.len(),
                filled <= 2 * BYTES_ON_A_KIBIBYTE,
                forall|i: int| 0 <= i < filled ==> cpu_ram@[i] == 0u8,
            decreases 2 * BYTES_ON_A_KIBIBYTE - filled,
        {
            cpu_ram.push(0);
            filled = filled + 1;
        }
        assert(cpu_ram@ =~= Seq::new(2 * BYTES_ON_A_KIBIBYTE as nat, |i: int| 0u8));
        Bus { cpu_ram, cartridge }
    }

    /// Request a read to the bus.
    pub fn read(&self, address: u16) -> (result: Result<u8, BusError>)
        requires
            self.wf(),
        ensures
            result == self.spec_read(address),
    {
        if address <= CPU_RAM_WITH_MIRRORING_END_ADDRESS {
            // Remove everything past the first 11 bits, mirroring the memory
            // in the process
            let masked_address: usize = (address as usize) % 0x800;
            Ok(self.cpu_ram[masked_address])
        } else if address < CARTRIDGE_CONTROLLED_REGION_START_ADDRESS {
            // The picture chip registers, the audio and input registers and
            // the CPU test mode registers are not implemented by this core
            Err(BusError::CannotRead)
        } else {
            match self.cartridge.read(address) {
                Ok(value) => Ok(value),
                Err(error) => Err(BusError::CartridgeError(error)),
            }
        }
    }

    /// Write a byte to a memory address in the bus.
    pub fn write(&mut self, address: u16, value: u8) -> (result: Result<(), BusError>)
        requires
            old(self).wf(),
        ensures
            final(self).wf(),
            final(self).cartridge == old(self).cartridge,
            final(self).cpu_ram@ == old(self).spec_write_ram(address, value),
            result == old(self).spec_write_result(address),
    {
        if address <= CPU_RAM_WITH_MIRRORING_END_ADDRESS {
            // Remove everything past the first 11 bits
            let masked_address: usize = (address as usize) % 0x800;
            self.cpu_ram.set(masked_address, value);
            Ok(())
        } else if address < CARTRIDGE_CONTROLLED_REGION_START_ADDRESS {
            // The picture chip registers, the audio and input registers and
            // the CPU test mode registers are not implemented by this core
            Err(BusError::CannotWrite)
        } else {
            match self.cartridge.write(address, value) {
                Ok(unit) => Ok(unit),
                Err(error) => Err(BusError::CartridgeError(error)),
            }
        }
    }
}

/// RAM mirroring: addresses 2 KiB apart inside the mirrored RAM region read
/// the same byte.
pub proof fn lemma_ram_mirroring(bus: Bus, address: u16, mirrors: u16)
    requires
        bus.wf(),
        address < 0x2000,
        1 <= mirrors <= 3,
        address + 0x800 * mirrors < 0x2000,
    ensures
        bus.spec_read(address) == bus.spec_read((address + 0x800 * mirrors) as u16),
{
    let mirrored = (address + 0x800 * mirrors) as u16;
    assert(mirrored as int % 0x800 == address as int % 0x800) by {
        vstd::arithmetic::div_mod::lemma_mod_multiples_vanish(
            mirrors as int,
            address as int,
            0x800,
        );
    }
}

/// RAM mirroring seen through a write: after any write to a RAM-region
/// address, that address and its mirrors all read back the written value.
pub proof fn lemma_ram_mirroring_after_write(pre: Bus, post: Bus, address: u16, mirrors: u16, value: u8)
    requires
        pre.wf(),
        post.cpu_ram@ == pre.spec_write_ram(address, value),
        post.cartridge == pre.cartridge,
        address < 0x2000,
        1 <= mirrors <= 3,
        address + 0x800 * mirrors < 0x2000,
    ensures
        post.spec_read(address) == Ok::<u8, BusError>(value),
        post.spec_read((address + 0x800 * mirrors) as u16) == Ok::<u8, BusError>(value),
{
    assert(0 <= Bus::spec_ram_index(address) < 0x800);
    let mirrored = (address + 0x800 * mirrors) as u16;
    assert(mirrored as int % 0x800 == address as int % 0x800) by {
        vstd::arithmetic::div_mod::lemma_mod_multiples_vanish(
            mirrors as int,
            address as int,
            0x800,
        );
    }
}

} // verus!
