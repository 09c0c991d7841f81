//! Decoding of the iNES ROM container format: a 16-byte header led by four
//! magic bytes and a program-ROM size in 16 KiB units, followed by the raw
//! program-ROM bytes.

use crate::cartridge::nrom::Nrom;
use crate::cartridge::Cartridge;
use crate::BYTES_ON_A_KIBIBYTE;
use vstd::prelude::*;

verus! {

/// The program-ROM bytes decoded from an iNES ROM image.
pub struct InesFile {
    /// The raw program-ROM bytes.
    pub prg_rom: Vec<u8>,
    /// How many program-ROM bytes the header declared.
    pub prg_rom_size: usize,
}

/// Errors that may happen when decoding an iNES ROM image.
#[derive(Clone, Copy, Debug, PartialEq, Eq, Structural)]
pub enum InesFileError {
    /// The iNES ROM is missing the magic bytes at its start.
    MagicBytesMissing,
    /// The iNES ROM ends before the bytes its header asks for.
    ReadingRomFailed,
}

/// Whether the image starts with the iNES magic bytes `NES` plus the
/// substitute character 0x1A.
pub open spec fn spec_ines_magic_ok(data: Seq<u8>) -> bool {
    &&& data.len() >= 4
    &&& data[0] == 0x4E
    &&& data[1] == 0x45
    &&& data[2] == 0x53
    &&& data[3] == 0x1A
}

/// The program-ROM byte count the header declares: the fifth byte counts in
/// 16 KiB units.
pub open spec fn spec_ines_prg_rom_size(data: Seq<u8>) -> int {
    data[4] * 16 * BYTES_ON_A_KIBIBYTE
}

/// Whether the image is long enough to hold the 16-byte header and the
/// program-ROM bytes its header declares.
pub open spec fn spec_ines_long_enough(data: Seq<u8>) -> bool {
    data.len() >= 16 + spec_ines_prg_rom_size(data)
}

impl InesFile {
    /// Decode an iNES ROM image from its raw bytes: check the magic bytes,
    /// read the declared program-ROM size, and take that many bytes after the
    /// 16-byte header.
    pub fn from_bytes(data: &Vec<u8>) -> (result: Result<InesFile, InesFileError>)
        ensures
            match result {
                Ok(rom) => {
                    &&& spec_ines_magic_ok(data@)
                    &&& data@.len() >= 5
                    &&& spec_ines_long_enough(data@)
                    &&& rom.prg_rom_size == spec_ines_prg_rom_size(data@)
                    &&& rom.prg_rom@ == data@.subrange(16, 16 + spec_ines_prg_rom_size(data@))
                },
                Err(InesFileError::MagicBytesMissing) => {
                    &&& data@.len() >= 4
                    &&& !spec_ines_magic_ok(data@)
                },
                Err(InesFileError::ReadingRomFailed) => {
                    ||| data@.len() < 4
                    ||| (spec_ines_magic_ok(data@) && (data@.len() < 5 || !spec_ines_long_enough(
                        data@,
                    )))
                },
            },
    {
        if data.len() < 4 {
            return Err(InesFileError::ReadingRomFailed);
        }
        // `0x1A` is the `SUB` (substitute) character
        if !(data[0] == 0x4E && data[1] == 0x45 && data[2] == 0x53 && data[3] == 0x1A) {
            return Err(InesFileError::MagicBytesMissing);
        }
        if data.len() < 5 {
            return Err(InesFileError::ReadingRomFailed);
        }
        let prg_rom_size: usize = (data[4] as usize) * 16 * BYTES_ON_A_KIBIBYTE;
        if data.len() < 16 || data.len() - 16 < prg_rom_size {
            return Err(InesFileError::ReadingRomFailed);
        }
        let mut prg_rom: Vec<u8> = Vec::new();
        let mut taken: usize = 0;
        while taken < prg_rom_size
            invariant
                taken == prg_rom@.len(),
                taken <= prg_rom_size,
                16 + prg_rom_size <= data@.len(),
                prg_rom_size == spec_ines_prg_rom_size(data@),
                forall|i: int| 0 <= i < taken ==> prg_rom@[i] == data@[16 + i],
            decreases prg_rom_size - taken,
        {
            prg_rom.push(data[16 + taken]);
            taken = taken + 1;
        }
        assert(prg_rom@ =~= data@.subrange(16, 16 + spec_ines_prg_rom_size(data@)));
        Ok(InesFile { prg_rom, prg_rom_size })
    }

    /// Wrap the decoded program ROM in an NROM cartridge. The capacity flag
    /// comes from the header's declared size: a full 32 KiB window when the
    /// image holds two 16 KiB units, a single mirrored bank otherwise.
    pub fn into_cartridge(self) -> (cartridge: Cartridge)
        requires
            self.prg_rom@.len() >= if self.prg_rom_size >= 0x8000 {
                0x8000int
            } else {
                0x4000int
            },
        ensures
            cartridge == Cartridge::Nrom(
                Nrom {
                    rom: self.prg_rom,
                    has_32_kibibytes_prg_rom_capacity: self.prg_rom_size >= 0x8000,
                },
            ),
            cartridge.wf(),
    {
        let has_32_kibibytes_prg_rom_capacity = self.prg_rom_size >= 32 * BYTES_ON_A_KIBIBYTE;
        Cartridge::Nrom(Nrom::new(has_32_kibibytes_prg_rom_capacity, self.prg_rom))
    }
}

} // verus!
