//! The simplest board: fixed program banks at $8000-$FFFF, one fixed
//! character bank, no registers.

use vstd::prelude::*;

use crate::cartdrige::Cartdrige;
use crate::ines_loader::INesHeaderInfo;
use crate::ines_loader::MirroringMode;

verus! {

broadcast use crate::bits::lemma_u8_and_le, crate::bits::lemma_u16_and_le, crate::bits::lemma_u8_shr_le, crate::bits::lemma_u16_shr_le;

pub struct Mapper0Cartdrige {
    pub header: INesHeaderInfo,
    pub prg_rom: Vec<u8>,
    pub chr_rom: Vec<u8>,
}

/// The 16KB program bank a CPU address selects: the address bits choose bank
/// 0 or 1, wrapped to the number of banks present.
pub open spec fn spec_mapper0_prg_bank(pages: u8, address: u16) -> int {
    (((address % 0x8000) / 0x4000) as int) % (pages as int)
}

impl Cartdrige for Mapper0Cartdrige {
    open spec fn inv(&self) -> bool {
        &&& self.header.prg_pages >= 1
        &&& self.prg_rom@.len() == self.header.prg_pages * 16384
        &&& self.chr_rom@.len() >= 8192
    }

    open spec fn mirroring_spec(&self) -> MirroringMode {
        self.header.mirroring_mode
    }

    open spec fn cpu_claims(&self, address: u16) -> bool {
        address >= 0x8000
    }

    open spec fn cpu_byte(&self, address: u16) -> u8 {
        self.prg_rom@[spec_mapper0_prg_bank(self.header.prg_pages, address) * 16384 + (address % 0x4000)]
    }

    open spec fn cpu_write_claims(&self, address: u16) -> bool {
        address >= 0x8000
    }

    open spec fn ppu_claims(&self, address: u16) -> bool {
        address <= 0x1fff
    }

    open spec fn ppu_byte(&self, address: u16) -> u8 {
        self.chr_rom@[address as int]
    }

    open spec fn ppu_write_claims(&self, address: u16) -> bool {
        address <= 0x1fff
    }

    fn get_info(&self) -> (r: &INesHeaderInfo) {
        &self.header
    }

    fn cpu_read(&mut self, address: u16, data: &mut u8) -> (claimed: bool) {
        if address >= 0x8000 {
            let bank = ((address % 0x8000) / 0x4000) % (self.header.prg_pages as u16);
            proof {
                assert(bank * 16384 + (address % 0x4000) < self.header.prg_pages * 16384) by (nonlinear_arith)
                    requires
                        bank < self.header.prg_pages,
                        address % 0x4000 < 16384,
                ;
            }
            *data = self.prg_rom[(bank as usize) * 16384 + ((address % 0x4000) as usize)];
            return true;
        }
        false
    }

    /// A claimed program-space write is swallowed: the memory is read-only.
    fn cpu_write(&mut self, address: u16, data: u8) -> (claimed: bool)
        ensures
            *final(self) == *old(self),
    {
        address >= 0x8000
    }

    fn ppu_read(&mut self, address: u16, data: &mut u8) -> (r: (bool, bool)) {
        if address <= 0x1fff {
            *data = self.chr_rom[address as usize];
            return (true, false);
        }
        (false, false)
    }

    /// A claimed character-space write stores nothing: the memory is read-only.
    fn ppu_write(&mut self, address: u16, data: u8) -> (claimed: bool)
        ensures
            *final(self) == *old(self),
    {
        address <= 0x1fff
    }
}

/// Builds the fixed-bank board from an already-read header and its raw
/// program and character pages.
pub fn create_mmc0_cartdrige(header: INesHeaderInfo, prg_rom: Vec<u8>, chr_rom: Vec<u8>) -> (r: Mapper0Cartdrige)
    requires
        header.prg_pages >= 1,
        header.chr_pages >= 1,
        prg_rom@.len() == header.prg_pages * 16384,
        chr_rom@.len() == header.chr_pages * 8192,
    ensures
        r.inv(),
        r.header == header,
        r.prg_rom@ == prg_rom@,
        r.chr_rom@ == chr_rom@,
{
    proof {
        assert(header.chr_pages * 8192 >= 8192) by (nonlinear_arith)
            requires
                header.chr_pages >= 1,
        ;
    }
    Mapper0Cartdrige { header, prg_rom, chr_rom }
}

} // verus!
