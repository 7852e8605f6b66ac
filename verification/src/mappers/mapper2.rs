//! A switchable-bank board: the low program window selects a 16KB bank by
//! register, the top window is fixed to the last bank, and character memory
//! is writable RAM.

use vstd::prelude::*;

use crate::cartdrige::Cartdrige;
use crate::ines_loader::INesHeaderInfo;
use crate::ines_loader::MirroringMode;

verus! {

broadcast use crate::bits::lemma_u8_and_le, crate::bits::lemma_u16_and_le, crate::bits::lemma_u8_shr_le, crate::bits::lemma_u16_shr_le;

pub struct Mapper2Cartdrige {
    pub header: INesHeaderInfo,
    pub prg_banks: Vec<u8>,
    pub chr_banks: Vec<u8>,
    pub prg_banks_count: u8,
    pub selected_prg_bank: u8,
}

/// The 16KB program bank a CPU address selects: the switchable window below
/// $C000 uses the selected bank, the window above is pinned to the last.
pub open spec fn spec_mapper2_prg_bank(count: u8, selected: u8, address: u16) -> int {
    if address > 0xbfff {
        count - 1
    } else {
        selected as int
    }
}

impl Cartdrige for Mapper2Cartdrige {
    open spec fn inv(&self) -> bool {
        &&& self.prg_banks_count >= 1
        &&& self.selected_prg_bank < self.prg_banks_count
        &&& self.prg_banks@.len() == self.prg_banks_count * 16384
        &&& self.chr_banks@.len() >= 8192
    }

    open spec fn mirroring_spec(&self) -> MirroringMode {
        self.header.mirroring_mode
    }

    open spec fn cpu_claims(&self, address: u16) -> bool {
        address >= 0x8000
    }

    open spec fn cpu_byte(&self, address: u16) -> u8 {
        self.prg_banks@[spec_mapper2_prg_bank(self.prg_banks_count, self.selected_prg_bank, address) * 16384 + (
        address % 0x4000)]
    }

    open spec fn cpu_write_claims(&self, address: u16) -> bool {
        false
    }

    open spec fn ppu_claims(&self, address: u16) -> bool {
        address <= 0x1fff
    }

    open spec fn ppu_byte(&self, address: u16) -> u8 {
        self.chr_banks@[address as int]
    }

    open spec fn ppu_write_claims(&self, address: u16) -> bool {
        address <= 0x1fff
    }

    fn get_info(&self) -> (r: &INesHeaderInfo) {
        &self.header
    }

    fn cpu_read(&mut self, address: u16, data: &mut u8) -> (claimed: bool) {
        if address >= 0x8000 {
            let bank: u8 = if address > 0xbfff {
                self.prg_banks_count - 1
            } else {
                self.selected_prg_bank
            };
            proof {
                assert(bank * 16384 + (address % 0x4000) < self.prg_banks_count * 16384) by (nonlinear_arith)
                    requires
                        bank < self.prg_banks_count,
                        address % 0x4000 < 16384,
                ;
            }
            *data = self.prg_banks[(bank as usize) * 16384 + ((address % 0x4000) as usize)];
            return true;
        }
        false
    }

    /// A write above $8000 re-targets the switchable window; the write itself
    /// is reported unclaimed, exactly as the board behaves.
    fn cpu_write(&mut self, address: u16, data: u8) -> (claimed: bool)
        ensures
            address >= 0x8000 ==> *final(self) == (Mapper2Cartdrige {
                selected_prg_bank: (data % old(self).prg_banks_count) as u8,
                ..*old(self)
            }),
    {
        if address >= 0x8000 {
            self.selected_prg_bank = data % self.prg_banks_count;
        }
        false
    }

    fn ppu_read(&mut self, address: u16, data: &mut u8) -> (r: (bool, bool)) {
        if address <= 0x1fff {
            *data = self.chr_banks[address as usize];
            return (true, false);
        }
        (false, false)
    }

    /// A claimed character write stores the byte: character memory is RAM.
    fn ppu_write(&mut self, address: u16, data: u8) -> (claimed: bool)
        ensures
            address <= 0x1fff ==> *final(self) == (Mapper2Cartdrige { chr_banks: final(self).chr_banks, ..*old(self) })
                && final(self).chr_banks@ == old(self).chr_banks@.update(address as int, data),
    {
        if address <= 0x1fff {
            self.chr_banks.set(address as usize, data);
            return true;
        }
        false
    }
}

/// Builds the switchable board from an already-read header and its raw pages;
/// boards shipped without character pages get 8KB of blank character RAM.
pub fn create_mapper2_cartdrige(header: INesHeaderInfo, prg_rom: Vec<u8>, chr_rom: Vec<u8>) -> (r: Mapper2Cartdrige)
    requires
        1 <= header.prg_pages,
        prg_rom@.len() == header.prg_pages * 16384,
        chr_rom@.len() == header.chr_pages * 8192,
    ensures
        r.inv(),
        r.header == header,
        r.prg_banks@ == prg_rom@,
        r.selected_prg_bank == 0,
        r.prg_banks_count == header.prg_pages,
        header.chr_pages >= 1 ==> r.chr_banks@ == chr_rom@,
{
    let mut chr = chr_rom;
    if chr.len() == 0 {
        let mut i: usize = 0;
        while i < 8192
            invariant
                chr@.len() == i,
                i <= 8192,
            decreases 8192 - i,
        {
            chr.push(0);
            i = i + 1;
        }
    }
    proof {
        assert(header.chr_pages >= 1 ==> header.chr_pages * 8192 >= 8192) by (nonlinear_arith);
        assert(header.prg_pages * 16384 >= 16384) by (nonlinear_arith)
            requires
                header.prg_pages >= 1,
        ;
    }
    Mapper2Cartdrige {
        header,
        prg_banks: prg_rom,
        chr_banks: chr,
        prg_banks_count: header.prg_pages,
        selected_prg_bank: 0,
    }
}

} // verus!
