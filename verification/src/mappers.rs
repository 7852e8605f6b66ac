//! The cartridge boards the library ships, and one closed type that lets a
//! host hold whichever board a program image calls for.

use vstd::prelude::*;

use crate::cartdrige::Cartdrige;
use crate::ines_loader::INesHeaderInfo;
use crate::ines_loader::MirroringMode;
use crate::mappers::mapper2::Mapper2Cartdrige;
use crate::mappers::mapper2::create_mapper2_cartdrige;
use crate::mappers::mapper4::Mapper4Cartdrige;
use crate::mappers::mapper4::create_mapper4_cartdrige;
use crate::mappers::mmc0::Mapper0Cartdrige;
use crate::mappers::mmc0::create_mmc0_cartdrige;

pub mod mapper2;
pub mod mapper4;
pub mod mmc0;

verus! {

broadcast use crate::bits::lemma_u8_and_le, crate::bits::lemma_u16_and_le, crate::bits::lemma_u8_shr_le, crate::bits::lemma_u16_shr_le;

/// Whichever of the supported boards a program image uses.
pub enum AnyCartdrige {
    Mapper0(Mapper0Cartdrige),
    Mapper2(Mapper2Cartdrige),
    Mapper4(Mapper4Cartdrige),
}

impl Cartdrige for AnyCartdrige {
    open spec fn inv(&self) -> bool {
        match self {
            AnyCartdrige::Mapper0(c) => c.inv(),
            AnyCartdrige::Mapper2(c) => c.inv(),
            AnyCartdrige::Mapper4(c) => c.inv(),
        }
    }

    open spec fn mirroring_spec(&self) -> MirroringMode {
        match self {
            AnyCartdrige::Mapper0(c) => c.mirroring_spec(),
            AnyCartdrige::Mapper2(c) => c.mirroring_spec(),
            AnyCartdrige::Mapper4(c) => c.mirroring_spec(),
        }
    }

    open spec fn cpu_claims(&self, address: u16) -> bool {
        match self {
            AnyCartdrige::Mapper0(c) => c.cpu_claims(address),
            AnyCartdrige::Mapper2(c) => c.cpu_claims(address),
            AnyCartdrige::Mapper4(c) => c.cpu_claims(address),
        }
    }

    open spec fn cpu_byte(&self, address: u16) -> u8 {
        match self {
            AnyCartdrige::Mapper0(c) => c.cpu_byte(address),
            AnyCartdrige::Mapper2(c) => c.cpu_byte(address),
            AnyCartdrige::Mapper4(c) => c.cpu_byte(address),
        }
    }

    open spec fn cpu_write_claims(&self, address: u16) -> bool {
        match self {
            AnyCartdrige::Mapper0(c) => c.cpu_write_claims(address),
            AnyCartdrige::Mapper2(c) => c.cpu_write_claims(address),
            AnyCartdrige::Mapper4(c) => c.cpu_write_claims(address),
        }
    }

    open spec fn ppu_claims(&self, address: u16) -> bool {
        match self {
            AnyCartdrige::Mapper0(c) => c.ppu_claims(address),
            AnyCartdrige::Mapper2(c) => c.ppu_claims(address),
            AnyCartdrige::Mapper4(c) => c.ppu_claims(address),
        }
    }

    open spec fn ppu_byte(&self, address: u16) -> u8 {
        match self {
            AnyCartdrige::Mapper0(c) => c.ppu_byte(address),
            AnyCartdrige::Mapper2(c) => c.ppu_byte(address),
            AnyCartdrige::Mapper4(c) => c.ppu_byte(address),
        }
    }

    open spec fn ppu_write_claims(&self, address: u16) -> bool {
        match self {
            AnyCartdrige::Mapper0(c) => c.ppu_write_claims(address),
            AnyCartdrige::Mapper2(c) => c.ppu_write_claims(address),
            AnyCartdrige::Mapper4(c) => c.ppu_write_claims(address),
        }
    }

    fn get_info(&self) -> (r: &INesHeaderInfo) {
        match self {
            AnyCartdrige::Mapper0(c) => c.get_info(),
            AnyCartdrige::Mapper2(c) => c.get_info(),
            AnyCartdrige::Mapper4(c) => c.get_info(),
        }
    }

    fn cpu_read(&mut self, address: u16, data: &mut u8) -> (claimed: bool) {
        match self {
            AnyCartdrige::Mapper0(c) => c.cpu_read(address, data),
            AnyCartdrige::Mapper2(c) => c.cpu_read(address, data),
            AnyCartdrige::Mapper4(c) => c.cpu_read(address, data),
        }
    }

    fn cpu_write(&mut self, address: u16, data: u8) -> (claimed: bool) {
        match self {
            AnyCartdrige::Mapper0(c) => c.cpu_write(address, data),
            AnyCartdrige::Mapper2(c) => c.cpu_write(address, data),
            AnyCartdrige::Mapper4(c) => c.cpu_write(address, data),
        }
    }

    fn ppu_read(&mut self, address: u16, data: &mut u8) -> (r: (bool, bool)) {
        match self {
            AnyCartdrige::Mapper0(c) => c.ppu_read(address, data),
            AnyCartdrige::Mapper2(c) => c.ppu_read(address, data),
            AnyCartdrige::Mapper4(c) => c.ppu_read(address, data),
        }
    }

    fn ppu_write(&mut self, address: u16, data: u8) -> (claimed: bool) {
        match self {
            AnyCartdrige::Mapper0(c) => c.ppu_write(address, data),
            AnyCartdrige::Mapper2(c) => c.ppu_write(address, data),
            AnyCartdrige::Mapper4(c) => c.ppu_write(address, data),
        }
    }
}

/// Builds whichever board the header's mapper number names, from the raw
/// program and character data; an unsupported mapper number is reported back
/// as the error.
pub fn create_cartdrige(header: INesHeaderInfo, prg_data: Vec<u8>, chr_data: Vec<u8>) -> (r: Result<
    AnyCartdrige,
    u8,
>)
    requires
        1 <= header.prg_pages,
        prg_data@.len() == header.prg_pages * 16384,
        chr_data@.len() == header.chr_pages * 8192,
    ensures
        r is Ok <==> (header.mapper_type == 0 || header.mapper_type == 2 || (header.mapper_type == 4
            && header.chr_pages >= 1 && header.prg_pages <= 127)),
        r is Err ==> r->Err_0 == header.mapper_type,
        r is Ok ==> r->Ok_0.inv(),
        r is Ok ==> r->Ok_0.mirroring_spec() == header.mirroring_mode,
{
    if header.mapper_type == 0 {
        if header.chr_pages >= 1 {
            Ok(AnyCartdrige::Mapper0(create_mmc0_cartdrige(header, prg_data, chr_data)))
        } else {
            // A board with no character pages gets character RAM instead.
            Ok(AnyCartdrige::Mapper2(create_mapper2_cartdrige(header, prg_data, chr_data)))
        }
    } else if header.mapper_type == 2 {
        Ok(AnyCartdrige::Mapper2(create_mapper2_cartdrige(header, prg_data, chr_data)))
    } else if header.mapper_type == 4 {
        // The board's bank registers hold 8KB bank numbers in one byte, so
        // images beyond 127 pages cannot sit on it.
        if header.chr_pages >= 1 && header.prg_pages <= 127 {
            Ok(AnyCartdrige::Mapper4(create_mapper4_cartdrige(header, prg_data, chr_data)))
        } else {
            Err(header.mapper_type)
        }
    } else {
        Err(header.mapper_type)
    }
}

} // verus!
