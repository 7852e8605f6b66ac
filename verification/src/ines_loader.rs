//! Header data that describes a program image: page counts, mapper number,
//! and the nametable mirroring the board is wired for.

use vstd::prelude::*;

verus! {

/// How the two internal nametables are mapped over the four logical quadrants.
#[derive(Copy, Clone, Debug, PartialEq, Eq, Structural)]
pub enum MirroringMode {
    Horizontal,
    Vertical,
    FourScreen,
}

/// The fields of a 16-byte image header that the rest of the system reads.
#[derive(Clone, Copy)]
pub struct INesHeaderInfo {
    pub mapper_type: u8,
    pub mirroring_mode: MirroringMode,
    pub batter_backed_prg_ram: bool,
    pub trainer_present: bool,
    pub prg_pages: u8,
    pub chr_pages: u8,
}

/// The four magic bytes that open a valid image header.
pub open spec fn spec_magic_ok(bytes: Seq<u8>) -> bool {
    bytes.len() >= 16 && bytes[0] == 0x4e && bytes[1] == 0x45 && bytes[2] == 0x53 && bytes[3] == 0x1a
}

/// The mirroring mode encoded in flags byte 6.
pub open spec fn spec_mirroring_of_flags6(flags6: u8) -> MirroringMode {
    if (flags6 >> 3) & 0x01 == 0x01 {
        MirroringMode::FourScreen
    } else if flags6 & 0x01 == 0x01 {
        MirroringMode::Vertical
    } else {
        MirroringMode::Horizontal
    }
}

/// Reads the fixed 16-byte header at the front of an image. Returns `None`
/// when the magic bytes do not match; otherwise every field is the exact
/// decoding of the header bytes.
pub fn parse_ines_header(bytes: &Vec<u8>) -> (r: Option<INesHeaderInfo>)
    ensures
        r is Some <==> spec_magic_ok(bytes@),
        r is Some ==> {
            let h = r->Some_0;
            &&& h.prg_pages == bytes@[4]
            &&& h.chr_pages == bytes@[5]
            &&& h.mapper_type == ((bytes@[7] >> 4) << 4) | (bytes@[6] >> 4)
            &&& h.mirroring_mode == spec_mirroring_of_flags6(bytes@[6])
            &&& h.trainer_present == ((bytes@[6] >> 2) & 0x01 == 0x01)
            &&& h.batter_backed_prg_ram == ((bytes@[6] >> 1) & 0x01 == 0x01)
        },
{
    if bytes.len() < 16 {
        return None;
    }
    if !(bytes[0] == 0x4e && bytes[1] == 0x45 && bytes[2] == 0x53 && bytes[3] == 0x1a) {
        return None;
    }

    let prg_pages = bytes[4];
    let chr_pages = bytes[5];
    let flags6 = bytes[6];
    let flags7 = bytes[7];

    let mapper_low = flags6 >> 4;
    let mapper_hi = flags7 >> 4;
    let mapper_type = (mapper_hi << 4) | mapper_low;

    let mirroring_hv = (flags6 & 0x01) == 0x01;
    let mirroring4s = ((flags6 >> 3) & 0x01) == 0x01;
    let mirroring_mode = if mirroring4s {
        MirroringMode::FourScreen
    } else {
        if mirroring_hv {
            MirroringMode::Vertical
        } else {
            MirroringMode::Horizontal
        }
    };

    let trainer_present = ((flags6 >> 2) & 0x01) == 0x01;
    let batter_backed_prg_ram = ((flags6 >> 1) & 0x01) == 0x01;

    Some(INesHeaderInfo {
        mapper_type,
        mirroring_mode,
        batter_backed_prg_ram,
        trainer_present,
        prg_pages,
        chr_pages,
    })
}

} // verus!
