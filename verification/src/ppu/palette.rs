//! Palette resolution: a palette-RAM index becomes one of the 64 colours the
//! video encoder can emit.

use vstd::prelude::*;

use crate::cartdrige::Cartdrige;
use crate::ppu::Ppu;
use crate::ppu::PpuOutput;

verus! {

/// The RGB value of one of the 64 encoder colours.
pub open spec fn spec_nes_colour(index: u8) -> (u8, u8, u8) {
    match index & 0x3f {
        0x00 => (84, 84, 84),
        0x01 => (0, 30, 116),
        0x02 => (8, 16, 144),
        0x03 => (48, 0, 136),
        0x04 => (68, 0, 100),
        0x05 => (92, 0, 48),
        0x06 => (84, 4, 0),
        0x07 => (60, 24, 0),
        0x08 => (32, 42, 0),
        0x09 => (8, 58, 0),
        0x0a => (0, 64, 0),
        0x0b => (0, 60, 0),
        0x0c => (0, 50, 60),
        0x0d => (0, 0, 0),
        0x0e => (0, 0, 0),
        0x0f => (0, 0, 0),
        0x10 => (152, 150, 152),
        0x11 => (8, 76, 196),
        0x12 => (48, 50, 236),
        0x13 => (92, 30, 228),
        0x14 => (136, 20, 176),
        0x15 => (160, 20, 100),
        0x16 => (152, 34, 32),
        0x17 => (120, 60, 0),
        0x18 => (84, 90, 0),
        0x19 => (40, 114, 0),
        0x1a => (8, 124, 0),
        0x1b => (0, 118, 40),
        0x1c => (0, 102, 120),
        0x1d => (0, 0, 0),
        0x1e => (0, 0, 0),
        0x1f => (0, 0, 0),
        0x20 => (236, 238, 236),
        0x21 => (76, 154, 236),
        0x22 => (120, 124, 236),
        0x23 => (176, 98, 236),
        0x24 => (228, 84, 236),
        0x25 => (236, 88, 180),
        0x26 => (236, 106, 100),
        0x27 => (212, 136, 32),
        0x28 => (160, 170, 0),
        0x29 => (116, 196, 0),
        0x2a => (76, 208, 32),
        0x2b => (56, 204, 108),
        0x2c => (56, 180, 204),
        0x2d => (60, 60, 60),
        0x2e => (0, 0, 0),
        0x2f => (0, 0, 0),
        0x30 => (236, 238, 236),
        0x31 => (168, 204, 236),
        0x32 => (188, 188, 236),
        0x33 => (212, 178, 236),
        0x34 => (236, 174, 236),
        0x35 => (236, 174, 212),
        0x36 => (236, 180, 176),
        0x37 => (228, 196, 144),
        0x38 => (204, 210, 120),
        0x39 => (180, 222, 120),
        0x3a => (168, 226, 144),
        0x3b => (152, 226, 180),
        0x3c => (160, 214, 228),
        0x3d => (160, 162, 160),
        0x3e => (0, 0, 0),
        _ => (0, 0, 0),
    }
}

/// Looks up one of the 64 encoder colours.
pub fn nes_colour(index: u8) -> (rgb: (u8, u8, u8))
    ensures
        rgb == spec_nes_colour(index),
{
    match index & 0x3f {
        0x00 => (84, 84, 84),
        0x01 => (0, 30, 116),
        0x02 => (8, 16, 144),
        0x03 => (48, 0, 136),
        0x04 => (68, 0, 100),
        0x05 => (92, 0, 48),
        0x06 => (84, 4, 0),
        0x07 => (60, 24, 0),
        0x08 => (32, 42, 0),
        0x09 => (8, 58, 0),
        0x0a => (0, 64, 0),
        0x0b => (0, 60, 0),
        0x0c => (0, 50, 60),
        0x0d => (0, 0, 0),
        0x0e => (0, 0, 0),
        0x0f => (0, 0, 0),
        0x10 => (152, 150, 152),
        0x11 => (8, 76, 196),
        0x12 => (48, 50, 236),
        0x13 => (92, 30, 228),
        0x14 => (136, 20, 176),
        0x15 => (160, 20, 100),
        0x16 => (152, 34, 32),
        0x17 => (120, 60, 0),
        0x18 => (84, 90, 0),
        0x19 => (40, 114, 0),
        0x1a => (8, 124, 0),
        0x1b => (0, 118, 40),
        0x1c => (0, 102, 120),
        0x1d => (0, 0, 0),
        0x1e => (0, 0, 0),
        0x1f => (0, 0, 0),
        0x20 => (236, 238, 236),
        0x21 => (76, 154, 236),
        0x22 => (120, 124, 236),
        0x23 => (176, 98, 236),
        0x24 => (228, 84, 236),
        0x25 => (236, 88, 180),
        0x26 => (236, 106, 100),
        0x27 => (212, 136, 32),
        0x28 => (160, 170, 0),
        0x29 => (116, 196, 0),
        0x2a => (76, 208, 32),
        0x2b => (56, 204, 108),
        0x2c => (56, 180, 204),
        0x2d => (60, 60, 60),
        0x2e => (0, 0, 0),
        0x2f => (0, 0, 0),
        0x30 => (236, 238, 236),
        0x31 => (168, 204, 236),
        0x32 => (188, 188, 236),
        0x33 => (212, 178, 236),
        0x34 => (236, 174, 236),
        0x35 => (236, 174, 212),
        0x36 => (236, 180, 176),
        0x37 => (228, 196, 144),
        0x38 => (204, 210, 120),
        0x39 => (180, 222, 120),
        0x3a => (168, 226, 144),
        0x3b => (152, 226, 180),
        0x3c => (160, 214, 228),
        0x3d => (160, 162, 160),
        0x3e => (0, 0, 0),
        _ => (0, 0, 0),
    }
}

/// Resolves a palette/pixel pair through palette RAM to an RGB triple: the
/// byte at palette address $3F00 + 4 * palette + pixel, masked to the 64
/// encoder colours.
pub fn get_colour_from_palette_ram<O: PpuOutput, C: Cartdrige>(
    ppu: &Ppu<O>,
    cart: &mut Option<C>,
    palette: u8,
    pixel: u8,
) -> (rgb: (u8, u8, u8))
    requires
        ppu.wf(),
        crate::ppu::cart_inv(*old(cart)),
        palette <= 7,
        pixel <= 3,
    ensures
        crate::ppu::cart_inv(*final(cart)),
        crate::ppu::cart_views_eq(*old(cart), *final(cart)),
        rgb == spec_nes_colour(
            ppu.spec_ppu_mem_byte(*old(cart), (0x3f00 + (palette as u16) * 4 + (pixel as u16)) as u16),
        ),
{
    let address = 0x3f00 + (palette as u16) * 4 + (pixel as u16);
    let index = ppu.ppu_read(cart, address, false);
    nes_colour(index)
}

} // verus!
