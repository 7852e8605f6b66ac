//! The picture unit: a (scanline, dot) state machine over 262 scanlines of
//! 341 dots, running a background tile-fetch pipeline, a per-scanline sprite
//! pipeline, and per-dot pixel composition into an external frame sink.

use vstd::prelude::*;

use crate::bits::lemma_u8_bit_update;
use crate::cartdrige::Cartdrige;
use crate::ines_loader::MirroringMode;
use crate::ppu::palette::get_colour_from_palette_ram;
use crate::ppu::window_common::pack;

pub mod palette;
pub mod window_common;

verus! {

broadcast use crate::bits::lemma_u8_and_le, crate::bits::lemma_u16_and_le, crate::bits::lemma_u8_or_le, crate::bits::lemma_u16_or_le, crate::bits::lemma_u8_shr_le, crate::bits::lemma_u16_shr_le, crate::bits::lemma_u16_mask1_id, crate::bits::lemma_u16_mask7_id, crate::bits::lemma_u16_mask1f_id, crate::bits::lemma_u8_shr3_lt32;

/// Both nametable mappings of one cartridge agree between two cartridge
/// states, as do the CPU-side mappings: reads through the cartridge may step
/// internal counters but never re-bank anything.
pub open spec fn cart_views_eq<C: Cartdrige>(a: Option<C>, b: Option<C>) -> bool {
    &&& (a is Some <==> b is Some)
    &&& (a is Some ==> a->Some_0.mirroring_spec() == b->Some_0.mirroring_spec())
    &&& (a is Some ==> forall|ad: u16| #[trigger] a->Some_0.cpu_claims(ad) == b->Some_0.cpu_claims(ad))
    &&& (a is Some ==> forall|ad: u16| #[trigger] a->Some_0.cpu_byte(ad) == b->Some_0.cpu_byte(ad))
    &&& (a is Some ==> forall|ad: u16| #[trigger] a->Some_0.cpu_write_claims(ad) == b->Some_0.cpu_write_claims(ad))
    &&& (a is Some ==> forall|ad: u16| #[trigger] a->Some_0.ppu_claims(ad) == b->Some_0.ppu_claims(ad))
    &&& (a is Some ==> forall|ad: u16| #[trigger] a->Some_0.ppu_byte(ad) == b->Some_0.ppu_byte(ad))
    &&& (a is Some ==> forall|ad: u16| #[trigger] a->Some_0.ppu_write_claims(ad) == b->Some_0.ppu_write_claims(ad))
}

/// The cartridge slot's invariant: whatever sits in it is internally valid.
pub open spec fn cart_inv<C: Cartdrige>(c: Option<C>) -> bool {
    c is Some ==> c->Some_0.inv()
}

/// The status register: sprite overflow, sprite-zero hit and vertical blank
/// in bits 5 through 7; the low five bits echo stale bus data.
pub struct Status {
    pub val: u8,
}

impl Status {
    pub open spec fn sprite_overflow(self) -> bool {
        self.val & 0x20 != 0
    }

    pub open spec fn sprite_zero_hit(self) -> bool {
        self.val & 0x40 != 0
    }

    pub open spec fn vertical_blank(self) -> bool {
        self.val & 0x80 != 0
    }

    /// All three status bits of `self` and `other` agree except the one at
    /// `mask`.
    pub open spec fn others_eq(self, other: Status, mask: u8) -> bool {
        &&& (mask != 0x20 ==> self.sprite_overflow() == other.sprite_overflow())
        &&& (mask != 0x40 ==> self.sprite_zero_hit() == other.sprite_zero_hit())
        &&& (mask != 0x80 ==> self.vertical_blank() == other.vertical_blank())
    }

    fn set_mask(&mut self, mask: u8, on: bool)
        requires
            mask == 0x20 || mask == 0x40 || mask == 0x80,
        ensures
            final(self).val == if on {
                old(self).val | mask
            } else {
                old(self).val & !mask
            },
            (final(self).val & mask != 0) == on,
            final(self).others_eq(*old(self), mask),
    {
        proof {
            lemma_u8_bit_update(self.val, mask, 0x20, on);
            lemma_u8_bit_update(self.val, mask, 0x40, on);
            lemma_u8_bit_update(self.val, mask, 0x80, on);
        }
        if on {
            self.val = self.val | mask;
        } else {
            self.val = self.val & !mask;
        }
    }

    pub fn set_sprite_overflow(&mut self, on: bool)
        ensures
            final(self).sprite_overflow() == on,
            final(self).others_eq(*old(self), 0x20),
            final(self).val == if on {
                old(self).val | 0x20
            } else {
                old(self).val & !0x20
            },
    {
        self.set_mask(0x20, on);
    }

    pub fn set_sprite_zero_hit(&mut self, on: bool)
        ensures
            final(self).sprite_zero_hit() == on,
            final(self).others_eq(*old(self), 0x40),
            final(self).val == if on {
                old(self).val | 0x40
            } else {
                old(self).val & !0x40
            },
    {
        self.set_mask(0x40, on);
    }

    pub fn set_vertical_blank(&mut self, on: bool)
        ensures
            final(self).vertical_blank() == on,
            final(self).others_eq(*old(self), 0x80),
            final(self).val == if on {
                old(self).val | 0x80
            } else {
                old(self).val & !0x80
            },
    {
        self.set_mask(0x80, on);
    }
}

/// The mask register: grayscale, left-column enables, rendering enables and
/// colour emphasis.
pub struct Mask {
    pub val: u8,
}

impl Mask {
    pub open spec fn grayscale(self) -> bool {
        self.val & 0x01 != 0
    }

    pub open spec fn render_background_left(self) -> bool {
        (self.val >> 1) & 0x01 != 0
    }

    pub open spec fn render_sprites_left(self) -> bool {
        (self.val >> 2) & 0x01 != 0
    }

    pub open spec fn render_background(self) -> bool {
        (self.val >> 3) & 0x01 != 0
    }

    pub open spec fn render_sprites(self) -> bool {
        (self.val >> 4) & 0x01 != 0
    }

    pub fn get_render_background(&self) -> (r: bool)
        ensures
            r == self.render_background(),
    {
        (self.val >> 3) & 0x01 != 0
    }

    pub fn get_render_sprites(&self) -> (r: bool)
        ensures
            r == self.render_sprites(),
    {
        (self.val >> 4) & 0x01 != 0
    }
}

/// The control register: nametable select, increment mode, pattern-table
/// selects, sprite size and the NMI enable.
pub struct Control {
    pub val: u8,
}

impl Control {
    pub open spec fn nametable_x(self) -> u8 {
        self.val & 0x01
    }

    pub open spec fn nametable_y(self) -> u8 {
        (self.val >> 1) & 0x01
    }

    pub open spec fn increment_mode(self) -> bool {
        (self.val >> 2) & 0x01 != 0
    }

    pub open spec fn pattern_sprite(self) -> u8 {
        (self.val >> 3) & 0x01
    }

    pub open spec fn pattern_background(self) -> u8 {
        (self.val >> 4) & 0x01
    }

    pub open spec fn sprite_size(self) -> bool {
        (self.val >> 5) & 0x01 != 0
    }

    pub open spec fn enable_nmi(self) -> bool {
        (self.val >> 7) & 0x01 != 0
    }
}

/// The 15-bit scroll/address word: coarse x and y, the two nametable selects
/// and the fine y scroll, packed exactly as the hardware packs them.
pub struct Loopy {
    pub val: u16,
}

/// Every field of the five-field scroll word after each single-field store:
/// the stored field reads back (masked to its width) and the other four keep
/// their bits.
#[verifier::spinoff_prover]
proof fn lemma_loopy_updates(v: u16, x: u16)
    by (bit_vector)
    ensures
        ((v & !0x001f) | (x & 0x1f)) & 0x1f == x & 0x1f,
        (((v & !0x001f) | (x & 0x1f)) >> 5) & 0x1f == (v >> 5) & 0x1f,
        (((v & !0x001f) | (x & 0x1f)) >> 10) & 1 == (v >> 10) & 1,
        (((v & !0x001f) | (x & 0x1f)) >> 11) & 1 == (v >> 11) & 1,
        (((v & !0x001f) | (x & 0x1f)) >> 12) & 7 == (v >> 12) & 7,
        (((v & !0x03e0) | ((x & 0x1f) << 5)) >> 5) & 0x1f == x & 0x1f,
        ((v & !0x03e0) | ((x & 0x1f) << 5)) & 0x1f == v & 0x1f,
        (((v & !0x03e0) | ((x & 0x1f) << 5)) >> 10) & 1 == (v >> 10) & 1,
        (((v & !0x03e0) | ((x & 0x1f) << 5)) >> 11) & 1 == (v >> 11) & 1,
        (((v & !0x03e0) | ((x & 0x1f) << 5)) >> 12) & 7 == (v >> 12) & 7,
        (((v & !0x0400) | ((x & 1) << 10)) >> 10) & 1 == x & 1,
        ((v & !0x0400) | ((x & 1) << 10)) & 0x1f == v & 0x1f,
        (((v & !0x0400) | ((x & 1) << 10)) >> 5) & 0x1f == (v >> 5) & 0x1f,
        (((v & !0x0400) | ((x & 1) << 10)) >> 11) & 1 == (v >> 11) & 1,
        (((v & !0x0400) | ((x & 1) << 10)) >> 12) & 7 == (v >> 12) & 7,
        (((v & !0x0800) | ((x & 1) << 11)) >> 11) & 1 == x & 1,
        ((v & !0x0800) | ((x & 1) << 11)) & 0x1f == v & 0x1f,
        (((v & !0x0800) | ((x & 1) << 11)) >> 5) & 0x1f == (v >> 5) & 0x1f,
        (((v & !0x0800) | ((x & 1) << 11)) >> 10) & 1 == (v >> 10) & 1,
        (((v & !0x0800) | ((x & 1) << 11)) >> 12) & 7 == (v >> 12) & 7,
        (((v & !0x7000) | ((x & 7) << 12)) >> 12) & 7 == x & 7,
        ((v & !0x7000) | ((x & 7) << 12)) & 0x1f == v & 0x1f,
        (((v & !0x7000) | ((x & 7) << 12)) >> 5) & 0x1f == (v >> 5) & 0x1f,
        (((v & !0x7000) | ((x & 7) << 12)) >> 10) & 1 == (v >> 10) & 1,
        (((v & !0x7000) | ((x & 7) << 12)) >> 11) & 1 == (v >> 11) & 1,
{
}

impl Loopy {
    pub open spec fn coarse_x(self) -> u16 {
        self.val & 0x1f
    }

    pub open spec fn coarse_y(self) -> u16 {
        (self.val >> 5) & 0x1f
    }

    pub open spec fn nametable_x(self) -> u16 {
        (self.val >> 10) & 1
    }

    pub open spec fn nametable_y(self) -> u16 {
        (self.val >> 11) & 1
    }

    pub open spec fn fine_y(self) -> u16 {
        (self.val >> 12) & 7
    }

    /// The five scroll fields of `self` and `other` agree except the one
    /// named by `skip` (0 coarse x, 1 coarse y, 2 nametable x, 3 nametable y,
    /// 4 fine y).
    pub open spec fn others_eq(self, other: Loopy, skip: int) -> bool {
        &&& (skip != 0 ==> self.coarse_x() == other.coarse_x())
        &&& (skip != 1 ==> self.coarse_y() == other.coarse_y())
        &&& (skip != 2 ==> self.nametable_x() == other.nametable_x())
        &&& (skip != 3 ==> self.nametable_y() == other.nametable_y())
        &&& (skip != 4 ==> self.fine_y() == other.fine_y())
    }

    pub fn get_coarse_x(&self) -> (r: u16)
        ensures
            r == self.coarse_x(),
    {
        self.val & 0x1f
    }

    pub fn get_coarse_y(&self) -> (r: u16)
        ensures
            r == self.coarse_y(),
    {
        (self.val >> 5) & 0x1f
    }

    pub fn get_nametable_x(&self) -> (r: u16)
        ensures
            r == self.nametable_x(),
    {
        (self.val >> 10) & 1
    }

    pub fn get_nametable_y(&self) -> (r: u16)
        ensures
            r == self.nametable_y(),
    {
        (self.val >> 11) & 1
    }

    pub fn get_fine_y(&self) -> (r: u16)
        ensures
            r == self.fine_y(),
    {
        (self.val >> 12) & 7
    }

    pub fn set_coarse_x(&mut self, x: u16)
        ensures
            final(self).coarse_x() == x & 0x1f,
            final(self).others_eq(*old(self), 0),
    {
        proof {
            lemma_loopy_updates(self.val, x);
        }
        self.val = (self.val & !0x001f) | (x & 0x1f);
    }

    pub fn set_coarse_y(&mut self, x: u16)
        ensures
            final(self).coarse_y() == x & 0x1f,
            final(self).others_eq(*old(self), 1),
    {
        proof {
            lemma_loopy_updates(self.val, x);
        }
        self.val = (self.val & !0x03e0) | ((x & 0x1f) << 5);
    }

    pub fn set_nametable_x(&mut self, x: u16)
        ensures
            final(self).nametable_x() == x & 1,
            final(self).others_eq(*old(self), 2),
    {
        proof {
            lemma_loopy_updates(self.val, x);
        }
        self.val = (self.val & !0x0400) | ((x & 1) << 10);
    }

    pub fn set_nametable_y(&mut self, x: u16)
        ensures
            final(self).nametable_y() == x & 1,
            final(self).others_eq(*old(self), 3),
    {
        proof {
            lemma_loopy_updates(self.val, x);
        }
        self.val = (self.val & !0x0800) | ((x & 1) << 11);
    }

    pub fn set_fine_y(&mut self, x: u16)
        ensures
            final(self).fine_y() == x & 7,
            final(self).others_eq(*old(self), 4),
    {
        proof {
            lemma_loopy_updates(self.val, x);
        }
        self.val = (self.val & !0x7000) | ((x & 7) << 12);
    }
}

/// One entry of object attribute memory: a sprite's top line, tile id,
/// attribute byte and left column.
#[derive(Clone, Copy, PartialEq, Eq, Structural)]
pub struct OAMEntry {
    pub y: u8,
    pub id: u8,
    pub attribute: u8,
    pub x: u8,
}

/// The frame sink: receives each visible pixel exactly once per dot.
pub trait PpuOutput: Sized {
    fn set_pixel(&mut self, x: usize, y: usize, rgb: (u8, u8, u8))
        requires
            x < 256,
            y < 240,
    ;
}

/// An in-memory 256 by 240 frame, one packed RGB word per pixel.
pub struct FrameBuffer {
    pub pixels: Vec<u32>,
}

impl FrameBuffer {
    pub fn new() -> (r: FrameBuffer)
        ensures
            r.pixels@.len() == 61440,
            forall|i: int| 0 <= i < 61440 ==> r.pixels@[i] == 0,
    {
        let mut pixels: Vec<u32> = Vec::new();
        let mut i: usize = 0;
        while i < 61440
            invariant
                pixels@.len() == i,
                i <= 61440,
                forall|j: int| 0 <= j < i ==> pixels@[j] == 0,
            decreases 61440 - i,
        {
            pixels.push(0);
            i = i + 1;
        }
        FrameBuffer { pixels }
    }
}

impl PpuOutput for FrameBuffer {
    fn set_pixel(&mut self, x: usize, y: usize, rgb: (u8, u8, u8))
        ensures
            old(self).pixels@.len() == 61440 ==> final(self).pixels@ == old(self).pixels@.update(
                y * 256 + x,
                crate::ppu::window_common::spec_pack(rgb.0, rgb.1, rgb.2),
            ),
            old(self).pixels@.len() != 61440 ==> *final(self) == *old(self),
    {
        if self.pixels.len() == 61440 {
            let value = pack(rgb.0, rgb.1, rgb.2);
            self.pixels.set(y * 256 + x, value);
        }
    }
}

/// The two-bank nametable index a quadrant maps to under each mirroring mode.
/// Quadrants that fall outside the two internal banks (four-screen boards
/// without their own RAM) read as open bus and swallow writes.
pub open spec fn spec_nametable_bank(m: MirroringMode, quadrant: u16) -> u16 {
    match m {
        MirroringMode::Horizontal => quadrant / 2,
        MirroringMode::Vertical => quadrant % 2,
        MirroringMode::FourScreen => quadrant,
    }
}

/// Palette RAM addressing: 32 bytes, with $10/$14/$18/$1C mirroring
/// $00/$04/$08/$0C.
pub open spec fn spec_palette_index(address: u16) -> int {
    let i = address % 32;
    if i == 0x10 {
        0
    } else if i == 0x14 {
        4
    } else if i == 0x18 {
        8
    } else {
        if i == 0x1c {
            12
        } else {
            i as int
        }
    }
}

/// The mirroring in force: the cartridge's wiring, or horizontal with the
/// slot empty.
pub open spec fn spec_mirroring<C: Cartdrige>(cart: Option<C>) -> MirroringMode {
    if cart is Some {
        cart->Some_0.mirroring_spec()
    } else {
        MirroringMode::Horizontal
    }
}

pub struct Ppu<O: PpuOutput> {
    /// Two 1KB nametables, flattened: bank 0 at 0..1024, bank 1 above.
    pub nametables: Vec<u8>,
    pub palette: Vec<u8>,
    /// 256 bytes of object attribute memory: y, tile, attribute, x per sprite.
    pub oam: Vec<u8>,

    pub frame_complete: bool,

    pub status: Status,
    pub mask: Mask,
    pub control: Control,

    pub vram_addr: Loopy,
    pub tram_addr: Loopy,

    pub fine_x: u8,

    pub address_latch: u8,
    pub ppu_data_buffer: u8,

    pub scanline: i16,
    pub cycle: i16,

    pub bg_next_tile_id: u8,
    pub bg_next_tile_attrib: u8,
    pub bg_next_tile_lsb: u8,
    pub bg_next_tile_msb: u8,
    pub bg_shifter_pattern_lo: u16,
    pub bg_shifter_pattern_hi: u16,
    pub bg_shifter_attrib_lo: u16,
    pub bg_shifter_attrib_hi: u16,

    pub oam_addr: u8,
    pub scanline_sprites: Vec<OAMEntry>,
    pub scanline_sprites_count: u8,
    pub sprite_shifter_pattern_lo: Vec<u8>,
    pub sprite_shifter_pattern_hi: Vec<u8>,
    pub sprite_zero_selected: bool,
    pub sprite_zero_rendering: bool,

    pub send_nmi: bool,

    pub output: O,
}

/// The next (scanline, dot) pair: the dot steps by one, wrapping to the next
/// scanline after dot 340 and to the pre-render line after scanline 260; the
/// one dot at (0, 0) is skipped, so that call lands on (0, 2).
pub open spec fn spec_next_scanline(s: i16, c: i16) -> i16 {
    if s == 0 && c == 0 {
        0
    } else if c >= 340 {
        if s >= 260 {
            -1i16
        } else {
            (s + 1) as i16
        }
    } else {
        s
    }
}

/// See `spec_next_scanline`.
pub open spec fn spec_next_cycle(s: i16, c: i16) -> i16 {
    if s == 0 && c == 0 {
        2
    } else if c >= 340 {
        0
    } else {
        (c + 1) as i16
    }
}

impl<O: PpuOutput> Ppu<O> {
    pub open spec fn wf(self) -> bool {
        &&& self.nametables@.len() == 2048
        &&& self.palette@.len() == 32
        &&& self.oam@.len() == 256
        &&& self.scanline_sprites@.len() == 8
        &&& self.sprite_shifter_pattern_lo@.len() == 8
        &&& self.sprite_shifter_pattern_hi@.len() == 8
        &&& self.scanline_sprites_count <= 8
        &&& -1 <= self.scanline <= 260
        &&& 0 <= self.cycle <= 340
        &&& self.fine_x <= 7
    }

    /// The byte the picture address space holds at `address`: the cartridge
    /// when it claims the (14-bit masked) address, else a mirrored nametable
    /// byte, else palette RAM, else open bus.
    pub open spec fn spec_ppu_mem_byte<C: Cartdrige>(&self, cart: Option<C>, address: u16) -> u8 {
        let a = (address % 0x4000) as u16;
        if cart is Some && cart->Some_0.ppu_claims(a) {
            cart->Some_0.ppu_byte(a)
        } else if 0x2000 <= a <= 0x3eff {
            let a2 = (a % 0x1000) as u16;
            let bank = spec_nametable_bank(spec_mirroring(cart), a2 / 0x400);
            if bank < 2 {
                self.nametables@[bank * 1024 + (a2 % 0x400)]
            } else {
                0
            }
        } else if 0x3f00 <= a {
            self.palette@[spec_palette_index(a)]
        } else {
            0
        }
    }

    pub fn new(output: O) -> (r: Ppu<O>)
        ensures
            r.wf(),
            r.scanline == 0,
            r.cycle == 0,
            r.frame_complete == false,
            r.send_nmi == false,
            r.status.val == 0,
            r.mask.val == 0,
            r.control.val == 0,
            r.vram_addr.val == 0,
            r.tram_addr.val == 0,
            r.oam_addr == 0,
            r.ppu_data_buffer == 0,
            r.address_latch == 0,
            forall|i: int| 0 <= i < 2048 ==> r.nametables@[i] == 0,
            forall|i: int| 0 <= i < 32 ==> r.palette@[i] == 0,
            forall|i: int| 0 <= i < 256 ==> r.oam@[i] == 0,
            r.output == output,
    {
        let mut nametables: Vec<u8> = Vec::new();
        let mut i: usize = 0;
        while i < 2048
            invariant
                nametables@.len() == i,
                i <= 2048,
                forall|j: int| 0 <= j < i ==> nametables@[j] == 0,
            decreases 2048 - i,
        {
            nametables.push(0);
            i = i + 1;
        }
        let mut palette: Vec<u8> = Vec::new();
        let mut i: usize = 0;
        while i < 32
            invariant
                palette@.len() == i,
                i <= 32,
                forall|j: int| 0 <= j < i ==> palette@[j] == 0,
            decreases 32 - i,
        {
            palette.push(0);
            i = i + 1;
        }
        let mut oam: Vec<u8> = Vec::new();
        let mut i: usize = 0;
        while i < 256
            invariant
                oam@.len() == i,
                i <= 256,
                forall|j: int| 0 <= j < i ==> oam@[j] == 0,
            decreases 256 - i,
        {
            oam.push(0);
            i = i + 1;
        }
        let mut scanline_sprites: Vec<OAMEntry> = Vec::new();
        let mut sprite_shifter_pattern_lo: Vec<u8> = Vec::new();
        let mut sprite_shifter_pattern_hi: Vec<u8> = Vec::new();
        let mut i: usize = 0;
        while i < 8
            invariant
                scanline_sprites@.len() == i,
                sprite_shifter_pattern_lo@.len() == i,
                sprite_shifter_pattern_hi@.len() == i,
                i <= 8,
            decreases 8 - i,
        {
            scanline_sprites.push(OAMEntry { y: 0, id: 0, attribute: 0, x: 0 });
            sprite_shifter_pattern_lo.push(0);
            sprite_shifter_pattern_hi.push(0);
            i = i + 1;
        }
        Ppu {
            nametables,
            palette,
            oam,

            frame_complete: false,

            status: Status { val: 0 },
            mask: Mask { val: 0 },
            control: Control { val: 0 },

            vram_addr: Loopy { val: 0 },
            tram_addr: Loopy { val: 0 },
            fine_x: 0,
            address_latch: 0,
            ppu_data_buffer: 0,
            scanline: 0,
            cycle: 0,
            bg_next_tile_id: 0,
            bg_next_tile_attrib: 0,
            bg_next_tile_lsb: 0,
            bg_next_tile_msb: 0,
            bg_shifter_pattern_lo: 0,
            bg_shifter_pattern_hi: 0,
            bg_shifter_attrib_lo: 0,
            bg_shifter_attrib_hi: 0,

            oam_addr: 0,
            scanline_sprites,
            scanline_sprites_count: 0,
            sprite_shifter_pattern_lo,
            sprite_shifter_pattern_hi,
            sprite_zero_selected: true,
            sprite_zero_rendering: true,

            send_nmi: false,

            output,
        }
    }

    /// One byte of object attribute memory.
    pub fn oam_read(&self, address: u8) -> (r: u8)
        requires
            self.wf(),
        ensures
            r == self.oam@[address as int],
    {
        self.oam[address as usize]
    }

    /// Stores one byte of object attribute memory.
    pub fn oam_write(&mut self, address: u8, data: u8)
        requires
            old(self).wf(),
        ensures
            final(self).wf(),
            final(self).oam@ == old(self).oam@.update(address as int, data),
            *final(self) == (Ppu { oam: final(self).oam, ..*old(self) }),
    {
        self.oam.set(address as usize, data);
    }

    /// Reads the picture address space: cartridge first, then mirrored
    /// nametables, then palette RAM; unclaimed pattern addresses read 0.
    pub fn ppu_read<C: Cartdrige>(&self, cart: &mut Option<C>, address: u16, read_only: bool) -> (r: u8)
        requires
            self.wf(),
            cart_inv(*old(cart)),
        ensures
            cart_inv(*final(cart)),
            cart_views_eq(*old(cart), *final(cart)),
            r == self.spec_ppu_mem_byte(*old(cart), address),
    {
        let address = address % 0x4000;
        let mut data = 0u8;

        let claimed = match cart {
            Some(c) => {
                let rr = c.ppu_read(address, &mut data);
                rr.0
            },
            None => false,
        };

        if claimed {
            return data;
        }

        if 0x2000 <= address && address <= 0x3eff {
            let a2 = address % 0x1000;
            let quadrant = a2 / 0x400;

            let mirroring = match cart {
                Some(c) => c.get_info().mirroring_mode,
                None => MirroringMode::Horizontal,
            };

            let tlb_bank = match mirroring {
                MirroringMode::Horizontal => quadrant / 2,
                MirroringMode::Vertical => quadrant % 2,
                MirroringMode::FourScreen => quadrant,
            };

            if tlb_bank < 2 {
                data = self.nametables[(tlb_bank * 1024 + a2 % 0x400) as usize];
            } else {
                data = 0;
            }
        } else if 0x3f00 <= address {
            let mut a = address % 32;
            if a == 0x0010 {
                a = 0x0000;
            }
            if a == 0x0014 {
                a = 0x0004;
            }
            if a == 0x0018 {
                a = 0x0008;
            }
            if a == 0x001c {
                a = 0x000c;
            }
            data = self.palette[a as usize];
        }

        data
    }

    /// Writes the picture address space: a claiming cartridge swallows the
    /// write, else it lands in a mirrored nametable or palette RAM; unclaimed
    /// pattern addresses swallow it silently.
    pub fn ppu_write<C: Cartdrige>(&mut self, cart: &mut Option<C>, address: u16, data: u8)
        requires
            old(self).wf(),
            cart_inv(*old(cart)),
        ensures
            final(self).wf(),
            cart_inv(*final(cart)),
            (*old(cart)) is Some <==> (*final(cart)) is Some,
            (*final(cart)) is Some ==> (*final(cart))->Some_0.mirroring_spec() == (*old(cart))->Some_0.mirroring_spec(),
            (*final(cart)) is Some ==> forall|ad: u16|
                #[trigger] (*final(cart))->Some_0.cpu_claims(ad) == (*old(cart))->Some_0.cpu_claims(ad),
            (*final(cart)) is Some ==> forall|ad: u16|
                #[trigger] (*final(cart))->Some_0.cpu_byte(ad) == (*old(cart))->Some_0.cpu_byte(ad),
            (*final(cart)) is Some ==> forall|ad: u16|
                #[trigger] (*final(cart))->Some_0.ppu_claims(ad) == (*old(cart))->Some_0.ppu_claims(ad),
            ({
                let a = (address % 0x4000) as u16;
                let claimed = (*old(cart)) is Some && (*old(cart))->Some_0.ppu_write_claims(a);
                if claimed {
                    *final(self) == *old(self)
                } else {
                    &&& *final(cart) == *old(cart)
                    &&& if 0x2000 <= a <= 0x3eff {
                        let a2 = (a % 0x1000) as u16;
                        let bank = spec_nametable_bank(spec_mirroring(*old(cart)), a2 / 0x400);
                        if bank < 2 {
                            *final(self) == (Ppu {
                                nametables: final(self).nametables,
                                ..*old(self)
                            }) && final(self).nametables@ == old(self).nametables@.update(
                                bank * 1024 + (a2 % 0x400),
                                data,
                            )
                        } else {
                            *final(self) == *old(self)
                        }
                    } else if 0x3f00 <= a {
                        *final(self) == (Ppu { palette: final(self).palette, ..*old(self) })
                            && final(self).palette@ == old(self).palette@.update(spec_palette_index(a), data)
                    } else {
                        *final(self) == *old(self)
                    }
                }
            }),
    {
        let address = address % 0x4000;

        let claimed = match cart {
            Some(c) => c.ppu_write(address, data),
            None => false,
        };

        if claimed {
            return ;
        }

        if 0x2000 <= address && address <= 0x3eff {
            let a2 = address % 0x1000;
            let quadrant = a2 / 0x400;

            let mirroring = match cart {
                Some(c) => c.get_info().mirroring_mode,
                None => MirroringMode::Horizontal,
            };

            let tlb_bank = match mirroring {
                MirroringMode::Horizontal => quadrant / 2,
                MirroringMode::Vertical => quadrant % 2,
                MirroringMode::FourScreen => quadrant,
            };

            if tlb_bank < 2 {
                self.nametables.set((tlb_bank * 1024 + a2 % 0x400) as usize, data);
            }
        } else if 0x3f00 <= address {
            let mut a = address % 32;
            if a == 0x0010 {
                a = 0x0000;
            }
            if a == 0x0014 {
                a = 0x0004;
            }
            if a == 0x0018 {
                a = 0x0008;
            }
            if a == 0x001c {
                a = 0x000c;
            }
            self.palette.set(a as usize, data);
        }
    }
}

/// Low four bits of a signed 16-bit value are a value in 0..16.
proof fn lemma_i16_low_nibble(d: i16)
    by (bit_vector)
    ensures
        0 <= d & 0x0f < 16,
{
}

impl<O: PpuOutput> Ppu<O> {
    /// The byte a register-port read returns: Status mixes its three live
    /// bits with stale buffer bits, OAM data reads the addressed byte, and
    /// the data port returns the one-read-delayed buffer except for palette
    /// addresses, which bypass it. Debug (read-only) reads expose Control and
    /// Mask instead and never disturb state.
    pub open spec fn spec_reg_read_value<C: Cartdrige>(&self, cart: Option<C>, address: u16, read_only: bool) -> u8 {
        if address == 0 {
            if read_only {
                self.control.val
            } else {
                0
            }
        } else if address == 1 {
            if read_only {
                self.mask.val
            } else {
                0
            }
        } else if address == 2 {
            if read_only {
                self.status.val
            } else {
                (self.status.val & 0xe0) | (self.ppu_data_buffer & 0x1f)
            }
        } else if address == 4 {
            self.oam@[self.oam_addr as int]
        } else if address == 7 && !read_only {
            if self.vram_addr.val >= 0x3f00 {
                self.spec_ppu_mem_byte(cart, self.vram_addr.val)
            } else {
                self.ppu_data_buffer
            }
        } else {
            0
        }
    }

    /// Reads one of the eight memory-mapped register ports. A live Status
    /// read clears vertical blank and the write toggle; a live data-port
    /// read refills the read buffer and steps the address by 1 or 32.
    pub fn read_ppu_register<C: Cartdrige>(&mut self, cart: &mut Option<C>, address: u16, read_only: bool) -> (r: u8)
        requires
            old(self).wf(),
            cart_inv(*old(cart)),
            address < 8,
        ensures
            final(self).wf(),
            cart_inv(*final(cart)),
            cart_views_eq(*old(cart), *final(cart)),
            read_only ==> *final(cart) == *old(cart) && *final(self) == *old(self),
            r == old(self).spec_reg_read_value(*old(cart), address, read_only),
            if address == 2 && !read_only {
                *final(self) == (Ppu {
                    status: Status { val: old(self).status.val & !0x80 },
                    address_latch: 0,
                    ..*old(self)
                })
            } else if address == 7 && !read_only {
                *final(self) == (Ppu {
                    ppu_data_buffer: old(self).spec_ppu_mem_byte(*old(cart), old(self).vram_addr.val),
                    vram_addr: Loopy {
                        val: vstd::wrapping::u16_specs::wrapping_add(
                            old(self).vram_addr.val,
                            if old(self).control.increment_mode() {
                                32
                            } else {
                                1
                            },
                        ),
                    },
                    ..*old(self)
                })
            } else {
                *final(self) == *old(self)
            },
    {
        let mut data = 0u8;
        match address {
            0x0000 => {
                if read_only {
                    data = self.control.val;
                }
            },
            0x0001 => {
                if read_only {
                    data = self.mask.val;
                }
            },
            0x0002 => {
                if read_only {
                    data = self.status.val;
                } else {
                    data = (self.status.val & 0xe0) | (self.ppu_data_buffer & 0x1f);
                    self.status.set_vertical_blank(false);
                    self.address_latch = 0;
                }
            },
            0x0003 => {},
            0x0004 => {
                data = self.oam[self.oam_addr as usize];
            },
            0x0005 => {},
            0x0006 => {},
            _ => {
                if !read_only {
                    data = self.ppu_data_buffer;
                    self.ppu_data_buffer = self.ppu_read(cart, self.vram_addr.val, read_only);
                    if self.vram_addr.val >= 0x3f00 {
                        data = self.ppu_data_buffer;
                    }
                    let increment: u16 = if (self.control.val >> 2) & 0x01 != 0 {
                        32
                    } else {
                        1
                    };
                    self.vram_addr.val = self.vram_addr.val.wrapping_add(increment);
                }
            },
        }
        proof {
            assert(self.spec_ppu_mem_byte(*old(cart), (self.vram_addr.val % 0x4000) as u16) == self.spec_ppu_mem_byte(
                *old(cart),
                self.vram_addr.val,
            ));
        }
        data
    }

    /// Writes one of the eight register ports: Control also copies the
    /// nametable selects into the staging scroll word; Scroll and Address are
    /// two-write toggle-latched; the data port writes memory and steps the
    /// address.
    pub fn write_ppu_register<C: Cartdrige>(&mut self, cart: &mut Option<C>, address: u16, data: u8)
        requires
            old(self).wf(),
            cart_inv(*old(cart)),
            address < 8,
        ensures
            final(self).wf(),
            cart_inv(*final(cart)),
            (*old(cart)) is Some <==> (*final(cart)) is Some,
            address != 7 ==> *final(cart) == *old(cart),
            address == 0 ==> {
                &&& *final(self) == (Ppu {
                    control: Control { val: data },
                    tram_addr: final(self).tram_addr,
                    ..*old(self)
                })
                &&& final(self).tram_addr.nametable_x() == (data & 0x01) as u16
                &&& final(self).tram_addr.nametable_y() == ((data >> 1) & 0x01) as u16
                &&& final(self).tram_addr.coarse_x() == old(self).tram_addr.coarse_x()
                &&& final(self).tram_addr.coarse_y() == old(self).tram_addr.coarse_y()
                &&& final(self).tram_addr.fine_y() == old(self).tram_addr.fine_y()
            },
            address == 1 ==> *final(self) == (Ppu { mask: Mask { val: data }, ..*old(self) }),
            address == 2 ==> *final(self) == *old(self),
            address == 3 ==> *final(self) == (Ppu { oam_addr: data, ..*old(self) }),
            address == 4 ==> {
                &&& *final(self) == (Ppu { oam: final(self).oam, ..*old(self) })
                &&& final(self).oam@ == old(self).oam@.update(old(self).oam_addr as int, data)
            },
            address == 5 && old(self).address_latch == 0 ==> {
                &&& *final(self) == (Ppu {
                    fine_x: data & 0x07,
                    tram_addr: final(self).tram_addr,
                    address_latch: 1,
                    ..*old(self)
                })
                &&& final(self).tram_addr.coarse_x() == (data >> 3) as u16
                &&& final(self).tram_addr.others_eq(old(self).tram_addr, 0)
            },
            address == 5 && old(self).address_latch != 0 ==> {
                &&& *final(self) == (Ppu {
                    tram_addr: final(self).tram_addr,
                    address_latch: 0,
                    ..*old(self)
                })
                &&& final(self).tram_addr.fine_y() == (data & 0x07) as u16
                &&& final(self).tram_addr.coarse_y() == (data >> 3) as u16
                &&& final(self).tram_addr.coarse_x() == old(self).tram_addr.coarse_x()
                &&& final(self).tram_addr.nametable_x() == old(self).tram_addr.nametable_x()
                &&& final(self).tram_addr.nametable_y() == old(self).tram_addr.nametable_y()
            },
            address == 6 && old(self).address_latch == 0 ==> *final(self) == (Ppu {
                tram_addr: Loopy {
                    val: ((((data & 0x3f) as u16) << 8) | (old(self).tram_addr.val & 0x00ff)) as u16,
                },
                address_latch: 1,
                ..*old(self)
            }),
            address == 6 && old(self).address_latch != 0 ==> *final(self) == (Ppu {
                tram_addr: Loopy { val: ((old(self).tram_addr.val & 0xff00) | (data as u16)) as u16 },
                vram_addr: Loopy { val: ((old(self).tram_addr.val & 0xff00) | (data as u16)) as u16 },
                address_latch: 0,
                ..*old(self)
            }),
            address == 7 ==> ({
                let a = (old(self).vram_addr.val % 0x4000) as u16;
                let stepped = Loopy {
                    val: vstd::wrapping::u16_specs::wrapping_add(
                        old(self).vram_addr.val,
                        if old(self).control.increment_mode() {
                            32
                        } else {
                            1
                        },
                    ),
                };
                let claimed = (*old(cart)) is Some && (*old(cart))->Some_0.ppu_write_claims(a);
                if claimed {
                    *final(self) == (Ppu { vram_addr: stepped, ..*old(self) })
                } else if 0x2000 <= a <= 0x3eff {
                    let a2 = (a % 0x1000) as u16;
                    let bank = spec_nametable_bank(spec_mirroring(*old(cart)), a2 / 0x400);
                    if bank < 2 {
                        *final(self) == (Ppu {
                            nametables: final(self).nametables,
                            vram_addr: stepped,
                            ..*old(self)
                        }) && final(self).nametables@ == old(self).nametables@.update(bank * 1024 + (a2 % 0x400), data)
                    } else {
                        *final(self) == (Ppu { vram_addr: stepped, ..*old(self) })
                    }
                } else if 0x3f00 <= a {
                    *final(self) == (Ppu { palette: final(self).palette, vram_addr: stepped, ..*old(self) }) && final(self).palette@ == old(self).palette@.update(spec_palette_index(a), data)
                } else {
                    *final(self) == (Ppu { vram_addr: stepped, ..*old(self) })
                }
            }),
    {
        match address {
            0x0000 => {
                self.control.val = data;
                let nx = (self.control.val & 0x01) as u16;
                let ny = ((self.control.val >> 1) & 0x01) as u16;
                self.tram_addr.set_nametable_x(nx);
                self.tram_addr.set_nametable_y(ny);
            },
            0x0001 => {
                self.mask.val = data;
            },
            0x0002 => {},
            0x0003 => {
                self.oam_addr = data;
            },
            0x0004 => {
                let addr = self.oam_addr;
                self.oam.set(addr as usize, data);
            },
            0x0005 => {
                if self.address_latch == 0 {
                    self.fine_x = data & 0x07;
                    self.tram_addr.set_coarse_x((data >> 3) as u16);
                    self.address_latch = 1;
                } else {
                    self.tram_addr.set_fine_y((data & 0x07) as u16);
                    self.tram_addr.set_coarse_y((data >> 3) as u16);
                    self.address_latch = 0;
                }
            },
            0x0006 => {
                if self.address_latch == 0 {
                    self.tram_addr.val = (((data & 0x3f) as u16) << 8) | (self.tram_addr.val & 0x00ff);
                    self.address_latch = 1;
                } else {
                    self.tram_addr.val = (self.tram_addr.val & 0xff00) | (data as u16);
                    self.vram_addr.val = self.tram_addr.val;
                    self.address_latch = 0;
                }
            },
            _ => {
                let addr = self.vram_addr.val;
                self.ppu_write(cart, addr, data);
                let increment: u16 = if (self.control.val >> 2) & 0x01 != 0 {
                    32
                } else {
                    1
                };
                self.vram_addr.val = self.vram_addr.val.wrapping_add(increment);
            },
        }
    }

    pub open spec fn spec_rendering_enabled(self) -> bool {
        self.mask.render_background() || self.mask.render_sprites()
    }

    /// Steps coarse x with nametable-x wraparound, while rendering is on.
    pub fn increment_scroll_x(&mut self)
        ensures
            *final(self) == (Ppu { vram_addr: final(self).vram_addr, ..*old(self) }),
            !old(self).spec_rendering_enabled() ==> final(self).vram_addr == old(self).vram_addr,
            old(self).spec_rendering_enabled() ==> {
                &&& final(self).vram_addr.coarse_x() == if old(self).vram_addr.coarse_x() == 31 {
                    0
                } else {
                    (old(self).vram_addr.coarse_x() + 1) as u16
                }
                &&& final(self).vram_addr.nametable_x() == if old(self).vram_addr.coarse_x() == 31 {
                    (1 - old(self).vram_addr.nametable_x()) as u16
                } else {
                    old(self).vram_addr.nametable_x()
                }
                &&& final(self).vram_addr.coarse_y() == old(self).vram_addr.coarse_y()
                &&& final(self).vram_addr.nametable_y() == old(self).vram_addr.nametable_y()
                &&& final(self).vram_addr.fine_y() == old(self).vram_addr.fine_y()
            },
    {
        if self.mask.get_render_background() || self.mask.get_render_sprites() {
            if self.vram_addr.get_coarse_x() == 31 {
                self.vram_addr.set_coarse_x(0);
                let nx = self.vram_addr.get_nametable_x();
                self.vram_addr.set_nametable_x(1 - nx);
            } else {
                let cx = self.vram_addr.get_coarse_x();
                self.vram_addr.set_coarse_x(cx + 1);
            }
        }
    }

    /// Steps fine y, carrying into coarse y with the row-29 nametable flip
    /// and the row-31 no-flip wraparound, while rendering is on.
    pub fn increment_scroll_y(&mut self)
        ensures
            *final(self) == (Ppu { vram_addr: final(self).vram_addr, ..*old(self) }),
            !old(self).spec_rendering_enabled() ==> final(self).vram_addr == old(self).vram_addr,
            old(self).spec_rendering_enabled() ==> {
                &&& final(self).vram_addr.coarse_x() == old(self).vram_addr.coarse_x()
                &&& final(self).vram_addr.nametable_x() == old(self).vram_addr.nametable_x()
                &&& (old(self).vram_addr.fine_y() < 7 ==> final(self).vram_addr.fine_y() == old(self).vram_addr.fine_y() + 1 && final(self).vram_addr.coarse_y() == old(self).vram_addr.coarse_y() && final(self).vram_addr.nametable_y() == old(self).vram_addr.nametable_y())
                &&& (old(self).vram_addr.fine_y() >= 7 ==> final(self).vram_addr.fine_y() == 0 && {
                    let cy = old(self).vram_addr.coarse_y();
                    if cy == 29 {
                        final(self).vram_addr.coarse_y() == 0 && final(self).vram_addr.nametable_y() == (1 - old(self).vram_addr.nametable_y()) as u16
                    } else if cy == 31 {
                        final(self).vram_addr.coarse_y() == 0 && final(self).vram_addr.nametable_y() == old(self).vram_addr.nametable_y()
                    } else {
                        final(self).vram_addr.coarse_y() == (cy + 1) as u16 && final(self).vram_addr.nametable_y()
                            == old(self).vram_addr.nametable_y()
                    }
                })
            },
    {
        if self.mask.get_render_background() || self.mask.get_render_sprites() {
            if self.vram_addr.get_fine_y() < 7 {
                let fy = self.vram_addr.get_fine_y();
                self.vram_addr.set_fine_y(fy + 1);
            } else {
                self.vram_addr.set_fine_y(0);

                let cy = self.vram_addr.get_coarse_y();
                if cy == 29 {
                    self.vram_addr.set_coarse_y(0);
                    let ny = self.vram_addr.get_nametable_y();
                    self.vram_addr.set_nametable_y(1 - ny);
                } else if cy == 31 {
                    self.vram_addr.set_coarse_y(0);
                } else {
                    self.vram_addr.set_coarse_y(cy + 1);
                }
            }
        }
    }

    /// Copies the horizontal scroll (nametable x, coarse x) from the staging
    /// word into the live address, while rendering is on.
    pub fn transfer_address_x(&mut self)
        ensures
            *final(self) == (Ppu { vram_addr: final(self).vram_addr, ..*old(self) }),
            !old(self).spec_rendering_enabled() ==> final(self).vram_addr == old(self).vram_addr,
            old(self).spec_rendering_enabled() ==> {
                &&& final(self).vram_addr.coarse_x() == old(self).tram_addr.coarse_x()
                &&& final(self).vram_addr.nametable_x() == old(self).tram_addr.nametable_x()
                &&& final(self).vram_addr.coarse_y() == old(self).vram_addr.coarse_y()
                &&& final(self).vram_addr.nametable_y() == old(self).vram_addr.nametable_y()
                &&& final(self).vram_addr.fine_y() == old(self).vram_addr.fine_y()
            },
    {
        if self.mask.get_render_background() || self.mask.get_render_sprites() {
            let nx = self.tram_addr.get_nametable_x();
            let cx = self.tram_addr.get_coarse_x();
            self.vram_addr.set_nametable_x(nx);
            self.vram_addr.set_coarse_x(cx);
        }
    }

    /// Copies the vertical scroll (fine y, nametable y, coarse y) from the
    /// staging word into the live address, while rendering is on.
    pub fn transfer_address_y(&mut self)
        ensures
            *final(self) == (Ppu { vram_addr: final(self).vram_addr, ..*old(self) }),
            !old(self).spec_rendering_enabled() ==> final(self).vram_addr == old(self).vram_addr,
            old(self).spec_rendering_enabled() ==> {
                &&& final(self).vram_addr.coarse_y() == old(self).tram_addr.coarse_y()
                &&& final(self).vram_addr.nametable_y() == old(self).tram_addr.nametable_y()
                &&& final(self).vram_addr.fine_y() == old(self).tram_addr.fine_y()
                &&& final(self).vram_addr.coarse_x() == old(self).vram_addr.coarse_x()
                &&& final(self).vram_addr.nametable_x() == old(self).vram_addr.nametable_x()
            },
    {
        if self.mask.get_render_background() || self.mask.get_render_sprites() {
            let fy = self.tram_addr.get_fine_y();
            let ny = self.tram_addr.get_nametable_y();
            let cy = self.tram_addr.get_coarse_y();
            self.vram_addr.set_fine_y(fy);
            self.vram_addr.set_nametable_y(ny);
            self.vram_addr.set_coarse_y(cy);
        }
    }

    /// Reloads the low byte of the four background shifters from the latched
    /// next-tile bytes; the attribute bits are spread across a full byte.
    pub fn load_background_shifters(&mut self)
        ensures
            *final(self) == (Ppu {
                bg_shifter_pattern_lo: (old(self).bg_shifter_pattern_lo & 0xff00) | (old(self).bg_next_tile_lsb as u16),
                bg_shifter_pattern_hi: (old(self).bg_shifter_pattern_hi & 0xff00) | (old(self).bg_next_tile_msb as u16),
                bg_shifter_attrib_lo: (old(self).bg_shifter_attrib_lo & 0xff00) | (if old(self).bg_next_tile_attrib
                    & 0x01 != 0 {
                    0x00ffu16
                } else {
                    0
                }),
                bg_shifter_attrib_hi: (old(self).bg_shifter_attrib_hi & 0xff00) | (if old(self).bg_next_tile_attrib
                    & 0x02 != 0 {
                    0x00ffu16
                } else {
                    0
                }),
                ..*old(self)
            }),
    {
        self.bg_shifter_pattern_lo = (self.bg_shifter_pattern_lo & 0xff00) | (self.bg_next_tile_lsb as u16);
        self.bg_shifter_pattern_hi = (self.bg_shifter_pattern_hi & 0xff00) | (self.bg_next_tile_msb as u16);

        let attrib_lo: u16 = if self.bg_next_tile_attrib & 0x01 != 0 {
            0x00ff
        } else {
            0
        };
        let attrib_hi: u16 = if self.bg_next_tile_attrib & 0x02 != 0 {
            0x00ff
        } else {
            0
        };
        self.bg_shifter_attrib_lo = (self.bg_shifter_attrib_lo & 0xff00) | attrib_lo;
        self.bg_shifter_attrib_hi = (self.bg_shifter_attrib_hi & 0xff00) | attrib_hi;
    }

    /// Shifts the background pipeline left one bit while background rendering
    /// is on, and steps the sprite x-counters / shifters while sprite
    /// rendering is on during the visible dots.
    pub fn update_shifters(&mut self)
        requires
            old(self).wf(),
        ensures
            final(self).wf(),
            *final(self) == (Ppu {
                bg_shifter_pattern_lo: final(self).bg_shifter_pattern_lo,
                bg_shifter_pattern_hi: final(self).bg_shifter_pattern_hi,
                bg_shifter_attrib_lo: final(self).bg_shifter_attrib_lo,
                bg_shifter_attrib_hi: final(self).bg_shifter_attrib_hi,
                scanline_sprites: final(self).scanline_sprites,
                sprite_shifter_pattern_lo: final(self).sprite_shifter_pattern_lo,
                sprite_shifter_pattern_hi: final(self).sprite_shifter_pattern_hi,
                ..*old(self)
            }),
            old(self).mask.render_background() ==> {
                &&& final(self).bg_shifter_pattern_lo == old(self).bg_shifter_pattern_lo << 1
                &&& final(self).bg_shifter_pattern_hi == old(self).bg_shifter_pattern_hi << 1
                &&& final(self).bg_shifter_attrib_lo == old(self).bg_shifter_attrib_lo << 1
                &&& final(self).bg_shifter_attrib_hi == old(self).bg_shifter_attrib_hi << 1
            },
            !old(self).mask.render_background() ==> {
                &&& final(self).bg_shifter_pattern_lo == old(self).bg_shifter_pattern_lo
                &&& final(self).bg_shifter_pattern_hi == old(self).bg_shifter_pattern_hi
                &&& final(self).bg_shifter_attrib_lo == old(self).bg_shifter_attrib_lo
                &&& final(self).bg_shifter_attrib_hi == old(self).bg_shifter_attrib_hi
            },
            final(self).scanline_sprites@.len() == old(self).scanline_sprites@.len(),
            final(self).sprite_shifter_pattern_lo@.len() == old(self).sprite_shifter_pattern_lo@.len(),
            final(self).sprite_shifter_pattern_hi@.len() == old(self).sprite_shifter_pattern_hi@.len(),
            !(old(self).mask.render_sprites() && 1 <= old(self).cycle < 258) ==> final(self).scanline_sprites@ == old(self).scanline_sprites@ && final(self).sprite_shifter_pattern_lo@ == old(self).sprite_shifter_pattern_lo@
                && final(self).sprite_shifter_pattern_hi@ == old(self).sprite_shifter_pattern_hi@,
            (old(self).mask.render_sprites() && 1 <= old(self).cycle < 258) ==> ({
                &&& forall|j: int|
                    #![trigger final(self).scanline_sprites@[j]]
                    (0 <= j < old(self).scanline_sprites_count && old(self).scanline_sprites@[j].x > 0) ==> {
                        &&& final(self).scanline_sprites@[j] == (OAMEntry {
                            x: (old(self).scanline_sprites@[j].x - 1) as u8,
                            ..old(self).scanline_sprites@[j]
                        })
                        &&& final(self).sprite_shifter_pattern_lo@[j] == old(self).sprite_shifter_pattern_lo@[j]
                        &&& final(self).sprite_shifter_pattern_hi@[j] == old(self).sprite_shifter_pattern_hi@[j]
                    }
                &&& forall|j: int|
                    #![trigger final(self).scanline_sprites@[j]]
                    (0 <= j < old(self).scanline_sprites_count && old(self).scanline_sprites@[j].x == 0) ==> {
                        &&& final(self).scanline_sprites@[j] == old(self).scanline_sprites@[j]
                        &&& final(self).sprite_shifter_pattern_lo@[j] == old(self).sprite_shifter_pattern_lo@[j] << 1
                        &&& final(self).sprite_shifter_pattern_hi@[j] == old(self).sprite_shifter_pattern_hi@[j] << 1
                    }
                &&& forall|j: int|
                    #![trigger final(self).scanline_sprites@[j]]
                    (old(self).scanline_sprites_count <= j < 8) ==> {
                        &&& final(self).scanline_sprites@[j] == old(self).scanline_sprites@[j]
                        &&& final(self).sprite_shifter_pattern_lo@[j] == old(self).sprite_shifter_pattern_lo@[j]
                        &&& final(self).sprite_shifter_pattern_hi@[j] == old(self).sprite_shifter_pattern_hi@[j]
                    }
            }),
    {
        if self.mask.get_render_background() {
            self.bg_shifter_pattern_lo = self.bg_shifter_pattern_lo << 1;
            self.bg_shifter_pattern_hi = self.bg_shifter_pattern_hi << 1;

            self.bg_shifter_attrib_lo = self.bg_shifter_attrib_lo << 1;
            self.bg_shifter_attrib_hi = self.bg_shifter_attrib_hi << 1;
        }

        if self.mask.get_render_sprites() && self.cycle >= 1 && self.cycle < 258 {
            let count = self.scanline_sprites_count as usize;
            let mut i: usize = 0;
            #[verifier::loop_isolation(false)]
            while i < count
                invariant
                    count == old(self).scanline_sprites_count,
                    count <= 8,
                    i <= count,
                    self.scanline_sprites@.len() == 8,
                    self.sprite_shifter_pattern_lo@.len() == 8,
                    self.sprite_shifter_pattern_hi@.len() == 8,
                    forall|j: int|
                        #![trigger self.scanline_sprites@[j]]
                        #![trigger self.sprite_shifter_pattern_lo@[j]]
                        #![trigger self.sprite_shifter_pattern_hi@[j]]
                        i <= j < 8 ==> {
                            &&& self.scanline_sprites@[j] == old(self).scanline_sprites@[j]
                            &&& self.sprite_shifter_pattern_lo@[j] == old(self).sprite_shifter_pattern_lo@[j]
                            &&& self.sprite_shifter_pattern_hi@[j] == old(self).sprite_shifter_pattern_hi@[j]
                        },
                    forall|j: int|
                        #![trigger self.scanline_sprites@[j]]
                        #![trigger self.sprite_shifter_pattern_lo@[j]]
                        #![trigger self.sprite_shifter_pattern_hi@[j]]
                        (0 <= j < i && old(self).scanline_sprites@[j].x > 0) ==> {
                            &&& self.scanline_sprites@[j] == (OAMEntry {
                                x: (old(self).scanline_sprites@[j].x - 1) as u8,
                                ..old(self).scanline_sprites@[j]
                            })
                            &&& self.sprite_shifter_pattern_lo@[j] == old(self).sprite_shifter_pattern_lo@[j]
                            &&& self.sprite_shifter_pattern_hi@[j] == old(self).sprite_shifter_pattern_hi@[j]
                        },
                    forall|j: int|
                        #![trigger self.scanline_sprites@[j]]
                        #![trigger self.sprite_shifter_pattern_lo@[j]]
                        #![trigger self.sprite_shifter_pattern_hi@[j]]
                        (0 <= j < i && old(self).scanline_sprites@[j].x == 0) ==> {
                            &&& self.scanline_sprites@[j] == old(self).scanline_sprites@[j]
                            &&& self.sprite_shifter_pattern_lo@[j] == old(self).sprite_shifter_pattern_lo@[j] << 1
                            &&& self.sprite_shifter_pattern_hi@[j] == old(self).sprite_shifter_pattern_hi@[j] << 1
                        },
                    self.bg_shifter_pattern_lo == if old(self).mask.render_background() {
                        old(self).bg_shifter_pattern_lo << 1
                    } else {
                        old(self).bg_shifter_pattern_lo
                    },

                    self.nametables == old(self).nametables,
                    self.palette == old(self).palette,
                    self.oam == old(self).oam,
                    self.frame_complete == old(self).frame_complete,
                    self.status == old(self).status,
                    self.mask == old(self).mask,
                    self.control == old(self).control,
                    self.vram_addr == old(self).vram_addr,
                    self.tram_addr == old(self).tram_addr,
                    self.fine_x == old(self).fine_x,
                    self.address_latch == old(self).address_latch,
                    self.ppu_data_buffer == old(self).ppu_data_buffer,
                    self.scanline == old(self).scanline,
                    self.cycle == old(self).cycle,
                    self.bg_next_tile_id == old(self).bg_next_tile_id,
                    self.bg_next_tile_attrib == old(self).bg_next_tile_attrib,
                    self.bg_next_tile_lsb == old(self).bg_next_tile_lsb,
                    self.bg_next_tile_msb == old(self).bg_next_tile_msb,
                    self.bg_shifter_pattern_hi == if old(self).mask.render_background() {
                        old(self).bg_shifter_pattern_hi << 1
                    } else {
                        old(self).bg_shifter_pattern_hi
                    },
                    self.bg_shifter_attrib_lo == if old(self).mask.render_background() {
                        old(self).bg_shifter_attrib_lo << 1
                    } else {
                        old(self).bg_shifter_attrib_lo
                    },
                    self.bg_shifter_attrib_hi == if old(self).mask.render_background() {
                        old(self).bg_shifter_attrib_hi << 1
                    } else {
                        old(self).bg_shifter_attrib_hi
                    },
                    self.oam_addr == old(self).oam_addr,
                    self.scanline_sprites_count == old(self).scanline_sprites_count,
                    self.sprite_zero_selected == old(self).sprite_zero_selected,
                    self.sprite_zero_rendering == old(self).sprite_zero_rendering,
                    self.send_nmi == old(self).send_nmi,
                    self.output == old(self).output,
                decreases count - i,
            {
                let ghost prev = *self;
                let mut sprite = self.scanline_sprites[i];
                if sprite.x > 0 {
                    sprite.x = sprite.x - 1;
                    self.scanline_sprites.set(i, sprite);
                } else {
                    let lo = self.sprite_shifter_pattern_lo[i];
                    let hi = self.sprite_shifter_pattern_hi[i];
                    self.sprite_shifter_pattern_lo.set(i, lo << 1);
                    self.sprite_shifter_pattern_hi.set(i, hi << 1);
                }
                proof {
                    assert(forall|j: int|
                        #![trigger self.scanline_sprites@[j]]
                        #![trigger self.sprite_shifter_pattern_lo@[j]]
                        #![trigger self.sprite_shifter_pattern_hi@[j]]
                        0 <= j < 8 && j != i ==> self.scanline_sprites@[j] == prev.scanline_sprites@[j]
                            && self.sprite_shifter_pattern_lo@[j] == prev.sprite_shifter_pattern_lo@[j]
                            && self.sprite_shifter_pattern_hi@[j] == prev.sprite_shifter_pattern_hi@[j]);
                    assert(forall|j: int|
                        #![trigger prev.scanline_sprites@[j]]
                        #![trigger prev.sprite_shifter_pattern_lo@[j]]
                        #![trigger prev.sprite_shifter_pattern_hi@[j]]
                        0 <= j < 8 && j != i ==> prev.scanline_sprites@[j] == self.scanline_sprites@[j]
                            && prev.sprite_shifter_pattern_lo@[j] == self.sprite_shifter_pattern_lo@[j]
                            && prev.sprite_shifter_pattern_hi@[j] == self.sprite_shifter_pattern_hi@[j]);
                }
                i = i + 1;
            }
        }
    }
}


/// Reverses the bits of a byte by three swap steps.
pub open spec fn spec_flip_byte(b: u8) -> u8 {
    let b1 = ((b & 0xf0) >> 4) | ((b & 0x0f) << 4);
    let b2 = ((b1 & 0xcc) >> 2) | ((b1 & 0x33) << 2);
    ((b2 & 0xaa) >> 1) | ((b2 & 0x55) << 1)
}

/// Reverses the bits of a byte, for horizontally flipped sprites.
pub fn flip_byte(b: u8) -> (r: u8)
    ensures
        r == spec_flip_byte(b),
{
    let b1 = ((b & 0xf0) >> 4) | ((b & 0x0f) << 4);
    let b2 = ((b1 & 0xcc) >> 2) | ((b1 & 0x33) << 2);
    ((b2 & 0xaa) >> 1) | ((b2 & 0x55) << 1)
}

/// The pattern-table address of a kept sprite's low bit-plane row on the
/// given scanline, honouring vertical flip and the 8x16 addressing rules
/// (the row is taken modulo the sprite's height; out-of-span leftovers on
/// the pre-render line read harmless garbage, as the hardware does).
pub open spec fn spec_sprite_pattern_addr_lo(control: Control, s: OAMEntry, scanline: i16) -> u16 {
    let rel = (((scanline - s.y) as i16) & 0x0f) as u16;
    let vflip = s.attribute & 0x80 != 0;
    if !control.sprite_size() {
        let table = control.pattern_sprite() as u16;
        let row: u16 = if !vflip {
            rel & 7
        } else {
            (7 - (rel & 7)) as u16 & 7
        };
        (table * 4096 + (s.id as u16) * 16 + row) as u16
    } else {
        let table = (s.id & 0x01) as u16;
        let base = (s.id & 0xfe) as u16;
        let tile: u16 = if !vflip {
            if rel < 8 {
                base
            } else {
                (base + 1) as u16
            }
        } else {
            if rel < 8 {
                (base + 1) as u16
            } else {
                base
            }
        };
        let row: u16 = if !vflip {
            rel & 7
        } else {
            (7 - (rel & 7)) as u16 & 7
        };
        (table * 4096 + tile * 16 + row) as u16
    }
}

impl<O: PpuOutput> Ppu<O> {
    /// Whether OAM entry `i` falls on the current scanline, for the sprite
    /// height the control register selects.
    pub open spec fn spec_sprite_qualifies(&self, i: int) -> bool {
        let y = self.oam@[4 * i];
        let h: int = if self.control.sprite_size() {
            16
        } else {
            8
        };
        0 <= self.scanline - y < h
    }

    /// How many of the first `n` OAM entries fall on the current scanline.
    pub open spec fn spec_qualifying_count(&self, n: int) -> int
        decreases n,
    {
        if n <= 0 {
            0
        } else {
            self.spec_qualifying_count(n - 1) + if self.spec_sprite_qualifies(n - 1) {
                1int
            } else {
                0int
            }
        }
    }

    /// Scans all 64 OAM entries and keeps the first (at most) eight whose
    /// vertical span covers this scanline; remembers whether entry 0 was
    /// kept and raises sprite overflow when more than eight qualify.
    #[verifier::rlimit(100)]
    #[verifier::spinoff_prover]
    pub fn sprite_evaluation(&mut self)
        requires
            old(self).wf(),
        ensures
            final(self).wf(),
            *final(self) == (Ppu {
                scanline_sprites: final(self).scanline_sprites,
                scanline_sprites_count: final(self).scanline_sprites_count,
                sprite_zero_selected: final(self).sprite_zero_selected,
                status: final(self).status,
                ..*old(self)
            }),
            final(self).scanline_sprites_count == if old(self).spec_qualifying_count(64) > 8 {
                8int
            } else {
                old(self).spec_qualifying_count(64)
            },
            final(self).sprite_zero_selected == old(self).spec_sprite_qualifies(0),
            final(self).status.sprite_overflow() == (old(self).spec_qualifying_count(64) > 8),
            final(self).status.others_eq(old(self).status, 0x20),
            final(self).scanline_sprites@.len() == 8,
    {
        let mut j: usize = 0;
        while j < 8
            invariant
                old(self).wf(),
                j <= 8,
                self.scanline_sprites@.len() == 8,
                *self == (Ppu { scanline_sprites: self.scanline_sprites, ..*old(self) }),
            decreases 8 - j,
        {
            let mut e = self.scanline_sprites[j];
            e.y = 0xff;
            self.scanline_sprites.set(j, e);
            j = j + 1;
        }
        self.scanline_sprites_count = 0;
        self.sprite_zero_selected = false;

        let sprite_height: i16 = if (self.control.val >> 5) & 0x01 != 0 {
            16
        } else {
            8
        };

        let mut qualifying: u8 = 0;
        let mut i: usize = 0;
        while i < 64
            invariant
                old(self).wf(),
                i <= 64,
                self.scanline_sprites@.len() == 8,
                self.oam == old(self).oam,
                self.control == old(self).control,
                self.scanline == old(self).scanline,
                self.status == old(self).status,
                sprite_height == if old(self).control.sprite_size() {
                    16int
                } else {
                    8int
                },
                *self == (Ppu {
                    scanline_sprites: self.scanline_sprites,
                    scanline_sprites_count: self.scanline_sprites_count,
                    sprite_zero_selected: self.sprite_zero_selected,
                    ..*old(self)
                }),
                qualifying == old(self).spec_qualifying_count(i as int),
                qualifying <= i,
                self.scanline_sprites_count == if old(self).spec_qualifying_count(i as int) > 8 {
                    8int
                } else {
                    old(self).spec_qualifying_count(i as int)
                },
                self.sprite_zero_selected == (i > 0 && old(self).spec_sprite_qualifies(0)),
            decreases 64 - i,
        {
            let y = self.oam[i * 4];
            let diff: i16 = self.scanline - (y as i16);
            if 0 <= diff && diff < sprite_height {
                qualifying = qualifying + 1;
                if self.scanline_sprites_count < 8 {
                    if i == 0 {
                        self.sprite_zero_selected = true;
                    }
                    let entry = OAMEntry {
                        y: self.oam[i * 4],
                        id: self.oam[i * 4 + 1],
                        attribute: self.oam[i * 4 + 2],
                        x: self.oam[i * 4 + 3],
                    };
                    let count = self.scanline_sprites_count as usize;
                    self.scanline_sprites.set(count, entry);
                    self.scanline_sprites_count = self.scanline_sprites_count + 1;
                }
            }
            i = i + 1;
        }

        self.status.set_sprite_overflow(qualifying > 8);
    }

    /// For each kept sprite, computes its pattern address for this scanline,
    /// honouring vertical and horizontal flip and the 8x16 addressing rules,
    /// and loads the (pre-flipped) pattern pair into the sprite shifters.
    pub fn load_sprite_shifters<C: Cartdrige>(&mut self, cart: &mut Option<C>)
        requires
            old(self).wf(),
            cart_inv(*old(cart)),
        ensures
            final(self).wf(),
            cart_inv(*final(cart)),
            cart_views_eq(*old(cart), *final(cart)),
            *final(self) == (Ppu {
                sprite_shifter_pattern_lo: final(self).sprite_shifter_pattern_lo,
                sprite_shifter_pattern_hi: final(self).sprite_shifter_pattern_hi,
                ..*old(self)
            }),
            final(self).sprite_shifter_pattern_lo@.len() == 8,
            final(self).sprite_shifter_pattern_hi@.len() == 8,
            forall|i: int|
                #![trigger final(self).sprite_shifter_pattern_lo@[i]]
                #![trigger final(self).sprite_shifter_pattern_hi@[i]]
                0 <= i < old(self).scanline_sprites_count ==> ({
                    let s = old(self).scanline_sprites@[i];
                    let lo_addr = spec_sprite_pattern_addr_lo(old(self).control, s, old(self).scanline);
                    let lo_byte = old(self).spec_ppu_mem_byte(*old(cart), lo_addr);
                    let hi_byte = old(self).spec_ppu_mem_byte(*old(cart), (lo_addr + 8) as u16);
                    let hflip = s.attribute & 0x40 != 0;
                    &&& final(self).sprite_shifter_pattern_lo@[i] == if hflip {
                        spec_flip_byte(lo_byte)
                    } else {
                        lo_byte
                    }
                    &&& final(self).sprite_shifter_pattern_hi@[i] == if hflip {
                        spec_flip_byte(hi_byte)
                    } else {
                        hi_byte
                    }
                }),
            forall|i: int|
                #![trigger final(self).sprite_shifter_pattern_lo@[i]]
                #![trigger final(self).sprite_shifter_pattern_hi@[i]]
                old(self).scanline_sprites_count <= i < 8 ==> final(self).sprite_shifter_pattern_lo@[i] == old(self).sprite_shifter_pattern_lo@[i] && final(self).sprite_shifter_pattern_hi@[i] == old(self).sprite_shifter_pattern_hi@[i],
    {
        let count = self.scanline_sprites_count as usize;
        let mut i: usize = 0;
        #[verifier::loop_isolation(false)]
        while i < count
            invariant
                old(self).wf(),
                count == old(self).scanline_sprites_count,
                count <= 8,
                i <= count,
                cart_inv(*cart),
                cart_views_eq(*old(cart), *cart),
                self.sprite_shifter_pattern_lo@.len() == 8,
                self.sprite_shifter_pattern_hi@.len() == 8,
                *self == (Ppu {
                    sprite_shifter_pattern_lo: self.sprite_shifter_pattern_lo,
                    sprite_shifter_pattern_hi: self.sprite_shifter_pattern_hi,
                    ..*old(self)
                }),
                forall|j: int|
                    #![trigger self.sprite_shifter_pattern_lo@[j]]
                    #![trigger self.sprite_shifter_pattern_hi@[j]]
                    i <= j < 8 ==> self.sprite_shifter_pattern_lo@[j] == old(self).sprite_shifter_pattern_lo@[j]
                        && self.sprite_shifter_pattern_hi@[j] == old(self).sprite_shifter_pattern_hi@[j],
                forall|j: int|
                    #![trigger self.sprite_shifter_pattern_lo@[j]]
                    #![trigger self.sprite_shifter_pattern_hi@[j]]
                    0 <= j < i ==> ({
                        let s = old(self).scanline_sprites@[j];
                        let lo_addr = spec_sprite_pattern_addr_lo(old(self).control, s, old(self).scanline);
                        let lo_byte = old(self).spec_ppu_mem_byte(*old(cart), lo_addr);
                        let hi_byte = old(self).spec_ppu_mem_byte(*old(cart), (lo_addr + 8) as u16);
                        let hflip = s.attribute & 0x40 != 0;
                        &&& self.sprite_shifter_pattern_lo@[j] == if hflip {
                            spec_flip_byte(lo_byte)
                        } else {
                            lo_byte
                        }
                        &&& self.sprite_shifter_pattern_hi@[j] == if hflip {
                            spec_flip_byte(hi_byte)
                        } else {
                            hi_byte
                        }
                    }),
            decreases count - i,
        {
            let sprite = self.scanline_sprites[i];
            let vertical_flip = sprite.attribute & 0x80 != 0;
            let horizontal_flip = sprite.attribute & 0x40 != 0;

            let diff: i16 = self.scanline - (sprite.y as i16);
            proof {
                lemma_i16_low_nibble(diff);
            }
            let relative_y: u16 = (diff & 0x0f) as u16;

            let sprite_pattern_addr_lo: u16;
            if (self.control.val >> 5) & 0x01 == 0 {
                let table: u16 = ((self.control.val >> 3) & 0x01) as u16;
                let row: u16 = if !vertical_flip {
                    relative_y & 7
                } else {
                    (7 - (relative_y & 7)) & 7
                };
                sprite_pattern_addr_lo = table * 4096 + (sprite.id as u16) * 16 + row;
            } else {
                let table: u16 = (sprite.id & 0x01) as u16;
                let top_half = relative_y < 8;
                let base_tile: u16 = (sprite.id & 0xfe) as u16;
                let tile: u16 = if !vertical_flip {
                    if top_half {
                        base_tile
                    } else {
                        base_tile + 1
                    }
                } else {
                    if top_half {
                        base_tile + 1
                    } else {
                        base_tile
                    }
                };
                let row: u16 = if !vertical_flip {
                    relative_y & 7
                } else {
                    (7 - (relative_y & 7)) & 7
                };
                sprite_pattern_addr_lo = table * 4096 + tile * 16 + row;
            }

            let sprite_pattern_addr_hi: u16 = sprite_pattern_addr_lo + 8;

            proof {
                assert(sprite_pattern_addr_lo == spec_sprite_pattern_addr_lo(
                    old(self).control,
                    old(self).scanline_sprites@[i as int],
                    old(self).scanline,
                ));
            }
            let sprite_pattern_bits_lo = self.ppu_read(cart, sprite_pattern_addr_lo, false);
            let sprite_pattern_bits_hi = self.ppu_read(cart, sprite_pattern_addr_hi, false);
            proof {
                assert(sprite_pattern_bits_lo == old(self).spec_ppu_mem_byte(*old(cart), sprite_pattern_addr_lo));
                assert(sprite_pattern_bits_hi == old(self).spec_ppu_mem_byte(*old(cart), sprite_pattern_addr_hi));
            }

            if horizontal_flip {
                self.sprite_shifter_pattern_lo.set(i, flip_byte(sprite_pattern_bits_lo));
                self.sprite_shifter_pattern_hi.set(i, flip_byte(sprite_pattern_bits_hi));
            } else {
                self.sprite_shifter_pattern_lo.set(i, sprite_pattern_bits_lo);
                self.sprite_shifter_pattern_hi.set(i, sprite_pattern_bits_hi);
            }

            i = i + 1;
        }
    }
}

impl<O: PpuOutput> Ppu<O> {
    /// The 2-bit background pixel the shifters select under fine x, when
    /// background rendering is on.
    pub open spec fn spec_bg_pixel(&self) -> u8 {
        if self.mask.render_background() {
            let mux = 0x8000u16 >> (self.fine_x as u16);
            (((if self.bg_shifter_pattern_hi & mux > 0 {
                2int
            } else {
                0int
            }) + (if self.bg_shifter_pattern_lo & mux > 0 {
                1int
            } else {
                0int
            })) as u8)
        } else {
            0
        }
    }

    /// The 2-bit background palette the attribute shifters select under
    /// fine x, when background rendering is on.
    pub open spec fn spec_bg_palette(&self) -> u8 {
        if self.mask.render_background() {
            let mux = 0x8000u16 >> (self.fine_x as u16);
            (((if self.bg_shifter_attrib_hi & mux > 0 {
                2int
            } else {
                0int
            }) + (if self.bg_shifter_attrib_lo & mux > 0 {
                1int
            } else {
                0int
            })) as u8)
        } else {
            0
        }
    }

    /// The 2-bit pixel of kept sprite `i` at the current dot.
    pub open spec fn spec_sprite_pixel(&self, i: int) -> u8 {
        (((if self.sprite_shifter_pattern_hi@[i] & 0x80 > 0 {
            2int
        } else {
            0int
        }) + (if self.sprite_shifter_pattern_lo@[i] & 0x80 > 0 {
            1int
        } else {
            0int
        })) as u8)
    }

    /// The foreground result of scanning kept sprites from `i` up: the first
    /// sprite whose x-counter has expired and whose pixel is opaque wins;
    /// the result is its pixel, palette, priority, and whether it was the
    /// first kept sprite.
    pub open spec fn spec_fg_scan(&self, i: int) -> (u8, u8, u8, bool)
        decreases self.scanline_sprites_count - i,
    {
        if i < 0 || i >= self.scanline_sprites_count {
            (0u8, 0u8, 0u8, false)
        } else {
            let s = self.scanline_sprites@[i];
            let px = self.spec_sprite_pixel(i);
            if s.x == 0 && px != 0 {
                (
                    px,
                    ((s.attribute & 0x03) + 4) as u8,
                    if s.attribute & 0x20 == 0 {
                        1u8
                    } else {
                        0u8
                    },
                    i == 0,
                )
            } else {
                self.spec_fg_scan(i + 1)
            }
        }
    }

    /// The foreground pixel, palette, priority and sprite-zero marker for the
    /// current dot (all zero while sprite rendering is off).
    pub open spec fn spec_fg(&self) -> (u8, u8, u8, bool) {
        if self.mask.render_sprites() {
            self.spec_fg_scan(0)
        } else {
            (0u8, 0u8, 0u8, false)
        }
    }

    /// The exact condition under which this dot sets sprite-zero hit: sprite
    /// 0 was kept for this scanline and produced the opaque foreground pixel,
    /// the background pixel is opaque too, both pipelines are rendering, and
    /// the dot lies in the window the left-column mask bits allow.
    pub open spec fn spec_sprite_zero_hit_now(&self) -> bool {
        &&& self.spec_bg_pixel() > 0
        &&& self.spec_fg().0 > 0
        &&& self.sprite_zero_selected
        &&& self.spec_fg().3
        &&& self.mask.render_sprites()
        &&& self.mask.render_background()
        &&& if !(self.mask.render_background_left() || self.mask.render_sprites_left()) {
            9 <= self.cycle < 258
        } else {
            1 <= self.cycle < 258
        }
    }

    /// The merged dot: background wins when the sprite pixel is transparent,
    /// the sprite wins when the background is, and the sprite's priority bit
    /// decides when both are opaque.
    pub open spec fn spec_merge(&self) -> (u8, u8) {
        let bg = self.spec_bg_pixel();
        let bgp = self.spec_bg_palette();
        let fg = self.spec_fg();
        if bg == 0 && fg.0 == 0 {
            (0u8, 0u8)
        } else if bg == 0 {
            (fg.0, fg.1)
        } else if fg.0 == 0 {
            (bg, bgp)
        } else if fg.2 != 0 {
            (fg.0, fg.1)
        } else {
            (bg, bgp)
        }
    }

    /// Composes one dot: merges the background and foreground pixels per
    /// `spec_merge`, sets sprite-zero hit exactly under
    /// `spec_sprite_zero_hit_now`, resolves the merged pair to RGB, and hands
    /// the pixel to the sink when the dot is inside the visible frame. The
    /// merged pixel/palette pair is returned.
    pub fn render_dot<C: Cartdrige>(&mut self, cart: &mut Option<C>) -> (merged: (u8, u8))
        requires
            old(self).wf(),
            cart_inv(*old(cart)),
        ensures
            final(self).wf(),
            cart_inv(*final(cart)),
            cart_views_eq(*old(cart), *final(cart)),
            *final(self) == (Ppu { status: final(self).status, output: final(self).output, ..*old(self) }),
            final(self).status.sprite_zero_hit() == (old(self).status.sprite_zero_hit()
                || old(self).spec_sprite_zero_hit_now()),
            final(self).status.vertical_blank() == old(self).status.vertical_blank(),
            final(self).status.sprite_overflow() == old(self).status.sprite_overflow(),
            merged == old(self).spec_merge(),
    {
        let mut bg_pixel = 0u8;
        let mut bg_palette = 0u8;

        if self.mask.get_render_background() {
            let bit_mux: u16 = 0x8000 >> (self.fine_x as u16);

            let p0_pixel: u8 = if self.bg_shifter_pattern_lo & bit_mux > 0 {
                1
            } else {
                0
            };
            let p1_pixel: u8 = if self.bg_shifter_pattern_hi & bit_mux > 0 {
                1
            } else {
                0
            };
            bg_pixel = p1_pixel * 2 + p0_pixel;

            let bg_pal0: u8 = if self.bg_shifter_attrib_lo & bit_mux > 0 {
                1
            } else {
                0
            };
            let bg_pal1: u8 = if self.bg_shifter_attrib_hi & bit_mux > 0 {
                1
            } else {
                0
            };
            bg_palette = bg_pal1 * 2 + bg_pal0;
        }

        let mut fg_pixel = 0u8;
        let mut fg_palette = 0u8;
        let mut fg_priority = 0u8;

        let mut sprite_zero_rendering = false;

        if self.mask.get_render_sprites() {
            let count = self.scanline_sprites_count as usize;
            let mut i: usize = 0;
            let mut found = false;
            while i < count && !found
                invariant
                    self.wf(),
                    count == self.scanline_sprites_count,
                    i <= count,
                    self.mask.render_sprites(),
                    !found ==> {
                        &&& self.spec_fg_scan(0) == self.spec_fg_scan(i as int)
                        &&& fg_pixel == 0
                        &&& sprite_zero_rendering == false
                        &&& fg_palette <= 7
                    },
                    found ==> (fg_pixel, fg_palette, fg_priority, sprite_zero_rendering) == self.spec_fg_scan(0)
                        && fg_pixel != 0 && fg_palette <= 7 && fg_pixel <= 3,
                decreases count - i,
            {
                let sprite = self.scanline_sprites[i];

                if sprite.x == 0 {
                    let lo_bit: u8 = if self.sprite_shifter_pattern_lo[i] & 0x80 > 0 {
                        1
                    } else {
                        0
                    };
                    let hi_bit: u8 = if self.sprite_shifter_pattern_hi[i] & 0x80 > 0 {
                        1
                    } else {
                        0
                    };
                    fg_pixel = hi_bit * 2 + lo_bit;

                    fg_palette = (sprite.attribute & 0x03) + 4;
                    fg_priority = if sprite.attribute & 0x20 == 0 {
                        1
                    } else {
                        0
                    };

                    if fg_pixel != 0 {
                        if i == 0 {
                            sprite_zero_rendering = true;
                        }
                        found = true;
                    } else {
                        fg_pixel = 0;
                        fg_palette = 0;
                        fg_priority = 0;
                    }
                }
                i = i + 1;
            }
            if !found {
                fg_pixel = 0;
                fg_palette = 0;
                fg_priority = 0;
            }
        }

        let final_pixel: u8;
        let final_palette: u8;

        if bg_pixel == 0 && fg_pixel == 0 {
            final_pixel = 0;
            final_palette = 0;
        } else if bg_pixel == 0 && fg_pixel > 0 {
            final_pixel = fg_pixel;
            final_palette = fg_palette;
        } else if bg_pixel > 0 && fg_pixel == 0 {
            final_pixel = bg_pixel;
            final_palette = bg_palette;
        } else {
            if fg_priority != 0 {
                final_pixel = fg_pixel;
                final_palette = fg_palette;
            } else {
                final_pixel = bg_pixel;
                final_palette = bg_palette;
            }

            if self.sprite_zero_selected && sprite_zero_rendering {
                if self.mask.get_render_sprites() && self.mask.get_render_background() {
                    let left_open = {
                        let rbl = (self.mask.val >> 1) & 0x01 != 0;
                        let rsl = (self.mask.val >> 2) & 0x01 != 0;
                        rbl || rsl
                    };
                    if !left_open {
                        if self.cycle >= 9 && self.cycle < 258 {
                            self.status.set_sprite_zero_hit(true);
                        }
                    } else {
                        if self.cycle >= 1 && self.cycle < 258 {
                            self.status.set_sprite_zero_hit(true);
                        }
                    }
                }
            }
        }

        let colour = get_colour_from_palette_ram(self, cart, final_palette, final_pixel);

        if self.cycle >= 1 && self.cycle <= 256 && self.scanline >= 0 && self.scanline < 240 {
            let x = (self.cycle - 1) as usize;
            let y = self.scanline as usize;
            self.output.set_pixel(x, y, colour);
        }

        (final_pixel, final_palette)
    }

    /// Advances the picture unit by one dot. Exactly once per frame's worth
    /// of calls the vertical-blank bit rises at (scanline 241, dot 1) —
    /// latching an NMI request if the control register allows it — and falls,
    /// with the sprite flags, at the pre-render dot (scanline -1, dot 1);
    /// the counters wrap to mark the frame complete after scanline 260.
    #[verifier::rlimit(100)]
    #[verifier::spinoff_prover]
    pub fn clock<C: Cartdrige>(&mut self, cart: &mut Option<C>)
        requires
            old(self).wf(),
            cart_inv(*old(cart)),
        ensures
            final(self).wf(),
            cart_inv(*final(cart)),
            cart_views_eq(*old(cart), *final(cart)),
            final(self).scanline == spec_next_scanline(old(self).scanline, old(self).cycle),
            final(self).cycle == spec_next_cycle(old(self).scanline, old(self).cycle),
            final(self).frame_complete == (old(self).frame_complete || (old(self).scanline == 260 && old(self).cycle
                == 340)),
            final(self).status.vertical_blank() == if old(self).scanline == 241 && old(self).cycle == 1 {
                true
            } else if old(self).scanline == -1 && old(self).cycle == 1 {
                false
            } else {
                old(self).status.vertical_blank()
            },
            final(self).send_nmi == (old(self).send_nmi || (old(self).scanline == 241 && old(self).cycle == 1 && old(self).control.enable_nmi())),
            final(self).mask == old(self).mask,
            final(self).control == old(self).control,
            final(self).oam@ == old(self).oam@,
            final(self).nametables@ == old(self).nametables@,
            final(self).palette@ == old(self).palette@,
            final(self).oam_addr == old(self).oam_addr,
            old(self).status.sprite_zero_hit() && !(old(self).scanline == -1 && old(self).cycle == 1) ==> final(self).status.sprite_zero_hit(),
            !(old(self).mask.render_background() && old(self).mask.render_sprites()) ==> final(self).status.sprite_zero_hit() == (old(self).status.sprite_zero_hit() && !(old(self).scanline == -1 && old(self).cycle == 1)),
            final(self).status.sprite_zero_hit() ==> ({
                let render_cycle: int = if old(self).scanline == 0 && old(self).cycle == 0 {
                    1int
                } else {
                    old(self).cycle as int
                };
                (old(self).status.sprite_zero_hit() && !(old(self).scanline == -1 && old(self).cycle == 1)) || (old(self).mask.render_background() && old(self).mask.render_sprites() && (if !(old(self).mask.render_background_left() || old(self).mask.render_sprites_left()) {
                    9 <= render_cycle < 258
                } else {
                    1 <= render_cycle < 258
                }))
            }),
            (old(self).scanline == -1 && old(self).cycle == 1) ==> !final(self).status.sprite_overflow() && final(self).sprite_shifter_pattern_lo@ == seq![0u8, 0u8, 0u8, 0u8, 0u8, 0u8, 0u8, 0u8] && final(self).sprite_shifter_pattern_hi@ == seq![0u8, 0u8, 0u8, 0u8, 0u8, 0u8, 0u8, 0u8],
    {
        if self.scanline >= -1 && self.scanline < 240 {
            if self.scanline == 0 && self.cycle == 0 {
                // The skipped dot at the top of each frame.
                self.cycle = 1;
            }

            if self.scanline == -1 && self.cycle == 1 {
                self.status.set_vertical_blank(false);

                self.status.set_sprite_zero_hit(false);
                self.status.set_sprite_overflow(false);
                let mut k: usize = 0;
                while k < 8
                    invariant
                        self.sprite_shifter_pattern_lo@.len() == 8,
                        self.sprite_shifter_pattern_hi@.len() == 8,
                        k <= 8,
                        self.wf(),
                        forall|j: int|
                            0 <= j < k ==> #[trigger] self.sprite_shifter_pattern_lo@[j] == 0
                                && self.sprite_shifter_pattern_hi@[j] == 0,
                        *self == (Ppu {
                            sprite_shifter_pattern_lo: self.sprite_shifter_pattern_lo,
                            sprite_shifter_pattern_hi: self.sprite_shifter_pattern_hi,
                            status: self.status,
                            ..*old(self)
                        }),
                        self.status == (Status { val: old(self).status.val & !0x80 & !0x40 & !0x20 }),
                    decreases 8 - k,
                {
                    self.sprite_shifter_pattern_lo.set(k, 0);
                    self.sprite_shifter_pattern_hi.set(k, 0);
                    k = k + 1;
                }
                proof {
                    assert(self.sprite_shifter_pattern_lo@ =~= seq![0u8, 0u8, 0u8, 0u8, 0u8, 0u8, 0u8, 0u8]);
                    assert(self.sprite_shifter_pattern_hi@ =~= seq![0u8, 0u8, 0u8, 0u8, 0u8, 0u8, 0u8, 0u8]);
                }
            }

            if (self.cycle >= 2 && self.cycle < 258) || (self.cycle >= 321 && self.cycle < 338) {
                self.update_shifters();

                let phase = (self.cycle - 1) % 8;
                if phase == 0 {
                    self.load_background_shifters();
                    let addr = 0x2000 | (self.vram_addr.val & 0x0fff);
                    self.bg_next_tile_id = self.ppu_read(cart, addr, false);
                } else if phase == 2 {
                    let addr = 0x23c0 | (self.vram_addr.get_nametable_y() << 11) | (self.vram_addr.get_nametable_x()
                        << 10) | ((self.vram_addr.get_coarse_y() / 4) * 8) | (self.vram_addr.get_coarse_x() / 4);
                    let mut attrib = self.ppu_read(cart, addr, false);
                    if self.vram_addr.get_coarse_y() % 4 >= 2 {
                        attrib = attrib >> 4;
                    }
                    if self.vram_addr.get_coarse_x() % 4 >= 2 {
                        attrib = attrib >> 2;
                    }
                    self.bg_next_tile_attrib = attrib & 0x03;
                } else if phase == 4 {
                    let addr = ((self.control.val >> 4) & 0x01) as u16 * 4096 + (self.bg_next_tile_id as u16) * 16
                        + self.vram_addr.get_fine_y();
                    self.bg_next_tile_lsb = self.ppu_read(cart, addr, false);
                } else if phase == 6 {
                    let addr = ((self.control.val >> 4) & 0x01) as u16 * 4096 + (self.bg_next_tile_id as u16) * 16
                        + self.vram_addr.get_fine_y() + 8;
                    self.bg_next_tile_msb = self.ppu_read(cart, addr, false);
                } else if phase == 7 {
                    self.increment_scroll_x();
                }
            }

            if self.cycle == 256 {
                self.increment_scroll_y();
            }

            if self.cycle == 257 {
                self.load_background_shifters();
                self.transfer_address_x();
            }

            if self.cycle == 338 || self.cycle == 340 {
                // Garbage nametable fetches at the end of the line.
                let addr = 0x2000 | (self.vram_addr.val & 0x0fff);
                self.bg_next_tile_id = self.ppu_read(cart, addr, false);
            }

            if self.scanline == -1 && self.cycle >= 280 && self.cycle < 305 {
                self.transfer_address_y();
            }

            if self.cycle == 257 && self.scanline >= 0 {
                self.sprite_evaluation();
            }

            if self.cycle == 340 {
                self.load_sprite_shifters(cart);
            }
        }

        if self.scanline >= 241 && self.scanline < 261 {
            if self.scanline == 241 && self.cycle == 1 {
                self.status.set_vertical_blank(true);
                if (self.control.val >> 7) & 0x01 != 0 {
                    self.send_nmi = true;
                }
            }
        }

        let _merged = self.render_dot(cart);

        self.cycle = self.cycle + 1;
        if self.cycle >= 341 {
            self.cycle = 0;
            self.scanline = self.scanline + 1;
            if self.scanline >= 261 {
                self.scanline = -1;
                self.frame_complete = true;
            }
        }
    }

    /// Reinitialises the rendering latches, counters and registers; memory
    /// (nametables, palette, OAM) is left as it is.
    pub fn reset(&mut self)
        requires
            old(self).wf(),
        ensures
            final(self).wf(),
            *final(self) == (Ppu {
                fine_x: 0,
                address_latch: 0,
                ppu_data_buffer: 0,
                scanline: 0,
                cycle: 0,
                bg_next_tile_id: 0,
                bg_next_tile_attrib: 0,
                bg_next_tile_lsb: 0,
                bg_next_tile_msb: 0,
                bg_shifter_pattern_lo: 0,
                bg_shifter_pattern_hi: 0,
                bg_shifter_attrib_lo: 0,
                bg_shifter_attrib_hi: 0,
                status: Status { val: 0 },
                mask: Mask { val: 0 },
                control: Control { val: 0 },
                vram_addr: Loopy { val: 0 },
                tram_addr: Loopy { val: 0 },
                ..*old(self)
            }),
    {
        self.fine_x = 0;
        self.address_latch = 0;
        self.ppu_data_buffer = 0;
        self.scanline = 0;
        self.cycle = 0;

        self.bg_next_tile_id = 0;
        self.bg_next_tile_attrib = 0;
        self.bg_next_tile_lsb = 0;
        self.bg_next_tile_msb = 0;
        self.bg_shifter_pattern_lo = 0;
        self.bg_shifter_pattern_hi = 0;
        self.bg_shifter_attrib_lo = 0;
        self.bg_shifter_attrib_hi = 0;

        self.status.val = 0;
        self.mask.val = 0;
        self.control.val = 0;
        self.vram_addr.val = 0;
        self.tram_addr.val = 0;
    }
}

/// The position of a (scanline, dot) state in the frame's dot sequence:
/// the pre-render line comes first and the one skipped dot (scanline 0,
/// dot 1, which `clock` jumps over) is cut out, so a frame holds exactly
/// 341 * 262 - 1 = 89341 states.
pub open spec fn spec_dot_index(s: i16, c: i16) -> int {
    if s == 0 && c >= 2 {
        (s + 1) * 341 + c - 1
    } else if s >= 1 {
        (s + 1) * 341 + c - 1
    } else {
        (s + 1) * 341 + c
    }
}

/// Each `clock` call advances the frame position by exactly one, modulo the
/// 89341 dots of a frame, and the frame-complete flag rises exactly at the
/// last position. With the vertical-blank clause of `clock`, this pins one
/// frame-complete transition and one vertical-blank rising edge (at scanline
/// 241, dot 1) per frame of calls.
pub proof fn lemma_dot_cycle(s: i16, c: i16)
    requires
        -1 <= s <= 260,
        0 <= c <= 340,
        !(s == 0 && c == 1),
    ensures
        0 <= spec_dot_index(s, c) < 89341,
        spec_dot_index(spec_next_scanline(s, c), spec_next_cycle(s, c)) == (spec_dot_index(s, c) + 1) % 89341,
        (s == 260 && c == 340) <==> spec_dot_index(s, c) == 89340,
{
}

} // verus!
