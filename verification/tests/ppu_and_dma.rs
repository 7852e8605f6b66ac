// Frame timing, sprite-zero hit, OAM DMA and the RAM round trip, exercised
// through the public bus.

use nes_core::bus::Bus;
use nes_core::input::InputProvider;
use nes_core::mappers::AnyCartdrige;
use nes_core::ppu::FrameBuffer;
use nes_core::ppu::OAMEntry;

struct NoInput;

impl InputProvider for NoInput {
    fn get_button_state(&self, _button: u8, _controller: u8) -> bool {
        false
    }
}

fn fresh_bus() -> Bus<AnyCartdrige, NoInput, FrameBuffer> {
    Bus::new(NoInput, FrameBuffer::new())
}

#[test]
fn one_frame_is_89341_dots_with_one_vblank_edge() {
    // 341 * 262 dots minus the one skipped dot: exactly one frame-complete
    // transition and one vertical-blank rising edge, at scanline 241 dot 1.
    let mut nes = fresh_bus();
    nes.reset();
    let mut frames = 0;
    let mut vblank_rises = 0;
    let mut was_vblank = false;
    for _ in 0..89341u32 {
        let s = nes.devices.ppu.scanline;
        let c = nes.devices.ppu.cycle;
        let d = &mut nes.devices;
        d.ppu.clock(&mut d.cartdrige);
        let vblank = d.ppu.status.val & 0x80 != 0;
        if vblank && !was_vblank {
            vblank_rises += 1;
            assert_eq!((s, c), (241, 1));
        }
        was_vblank = vblank;
        if d.ppu.frame_complete {
            frames += 1;
            d.ppu.frame_complete = false;
        }
    }
    assert_eq!(frames, 1);
    assert_eq!(vblank_rises, 1);
    // After a whole frame the dot counters are back where they started.
    assert_eq!(nes.devices.ppu.scanline, 0);
    assert_eq!(nes.devices.ppu.cycle, 0);
}

#[test]
fn vblank_nmi_latched_when_enabled() {
    let mut nes = fresh_bus();
    nes.reset();
    nes.cpu_write(0x2000, 0x80); // enable NMI
    let mut seen_nmi = false;
    for _ in 0..89341u32 {
        let d = &mut nes.devices;
        d.ppu.clock(&mut d.cartdrige);
        if d.ppu.send_nmi {
            seen_nmi = true;
            assert_eq!((d.ppu.scanline, d.ppu.cycle), (241, 2));
            break;
        }
    }
    assert!(seen_nmi);
}

#[test]
fn sprite_zero_hit_exact_dot_and_never_earlier() {
    // Both pipelines opaque, sprite zero selected and first: the hit sets
    // only inside the window the left-column mask allows (dot 9 and later
    // with both left-column bits off), never earlier.
    let mut nes = fresh_bus();
    nes.reset();
    let d = &mut nes.devices;
    d.ppu.mask.val = 0x18; // render background + sprites, left columns masked
    d.ppu.bg_shifter_pattern_lo = 0x8000;
    d.ppu.bg_shifter_pattern_hi = 0x8000;
    d.ppu.fine_x = 0;
    d.ppu.sprite_zero_selected = true;
    d.ppu.scanline_sprites_count = 1;
    let mut e = d.ppu.scanline_sprites[0];
    e.x = 0;
    e.attribute = 0;
    d.ppu.scanline_sprites[0] = e;
    d.ppu.sprite_shifter_pattern_lo[0] = 0x80;
    d.ppu.sprite_shifter_pattern_hi[0] = 0x80;
    d.ppu.scanline = 10;

    d.ppu.cycle = 5; // earlier than the unmasked window allows
    d.ppu.render_dot(&mut d.cartdrige);
    assert!(d.ppu.status.val & 0x40 == 0);

    d.ppu.cycle = 9; // the first dot the masked-left window allows
    d.ppu.render_dot(&mut d.cartdrige);
    assert!(d.ppu.status.val & 0x40 != 0);
}

#[test]
fn sprite_zero_hit_with_left_columns_open_starts_at_dot_one() {
    let mut nes = fresh_bus();
    nes.reset();
    let d = &mut nes.devices;
    d.ppu.mask.val = 0x1e; // rendering on, left columns shown
    d.ppu.bg_shifter_pattern_lo = 0x8000;
    d.ppu.fine_x = 0;
    d.ppu.sprite_zero_selected = true;
    d.ppu.scanline_sprites_count = 1;
    let mut e = d.ppu.scanline_sprites[0];
    e.x = 0;
    e.attribute = 0;
    d.ppu.scanline_sprites[0] = e;
    d.ppu.sprite_shifter_pattern_lo[0] = 0x80;
    d.ppu.scanline = 10;

    d.ppu.cycle = 1;
    d.ppu.render_dot(&mut d.cartdrige);
    assert!(d.ppu.status.val & 0x40 != 0);
}

#[test]
fn sprite_evaluation_counts_and_overflow() {
    let mut nes = fresh_bus();
    nes.reset();
    let d = &mut nes.devices;
    // Nine sprites on scanline 30 (8x8 sprites): eight kept, overflow set.
    for i in 0..9u8 {
        d.ppu.oam_write(i * 4, 30); // y
        d.ppu.oam_write(i * 4 + 3, i); // x
    }
    for i in 9..64u8 {
        d.ppu.oam_write(i * 4, 0xf0);
    }
    d.ppu.scanline = 30;
    d.ppu.sprite_evaluation();
    assert_eq!(d.ppu.scanline_sprites_count, 8);
    assert!(d.ppu.sprite_zero_selected);
    assert!(d.ppu.status.val & 0x20 != 0);

    // Only sprite 3 in range: one kept, zero not selected, no overflow.
    for i in 0..64u8 {
        d.ppu.oam_write(i * 4, if i == 3 { 30 } else { 0xf0 });
    }
    d.ppu.status.set_sprite_overflow(false);
    d.ppu.sprite_evaluation();
    assert_eq!(d.ppu.scanline_sprites_count, 1);
    assert!(!d.ppu.sprite_zero_selected);
    assert!(d.ppu.status.val & 0x20 == 0);
}

#[test]
fn oam_dma_takes_513_or_514_cpu_slots_and_copies_in_order() {
    let mut nes = fresh_bus();
    nes.reset();
    // Paint page 2 of work RAM with a recognisable pattern.
    for i in 0..=255u16 {
        nes.cpu_write(0x0200 + i, (i as u8).wrapping_mul(3).wrapping_add(7));
    }
    nes.cpu_write(0x4014, 0x02);
    assert!(nes.devices.dma.is_doing_dma);

    let mut dma_slots = 0u32;
    let mut guard = 0u32;
    while nes.devices.dma.is_doing_dma {
        if nes.master_clock_counter % 3 == 0 {
            dma_slots += 1;
        }
        nes.clock();
        guard += 1;
        assert!(guard < 10000);
    }
    assert!(dma_slots == 513 || dma_slots == 514, "dma took {} cpu slots", dma_slots);
    for i in 0..=255u8 {
        assert_eq!(nes.devices.ppu.oam_read(i), i.wrapping_mul(3).wrapping_add(7));
    }
}

#[test]
fn dma_suspends_normal_cpu_stepping() {
    let mut nes = fresh_bus();
    nes.reset();
    nes.cpu.rem_cycles = 0;
    nes.cpu_write(0x4014, 0x00);
    let pc = nes.cpu.pc;
    let mut guard = 0u32;
    while nes.devices.dma.is_doing_dma {
        nes.clock();
        guard += 1;
        assert!(guard < 10000);
    }
    // The CPU never fetched while DMA ran (no NMI was pending here).
    assert_eq!(nes.cpu.pc, pc);
    assert_eq!(nes.cpu.rem_cycles, 0);
}

#[test]
fn ram_round_trip_all_addresses_and_mirrors() {
    let mut nes = fresh_bus();
    nes.reset();
    for address in 0x0000..0x2000u16 {
        let value = (address as u8) ^ 0xa5;
        nes.cpu_write(address, value);
        assert_eq!(nes.cpu_read(address, false), value);
        // Every mirror of the same cell reads the byte back too.
        let base = address % 0x800;
        assert_eq!(nes.cpu_read(base, false), value);
        assert_eq!(nes.cpu_read(base + 0x800, false), value);
        assert_eq!(nes.cpu_read(base + 0x1000, false), value);
        assert_eq!(nes.cpu_read(base + 0x1800, false), value);
    }
}

#[test]
fn ppu_data_port_is_buffered_except_palette() {
    let mut nes = fresh_bus();
    nes.reset();
    // Write $55 to nametable address $2005 via the address/data ports.
    nes.cpu_write(0x2006, 0x20);
    nes.cpu_write(0x2006, 0x05);
    nes.cpu_write(0x2007, 0x55);
    // Point back and read twice: the first read returns the stale buffer.
    nes.cpu_write(0x2006, 0x20);
    nes.cpu_write(0x2006, 0x05);
    let stale = nes.cpu_read(0x2007, false);
    let fresh = nes.cpu_read(0x2007, false);
    let _ = stale;
    assert_eq!(fresh, 0x55);

    // Palette addresses bypass the buffer.
    nes.cpu_write(0x2006, 0x3f);
    nes.cpu_write(0x2006, 0x01);
    nes.cpu_write(0x2007, 0x21);
    nes.cpu_write(0x2006, 0x3f);
    nes.cpu_write(0x2006, 0x01);
    assert_eq!(nes.cpu_read(0x2007, false), 0x21);
}

#[test]
fn status_read_clears_vblank_and_latch() {
    let mut nes = fresh_bus();
    nes.reset();
    nes.devices.ppu.status.set_vertical_blank(true);
    nes.devices.ppu.address_latch = 1;
    nes.devices.ppu.ppu_data_buffer = 0x1f;
    let status = nes.cpu_read(0x2002, false);
    assert_eq!(status & 0xe0, 0x80);
    assert_eq!(status & 0x1f, 0x1f);
    assert!(nes.devices.ppu.status.val & 0x80 == 0);
    assert_eq!(nes.devices.ppu.address_latch, 0);
}

#[test]
fn palette_mirrors_fold_onto_backgrounds() {
    let mut nes = fresh_bus();
    nes.reset();
    nes.cpu_write(0x2006, 0x3f);
    nes.cpu_write(0x2006, 0x10); // $3F10 mirrors $3F00
    nes.cpu_write(0x2007, 0x2a);
    nes.cpu_write(0x2006, 0x3f);
    nes.cpu_write(0x2006, 0x00);
    assert_eq!(nes.cpu_read(0x2007, false), 0x2a);
}

#[test]
fn frame_buffer_packs_pixels() {
    assert_eq!(nes_core::ppu::window_common::pack(0x12, 0x34, 0x56), 0x123456);
    let entry = OAMEntry { y: 1, id: 2, attribute: 3, x: 4 };
    assert_eq!(entry.x, 4);
}

#[test]
fn controller_strobe_and_shift() {
    struct OneButton;

    impl InputProvider for OneButton {
        fn get_button_state(&self, button: u8, _controller: u8) -> bool {
            button == 0 // only A held
        }
    }

    let mut nes: Bus<AnyCartdrige, OneButton, FrameBuffer> = Bus::new(OneButton, FrameBuffer::new());
    nes.reset();
    nes.cpu_write(0x4016, 1); // strobe: rewind to button A
    assert_eq!(nes.cpu_read(0x4016, false) & 1, 1); // A
    assert_eq!(nes.cpu_read(0x4016, false) & 1, 0); // B
    assert_eq!(nes.cpu_read(0x4016, false) & 1, 0); // Select
}
