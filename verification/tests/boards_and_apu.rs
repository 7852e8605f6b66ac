// The cartridge boards, the header parser, the audio unit's counters and the
// debug dump text.

use nes_core::apu::Apu;
use nes_core::apu::length_counter_lookup;
use nes_core::apu::noise_voice::NoiseVoice;
use nes_core::apu::pulse_voice::PulseVoice;
use nes_core::apu::triangle_voice::TriangleVoice;
use nes_core::bus::Bus;
use nes_core::cartdrige::Cartdrige;
use nes_core::ines_loader::INesHeaderInfo;
use nes_core::ines_loader::MirroringMode;
use nes_core::ines_loader::parse_ines_header;
use nes_core::input::InputProvider;
use nes_core::mappers::AnyCartdrige;
use nes_core::mappers::create_cartdrige;
use nes_core::mappers::mapper2::create_mapper2_cartdrige;
use nes_core::mappers::mapper4::create_mapper4_cartdrige;
use nes_core::mappers::mmc0::create_mmc0_cartdrige;
use nes_core::ppu::FrameBuffer;
use nes_core::tools::dump_memory_contents;
use nes_core::tools::dump_visual_memory_contents;

struct NoInput;

impl InputProvider for NoInput {
    fn get_button_state(&self, _button: u8, _controller: u8) -> bool {
        false
    }
}

fn header(mapper_type: u8, prg_pages: u8, chr_pages: u8) -> INesHeaderInfo {
    INesHeaderInfo {
        mapper_type,
        mirroring_mode: MirroringMode::Vertical,
        batter_backed_prg_ram: false,
        trainer_present: false,
        prg_pages,
        chr_pages,
    }
}

#[test]
fn parse_header_accepts_magic_and_decodes_fields() {
    let mut bytes = vec![0u8; 16];
    bytes[0] = 0x4e;
    bytes[1] = 0x45;
    bytes[2] = 0x53;
    bytes[3] = 0x1a;
    bytes[4] = 2; // prg pages
    bytes[5] = 1; // chr pages
    bytes[6] = 0x21; // vertical mirroring, mapper low nibble 2
    bytes[7] = 0x00;
    let h = parse_ines_header(&bytes).unwrap();
    assert_eq!(h.prg_pages, 2);
    assert_eq!(h.chr_pages, 1);
    assert_eq!(h.mapper_type, 2);
    assert!(matches!(h.mirroring_mode, MirroringMode::Vertical));

    bytes[3] = 0x00;
    assert!(parse_ines_header(&bytes).is_none());
}

#[test]
fn mapper0_maps_program_and_character_banks() {
    let mut prg = vec![0u8; 16384];
    prg[0x0000] = 0x11;
    prg[0x3fff] = 0x22;
    let mut chr = vec![0u8; 8192];
    chr[0x0123] = 0x33;
    let mut cart = create_mmc0_cartdrige(header(0, 1, 1), prg, chr);
    let mut data = 0u8;
    assert!(cart.cpu_read(0x8000, &mut data));
    assert_eq!(data, 0x11);
    // One page mirrors through both windows.
    assert!(cart.cpu_read(0xffff, &mut data));
    assert_eq!(data, 0x22);
    assert!(!cart.cpu_read(0x4020, &mut data));
    let (claimed, _) = cart.ppu_read(0x0123, &mut data);
    assert!(claimed);
    assert_eq!(data, 0x33);
    assert!(cart.ppu_write(0x0100, 0x44)); // swallowed, character ROM
    let (_, _) = cart.ppu_read(0x0100, &mut data);
    assert_eq!(data, 0x00);
}

#[test]
fn mapper2_switches_the_low_window() {
    let mut prg = vec![0u8; 2 * 16384];
    prg[0x0000] = 0xaa; // bank 0
    prg[0x4000] = 0xbb; // bank 1
    let mut cart = create_mapper2_cartdrige(header(2, 2, 0), prg, Vec::new());
    let mut data = 0u8;
    assert!(cart.cpu_read(0x8000, &mut data));
    assert_eq!(data, 0xaa);
    // The top window is pinned to the last bank.
    assert!(cart.cpu_read(0xc000, &mut data));
    assert_eq!(data, 0xbb);
    // Select bank 1 in the low window; the write itself is unclaimed.
    assert!(!cart.cpu_write(0x8000, 1));
    assert!(cart.cpu_read(0x8000, &mut data));
    assert_eq!(data, 0xbb);
    // Character memory is RAM.
    assert!(cart.ppu_write(0x0042, 0x77));
    let (claimed, _) = cart.ppu_read(0x0042, &mut data);
    assert!(claimed);
    assert_eq!(data, 0x77);
}

#[test]
fn mapper4_banks_and_scanline_counter() {
    let mut prg = vec![0u8; 2 * 16384]; // four 8KB banks
    prg[0x0000] = 0x40; // bank 0
    prg[0x6000] = 0x43; // bank 3 (the last)
    let chr = vec![0u8; 8192];
    let mut cart = create_mapper4_cartdrige(header(4, 2, 1), prg, chr);
    let mut data = 0u8;
    // The top quarter is pinned to the last bank.
    assert!(cart.cpu_read(0xe000, &mut data));
    assert_eq!(data, 0x43);
    // Select register 6 = bank 0 for the first quarter.
    assert!(!cart.cpu_write(0x8000, 6));
    assert!(!cart.cpu_write(0x8001, 0));
    assert!(cart.cpu_read(0x8000, &mut data));
    assert_eq!(data, 0x40);

    // The scanline counter: latch 1, reload, then a rising A12 edge after a
    // long-enough low spell fires the interrupt once enabled.
    assert!(!cart.cpu_write(0xc000, 1)); // latch
    assert!(!cart.cpu_write(0xc001, 0)); // arm reload
    assert!(!cart.cpu_write(0xe001, 0)); // enable
    let mut irq_seen = false;
    for _ in 0..4 {
        for _ in 0..6 {
            let (_, irq) = cart.ppu_read(0x0000, &mut data); // A12 low
            assert!(!irq);
        }
        let (_, irq) = cart.ppu_read(0x1000, &mut data); // A12 rising edge
        if irq {
            irq_seen = true;
        }
    }
    assert!(irq_seen);
}

#[test]
fn create_cartdrige_dispatches_and_rejects() {
    let ok = create_cartdrige(header(0, 1, 1), vec![0u8; 16384], vec![0u8; 8192]);
    assert!(ok.is_ok());
    let ok2 = create_cartdrige(header(2, 1, 0), vec![0u8; 16384], Vec::new());
    assert!(ok2.is_ok());
    let bad = create_cartdrige(header(7, 1, 1), vec![0u8; 16384], vec![0u8; 8192]);
    assert_eq!(bad.err(), Some(7));
}

#[test]
fn apu_length_counter_loads_and_status_reads() {
    let mut apu = Apu::new();
    apu.cpu_write(0x4015, 0x07); // enable both squares and the triangle
    apu.cpu_write(0x4007, 0x08); // square 2 reg 4: length index 1 -> 0xFE
    assert_eq!(apu.square_voice2.length_counter, 0xfe);
    apu.cpu_write(0x400b, 0x08); // triangle reg 4
    assert_eq!(apu.triangle_voice.length_counter, 0xfe);

    let mut status = 0u8;
    apu.cpu_read(0x4015, &mut status);
    assert!(status & 0x04 != 0); // triangle length counter live
    assert!(status & 0x02 != 0); // square 2 length counter live

    assert_eq!(length_counter_lookup(0), 0x0a);
    assert_eq!(length_counter_lookup(1), 0xfe);
    assert_eq!(length_counter_lookup(31), 0x1e);
}

#[test]
fn apu_frame_interrupt_and_sample_buffer() {
    let mut apu = Apu::new();
    // Mode 0 with interrupts allowed: the fourth sequencer step raises the
    // frame interrupt.
    for _ in 0..4 {
        apu.clock_main(89490);
    }
    assert!(apu.is_raising_interrupt());
    let mut status = 0u8;
    apu.cpu_read(0x4015, &mut status);
    assert!(status & 0x40 != 0);
    assert!(!apu.is_raising_interrupt()); // reading acknowledged it

    apu.clock_cpu_clock();
    apu.clock_cpu_clock();
    let samples = apu.frame_done();
    assert_eq!(samples.len(), 2);
    assert!(apu.audio_buffer.is_empty());
}

#[test]
fn pulse_voice_sweep_mutes_small_periods() {
    let mut v = PulseVoice::new(false);
    v.control_enabled = true;
    v.write_register(0x02, 0x04); // period 4: below the sweep minimum
    v.clock_length_counter_and_sweep_unit();
    assert!(!v.sweep_output);
    assert_eq!(v.output(), 0);
}

#[test]
fn triangle_sequence_descends_then_ascends() {
    let mut v = TriangleVoice::new();
    v.control_enabled = true;
    v.write_register(0x03, 0x08); // load length counter
    v.write_register(0x00, 0x7f); // linear reload 127
    v.clock_linear_counter();
    assert_eq!(v.output(), 15);
    // Period 0 steps the sequencer every CPU clock.
    v.clock_cpu();
    assert_eq!(v.output(), 14);
    for _ in 0..14 {
        v.clock_cpu();
    }
    assert_eq!(v.output(), 0);
    v.clock_cpu();
    assert_eq!(v.output(), 0); // the bottom repeats before climbing
    v.clock_cpu();
    assert_eq!(v.output(), 1);
}

#[test]
fn noise_shift_register_steps() {
    let mut v = NoiseVoice::new();
    assert_eq!(v.shift_register, 1);
    v.clock_cpu(); // bit0 ^ bit1 = 1 -> fed into bit 14
    assert_eq!(v.shift_register, 0x4000);
    assert_eq!(v.output(), 0); // bit 0 now clear
}

#[test]
fn dump_text_has_fixed_shape() {
    let mut nes: Bus<AnyCartdrige, NoInput, FrameBuffer> = Bus::new(NoInput, FrameBuffer::new());
    nes.reset();
    nes.cpu_write(0x0000, 0xde);
    nes.cpu_write(0x0001, 0xad);
    let text = dump_memory_contents(&mut nes);
    assert_eq!(text.len(), 8192 * 24);
    let first_line: String = text.chars().take(23).collect();
    assert_eq!(first_line, "$0000 dead0000 00000000");
    let visual = dump_visual_memory_contents(&mut nes);
    assert_eq!(visual.len(), 2048 * 24);
    assert!(visual.starts_with("$0000 "));
}

#[test]
fn debug_reads_disturb_nothing() {
    let mut apu = Apu::new();
    for _ in 0..4 {
        apu.clock_main(89490);
    }
    assert!(apu.is_raising_interrupt());

    let mut nes: Bus<AnyCartdrige, NoInput, FrameBuffer> = Bus::new(NoInput, FrameBuffer::new());
    nes.reset();
    nes.devices.apu = apu;
    // A read-only pass over the ports leaves the frame interrupt latched and
    // the controller shift position alone.
    let before = nes.devices.controllers.reading_button;
    let _ = nes.cpu_read(0x4015, true);
    let _ = nes.cpu_read(0x4016, true);
    assert!(nes.devices.apu.is_raising_interrupt());
    assert_eq!(nes.devices.controllers.reading_button, before);
    // The live read still acknowledges it.
    let _ = nes.cpu_read(0x4015, false);
    assert!(!nes.devices.apu.is_raising_interrupt());
}
