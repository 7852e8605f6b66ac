// The CPU's register/flag semantics, exercised through the public bus and
// the pure operation helpers.

use nes_core::bus::Bus;
use nes_core::cpu::Cpu;
use nes_core::cpu::addressing_modes::AddressingResult;
use nes_core::cpu::addressing_modes::am_absolute_x;
use nes_core::cpu::addressing_modes::am_indirect;
use nes_core::input::InputProvider;
use nes_core::mappers::AnyCartdrige;
use nes_core::ppu::FrameBuffer;

struct NoInput;

impl InputProvider for NoInput {
    fn get_button_state(&self, _button: u8, _controller: u8) -> bool {
        false
    }
}

fn fresh_bus() -> Bus<AnyCartdrige, NoInput, FrameBuffer> {
    Bus::new(NoInput, FrameBuffer::new())
}

#[test]
fn reset_loads_vector_and_parks_stack() {
    // With the slot empty the vector reads as open bus: PC lands at 0.
    let mut nes = fresh_bus();
    nes.reset();
    assert_eq!(nes.cpu.pc, 0);
    assert_eq!(nes.cpu.stack_pointer, 0xfd);
    assert_eq!(nes.cpu.rem_cycles, 8);
    assert_eq!(nes.cpu.a, 0);
    assert_eq!(nes.cpu.x, 0);
    assert_eq!(nes.cpu.y, 0);
    assert_eq!(nes.cpu.flags.val, 0x20);
}

#[test]
fn reset_reads_vector_through_cartridge() {
    let mut prg = vec![0u8; 16384];
    prg[0x3ffc] = 0x34;
    prg[0x3ffd] = 0x12;
    let header = nes_core::ines_loader::INesHeaderInfo {
        mapper_type: 0,
        mirroring_mode: nes_core::ines_loader::MirroringMode::Horizontal,
        batter_backed_prg_ram: false,
        trainer_present: false,
        prg_pages: 1,
        chr_pages: 1,
    };
    let cart = nes_core::mappers::create_cartdrige(header, prg, vec![0u8; 8192]).unwrap();
    let mut nes = fresh_bus();
    nes.load_cartdrige(cart);
    nes.reset();
    assert_eq!(nes.cpu.pc, 0x1234);
    assert_eq!(nes.cpu.stack_pointer, 0xfd);
    assert_eq!(nes.cpu.rem_cycles, 8);
}

#[test]
fn load_and_alu_flags_over_all_operands() {
    // For every operand byte, Zero tracks a zero result and Negative tracks
    // bit 7, across LDA / AND / ORA / EOR / ADC / SBC.
    for m in 0..=255u8 {
        let mut cpu = Cpu::new();
        cpu.do_lda(m);
        assert_eq!(cpu.flags.val & 0x02 != 0, m == 0);
        assert_eq!(cpu.flags.val & 0x80 != 0, m & 0x80 != 0);

        let mut cpu = Cpu::new();
        cpu.a = 0xf0;
        cpu.do_and(m);
        assert_eq!(cpu.flags.val & 0x02 != 0, cpu.a == 0);
        assert_eq!(cpu.flags.val & 0x80 != 0, cpu.a & 0x80 != 0);

        let mut cpu = Cpu::new();
        cpu.a = 0x0f;
        cpu.do_ora(m);
        assert_eq!(cpu.flags.val & 0x02 != 0, cpu.a == 0);
        assert_eq!(cpu.flags.val & 0x80 != 0, cpu.a & 0x80 != 0);

        let mut cpu = Cpu::new();
        cpu.a = 0x5a;
        cpu.do_eor(m);
        assert_eq!(cpu.flags.val & 0x02 != 0, cpu.a == 0);
        assert_eq!(cpu.flags.val & 0x80 != 0, cpu.a & 0x80 != 0);

        let mut cpu = Cpu::new();
        cpu.a = 0x37;
        cpu.do_adc(m);
        assert_eq!(cpu.flags.val & 0x02 != 0, cpu.a == 0);
        assert_eq!(cpu.flags.val & 0x80 != 0, cpu.a & 0x80 != 0);

        let mut cpu = Cpu::new();
        cpu.a = 0x37;
        cpu.do_sbc(m);
        assert_eq!(cpu.flags.val & 0x02 != 0, cpu.a == 0);
        assert_eq!(cpu.flags.val & 0x80 != 0, cpu.a & 0x80 != 0);
    }
}

#[test]
fn adc_overflow_case() {
    // A=0x50 plus 0x50 with carry clear: result 0xA0, Carry clear, Overflow
    // and Negative set.
    let mut cpu = Cpu::new();
    cpu.a = 0x50;
    cpu.flags.set_c(false);
    cpu.do_adc(0x50);
    assert_eq!(cpu.a, 0xa0);
    assert!(cpu.flags.val & 0x01 == 0); // carry
    assert!(cpu.flags.val & 0x40 != 0); // overflow
    assert!(cpu.flags.val & 0x80 != 0); // negative
    assert!(cpu.flags.val & 0x02 == 0); // zero
}

#[test]
fn sbc_reuses_adc_path() {
    let mut cpu = Cpu::new();
    cpu.a = 0x10;
    cpu.flags.set_c(true); // no borrow
    cpu.do_sbc(0x08);
    assert_eq!(cpu.a, 0x08);
    assert!(cpu.flags.val & 0x01 != 0); // no borrow out
}

#[test]
fn indirect_jmp_page_wrap_bug() {
    // Pointer ends in $FF: the high byte must come from the start of the
    // pointer's own page, never from the next page.
    let mut nes = fresh_bus();
    nes.cpu_write(0x0010, 0xff); // pointer low
    nes.cpu_write(0x0011, 0x05); // pointer high -> pointer $05FF
    nes.cpu_write(0x05ff, 0x34); // target low
    nes.cpu_write(0x0500, 0x12); // target high (same page start)
    nes.cpu_write(0x0600, 0x99); // the wrong byte, one page up
    nes.cpu.pc = 0x0010;
    let ar = am_indirect(&mut nes.cpu, &mut nes.devices);
    match ar {
        AddressingResult::ReadFrom { address, cycles } => {
            assert_eq!(address, 0x1234);
            assert_eq!(cycles, 0);
        },
        _ => panic!("indirect mode must produce an address"),
    }
}

#[test]
fn absolute_x_page_cross_costs_one_cycle() {
    // Base $20FF with X=1 crosses into $2100: one extra cycle. Base $2000
    // with X=1 stays inside the page: none.
    let mut nes = fresh_bus();
    nes.cpu_write(0x0000, 0xff);
    nes.cpu_write(0x0001, 0x20);
    nes.cpu.pc = 0x0000;
    nes.cpu.x = 1;
    let crossing = am_absolute_x(&mut nes.cpu, &mut nes.devices);
    match crossing {
        AddressingResult::ReadFrom { address, cycles } => {
            assert_eq!(address, 0x2100);
            assert_eq!(cycles, 1);
        },
        _ => panic!("absolute,X must produce an address"),
    }

    nes.cpu_write(0x0000, 0x00);
    nes.cpu_write(0x0001, 0x20);
    nes.cpu.pc = 0x0000;
    let straight = am_absolute_x(&mut nes.cpu, &mut nes.devices);
    match straight {
        AddressingResult::ReadFrom { address, cycles } => {
            assert_eq!(address, 0x2001);
            assert_eq!(cycles, 0);
        },
        _ => panic!("absolute,X must produce an address"),
    }
}

#[test]
fn lda_absolute_x_cycles_through_full_instruction() {
    // LDA $20FF,X with X=1 (page cross) costs 5 cycles; LDA $2000,X costs 4.
    let mut nes = fresh_bus();
    nes.cpu_write(0x0010, 0xbd); // LDA abs,X
    nes.cpu_write(0x0011, 0xff);
    nes.cpu_write(0x0012, 0x20);
    nes.cpu.pc = 0x0010;
    nes.cpu.x = 1;
    nes.cpu.rem_cycles = 0;
    nes.cpu.clock(&mut nes.devices);
    assert_eq!(nes.cpu.rem_cycles, 4); // 4 base + 1 cross - 1 burned

    nes.cpu_write(0x0010, 0xbd);
    nes.cpu_write(0x0011, 0x00);
    nes.cpu_write(0x0012, 0x20);
    nes.cpu.pc = 0x0010;
    nes.cpu.rem_cycles = 0;
    nes.cpu.clock(&mut nes.devices);
    assert_eq!(nes.cpu.rem_cycles, 3); // 4 base - 1 burned
}

#[test]
fn stack_round_trip_and_interrupts() {
    let mut nes = fresh_bus();
    nes.cpu.stack_pointer = 0xfd;
    nes.cpu.pc = 0xc123;
    nes.cpu.flags.set_i(false);
    nes.cpu.irq(&mut nes.devices);
    // PC pushed high then low, flags third; stack grows down.
    assert_eq!(nes.cpu_read(0x01fd, true), 0xc1);
    assert_eq!(nes.cpu_read(0x01fc, true), 0x23);
    assert_eq!(nes.cpu.stack_pointer, 0xfa);
    assert_eq!(nes.cpu.rem_cycles, 7);
    assert!(nes.cpu.flags.val & 0x04 != 0);
    // Empty slot: the IRQ vector reads as 0.
    assert_eq!(nes.cpu.pc, 0);

    // With InterruptDisable set an IRQ is ignored; an NMI is not.
    let sp = nes.cpu.stack_pointer;
    nes.cpu.irq(&mut nes.devices);
    assert_eq!(nes.cpu.stack_pointer, sp);
    nes.cpu.nmi(&mut nes.devices);
    assert_eq!(nes.cpu.stack_pointer, sp.wrapping_sub(3));
    assert_eq!(nes.cpu.rem_cycles, 8);
}

#[test]
fn branch_taken_cycles() {
    let mut nes = fresh_bus();
    // BEQ with Zero set, forward offset 2, no page cross: base 2 + 1 taken.
    nes.cpu_write(0x0020, 0xf0); // BEQ
    nes.cpu_write(0x0021, 0x02);
    nes.cpu.pc = 0x0020;
    nes.cpu.rem_cycles = 0;
    nes.cpu.flags.set_z(true);
    nes.cpu.clock(&mut nes.devices);
    assert_eq!(nes.cpu.pc, 0x0024);
    assert_eq!(nes.cpu.rem_cycles, 2); // 2 base + 1 taken - 1 burned

    // Not taken: two cycles, fall through.
    nes.cpu_write(0x0030, 0xf0);
    nes.cpu_write(0x0031, 0x02);
    nes.cpu.pc = 0x0030;
    nes.cpu.rem_cycles = 0;
    nes.cpu.flags.set_z(false);
    nes.cpu.clock(&mut nes.devices);
    assert_eq!(nes.cpu.pc, 0x0032);
    assert_eq!(nes.cpu.rem_cycles, 1);
}

#[test]
fn shifts_and_rotates() {
    let mut cpu = Cpu::new();
    let r = cpu.do_asl(0x81);
    assert_eq!(r, 0x02);
    assert!(cpu.flags.val & 0x01 != 0);

    let r = cpu.do_lsr(0x01);
    assert_eq!(r, 0x00);
    assert!(cpu.flags.val & 0x01 != 0);
    assert!(cpu.flags.val & 0x02 != 0);

    cpu.flags.set_c(true);
    let r = cpu.do_rol(0x80);
    assert_eq!(r, 0x01);
    assert!(cpu.flags.val & 0x01 != 0);

    cpu.flags.set_c(true);
    let r = cpu.do_ror(0x03);
    assert_eq!(r, 0x81);
    assert!(cpu.flags.val & 0x01 != 0);
}

#[test]
fn compare_sets_carry_zero_negative() {
    let mut cpu = Cpu::new();
    cpu.do_compare(0x40, 0x40);
    assert!(cpu.flags.val & 0x01 != 0);
    assert!(cpu.flags.val & 0x02 != 0);

    cpu.do_compare(0x10, 0x20);
    assert!(cpu.flags.val & 0x01 == 0);
    assert!(cpu.flags.val & 0x02 == 0);
    assert!(cpu.flags.val & 0x80 != 0); // 0x10 - 0x20 wraps to 0xF0
}

#[test]
fn undefined_opcode_is_silent_noop() {
    // Opcode 0x02 maps to the illegal entry: two cycles, no register damage.
    let mut nes = fresh_bus();
    nes.cpu_write(0x0040, 0x02);
    nes.cpu.pc = 0x0040;
    nes.cpu.rem_cycles = 0;
    nes.cpu.a = 0x55;
    nes.cpu.clock(&mut nes.devices);
    assert_eq!(nes.cpu.a, 0x55);
    assert_eq!(nes.cpu.pc, 0x0041);
    assert_eq!(nes.cpu.rem_cycles, 1);
}
