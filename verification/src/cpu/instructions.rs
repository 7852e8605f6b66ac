//! The instruction set: the 256-entry opcode table and one executor per
//! operation. Each executor consumes the addressing result its mode produced
//! and performs the documented register, flag, memory and cycle effects.

use vstd::prelude::*;

use crate::bus::BusDevices;
use crate::bus::spec_frame_counters_eq;
use crate::cartdrige::Cartdrige;
use crate::cpu::Cpu;
use crate::cpu::CpuStateFlags;
use crate::cpu::spec_adc_result;
use crate::cpu::spec_adc_sum;
use crate::cpu::spec_idbu_unchanged;
use crate::cpu::spec_only_a_and_flags_changed;
use crate::cpu::spec_overflow_flag;
use crate::cpu::addressing_modes::AddressingResult;
use crate::cpu::addressing_modes::am_absolute;
use crate::cpu::addressing_modes::am_absolute_x;
use crate::cpu::addressing_modes::am_absolute_y;
use crate::cpu::addressing_modes::am_immediate;
use crate::cpu::addressing_modes::am_implied;
use crate::cpu::addressing_modes::am_indexed_indirect;
use crate::cpu::addressing_modes::am_indirect;
use crate::cpu::addressing_modes::am_indirect_indexed;
use crate::cpu::addressing_modes::am_relative;
use crate::cpu::addressing_modes::am_zero_page;
use crate::cpu::addressing_modes::am_zero_page_x_offset;
use crate::cpu::addressing_modes::am_zero_page_y_offset;
use crate::cpu::addressing_modes::spec_value_known;
use crate::input::InputProvider;
use crate::ppu::PpuOutput;
use crate::ppu::cart_views_eq;

verus! {

/// The twelve addressing modes by tag; the mode functions in
/// `addressing_modes` carry the semantics.
#[derive(Clone, Copy, PartialEq, Eq, Structural)]
pub enum AddressingMode {
    Imp,
    Imm,
    Zp0,
    Zpx,
    Zpy,
    Rel,
    Abs,
    Abx,
    Aby,
    Ind,
    Izx,
    Izy,
}

/// The operations, documented and undocumented slots alike; `Xxx` is the
/// designated illegal entry, a silent no-op in permissive mode.
#[derive(Clone, Copy, PartialEq, Eq, Structural)]
pub enum Operation {
    Adc,
    And,
    Asl,
    Bcc,
    Bcs,
    Beq,
    Bit,
    Bmi,
    Bne,
    Bpl,
    Brk,
    Bvc,
    Bvs,
    Clc,
    Cld,
    Cli,
    Clv,
    Cmp,
    Cpx,
    Cpy,
    Dec,
    Dex,
    Dey,
    Eor,
    Inc,
    Inx,
    Iny,
    Jmp,
    Jsr,
    Lda,
    Ldx,
    Ldy,
    Lsr,
    Nop,
    Ora,
    Pha,
    Php,
    Pla,
    Plp,
    Rol,
    Ror,
    Rti,
    Rts,
    Sbc,
    Sec,
    Sed,
    Sei,
    Sta,
    Stx,
    Sty,
    Tax,
    Tay,
    Tsx,
    Txa,
    Txs,
    Tya,
    Xxx,
}

/// One opcode's descriptor: operation tag, addressing-mode tag, base cycles.
#[derive(Clone, Copy, PartialEq, Eq, Structural)]
pub struct Instruction {
    pub operation: Operation,
    pub addressing: AddressingMode,
    pub cycles: i8,
}

/// The full 256-entry opcode table.
pub open spec fn spec_instruction_for(opcode: u8) -> Instruction {
    match opcode {
        0x00 => Instruction { operation: Operation::Brk, addressing: AddressingMode::Imm, cycles: 7 },
        0x01 => Instruction { operation: Operation::Ora, addressing: AddressingMode::Izx, cycles: 6 },
        0x02 => Instruction { operation: Operation::Xxx, addressing: AddressingMode::Imp, cycles: 2 },
        0x03 => Instruction { operation: Operation::Xxx, addressing: AddressingMode::Izx, cycles: 8 },
        0x04 => Instruction { operation: Operation::Nop, addressing: AddressingMode::Zp0, cycles: 3 },
        0x05 => Instruction { operation: Operation::Ora, addressing: AddressingMode::Zp0, cycles: 3 },
        0x06 => Instruction { operation: Operation::Asl, addressing: AddressingMode::Zp0, cycles: 5 },
        0x07 => Instruction { operation: Operation::Xxx, addressing: AddressingMode::Zp0, cycles: 5 },
        0x08 => Instruction { operation: Operation::Php, addressing: AddressingMode::Imp, cycles: 3 },
        0x09 => Instruction { operation: Operation::Ora, addressing: AddressingMode::Imm, cycles: 2 },
        0x0a => Instruction { operation: Operation::Asl, addressing: AddressingMode::Imp, cycles: 2 },
        0x0b => Instruction { operation: Operation::Xxx, addressing: AddressingMode::Imm, cycles: 2 },
        0x0c => Instruction { operation: Operation::Nop, addressing: AddressingMode::Abs, cycles: 4 },
        0x0d => Instruction { operation: Operation::Ora, addressing: AddressingMode::Abs, cycles: 4 },
        0x0e => Instruction { operation: Operation::Asl, addressing: AddressingMode::Abs, cycles: 6 },
        0x0f => Instruction { operation: Operation::Xxx, addressing: AddressingMode::Abs, cycles: 6 },
        0x10 => Instruction { operation: Operation::Bpl, addressing: AddressingMode::Rel, cycles: 2 },
        0x11 => Instruction { operation: Operation::Ora, addressing: AddressingMode::Izy, cycles: 5 },
        0x12 => Instruction { operation: Operation::Xxx, addressing: AddressingMode::Imp, cycles: 2 },
        0x13 => Instruction { operation: Operation::Xxx, addressing: AddressingMode::Izy, cycles: 8 },
        0x14 => Instruction { operation: Operation::Nop, addressing: AddressingMode::Zpx, cycles: 4 },
        0x15 => Instruction { operation: Operation::Ora, addressing: AddressingMode::Zpx, cycles: 4 },
        0x16 => Instruction { operation: Operation::Asl, addressing: AddressingMode::Zpx, cycles: 6 },
        0x17 => Instruction { operation: Operation::Xxx, addressing: AddressingMode::Zpx, cycles: 6 },
        0x18 => Instruction { operation: Operation::Clc, addressing: AddressingMode::Imp, cycles: 2 },
        0x19 => Instruction { operation: Operation::Ora, addressing: AddressingMode::Aby, cycles: 4 },
        0x1a => Instruction { operation: Operation::Nop, addressing: AddressingMode::Imp, cycles: 2 },
        0x1b => Instruction { operation: Operation::Xxx, addressing: AddressingMode::Aby, cycles: 7 },
        0x1c => Instruction { operation: Operation::Nop, addressing: AddressingMode::Abx, cycles: 4 },
        0x1d => Instruction { operation: Operation::Ora, addressing: AddressingMode::Abx, cycles: 4 },
        0x1e => Instruction { operation: Operation::Asl, addressing: AddressingMode::Abx, cycles: 7 },
        0x1f => Instruction { operation: Operation::Xxx, addressing: AddressingMode::Abx, cycles: 7 },
        0x20 => Instruction { operation: Operation::Jsr, addressing: AddressingMode::Abs, cycles: 6 },
        0x21 => Instruction { operation: Operation::And, addressing: AddressingMode::Izx, cycles: 6 },
        0x22 => Instruction { operation: Operation::Xxx, addressing: AddressingMode::Imp, cycles: 2 },
        0x23 => Instruction { operation: Operation::Xxx, addressing: AddressingMode::Izx, cycles: 8 },
        0x24 => Instruction { operation: Operation::Bit, addressing: AddressingMode::Zp0, cycles: 3 },
        0x25 => Instruction { operation: Operation::And, addressing: AddressingMode::Zp0, cycles: 3 },
        0x26 => Instruction { operation: Operation::Rol, addressing: AddressingMode::Zp0, cycles: 5 },
        0x27 => Instruction { operation: Operation::Xxx, addressing: AddressingMode::Zp0, cycles: 5 },
        0x28 => Instruction { operation: Operation::Plp, addressing: AddressingMode::Imp, cycles: 4 },
        0x29 => Instruction { operation: Operation::And, addressing: AddressingMode::Imm, cycles: 2 },
        0x2a => Instruction { operation: Operation::Rol, addressing: AddressingMode::Imp, cycles: 2 },
        0x2b => Instruction { operation: Operation::Xxx, addressing: AddressingMode::Imm, cycles: 2 },
        0x2c => Instruction { operation: Operation::Bit, addressing: AddressingMode::Abs, cycles: 4 },
        0x2d => Instruction { operation: Operation::And, addressing: AddressingMode::Abs, cycles: 4 },
        0x2e => Instruction { operation: Operation::Rol, addressing: AddressingMode::Abs, cycles: 6 },
        0x2f => Instruction { operation: Operation::Xxx, addressing: AddressingMode::Abs, cycles: 6 },
        0x30 => Instruction { operation: Operation::Bmi, addressing: AddressingMode::Rel, cycles: 2 },
        0x31 => Instruction { operation: Operation::And, addressing: AddressingMode::Izy, cycles: 5 },
        0x32 => Instruction { operation: Operation::Xxx, addressing: AddressingMode::Imp, cycles: 2 },
        0x33 => Instruction { operation: Operation::Xxx, addressing: AddressingMode::Izy, cycles: 8 },
        0x34 => Instruction { operation: Operation::Nop, addressing: AddressingMode::Zpx, cycles: 4 },
        0x35 => Instruction { operation: Operation::And, addressing: AddressingMode::Zpx, cycles: 4 },
        0x36 => Instruction { operation: Operation::Rol, addressing: AddressingMode::Zpx, cycles: 6 },
        0x37 => Instruction { operation: Operation::Xxx, addressing: AddressingMode::Zpx, cycles: 6 },
        0x38 => Instruction { operation: Operation::Sec, addressing: AddressingMode::Imp, cycles: 2 },
        0x39 => Instruction { operation: Operation::And, addressing: AddressingMode::Aby, cycles: 4 },
        0x3a => Instruction { operation: Operation::Nop, addressing: AddressingMode::Imp, cycles: 2 },
        0x3b => Instruction { operation: Operation::Xxx, addressing: AddressingMode::Aby, cycles: 7 },
        0x3c => Instruction { operation: Operation::Nop, addressing: AddressingMode::Abx, cycles: 4 },
        0x3d => Instruction { operation: Operation::And, addressing: AddressingMode::Abx, cycles: 4 },
        0x3e => Instruction { operation: Operation::Rol, addressing: AddressingMode::Abx, cycles: 7 },
        0x3f => Instruction { operation: Operation::Xxx, addressing: AddressingMode::Abx, cycles: 7 },
        0x40 => Instruction { operation: Operation::Rti, addressing: AddressingMode::Imp, cycles: 6 },
        0x41 => Instruction { operation: Operation::Eor, addressing: AddressingMode::Izx, cycles: 6 },
        0x42 => Instruction { operation: Operation::Xxx, addressing: AddressingMode::Imp, cycles: 2 },
        0x43 => Instruction { operation: Operation::Xxx, addressing: AddressingMode::Imp, cycles: 8 },
        0x44 => Instruction { operation: Operation::Nop, addressing: AddressingMode::Imp, cycles: 3 },
        0x45 => Instruction { operation: Operation::Eor, addressing: AddressingMode::Zp0, cycles: 3 },
        0x46 => Instruction { operation: Operation::Lsr, addressing: AddressingMode::Zp0, cycles: 5 },
        0x47 => Instruction { operation: Operation::Xxx, addressing: AddressingMode::Imp, cycles: 5 },
        0x48 => Instruction { operation: Operation::Pha, addressing: AddressingMode::Imp, cycles: 3 },
        0x49 => Instruction { operation: Operation::Eor, addressing: AddressingMode::Imm, cycles: 2 },
        0x4a => Instruction { operation: Operation::Lsr, addressing: AddressingMode::Imp, cycles: 2 },
        0x4b => Instruction { operation: Operation::Xxx, addressing: AddressingMode::Imp, cycles: 2 },
        0x4c => Instruction { operation: Operation::Jmp, addressing: AddressingMode::Abs, cycles: 3 },
        0x4d => Instruction { operation: Operation::Eor, addressing: AddressingMode::Abs, cycles: 4 },
        0x4e => Instruction { operation: Operation::Lsr, addressing: AddressingMode::Abs, cycles: 6 },
        0x4f => Instruction { operation: Operation::Xxx, addressing: AddressingMode::Imp, cycles: 6 },
        0x50 => Instruction { operation: Operation::Bvc, addressing: AddressingMode::Rel, cycles: 2 },
        0x51 => Instruction { operation: Operation::Eor, addressing: AddressingMode::Izy, cycles: 5 },
        0x52 => Instruction { operation: Operation::Xxx, addressing: AddressingMode::Imp, cycles: 2 },
        0x53 => Instruction { operation: Operation::Xxx, addressing: AddressingMode::Imp, cycles: 8 },
        0x54 => Instruction { operation: Operation::Nop, addressing: AddressingMode::Imp, cycles: 4 },
        0x55 => Instruction { operation: Operation::Eor, addressing: AddressingMode::Zpx, cycles: 4 },
        0x56 => Instruction { operation: Operation::Lsr, addressing: AddressingMode::Zpx, cycles: 6 },
        0x57 => Instruction { operation: Operation::Xxx, addressing: AddressingMode::Imp, cycles: 6 },
        0x58 => Instruction { operation: Operation::Cli, addressing: AddressingMode::Imp, cycles: 2 },
        0x59 => Instruction { operation: Operation::Eor, addressing: AddressingMode::Aby, cycles: 4 },
        0x5a => Instruction { operation: Operation::Nop, addressing: AddressingMode::Imp, cycles: 2 },
        0x5b => Instruction { operation: Operation::Xxx, addressing: AddressingMode::Imp, cycles: 7 },
        0x5c => Instruction { operation: Operation::Nop, addressing: AddressingMode::Imp, cycles: 4 },
        0x5d => Instruction { operation: Operation::Eor, addressing: AddressingMode::Abx, cycles: 4 },
        0x5e => Instruction { operation: Operation::Lsr, addressing: AddressingMode::Abx, cycles: 7 },
        0x5f => Instruction { operation: Operation::Xxx, addressing: AddressingMode::Imp, cycles: 7 },
        0x60 => Instruction { operation: Operation::Rts, addressing: AddressingMode::Imp, cycles: 6 },
        0x61 => Instruction { operation: Operation::Adc, addressing: AddressingMode::Izx, cycles: 6 },
        0x62 => Instruction { operation: Operation::Xxx, addressing: AddressingMode::Imp, cycles: 2 },
        0x63 => Instruction { operation: Operation::Xxx, addressing: AddressingMode::Imp, cycles: 8 },
        0x64 => Instruction { operation: Operation::Nop, addressing: AddressingMode::Imp, cycles: 3 },
        0x65 => Instruction { operation: Operation::Adc, addressing: AddressingMode::Zp0, cycles: 3 },
        0x66 => Instruction { operation: Operation::Ror, addressing: AddressingMode::Zp0, cycles: 5 },
        0x67 => Instruction { operation: Operation::Xxx, addressing: AddressingMode::Imp, cycles: 5 },
        0x68 => Instruction { operation: Operation::Pla, addressing: AddressingMode::Imp, cycles: 4 },
        0x69 => Instruction { operation: Operation::Adc, addressing: AddressingMode::Imm, cycles: 2 },
        0x6a => Instruction { operation: Operation::Ror, addressing: AddressingMode::Imp, cycles: 2 },
        0x6b => Instruction { operation: Operation::Xxx, addressing: AddressingMode::Imp, cycles: 2 },
        0x6c => Instruction { operation: Operation::Jmp, addressing: AddressingMode::Ind, cycles: 5 },
        0x6d => Instruction { operation: Operation::Adc, addressing: AddressingMode::Abs, cycles: 4 },
        0x6e => Instruction { operation: Operation::Ror, addressing: AddressingMode::Abs, cycles: 6 },
        0x6f => Instruction { operation: Operation::Xxx, addressing: AddressingMode::Imp, cycles: 6 },
        0x70 => Instruction { operation: Operation::Bvs, addressing: AddressingMode::Rel, cycles: 2 },
        0x71 => Instruction { operation: Operation::Adc, addressing: AddressingMode::Izy, cycles: 5 },
        0x72 => Instruction { operation: Operation::Xxx, addressing: AddressingMode::Imp, cycles: 2 },
        0x73 => Instruction { operation: Operation::Xxx, addressing: AddressingMode::Imp, cycles: 8 },
        0x74 => Instruction { operation: Operation::Nop, addressing: AddressingMode::Imp, cycles: 4 },
        0x75 => Instruction { operation: Operation::Adc, addressing: AddressingMode::Zpx, cycles: 4 },
        0x76 => Instruction { operation: Operation::Ror, addressing: AddressingMode::Zpx, cycles: 6 },
        0x77 => Instruction { operation: Operation::Xxx, addressing: AddressingMode::Imp, cycles: 6 },
        0x78 => Instruction { operation: Operation::Sei, addressing: AddressingMode::Imp, cycles: 2 },
        0x79 => Instruction { operation: Operation::Adc, addressing: AddressingMode::Aby, cycles: 4 },
        0x7a => Instruction { operation: Operation::Nop, addressing: AddressingMode::Imp, cycles: 2 },
        0x7b => Instruction { operation: Operation::Xxx, addressing: AddressingMode::Imp, cycles: 7 },
        0x7c => Instruction { operation: Operation::Nop, addressing: AddressingMode::Imp, cycles: 4 },
        0x7d => Instruction { operation: Operation::Adc, addressing: AddressingMode::Abx, cycles: 4 },
        0x7e => Instruction { operation: Operation::Ror, addressing: AddressingMode::Abx, cycles: 7 },
        0x7f => Instruction { operation: Operation::Xxx, addressing: AddressingMode::Imp, cycles: 7 },
        0x80 => Instruction { operation: Operation::Nop, addressing: AddressingMode::Imm, cycles: 2 },
        0x81 => Instruction { operation: Operation::Sta, addressing: AddressingMode::Izx, cycles: 6 },
        0x82 => Instruction { operation: Operation::Nop, addressing: AddressingMode::Imp, cycles: 2 },
        0x83 => Instruction { operation: Operation::Xxx, addressing: AddressingMode::Imp, cycles: 6 },
        0x84 => Instruction { operation: Operation::Sty, addressing: AddressingMode::Zp0, cycles: 3 },
        0x85 => Instruction { operation: Operation::Sta, addressing: AddressingMode::Zp0, cycles: 3 },
        0x86 => Instruction { operation: Operation::Stx, addressing: AddressingMode::Zp0, cycles: 3 },
        0x87 => Instruction { operation: Operation::Xxx, addressing: AddressingMode::Imp, cycles: 3 },
        0x88 => Instruction { operation: Operation::Dey, addressing: AddressingMode::Imp, cycles: 2 },
        0x89 => Instruction { operation: Operation::Nop, addressing: AddressingMode::Imp, cycles: 2 },
        0x8a => Instruction { operation: Operation::Txa, addressing: AddressingMode::Imp, cycles: 2 },
        0x8b => Instruction { operation: Operation::Xxx, addressing: AddressingMode::Imp, cycles: 2 },
        0x8c => Instruction { operation: Operation::Sty, addressing: AddressingMode::Abs, cycles: 4 },
        0x8d => Instruction { operation: Operation::Sta, addressing: AddressingMode::Abs, cycles: 4 },
        0x8e => Instruction { operation: Operation::Stx, addressing: AddressingMode::Abs, cycles: 4 },
        0x8f => Instruction { operation: Operation::Xxx, addressing: AddressingMode::Imp, cycles: 4 },
        0x90 => Instruction { operation: Operation::Bcc, addressing: AddressingMode::Rel, cycles: 2 },
        0x91 => Instruction { operation: Operation::Sta, addressing: AddressingMode::Izy, cycles: 6 },
        0x92 => Instruction { operation: Operation::Xxx, addressing: AddressingMode::Imp, cycles: 2 },
        0x93 => Instruction { operation: Operation::Xxx, addressing: AddressingMode::Imp, cycles: 6 },
        0x94 => Instruction { operation: Operation::Sty, addressing: AddressingMode::Zpx, cycles: 4 },
        0x95 => Instruction { operation: Operation::Sta, addressing: AddressingMode::Zpx, cycles: 4 },
        0x96 => Instruction { operation: Operation::Stx, addressing: AddressingMode::Zpy, cycles: 4 },
        0x97 => Instruction { operation: Operation::Xxx, addressing: AddressingMode::Imp, cycles: 4 },
        0x98 => Instruction { operation: Operation::Tya, addressing: AddressingMode::Imp, cycles: 2 },
        0x99 => Instruction { operation: Operation::Sta, addressing: AddressingMode::Aby, cycles: 5 },
        0x9a => Instruction { operation: Operation::Txs, addressing: AddressingMode::Imp, cycles: 2 },
        0x9b => Instruction { operation: Operation::Xxx, addressing: AddressingMode::Imp, cycles: 5 },
        0x9c => Instruction { operation: Operation::Nop, addressing: AddressingMode::Imp, cycles: 5 },
        0x9d => Instruction { operation: Operation::Sta, addressing: AddressingMode::Abx, cycles: 5 },
        0x9e => Instruction { operation: Operation::Xxx, addressing: AddressingMode::Imp, cycles: 5 },
        0x9f => Instruction { operation: Operation::Xxx, addressing: AddressingMode::Imp, cycles: 5 },
        0xa0 => Instruction { operation: Operation::Ldy, addressing: AddressingMode::Imm, cycles: 2 },
        0xa1 => Instruction { operation: Operation::Lda, addressing: AddressingMode::Izx, cycles: 6 },
        0xa2 => Instruction { operation: Operation::Ldx, addressing: AddressingMode::Imm, cycles: 2 },
        0xa3 => Instruction { operation: Operation::Xxx, addressing: AddressingMode::Imp, cycles: 6 },
        0xa4 => Instruction { operation: Operation::Ldy, addressing: AddressingMode::Zp0, cycles: 3 },
        0xa5 => Instruction { operation: Operation::Lda, addressing: AddressingMode::Zp0, cycles: 3 },
        0xa6 => Instruction { operation: Operation::Ldx, addressing: AddressingMode::Zp0, cycles: 3 },
        0xa7 => Instruction { operation: Operation::Xxx, addressing: AddressingMode::Imp, cycles: 3 },
        0xa8 => Instruction { operation: Operation::Tay, addressing: AddressingMode::Imp, cycles: 2 },
        0xa9 => Instruction { operation: Operation::Lda, addressing: AddressingMode::Imm, cycles: 2 },
        0xaa => Instruction { operation: Operation::Tax, addressing: AddressingMode::Imp, cycles: 2 },
        0xab => Instruction { operation: Operation::Xxx, addressing: AddressingMode::Imp, cycles: 2 },
        0xac => Instruction { operation: Operation::Ldy, addressing: AddressingMode::Abs, cycles: 4 },
        0xad => Instruction { operation: Operation::Lda, addressing: AddressingMode::Abs, cycles: 4 },
        0xae => Instruction { operation: Operation::Ldx, addressing: AddressingMode::Abs, cycles: 4 },
        0xaf => Instruction { operation: Operation::Xxx, addressing: AddressingMode::Imp, cycles: 4 },
        0xb0 => Instruction { operation: Operation::Bcs, addressing: AddressingMode::Rel, cycles: 2 },
        0xb1 => Instruction { operation: Operation::Lda, addressing: AddressingMode::Izy, cycles: 5 },
        0xb2 => Instruction { operation: Operation::Xxx, addressing: AddressingMode::Imp, cycles: 2 },
        0xb3 => Instruction { operation: Operation::Xxx, addressing: AddressingMode::Imp, cycles: 5 },
        0xb4 => Instruction { operation: Operation::Ldy, addressing: AddressingMode::Zpx, cycles: 4 },
        0xb5 => Instruction { operation: Operation::Lda, addressing: AddressingMode::Zpx, cycles: 4 },
        0xb6 => Instruction { operation: Operation::Ldx, addressing: AddressingMode::Zpy, cycles: 4 },
        0xb7 => Instruction { operation: Operation::Xxx, addressing: AddressingMode::Imp, cycles: 4 },
        0xb8 => Instruction { operation: Operation::Clv, addressing: AddressingMode::Imp, cycles: 2 },
        0xb9 => Instruction { operation: Operation::Lda, addressing: AddressingMode::Aby, cycles: 4 },
        0xba => Instruction { operation: Operation::Tsx, addressing: AddressingMode::Imp, cycles: 2 },
        0xbb => Instruction { operation: Operation::Xxx, addressing: AddressingMode::Imp, cycles: 4 },
        0xbc => Instruction { operation: Operation::Ldy, addressing: AddressingMode::Abx, cycles: 4 },
        0xbd => Instruction { operation: Operation::Lda, addressing: AddressingMode::Abx, cycles: 4 },
        0xbe => Instruction { operation: Operation::Ldx, addressing: AddressingMode::Aby, cycles: 4 },
        0xbf => Instruction { operation: Operation::Xxx, addressing: AddressingMode::Imp, cycles: 4 },
        0xc0 => Instruction { operation: Operation::Cpy, addressing: AddressingMode::Imm, cycles: 2 },
        0xc1 => Instruction { operation: Operation::Cmp, addressing: AddressingMode::Izx, cycles: 6 },
        0xc2 => Instruction { operation: Operation::Nop, addressing: AddressingMode::Imp, cycles: 2 },
        0xc3 => Instruction { operation: Operation::Xxx, addressing: AddressingMode::Imp, cycles: 8 },
        0xc4 => Instruction { operation: Operation::Cpy, addressing: AddressingMode::Zp0, cycles: 3 },
        0xc5 => Instruction { operation: Operation::Cmp, addressing: AddressingMode::Zp0, cycles: 3 },
        0xc6 => Instruction { operation: Operation::Dec, addressing: AddressingMode::Zp0, cycles: 5 },
        0xc7 => Instruction { operation: Operation::Xxx, addressing: AddressingMode::Imp, cycles: 5 },
        0xc8 => Instruction { operation: Operation::Iny, addressing: AddressingMode::Imp, cycles: 2 },
        0xc9 => Instruction { operation: Operation::Cmp, addressing: AddressingMode::Imm, cycles: 2 },
        0xca => Instruction { operation: Operation::Dex, addressing: AddressingMode::Imp, cycles: 2 },
        0xcb => Instruction { operation: Operation::Xxx, addressing: AddressingMode::Imp, cycles: 2 },
        0xcc => Instruction { operation: Operation::Cpy, addressing: AddressingMode::Abs, cycles: 4 },
        0xcd => Instruction { operation: Operation::Cmp, addressing: AddressingMode::Abs, cycles: 4 },
        0xce => Instruction { operation: Operation::Dec, addressing: AddressingMode::Abs, cycles: 6 },
        0xcf => Instruction { operation: Operation::Xxx, addressing: AddressingMode::Imp, cycles: 6 },
        0xd0 => Instruction { operation: Operation::Bne, addressing: AddressingMode::Rel, cycles: 2 },
        0xd1 => Instruction { operation: Operation::Cmp, addressing: AddressingMode::Izy, cycles: 5 },
        0xd2 => Instruction { operation: Operation::Xxx, addressing: AddressingMode::Imp, cycles: 2 },
        0xd3 => Instruction { operation: Operation::Xxx, addressing: AddressingMode::Imp, cycles: 8 },
        0xd4 => Instruction { operation: Operation::Nop, addressing: AddressingMode::Imp, cycles: 4 },
        0xd5 => Instruction { operation: Operation::Cmp, addressing: AddressingMode::Zpx, cycles: 4 },
        0xd6 => Instruction { operation: Operation::Dec, addressing: AddressingMode::Zpx, cycles: 6 },
        0xd7 => Instruction { operation: Operation::Xxx, addressing: AddressingMode::Imp, cycles: 6 },
        0xd8 => Instruction { operation: Operation::Cld, addressing: AddressingMode::Imp, cycles: 2 },
        0xd9 => Instruction { operation: Operation::Cmp, addressing: AddressingMode::Aby, cycles: 4 },
        0xda => Instruction { operation: Operation::Nop, addressing: AddressingMode::Imp, cycles: 2 },
        0xdb => Instruction { operation: Operation::Xxx, addressing: AddressingMode::Imp, cycles: 7 },
        0xdc => Instruction { operation: Operation::Nop, addressing: AddressingMode::Imp, cycles: 4 },
        0xdd => Instruction { operation: Operation::Cmp, addressing: AddressingMode::Abx, cycles: 4 },
        0xde => Instruction { operation: Operation::Dec, addressing: AddressingMode::Abx, cycles: 7 },
        0xdf => Instruction { operation: Operation::Xxx, addressing: AddressingMode::Imp, cycles: 7 },
        0xe0 => Instruction { operation: Operation::Cpx, addressing: AddressingMode::Imm, cycles: 2 },
        0xe1 => Instruction { operation: Operation::Sbc, addressing: AddressingMode::Izx, cycles: 6 },
        0xe2 => Instruction { operation: Operation::Nop, addressing: AddressingMode::Imp, cycles: 2 },
        0xe3 => Instruction { operation: Operation::Xxx, addressing: AddressingMode::Imp, cycles: 8 },
        0xe4 => Instruction { operation: Operation::Cpx, addressing: AddressingMode::Zp0, cycles: 3 },
        0xe5 => Instruction { operation: Operation::Sbc, addressing: AddressingMode::Zp0, cycles: 3 },
        0xe6 => Instruction { operation: Operation::Inc, addressing: AddressingMode::Zp0, cycles: 5 },
        0xe7 => Instruction { operation: Operation::Xxx, addressing: AddressingMode::Imp, cycles: 5 },
        0xe8 => Instruction { operation: Operation::Inx, addressing: AddressingMode::Imp, cycles: 2 },
        0xe9 => Instruction { operation: Operation::Sbc, addressing: AddressingMode::Imm, cycles: 2 },
        0xea => Instruction { operation: Operation::Nop, addressing: AddressingMode::Imp, cycles: 2 },
        0xeb => Instruction { operation: Operation::Sbc, addressing: AddressingMode::Imp, cycles: 2 },
        0xec => Instruction { operation: Operation::Cpx, addressing: AddressingMode::Abs, cycles: 4 },
        0xed => Instruction { operation: Operation::Sbc, addressing: AddressingMode::Abs, cycles: 4 },
        0xee => Instruction { operation: Operation::Inc, addressing: AddressingMode::Abs, cycles: 6 },
        0xef => Instruction { operation: Operation::Xxx, addressing: AddressingMode::Imp, cycles: 6 },
        0xf0 => Instruction { operation: Operation::Beq, addressing: AddressingMode::Rel, cycles: 2 },
        0xf1 => Instruction { operation: Operation::Sbc, addressing: AddressingMode::Izy, cycles: 5 },
        0xf2 => Instruction { operation: Operation::Xxx, addressing: AddressingMode::Imp, cycles: 2 },
        0xf3 => Instruction { operation: Operation::Xxx, addressing: AddressingMode::Imp, cycles: 8 },
        0xf4 => Instruction { operation: Operation::Nop, addressing: AddressingMode::Imp, cycles: 4 },
        0xf5 => Instruction { operation: Operation::Sbc, addressing: AddressingMode::Zpx, cycles: 4 },
        0xf6 => Instruction { operation: Operation::Inc, addressing: AddressingMode::Zpx, cycles: 6 },
        0xf7 => Instruction { operation: Operation::Xxx, addressing: AddressingMode::Imp, cycles: 6 },
        0xf8 => Instruction { operation: Operation::Sed, addressing: AddressingMode::Imp, cycles: 2 },
        0xf9 => Instruction { operation: Operation::Sbc, addressing: AddressingMode::Aby, cycles: 4 },
        0xfa => Instruction { operation: Operation::Nop, addressing: AddressingMode::Imp, cycles: 2 },
        0xfb => Instruction { operation: Operation::Xxx, addressing: AddressingMode::Imp, cycles: 7 },
        0xfc => Instruction { operation: Operation::Nop, addressing: AddressingMode::Imp, cycles: 4 },
        0xfd => Instruction { operation: Operation::Sbc, addressing: AddressingMode::Abx, cycles: 4 },
        0xfe => Instruction { operation: Operation::Inc, addressing: AddressingMode::Abx, cycles: 7 },
        _ => Instruction { operation: Operation::Xxx, addressing: AddressingMode::Imp, cycles: 7 },
    }
}

/// Looks an opcode up in the 256-entry table; base cycle counts run from 2
/// to 8.
pub fn instruction_for(opcode: u8) -> (r: Instruction)
    ensures
        r == spec_instruction_for(opcode),
        2 <= r.cycles <= 8,
{
    match opcode {
        0x00 => Instruction { operation: Operation::Brk, addressing: AddressingMode::Imm, cycles: 7 },
        0x01 => Instruction { operation: Operation::Ora, addressing: AddressingMode::Izx, cycles: 6 },
        0x02 => Instruction { operation: Operation::Xxx, addressing: AddressingMode::Imp, cycles: 2 },
        0x03 => Instruction { operation: Operation::Xxx, addressing: AddressingMode::Izx, cycles: 8 },
        0x04 => Instruction { operation: Operation::Nop, addressing: AddressingMode::Zp0, cycles: 3 },
        0x05 => Instruction { operation: Operation::Ora, addressing: AddressingMode::Zp0, cycles: 3 },
        0x06 => Instruction { operation: Operation::Asl, addressing: AddressingMode::Zp0, cycles: 5 },
        0x07 => Instruction { operation: Operation::Xxx, addressing: AddressingMode::Zp0, cycles: 5 },
        0x08 => Instruction { operation: Operation::Php, addressing: AddressingMode::Imp, cycles: 3 },
        0x09 => Instruction { operation: Operation::Ora, addressing: AddressingMode::Imm, cycles: 2 },
        0x0a => Instruction { operation: Operation::Asl, addressing: AddressingMode::Imp, cycles: 2 },
        0x0b => Instruction { operation: Operation::Xxx, addressing: AddressingMode::Imm, cycles: 2 },
        0x0c => Instruction { operation: Operation::Nop, addressing: AddressingMode::Abs, cycles: 4 },
        0x0d => Instruction { operation: Operation::Ora, addressing: AddressingMode::Abs, cycles: 4 },
        0x0e => Instruction { operation: Operation::Asl, addressing: AddressingMode::Abs, cycles: 6 },
        0x0f => Instruction { operation: Operation::Xxx, addressing: AddressingMode::Abs, cycles: 6 },
        0x10 => Instruction { operation: Operation::Bpl, addressing: AddressingMode::Rel, cycles: 2 },
        0x11 => Instruction { operation: Operation::Ora, addressing: AddressingMode::Izy, cycles: 5 },
        0x12 => Instruction { operation: Operation::Xxx, addressing: AddressingMode::Imp, cycles: 2 },
        0x13 => Instruction { operation: Operation::Xxx, addressing: AddressingMode::Izy, cycles: 8 },
        0x14 => Instruction { operation: Operation::Nop, addressing: AddressingMode::Zpx, cycles: 4 },
        0x15 => Instruction { operation: Operation::Ora, addressing: AddressingMode::Zpx, cycles: 4 },
        0x16 => Instruction { operation: Operation::Asl, addressing: AddressingMode::Zpx, cycles: 6 },
        0x17 => Instruction { operation: Operation::Xxx, addressing: AddressingMode::Zpx, cycles: 6 },
        0x18 => Instruction { operation: Operation::Clc, addressing: AddressingMode::Imp, cycles: 2 },
        0x19 => Instruction { operation: Operation::Ora, addressing: AddressingMode::Aby, cycles: 4 },
        0x1a => Instruction { operation: Operation::Nop, addressing: AddressingMode::Imp, cycles: 2 },
        0x1b => Instruction { operation: Operation::Xxx, addressing: AddressingMode::Aby, cycles: 7 },
        0x1c => Instruction { operation: Operation::Nop, addressing: AddressingMode::Abx, cycles: 4 },
        0x1d => Instruction { operation: Operation::Ora, addressing: AddressingMode::Abx, cycles: 4 },
        0x1e => Instruction { operation: Operation::Asl, addressing: AddressingMode::Abx, cycles: 7 },
        0x1f => Instruction { operation: Operation::Xxx, addressing: AddressingMode::Abx, cycles: 7 },
        0x20 => Instruction { operation: Operation::Jsr, addressing: AddressingMode::Abs, cycles: 6 },
        0x21 => Instruction { operation: Operation::And, addressing: AddressingMode::Izx, cycles: 6 },
        0x22 => Instruction { operation: Operation::Xxx, addressing: AddressingMode::Imp, cycles: 2 },
        0x23 => Instruction { operation: Operation::Xxx, addressing: AddressingMode::Izx, cycles: 8 },
        0x24 => Instruction { operation: Operation::Bit, addressing: AddressingMode::Zp0, cycles: 3 },
        0x25 => Instruction { operation: Operation::And, addressing: AddressingMode::Zp0, cycles: 3 },
        0x26 => Instruction { operation: Operation::Rol, addressing: AddressingMode::Zp0, cycles: 5 },
        0x27 => Instruction { operation: Operation::Xxx, addressing: AddressingMode::Zp0, cycles: 5 },
        0x28 => Instruction { operation: Operation::Plp, addressing: AddressingMode::Imp, cycles: 4 },
        0x29 => Instruction { operation: Operation::And, addressing: AddressingMode::Imm, cycles: 2 },
        0x2a => Instruction { operation: Operation::Rol, addressing: AddressingMode::Imp, cycles: 2 },
        0x2b => Instruction { operation: Operation::Xxx, addressing: AddressingMode::Imm, cycles: 2 },
        0x2c => Instruction { operation: Operation::Bit, addressing: AddressingMode::Abs, cycles: 4 },
        0x2d => Instruction { operation: Operation::And, addressing: AddressingMode::Abs, cycles: 4 },
        0x2e => Instruction { operation: Operation::Rol, addressing: AddressingMode::Abs, cycles: 6 },
        0x2f => Instruction { operation: Operation::Xxx, addressing: AddressingMode::Abs, cycles: 6 },
        0x30 => Instruction { operation: Operation::Bmi, addressing: AddressingMode::Rel, cycles: 2 },
        0x31 => Instruction { operation: Operation::And, addressing: AddressingMode::Izy, cycles: 5 },
        0x32 => Instruction { operation: Operation::Xxx, addressing: AddressingMode::Imp, cycles: 2 },
        0x33 => Instruction { operation: Operation::Xxx, addressing: AddressingMode::Izy, cycles: 8 },
        0x34 => Instruction { operation: Operation::Nop, addressing: AddressingMode::Zpx, cycles: 4 },
        0x35 => Instruction { operation: Operation::And, addressing: AddressingMode::Zpx, cycles: 4 },
        0x36 => Instruction { operation: Operation::Rol, addressing: AddressingMode::Zpx, cycles: 6 },
        0x37 => Instruction { operation: Operation::Xxx, addressing: AddressingMode::Zpx, cycles: 6 },
        0x38 => Instruction { operation: Operation::Sec, addressing: AddressingMode::Imp, cycles: 2 },
        0x39 => Instruction { operation: Operation::And, addressing: AddressingMode::Aby, cycles: 4 },
        0x3a => Instruction { operation: Operation::Nop, addressing: AddressingMode::Imp, cycles: 2 },
        0x3b => Instruction { operation: Operation::Xxx, addressing: AddressingMode::Aby, cycles: 7 },
        0x3c => Instruction { operation: Operation::Nop, addressing: AddressingMode::Abx, cycles: 4 },
        0x3d => Instruction { operation: Operation::And, addressing: AddressingMode::Abx, cycles: 4 },
        0x3e => Instruction { operation: Operation::Rol, addressing: AddressingMode::Abx, cycles: 7 },
        0x3f => Instruction { operation: Operation::Xxx, addressing: AddressingMode::Abx, cycles: 7 },
        0x40 => Instruction { operation: Operation::Rti, addressing: AddressingMode::Imp, cycles: 6 },
        0x41 => Instruction { operation: Operation::Eor, addressing: AddressingMode::Izx, cycles: 6 },
        0x42 => Instruction { operation: Operation::Xxx, addressing: AddressingMode::Imp, cycles: 2 },
        0x43 => Instruction { operation: Operation::Xxx, addressing: AddressingMode::Imp, cycles: 8 },
        0x44 => Instruction { operation: Operation::Nop, addressing: AddressingMode::Imp, cycles: 3 },
        0x45 => Instruction { operation: Operation::Eor, addressing: AddressingMode::Zp0, cycles: 3 },
        0x46 => Instruction { operation: Operation::Lsr, addressing: AddressingMode::Zp0, cycles: 5 },
        0x47 => Instruction { operation: Operation::Xxx, addressing: AddressingMode::Imp, cycles: 5 },
        0x48 => Instruction { operation: Operation::Pha, addressing: AddressingMode::Imp, cycles: 3 },
        0x49 => Instruction { operation: Operation::Eor, addressing: AddressingMode::Imm, cycles: 2 },
        0x4a => Instruction { operation: Operation::Lsr, addressing: AddressingMode::Imp, cycles: 2 },
        0x4b => Instruction { operation: Operation::Xxx, addressing: AddressingMode::Imp, cycles: 2 },
        0x4c => Instruction { operation: Operation::Jmp, addressing: AddressingMode::Abs, cycles: 3 },
        0x4d => Instruction { operation: Operation::Eor, addressing: AddressingMode::Abs, cycles: 4 },
        0x4e => Instruction { operation: Operation::Lsr, addressing: AddressingMode::Abs, cycles: 6 },
        0x4f => Instruction { operation: Operation::Xxx, addressing: AddressingMode::Imp, cycles: 6 },
        0x50 => Instruction { operation: Operation::Bvc, addressing: AddressingMode::Rel, cycles: 2 },
        0x51 => Instruction { operation: Operation::Eor, addressing: AddressingMode::Izy, cycles: 5 },
        0x52 => Instruction { operation: Operation::Xxx, addressing: AddressingMode::Imp, cycles: 2 },
        0x53 => Instruction { operation: Operation::Xxx, addressing: AddressingMode::Imp, cycles: 8 },
        0x54 => Instruction { operation: Operation::Nop, addressing: AddressingMode::Imp, cycles: 4 },
        0x55 => Instruction { operation: Operation::Eor, addressing: AddressingMode::Zpx, cycles: 4 },
        0x56 => Instruction { operation: Operation::Lsr, addressing: AddressingMode::Zpx, cycles: 6 },
        0x57 => Instruction { operation: Operation::Xxx, addressing: AddressingMode::Imp, cycles: 6 },
        0x58 => Instruction { operation: Operation::Cli, addressing: AddressingMode::Imp, cycles: 2 },
        0x59 => Instruction { operation: Operation::Eor, addressing: AddressingMode::Aby, cycles: 4 },
        0x5a => Instruction { operation: Operation::Nop, addressing: AddressingMode::Imp, cycles: 2 },
        0x5b => Instruction { operation: Operation::Xxx, addressing: AddressingMode::Imp, cycles: 7 },
        0x5c => Instruction { operation: Operation::Nop, addressing: AddressingMode::Imp, cycles: 4 },
        0x5d => Instruction { operation: Operation::Eor, addressing: AddressingMode::Abx, cycles: 4 },
        0x5e => Instruction { operation: Operation::Lsr, addressing: AddressingMode::Abx, cycles: 7 },
        0x5f => Instruction { operation: Operation::Xxx, addressing: AddressingMode::Imp, cycles: 7 },
        0x60 => Instruction { operation: Operation::Rts, addressing: AddressingMode::Imp, cycles: 6 },
        0x61 => Instruction { operation: Operation::Adc, addressing: AddressingMode::Izx, cycles: 6 },
        0x62 => Instruction { operation: Operation::Xxx, addressing: AddressingMode::Imp, cycles: 2 },
        0x63 => Instruction { operation: Operation::Xxx, addressing: AddressingMode::Imp, cycles: 8 },
        0x64 => Instruction { operation: Operation::Nop, addressing: AddressingMode::Imp, cycles: 3 },
        0x65 => Instruction { operation: Operation::Adc, addressing: AddressingMode::Zp0, cycles: 3 },
        0x66 => Instruction { operation: Operation::Ror, addressing: AddressingMode::Zp0, cycles: 5 },
        0x67 => Instruction { operation: Operation::Xxx, addressing: AddressingMode::Imp, cycles: 5 },
        0x68 => Instruction { operation: Operation::Pla, addressing: AddressingMode::Imp, cycles: 4 },
        0x69 => Instruction { operation: Operation::Adc, addressing: AddressingMode::Imm, cycles: 2 },
        0x6a => Instruction { operation: Operation::Ror, addressing: AddressingMode::Imp, cycles: 2 },
        0x6b => Instruction { operation: Operation::Xxx, addressing: AddressingMode::Imp, cycles: 2 },
        0x6c => Instruction { operation: Operation::Jmp, addressing: AddressingMode::Ind, cycles: 5 },
        0x6d => Instruction { operation: Operation::Adc, addressing: AddressingMode::Abs, cycles: 4 },
        0x6e => Instruction { operation: Operation::Ror, addressing: AddressingMode::Abs, cycles: 6 },
        0x6f => Instruction { operation: Operation::Xxx, addressing: AddressingMode::Imp, cycles: 6 },
        0x70 => Instruction { operation: Operation::Bvs, addressing: AddressingMode::Rel, cycles: 2 },
        0x71 => Instruction { operation: Operation::Adc, addressing: AddressingMode::Izy, cycles: 5 },
        0x72 => Instruction { operation: Operation::Xxx, addressing: AddressingMode::Imp, cycles: 2 },
        0x73 => Instruction { operation: Operation::Xxx, addressing: AddressingMode::Imp, cycles: 8 },
        0x74 => Instruction { operation: Operation::Nop, addressing: AddressingMode::Imp, cycles: 4 },
        0x75 => Instruction { operation: Operation::Adc, addressing: AddressingMode::Zpx, cycles: 4 },
        0x76 => Instruction { operation: Operation::Ror, addressing: AddressingMode::Zpx, cycles: 6 },
        0x77 => Instruction { operation: Operation::Xxx, addressing: AddressingMode::Imp, cycles: 6 },
        0x78 => Instruction { operation: Operation::Sei, addressing: AddressingMode::Imp, cycles: 2 },
        0x79 => Instruction { operation: Operation::Adc, addressing: AddressingMode::Aby, cycles: 4 },
        0x7a => Instruction { operation: Operation::Nop, addressing: AddressingMode::Imp, cycles: 2 },
        0x7b => Instruction { operation: Operation::Xxx, addressing: AddressingMode::Imp, cycles: 7 },
        0x7c => Instruction { operation: Operation::Nop, addressing: AddressingMode::Imp, cycles: 4 },
        0x7d => Instruction { operation: Operation::Adc, addressing: AddressingMode::Abx, cycles: 4 },
        0x7e => Instruction { operation: Operation::Ror, addressing: AddressingMode::Abx, cycles: 7 },
        0x7f => Instruction { operation: Operation::Xxx, addressing: AddressingMode::Imp, cycles: 7 },
        0x80 => Instruction { operation: Operation::Nop, addressing: AddressingMode::Imm, cycles: 2 },
        0x81 => Instruction { operation: Operation::Sta, addressing: AddressingMode::Izx, cycles: 6 },
        0x82 => Instruction { operation: Operation::Nop, addressing: AddressingMode::Imp, cycles: 2 },
        0x83 => Instruction { operation: Operation::Xxx, addressing: AddressingMode::Imp, cycles: 6 },
        0x84 => Instruction { operation: Operation::Sty, addressing: AddressingMode::Zp0, cycles: 3 },
        0x85 => Instruction { operation: Operation::Sta, addressing: AddressingMode::Zp0, cycles: 3 },
        0x86 => Instruction { operation: Operation::Stx, addressing: AddressingMode::Zp0, cycles: 3 },
        0x87 => Instruction { operation: Operation::Xxx, addressing: AddressingMode::Imp, cycles: 3 },
        0x88 => Instruction { operation: Operation::Dey, addressing: AddressingMode::Imp, cycles: 2 },
        0x89 => Instruction { operation: Operation::Nop, addressing: AddressingMode::Imp, cycles: 2 },
        0x8a => Instruction { operation: Operation::Txa, addressing: AddressingMode::Imp, cycles: 2 },
        0x8b => Instruction { operation: Operation::Xxx, addressing: AddressingMode::Imp, cycles: 2 },
        0x8c => Instruction { operation: Operation::Sty, addressing: AddressingMode::Abs, cycles: 4 },
        0x8d => Instruction { operation: Operation::Sta, addressing: AddressingMode::Abs, cycles: 4 },
        0x8e => Instruction { operation: Operation::Stx, addressing: AddressingMode::Abs, cycles: 4 },
        0x8f => Instruction { operation: Operation::Xxx, addressing: AddressingMode::Imp, cycles: 4 },
        0x90 => Instruction { operation: Operation::Bcc, addressing: AddressingMode::Rel, cycles: 2 },
        0x91 => Instruction { operation: Operation::Sta, addressing: AddressingMode::Izy, cycles: 6 },
        0x92 => Instruction { operation: Operation::Xxx, addressing: AddressingMode::Imp, cycles: 2 },
        0x93 => Instruction { operation: Operation::Xxx, addressing: AddressingMode::Imp, cycles: 6 },
        0x94 => Instruction { operation: Operation::Sty, addressing: AddressingMode::Zpx, cycles: 4 },
        0x95 => Instruction { operation: Operation::Sta, addressing: AddressingMode::Zpx, cycles: 4 },
        0x96 => Instruction { operation: Operation::Stx, addressing: AddressingMode::Zpy, cycles: 4 },
        0x97 => Instruction { operation: Operation::Xxx, addressing: AddressingMode::Imp, cycles: 4 },
        0x98 => Instruction { operation: Operation::Tya, addressing: AddressingMode::Imp, cycles: 2 },
        0x99 => Instruction { operation: Operation::Sta, addressing: AddressingMode::Aby, cycles: 5 },
        0x9a => Instruction { operation: Operation::Txs, addressing: AddressingMode::Imp, cycles: 2 },
        0x9b => Instruction { operation: Operation::Xxx, addressing: AddressingMode::Imp, cycles: 5 },
        0x9c => Instruction { operation: Operation::Nop, addressing: AddressingMode::Imp, cycles: 5 },
        0x9d => Instruction { operation: Operation::Sta, addressing: AddressingMode::Abx, cycles: 5 },
        0x9e => Instruction { operation: Operation::Xxx, addressing: AddressingMode::Imp, cycles: 5 },
        0x9f => Instruction { operation: Operation::Xxx, addressing: AddressingMode::Imp, cycles: 5 },
        0xa0 => Instruction { operation: Operation::Ldy, addressing: AddressingMode::Imm, cycles: 2 },
        0xa1 => Instruction { operation: Operation::Lda, addressing: AddressingMode::Izx, cycles: 6 },
        0xa2 => Instruction { operation: Operation::Ldx, addressing: AddressingMode::Imm, cycles: 2 },
        0xa3 => Instruction { operation: Operation::Xxx, addressing: AddressingMode::Imp, cycles: 6 },
        0xa4 => Instruction { operation: Operation::Ldy, addressing: AddressingMode::Zp0, cycles: 3 },
        0xa5 => Instruction { operation: Operation::Lda, addressing: AddressingMode::Zp0, cycles: 3 },
        0xa6 => Instruction { operation: Operation::Ldx, addressing: AddressingMode::Zp0, cycles: 3 },
        0xa7 => Instruction { operation: Operation::Xxx, addressing: AddressingMode::Imp, cycles: 3 },
        0xa8 => Instruction { operation: Operation::Tay, addressing: AddressingMode::Imp, cycles: 2 },
        0xa9 => Instruction { operation: Operation::Lda, addressing: AddressingMode::Imm, cycles: 2 },
        0xaa => Instruction { operation: Operation::Tax, addressing: AddressingMode::Imp, cycles: 2 },
        0xab => Instruction { operation: Operation::Xxx, addressing: AddressingMode::Imp, cycles: 2 },
        0xac => Instruction { operation: Operation::Ldy, addressing: AddressingMode::Abs, cycles: 4 },
        0xad => Instruction { operation: Operation::Lda, addressing: AddressingMode::Abs, cycles: 4 },
        0xae => Instruction { operation: Operation::Ldx, addressing: AddressingMode::Abs, cycles: 4 },
        0xaf => Instruction { operation: Operation::Xxx, addressing: AddressingMode::Imp, cycles: 4 },
        0xb0 => Instruction { operation: Operation::Bcs, addressing: AddressingMode::Rel, cycles: 2 },
        0xb1 => Instruction { operation: Operation::Lda, addressing: AddressingMode::Izy, cycles: 5 },
        0xb2 => Instruction { operation: Operation::Xxx, addressing: AddressingMode::Imp, cycles: 2 },
        0xb3 => Instruction { operation: Operation::Xxx, addressing: AddressingMode::Imp, cycles: 5 },
        0xb4 => Instruction { operation: Operation::Ldy, addressing: AddressingMode::Zpx, cycles: 4 },
        0xb5 => Instruction { operation: Operation::Lda, addressing: AddressingMode::Zpx, cycles: 4 },
        0xb6 => Instruction { operation: Operation::Ldx, addressing: AddressingMode::Zpy, cycles: 4 },
        0xb7 => Instruction { operation: Operation::Xxx, addressing: AddressingMode::Imp, cycles: 4 },
        0xb8 => Instruction { operation: Operation::Clv, addressing: AddressingMode::Imp, cycles: 2 },
        0xb9 => Instruction { operation: Operation::Lda, addressing: AddressingMode::Aby, cycles: 4 },
        0xba => Instruction { operation: Operation::Tsx, addressing: AddressingMode::Imp, cycles: 2 },
        0xbb => Instruction { operation: Operation::Xxx, addressing: AddressingMode::Imp, cycles: 4 },
        0xbc => Instruction { operation: Operation::Ldy, addressing: AddressingMode::Abx, cycles: 4 },
        0xbd => Instruction { operation: Operation::Lda, addressing: AddressingMode::Abx, cycles: 4 },
        0xbe => Instruction { operation: Operation::Ldx, addressing: AddressingMode::Aby, cycles: 4 },
        0xbf => Instruction { operation: Operation::Xxx, addressing: AddressingMode::Imp, cycles: 4 },
        0xc0 => Instruction { operation: Operation::Cpy, addressing: AddressingMode::Imm, cycles: 2 },
        0xc1 => Instruction { operation: Operation::Cmp, addressing: AddressingMode::Izx, cycles: 6 },
        0xc2 => Instruction { operation: Operation::Nop, addressing: AddressingMode::Imp, cycles: 2 },
        0xc3 => Instruction { operation: Operation::Xxx, addressing: AddressingMode::Imp, cycles: 8 },
        0xc4 => Instruction { operation: Operation::Cpy, addressing: AddressingMode::Zp0, cycles: 3 },
        0xc5 => Instruction { operation: Operation::Cmp, addressing: AddressingMode::Zp0, cycles: 3 },
        0xc6 => Instruction { operation: Operation::Dec, addressing: AddressingMode::Zp0, cycles: 5 },
        0xc7 => Instruction { operation: Operation::Xxx, addressing: AddressingMode::Imp, cycles: 5 },
        0xc8 => Instruction { operation: Operation::Iny, addressing: AddressingMode::Imp, cycles: 2 },
        0xc9 => Instruction { operation: Operation::Cmp, addressing: AddressingMode::Imm, cycles: 2 },
        0xca => Instruction { operation: Operation::Dex, addressing: AddressingMode::Imp, cycles: 2 },
        0xcb => Instruction { operation: Operation::Xxx, addressing: AddressingMode::Imp, cycles: 2 },
        0xcc => Instruction { operation: Operation::Cpy, addressing: AddressingMode::Abs, cycles: 4 },
        0xcd => Instruction { operation: Operation::Cmp, addressing: AddressingMode::Abs, cycles: 4 },
        0xce => Instruction { operation: Operation::Dec, addressing: AddressingMode::Abs, cycles: 6 },
        0xcf => Instruction { operation: Operation::Xxx, addressing: AddressingMode::Imp, cycles: 6 },
        0xd0 => Instruction { operation: Operation::Bne, addressing: AddressingMode::Rel, cycles: 2 },
        0xd1 => Instruction { operation: Operation::Cmp, addressing: AddressingMode::Izy, cycles: 5 },
        0xd2 => Instruction { operation: Operation::Xxx, addressing: AddressingMode::Imp, cycles: 2 },
        0xd3 => Instruction { operation: Operation::Xxx, addressing: AddressingMode::Imp, cycles: 8 },
        0xd4 => Instruction { operation: Operation::Nop, addressing: AddressingMode::Imp, cycles: 4 },
        0xd5 => Instruction { operation: Operation::Cmp, addressing: AddressingMode::Zpx, cycles: 4 },
        0xd6 => Instruction { operation: Operation::Dec, addressing: AddressingMode::Zpx, cycles: 6 },
        0xd7 => Instruction { operation: Operation::Xxx, addressing: AddressingMode::Imp, cycles: 6 },
        0xd8 => Instruction { operation: Operation::Cld, addressing: AddressingMode::Imp, cycles: 2 },
        0xd9 => Instruction { operation: Operation::Cmp, addressing: AddressingMode::Aby, cycles: 4 },
        0xda => Instruction { operation: Operation::Nop, addressing: AddressingMode::Imp, cycles: 2 },
        0xdb => Instruction { operation: Operation::Xxx, addressing: AddressingMode::Imp, cycles: 7 },
        0xdc => Instruction { operation: Operation::Nop, addressing: AddressingMode::Imp, cycles: 4 },
        0xdd => Instruction { operation: Operation::Cmp, addressing: AddressingMode::Abx, cycles: 4 },
        0xde => Instruction { operation: Operation::Dec, addressing: AddressingMode::Abx, cycles: 7 },
        0xdf => Instruction { operation: Operation::Xxx, addressing: AddressingMode::Imp, cycles: 7 },
        0xe0 => Instruction { operation: Operation::Cpx, addressing: AddressingMode::Imm, cycles: 2 },
        0xe1 => Instruction { operation: Operation::Sbc, addressing: AddressingMode::Izx, cycles: 6 },
        0xe2 => Instruction { operation: Operation::Nop, addressing: AddressingMode::Imp, cycles: 2 },
        0xe3 => Instruction { operation: Operation::Xxx, addressing: AddressingMode::Imp, cycles: 8 },
        0xe4 => Instruction { operation: Operation::Cpx, addressing: AddressingMode::Zp0, cycles: 3 },
        0xe5 => Instruction { operation: Operation::Sbc, addressing: AddressingMode::Zp0, cycles: 3 },
        0xe6 => Instruction { operation: Operation::Inc, addressing: AddressingMode::Zp0, cycles: 5 },
        0xe7 => Instruction { operation: Operation::Xxx, addressing: AddressingMode::Imp, cycles: 5 },
        0xe8 => Instruction { operation: Operation::Inx, addressing: AddressingMode::Imp, cycles: 2 },
        0xe9 => Instruction { operation: Operation::Sbc, addressing: AddressingMode::Imm, cycles: 2 },
        0xea => Instruction { operation: Operation::Nop, addressing: AddressingMode::Imp, cycles: 2 },
        0xeb => Instruction { operation: Operation::Sbc, addressing: AddressingMode::Imp, cycles: 2 },
        0xec => Instruction { operation: Operation::Cpx, addressing: AddressingMode::Abs, cycles: 4 },
        0xed => Instruction { operation: Operation::Sbc, addressing: AddressingMode::Abs, cycles: 4 },
        0xee => Instruction { operation: Operation::Inc, addressing: AddressingMode::Abs, cycles: 6 },
        0xef => Instruction { operation: Operation::Xxx, addressing: AddressingMode::Imp, cycles: 6 },
        0xf0 => Instruction { operation: Operation::Beq, addressing: AddressingMode::Rel, cycles: 2 },
        0xf1 => Instruction { operation: Operation::Sbc, addressing: AddressingMode::Izy, cycles: 5 },
        0xf2 => Instruction { operation: Operation::Xxx, addressing: AddressingMode::Imp, cycles: 2 },
        0xf3 => Instruction { operation: Operation::Xxx, addressing: AddressingMode::Imp, cycles: 8 },
        0xf4 => Instruction { operation: Operation::Nop, addressing: AddressingMode::Imp, cycles: 4 },
        0xf5 => Instruction { operation: Operation::Sbc, addressing: AddressingMode::Zpx, cycles: 4 },
        0xf6 => Instruction { operation: Operation::Inc, addressing: AddressingMode::Zpx, cycles: 6 },
        0xf7 => Instruction { operation: Operation::Xxx, addressing: AddressingMode::Imp, cycles: 6 },
        0xf8 => Instruction { operation: Operation::Sed, addressing: AddressingMode::Imp, cycles: 2 },
        0xf9 => Instruction { operation: Operation::Sbc, addressing: AddressingMode::Aby, cycles: 4 },
        0xfa => Instruction { operation: Operation::Nop, addressing: AddressingMode::Imp, cycles: 2 },
        0xfb => Instruction { operation: Operation::Xxx, addressing: AddressingMode::Imp, cycles: 7 },
        0xfc => Instruction { operation: Operation::Nop, addressing: AddressingMode::Imp, cycles: 4 },
        0xfd => Instruction { operation: Operation::Sbc, addressing: AddressingMode::Abx, cycles: 4 },
        0xfe => Instruction { operation: Operation::Inc, addressing: AddressingMode::Abx, cycles: 7 },
        _ => Instruction { operation: Operation::Xxx, addressing: AddressingMode::Imp, cycles: 7 },
    }
}

/// The operand byte an addressing result denotes, where the bus contracts pin
/// it down: the implied value, or the bus byte at the target address.
pub open spec fn spec_ar_value<C: Cartdrige, P: InputProvider, O: PpuOutput>(
    d: &BusDevices<C, P, O>,
    ar: AddressingResult,
) -> u8 {
    match ar {
        AddressingResult::Implicit { data } => data,
        AddressingResult::ReadFrom { address, cycles } => d.spec_read_value(address, false),
        AddressingResult::ProgramCounterRelative { address_rel } => 0,
    }
}

/// Whether the operand byte is pinned down by the bus contracts.
pub open spec fn spec_ar_known<C: Cartdrige, P: InputProvider, O: PpuOutput>(
    d: &BusDevices<C, P, O>,
    ar: AddressingResult,
) -> bool {
    match ar {
        AddressingResult::ReadFrom { address, cycles } => spec_value_known(d, address),
        _ => true,
    }
}

/// Whether fetching the operand leaves the bus exactly as it was.
pub open spec fn spec_ar_plain<C: Cartdrige, P: InputProvider, O: PpuOutput>(
    d: &BusDevices<C, P, O>,
    ar: AddressingResult,
) -> bool {
    match ar {
        AddressingResult::ReadFrom { address, cycles } => d.spec_plain_read(address),
        _ => true,
    }
}

/// Add-with-carry's full register/flag effect for operand byte `m`.
pub open spec fn spec_adc_effect(pre: Cpu, m: u8, post: Cpu) -> bool {
    &&& post.a == spec_adc_result(pre.a, m, pre.flags.c())
    &&& post.flags.c() == (spec_adc_sum(pre.a, m, pre.flags.c()) > 255)
    &&& post.flags.z() == (post.a == 0)
    &&& post.flags.n() == (post.a >= 0x80)
    &&& post.flags.v() == spec_overflow_flag(pre.a, m, post.a)
    &&& spec_idbu_unchanged(pre, post)
    &&& spec_only_a_and_flags_changed(pre, post)
}

/// A bitwise accumulator operation's effect: the result byte lands in A and
/// drives Zero and Negative; Carry and Overflow are untouched.
pub open spec fn spec_bitop_effect(pre: Cpu, result: u8, post: Cpu) -> bool {
    &&& post.a == result
    &&& post.flags.z() == (result == 0)
    &&& post.flags.n() == (result >= 0x80)
    &&& post.flags.c() == pre.flags.c()
    &&& post.flags.v() == pre.flags.v()
    &&& spec_idbu_unchanged(pre, post)
    &&& spec_only_a_and_flags_changed(pre, post)
}

/// A register load's effect: the byte lands in the register and drives Zero
/// and Negative; Carry and Overflow are untouched.
pub open spec fn spec_load_flags(pre: Cpu, m: u8, post: Cpu) -> bool {
    &&& post.flags.z() == (m == 0)
    &&& post.flags.n() == (m >= 0x80)
    &&& post.flags.c() == pre.flags.c()
    &&& post.flags.v() == pre.flags.v()
    &&& spec_idbu_unchanged(pre, post)
}

/// A comparison's effect: Carry iff the register is at least the operand,
/// Zero iff equal, Negative from bit 7 of the wrapped difference.
pub open spec fn spec_compare_effect(pre: Cpu, reg: u8, m: u8, post: Cpu) -> bool {
    &&& post.flags.c() == (reg >= m)
    &&& post.flags.z() == (reg == m)
    &&& post.flags.n() == ((reg - m) % 256 >= 128)
    &&& post.flags.v() == pre.flags.v()
    &&& spec_idbu_unchanged(pre, post)
    &&& post.a == pre.a
    &&& spec_only_a_and_flags_changed(pre, post)
}

/// The shift and rotate result bytes.
pub open spec fn spec_asl_res(m: u8) -> u8 {
    ((m * 2) % 256) as u8
}

pub open spec fn spec_lsr_res(m: u8) -> u8 {
    m / 2
}

pub open spec fn spec_rol_res(m: u8, c: bool) -> u8 {
    ((m * 2 + (if c { 1int } else { 0int })) % 256) as u8
}

pub open spec fn spec_ror_res(m: u8, c: bool) -> u8 {
    ((if c { 128int } else { 0int }) + m / 2) as u8
}

/// A shift's flag effect: Carry takes the bit shifted out, Zero and Negative
/// come from the result byte.
pub open spec fn spec_shift_flags(pre: Cpu, carry_out: bool, res: u8, post: Cpu) -> bool {
    &&& post.flags.c() == carry_out
    &&& post.flags.z() == (res == 0)
    &&& post.flags.n() == (res >= 0x80)
    &&& post.flags.v() == pre.flags.v()
    &&& spec_idbu_unchanged(pre, post)
    &&& post.x == pre.x
    &&& post.y == pre.y
    &&& post.stack_pointer == pre.stack_pointer
    &&& post.pc == pre.pc
    &&& post.rem_cycles == pre.rem_cycles
}

/// Add the operand to A with carry.
pub fn op_adc<C: Cartdrige, P: InputProvider, O: PpuOutput>(
    cpu: &mut Cpu,
    bus: &mut BusDevices<C, P, O>,
    ar: &AddressingResult,
) -> (r: i8)
    requires
        old(bus).wf(),
    ensures
        final(bus).wf(),
        spec_frame_counters_eq(old(bus), final(bus)),
        cart_views_eq(old(bus).cartdrige, final(bus).cartdrige),
        final(bus).cpu_ram == old(bus).cpu_ram,
        final(bus).dma == old(bus).dma,
        spec_ar_plain(old(bus), *ar) ==> *final(bus) == *old(bus),
        spec_ar_known(old(bus), *ar) ==> spec_adc_effect(*old(cpu), spec_ar_value(old(bus), *ar), *final(cpu)),
        exists|m: u8| #[trigger] spec_adc_effect(*old(cpu), m, *final(cpu)),
        r == 1,
{
    let m = ar.fetch(bus);
    cpu.do_adc(m);
    proof {
        assert(spec_adc_effect(*old(cpu), m, *cpu));
    }
    1
}

/// Subtract the operand from A with borrow: the operand is one's-complemented and the add-with-carry path reused.
pub fn op_sbc<C: Cartdrige, P: InputProvider, O: PpuOutput>(
    cpu: &mut Cpu,
    bus: &mut BusDevices<C, P, O>,
    ar: &AddressingResult,
) -> (r: i8)
    requires
        old(bus).wf(),
    ensures
        final(bus).wf(),
        spec_frame_counters_eq(old(bus), final(bus)),
        cart_views_eq(old(bus).cartdrige, final(bus).cartdrige),
        final(bus).cpu_ram == old(bus).cpu_ram,
        final(bus).dma == old(bus).dma,
        spec_ar_plain(old(bus), *ar) ==> *final(bus) == *old(bus),
        spec_ar_known(old(bus), *ar) ==> spec_adc_effect(*old(cpu), !spec_ar_value(old(bus), *ar), *final(cpu)),
        exists|m: u8| #[trigger] spec_adc_effect(*old(cpu), m, *final(cpu)),
        r == 1,
{
    let m = ar.fetch(bus);
    cpu.do_sbc(m);
    proof {
        assert(spec_adc_effect(*old(cpu), !m, *cpu));
    }
    1
}

/// A := A & operand, setting Zero and Negative.
pub fn op_and<C: Cartdrige, P: InputProvider, O: PpuOutput>(
    cpu: &mut Cpu,
    bus: &mut BusDevices<C, P, O>,
    ar: &AddressingResult,
) -> (r: i8)
    requires
        old(bus).wf(),
    ensures
        final(bus).wf(),
        spec_frame_counters_eq(old(bus), final(bus)),
        cart_views_eq(old(bus).cartdrige, final(bus).cartdrige),
        final(bus).cpu_ram == old(bus).cpu_ram,
        final(bus).dma == old(bus).dma,
        spec_ar_plain(old(bus), *ar) ==> *final(bus) == *old(bus),
        spec_ar_known(old(bus), *ar) ==> spec_bitop_effect(*old(cpu), old(cpu).a & spec_ar_value(old(bus), *ar), *final(cpu)),
        exists|m: u8| #[trigger] spec_bitop_effect(*old(cpu), (old(cpu).a & m) as u8, *final(cpu)),
        r == 1,
{
    let m = ar.fetch(bus);
    cpu.do_and(m);
    proof {
        assert(spec_bitop_effect(*old(cpu), (old(cpu).a & m) as u8, *cpu));
    }
    1
}

/// A := A | operand, setting Zero and Negative.
pub fn op_ora<C: Cartdrige, P: InputProvider, O: PpuOutput>(
    cpu: &mut Cpu,
    bus: &mut BusDevices<C, P, O>,
    ar: &AddressingResult,
) -> (r: i8)
    requires
        old(bus).wf(),
    ensures
        final(bus).wf(),
        spec_frame_counters_eq(old(bus), final(bus)),
        cart_views_eq(old(bus).cartdrige, final(bus).cartdrige),
        final(bus).cpu_ram == old(bus).cpu_ram,
        final(bus).dma == old(bus).dma,
        spec_ar_plain(old(bus), *ar) ==> *final(bus) == *old(bus),
        spec_ar_known(old(bus), *ar) ==> spec_bitop_effect(*old(cpu), old(cpu).a | spec_ar_value(old(bus), *ar), *final(cpu)),
        exists|m: u8| #[trigger] spec_bitop_effect(*old(cpu), (old(cpu).a | m) as u8, *final(cpu)),
        r == 1,
{
    let m = ar.fetch(bus);
    cpu.do_ora(m);
    proof {
        assert(spec_bitop_effect(*old(cpu), (old(cpu).a | m) as u8, *cpu));
    }
    1
}

/// A := A ^ operand, setting Zero and Negative.
pub fn op_eor<C: Cartdrige, P: InputProvider, O: PpuOutput>(
    cpu: &mut Cpu,
    bus: &mut BusDevices<C, P, O>,
    ar: &AddressingResult,
) -> (r: i8)
    requires
        old(bus).wf(),
    ensures
        final(bus).wf(),
        spec_frame_counters_eq(old(bus), final(bus)),
        cart_views_eq(old(bus).cartdrige, final(bus).cartdrige),
        final(bus).cpu_ram == old(bus).cpu_ram,
        final(bus).dma == old(bus).dma,
        spec_ar_plain(old(bus), *ar) ==> *final(bus) == *old(bus),
        spec_ar_known(old(bus), *ar) ==> spec_bitop_effect(*old(cpu), old(cpu).a ^ spec_ar_value(old(bus), *ar), *final(cpu)),
        exists|m: u8| #[trigger] spec_bitop_effect(*old(cpu), (old(cpu).a ^ m) as u8, *final(cpu)),
        r == 1,
{
    let m = ar.fetch(bus);
    cpu.do_eor(m);
    proof {
        assert(spec_bitop_effect(*old(cpu), (old(cpu).a ^ m) as u8, *cpu));
    }
    1
}

/// Load the operand into A, setting Zero and Negative.
pub fn op_lda<C: Cartdrige, P: InputProvider, O: PpuOutput>(
    cpu: &mut Cpu,
    bus: &mut BusDevices<C, P, O>,
    ar: &AddressingResult,
) -> (r: i8)
    requires
        old(bus).wf(),
    ensures
        final(bus).wf(),
        spec_frame_counters_eq(old(bus), final(bus)),
        cart_views_eq(old(bus).cartdrige, final(bus).cartdrige),
        final(bus).cpu_ram == old(bus).cpu_ram,
        final(bus).dma == old(bus).dma,
        spec_ar_plain(old(bus), *ar) ==> *final(bus) == *old(bus),
        spec_ar_known(old(bus), *ar) ==> spec_bitop_effect(*old(cpu), spec_ar_value(old(bus), *ar), *final(cpu)),
        exists|m: u8| #[trigger] spec_bitop_effect(*old(cpu), m, *final(cpu)),
        r == 1,
{
    let m = ar.fetch(bus);
    cpu.do_lda(m);
    proof {
        assert(spec_bitop_effect(*old(cpu), m, *cpu));
    }
    1
}

/// Load the operand into X, setting Zero and Negative.
pub fn op_ldx<C: Cartdrige, P: InputProvider, O: PpuOutput>(
    cpu: &mut Cpu,
    bus: &mut BusDevices<C, P, O>,
    ar: &AddressingResult,
) -> (r: i8)
    requires
        old(bus).wf(),
    ensures
        final(bus).wf(),
        spec_frame_counters_eq(old(bus), final(bus)),
        cart_views_eq(old(bus).cartdrige, final(bus).cartdrige),
        final(bus).cpu_ram == old(bus).cpu_ram,
        final(bus).dma == old(bus).dma,
        spec_ar_plain(old(bus), *ar) ==> *final(bus) == *old(bus),
        spec_ar_known(old(bus), *ar) ==> ({
            let m = spec_ar_value(old(bus), *ar);
            final(cpu).x == m && spec_load_flags(*old(cpu), m, *final(cpu)) && final(cpu).a == old(cpu).a && final(cpu).y == old(cpu).y && final(cpu).stack_pointer == old(cpu).stack_pointer && final(cpu).pc == old(cpu).pc
                && final(cpu).rem_cycles == old(cpu).rem_cycles
        }),
        exists|m: u8| #[trigger] spec_load_flags(*old(cpu), m, *final(cpu)) && final(cpu).x == m,
        r == 1,
        final(cpu).rem_cycles == old(cpu).rem_cycles,
{
    let m = ar.fetch(bus);
    cpu.x = m;
    cpu.set_zn(m);
    proof {
        assert(spec_load_flags(*old(cpu), m, *cpu));
    }
    1
}

/// Load the operand into Y, setting Zero and Negative.
pub fn op_ldy<C: Cartdrige, P: InputProvider, O: PpuOutput>(
    cpu: &mut Cpu,
    bus: &mut BusDevices<C, P, O>,
    ar: &AddressingResult,
) -> (r: i8)
    requires
        old(bus).wf(),
    ensures
        final(bus).wf(),
        spec_frame_counters_eq(old(bus), final(bus)),
        cart_views_eq(old(bus).cartdrige, final(bus).cartdrige),
        final(bus).cpu_ram == old(bus).cpu_ram,
        final(bus).dma == old(bus).dma,
        spec_ar_plain(old(bus), *ar) ==> *final(bus) == *old(bus),
        spec_ar_known(old(bus), *ar) ==> ({
            let m = spec_ar_value(old(bus), *ar);
            final(cpu).y == m && spec_load_flags(*old(cpu), m, *final(cpu)) && final(cpu).a == old(cpu).a && final(cpu).x == old(cpu).x && final(cpu).stack_pointer == old(cpu).stack_pointer && final(cpu).pc == old(cpu).pc
                && final(cpu).rem_cycles == old(cpu).rem_cycles
        }),
        exists|m: u8| #[trigger] spec_load_flags(*old(cpu), m, *final(cpu)) && final(cpu).y == m,
        r == 1,
        final(cpu).rem_cycles == old(cpu).rem_cycles,
{
    let m = ar.fetch(bus);
    cpu.y = m;
    cpu.set_zn(m);
    proof {
        assert(spec_load_flags(*old(cpu), m, *cpu));
    }
    1
}

/// Compare A with the operand.
pub fn op_cmp<C: Cartdrige, P: InputProvider, O: PpuOutput>(
    cpu: &mut Cpu,
    bus: &mut BusDevices<C, P, O>,
    ar: &AddressingResult,
) -> (r: i8)
    requires
        old(bus).wf(),
    ensures
        final(bus).wf(),
        spec_frame_counters_eq(old(bus), final(bus)),
        cart_views_eq(old(bus).cartdrige, final(bus).cartdrige),
        final(bus).cpu_ram == old(bus).cpu_ram,
        final(bus).dma == old(bus).dma,
        spec_ar_plain(old(bus), *ar) ==> *final(bus) == *old(bus),
        spec_ar_known(old(bus), *ar) ==> spec_compare_effect(*old(cpu), old(cpu).a, spec_ar_value(old(bus), *ar), *final(cpu)),
        exists|m: u8| #[trigger] spec_compare_effect(*old(cpu), old(cpu).a, m, *final(cpu)),
        r == 1,
{
    let m = ar.fetch(bus);
    let a0 = cpu.a;
    cpu.do_compare(a0, m);
    proof {
        assert(spec_compare_effect(*old(cpu), old(cpu).a, m, *cpu));
    }
    1
}

/// Compare X with the operand.
pub fn op_cpx<C: Cartdrige, P: InputProvider, O: PpuOutput>(
    cpu: &mut Cpu,
    bus: &mut BusDevices<C, P, O>,
    ar: &AddressingResult,
) -> (r: i8)
    requires
        old(bus).wf(),
    ensures
        final(bus).wf(),
        spec_frame_counters_eq(old(bus), final(bus)),
        cart_views_eq(old(bus).cartdrige, final(bus).cartdrige),
        final(bus).cpu_ram == old(bus).cpu_ram,
        final(bus).dma == old(bus).dma,
        spec_ar_plain(old(bus), *ar) ==> *final(bus) == *old(bus),
        spec_ar_known(old(bus), *ar) ==> spec_compare_effect(*old(cpu), old(cpu).x, spec_ar_value(old(bus), *ar), *final(cpu)),
        exists|m: u8| #[trigger] spec_compare_effect(*old(cpu), old(cpu).x, m, *final(cpu)),
        r == 1,
{
    let m = ar.fetch(bus);
    let x0 = cpu.x;
    cpu.do_compare(x0, m);
    proof {
        assert(spec_compare_effect(*old(cpu), old(cpu).x, m, *cpu));
    }
    1
}

/// Compare Y with the operand.
pub fn op_cpy<C: Cartdrige, P: InputProvider, O: PpuOutput>(
    cpu: &mut Cpu,
    bus: &mut BusDevices<C, P, O>,
    ar: &AddressingResult,
) -> (r: i8)
    requires
        old(bus).wf(),
    ensures
        final(bus).wf(),
        spec_frame_counters_eq(old(bus), final(bus)),
        cart_views_eq(old(bus).cartdrige, final(bus).cartdrige),
        final(bus).cpu_ram == old(bus).cpu_ram,
        final(bus).dma == old(bus).dma,
        spec_ar_plain(old(bus), *ar) ==> *final(bus) == *old(bus),
        spec_ar_known(old(bus), *ar) ==> spec_compare_effect(*old(cpu), old(cpu).y, spec_ar_value(old(bus), *ar), *final(cpu)),
        exists|m: u8| #[trigger] spec_compare_effect(*old(cpu), old(cpu).y, m, *final(cpu)),
        r == 1,
{
    let m = ar.fetch(bus);
    let y0 = cpu.y;
    cpu.do_compare(y0, m);
    proof {
        assert(spec_compare_effect(*old(cpu), old(cpu).y, m, *cpu));
    }
    1
}

/// Bit test: Zero from A & operand, Negative and Overflow copied from the operand.
pub fn op_bit<C: Cartdrige, P: InputProvider, O: PpuOutput>(
    cpu: &mut Cpu,
    bus: &mut BusDevices<C, P, O>,
    ar: &AddressingResult,
) -> (r: i8)
    requires
        old(bus).wf(),
    ensures
        final(bus).wf(),
        spec_frame_counters_eq(old(bus), final(bus)),
        cart_views_eq(old(bus).cartdrige, final(bus).cartdrige),
        final(bus).cpu_ram == old(bus).cpu_ram,
        final(bus).dma == old(bus).dma,
        spec_ar_plain(old(bus), *ar) ==> *final(bus) == *old(bus),
        spec_ar_known(old(bus), *ar) ==> ({
            let m = spec_ar_value(old(bus), *ar);
            final(cpu).flags.z() == (old(cpu).a & m == 0) && final(cpu).flags.n() == (m & 0x80 != 0) && final(cpu).flags.v() == (m & 0x40 != 0) && final(cpu).flags.c() == old(cpu).flags.c() && spec_idbu_unchanged(
                *old(cpu),
                *final(cpu),
            ) && final(cpu).a == old(cpu).a && spec_only_a_and_flags_changed(*old(cpu), *final(cpu))
        }),
        spec_only_a_and_flags_changed(*old(cpu), *final(cpu)),
        final(cpu).a == old(cpu).a,
        r == 0,
{
    let m = ar.fetch(bus);
    cpu.do_bit(m);
    0
}

/// Arithmetic shift left of the operand, in place (accumulator or memory).
pub fn op_asl<C: Cartdrige, P: InputProvider, O: PpuOutput>(
    cpu: &mut Cpu,
    bus: &mut BusDevices<C, P, O>,
    ar: &AddressingResult,
) -> (r: i8)
    requires
        old(bus).wf(),
    ensures
        final(bus).wf(),
        spec_frame_counters_eq(old(bus), final(bus)),
        (old(bus).cartdrige is Some) <==> (final(bus).cartdrige is Some),
        r == 0,
        final(cpu).rem_cycles == old(cpu).rem_cycles,
        *ar matches AddressingResult::Implicit { data } ==> *final(bus) == *old(bus) && final(cpu).a == spec_asl_res(data) && spec_shift_flags(*old(cpu), (data >= 0x80), spec_asl_res(data), *final(cpu)),
        *ar matches AddressingResult::ReadFrom { address, cycles } ==> ({
            let m = old(bus).spec_read_value(address, false);
            &&& (spec_value_known(old(bus), address) ==> spec_shift_flags(*old(cpu), (m >= 0x80), spec_asl_res(m), *final(cpu)) && final(cpu).a == old(cpu).a)
            &&& (spec_value_known(old(bus), address) && old(bus).spec_plain_read(address) && address <= 0x1fff && !old(bus).spec_cart_cpu_write_claims(address) ==> final(bus).cpu_ram@ == old(bus).cpu_ram@.update((address % 0x800) as int, spec_asl_res(m)))
        }),
{
    let m = ar.fetch(bus);
    let result = cpu.do_asl(m);
    match ar {
        AddressingResult::Implicit { data: _ } => {
            cpu.a = result;
        },
        AddressingResult::ReadFrom { address, cycles: _ } => {
            bus.cpu_write(*address, result);
        },
        AddressingResult::ProgramCounterRelative { address_rel: _ } => {},
    }
    0
}

/// Logical shift right of the operand, in place (accumulator or memory).
pub fn op_lsr<C: Cartdrige, P: InputProvider, O: PpuOutput>(
    cpu: &mut Cpu,
    bus: &mut BusDevices<C, P, O>,
    ar: &AddressingResult,
) -> (r: i8)
    requires
        old(bus).wf(),
    ensures
        final(bus).wf(),
        spec_frame_counters_eq(old(bus), final(bus)),
        (old(bus).cartdrige is Some) <==> (final(bus).cartdrige is Some),
        r == 0,
        final(cpu).rem_cycles == old(cpu).rem_cycles,
        *ar matches AddressingResult::Implicit { data } ==> *final(bus) == *old(bus) && final(cpu).a == spec_lsr_res(data) && spec_shift_flags(*old(cpu), (data % 2 == 1), spec_lsr_res(data), *final(cpu)),
        *ar matches AddressingResult::ReadFrom { address, cycles } ==> ({
            let m = old(bus).spec_read_value(address, false);
            &&& (spec_value_known(old(bus), address) ==> spec_shift_flags(*old(cpu), (m % 2 == 1), spec_lsr_res(m), *final(cpu)) && final(cpu).a == old(cpu).a)
            &&& (spec_value_known(old(bus), address) && old(bus).spec_plain_read(address) && address <= 0x1fff && !old(bus).spec_cart_cpu_write_claims(address) ==> final(bus).cpu_ram@ == old(bus).cpu_ram@.update((address % 0x800) as int, spec_lsr_res(m)))
        }),
{
    let m = ar.fetch(bus);
    let result = cpu.do_lsr(m);
    match ar {
        AddressingResult::Implicit { data: _ } => {
            cpu.a = result;
        },
        AddressingResult::ReadFrom { address, cycles: _ } => {
            bus.cpu_write(*address, result);
        },
        AddressingResult::ProgramCounterRelative { address_rel: _ } => {},
    }
    0
}

/// Rotate the operand left through Carry, in place (accumulator or memory).
pub fn op_rol<C: Cartdrige, P: InputProvider, O: PpuOutput>(
    cpu: &mut Cpu,
    bus: &mut BusDevices<C, P, O>,
    ar: &AddressingResult,
) -> (r: i8)
    requires
        old(bus).wf(),
    ensures
        final(bus).wf(),
        spec_frame_counters_eq(old(bus), final(bus)),
        (old(bus).cartdrige is Some) <==> (final(bus).cartdrige is Some),
        r == 0,
        final(cpu).rem_cycles == old(cpu).rem_cycles,
        *ar matches AddressingResult::Implicit { data } ==> *final(bus) == *old(bus) && final(cpu).a == spec_rol_res(data, old(cpu).flags.c()) && spec_shift_flags(*old(cpu), (data >= 0x80), spec_rol_res(data, old(cpu).flags.c()), *final(cpu)),
        *ar matches AddressingResult::ReadFrom { address, cycles } ==> ({
            let m = old(bus).spec_read_value(address, false);
            &&& (spec_value_known(old(bus), address) ==> spec_shift_flags(*old(cpu), (m >= 0x80), spec_rol_res(m, old(cpu).flags.c()), *final(cpu)) && final(cpu).a == old(cpu).a)
            &&& (spec_value_known(old(bus), address) && old(bus).spec_plain_read(address) && address <= 0x1fff && !old(bus).spec_cart_cpu_write_claims(address) ==> final(bus).cpu_ram@ == old(bus).cpu_ram@.update((address % 0x800) as int, spec_rol_res(m, old(cpu).flags.c())))
        }),
{
    let m = ar.fetch(bus);
    let result = cpu.do_rol(m);
    match ar {
        AddressingResult::Implicit { data: _ } => {
            cpu.a = result;
        },
        AddressingResult::ReadFrom { address, cycles: _ } => {
            bus.cpu_write(*address, result);
        },
        AddressingResult::ProgramCounterRelative { address_rel: _ } => {},
    }
    0
}

/// Rotate the operand right through Carry, in place (accumulator or memory).
pub fn op_ror<C: Cartdrige, P: InputProvider, O: PpuOutput>(
    cpu: &mut Cpu,
    bus: &mut BusDevices<C, P, O>,
    ar: &AddressingResult,
) -> (r: i8)
    requires
        old(bus).wf(),
    ensures
        final(bus).wf(),
        spec_frame_counters_eq(old(bus), final(bus)),
        (old(bus).cartdrige is Some) <==> (final(bus).cartdrige is Some),
        r == 0,
        final(cpu).rem_cycles == old(cpu).rem_cycles,
        *ar matches AddressingResult::Implicit { data } ==> *final(bus) == *old(bus) && final(cpu).a == spec_ror_res(data, old(cpu).flags.c()) && spec_shift_flags(*old(cpu), (data % 2 == 1), spec_ror_res(data, old(cpu).flags.c()), *final(cpu)),
        *ar matches AddressingResult::ReadFrom { address, cycles } ==> ({
            let m = old(bus).spec_read_value(address, false);
            &&& (spec_value_known(old(bus), address) ==> spec_shift_flags(*old(cpu), (m % 2 == 1), spec_ror_res(m, old(cpu).flags.c()), *final(cpu)) && final(cpu).a == old(cpu).a)
            &&& (spec_value_known(old(bus), address) && old(bus).spec_plain_read(address) && address <= 0x1fff && !old(bus).spec_cart_cpu_write_claims(address) ==> final(bus).cpu_ram@ == old(bus).cpu_ram@.update((address % 0x800) as int, spec_ror_res(m, old(cpu).flags.c())))
        }),
{
    let m = ar.fetch(bus);
    let result = cpu.do_ror(m);
    match ar {
        AddressingResult::Implicit { data: _ } => {
            cpu.a = result;
        },
        AddressingResult::ReadFrom { address, cycles: _ } => {
            bus.cpu_write(*address, result);
        },
        AddressingResult::ProgramCounterRelative { address_rel: _ } => {},
    }
    0
}

/// Decrement the addressed byte, setting Zero and Negative from the result.
pub fn op_dec<C: Cartdrige, P: InputProvider, O: PpuOutput>(
    cpu: &mut Cpu,
    bus: &mut BusDevices<C, P, O>,
    ar: &AddressingResult,
) -> (r: i8)
    requires
        old(bus).wf(),
    ensures
        final(bus).wf(),
        spec_frame_counters_eq(old(bus), final(bus)),
        (old(bus).cartdrige is Some) <==> (final(bus).cartdrige is Some),
        r == 0,
        final(cpu).a == old(cpu).a,
        spec_only_a_and_flags_changed(*old(cpu), *final(cpu)),
        spec_idbu_unchanged(*old(cpu), *final(cpu)),
        final(cpu).flags.c() == old(cpu).flags.c(),
        final(cpu).flags.v() == old(cpu).flags.v(),
        *ar matches AddressingResult::ReadFrom { address, cycles } ==> ({
            let m = old(bus).spec_read_value(address, false);
            &&& (spec_value_known(old(bus), address) ==> final(cpu).flags.z() == (((m + 255) % 256) as u8 == 0) && final(cpu).flags.n() == (((m + 255) % 256) as u8 >= 0x80))
            &&& (spec_value_known(old(bus), address) && old(bus).spec_plain_read(address) && address <= 0x1fff && !old(bus).spec_cart_cpu_write_claims(address) ==> final(bus).cpu_ram@ == old(bus).cpu_ram@.update((address % 0x800) as int, ((m + 255) % 256) as u8))
        }),
{
    let m = ar.fetch(bus);
    let temp = m.wrapping_sub(1);
    match ar {
        AddressingResult::ReadFrom { address, cycles: _ } => {
            bus.cpu_write(*address, temp);
        },
        _ => {},
    }
    cpu.set_zn(temp);
    0
}

/// Increment the addressed byte, setting Zero and Negative from the result.
pub fn op_inc<C: Cartdrige, P: InputProvider, O: PpuOutput>(
    cpu: &mut Cpu,
    bus: &mut BusDevices<C, P, O>,
    ar: &AddressingResult,
) -> (r: i8)
    requires
        old(bus).wf(),
    ensures
        final(bus).wf(),
        spec_frame_counters_eq(old(bus), final(bus)),
        (old(bus).cartdrige is Some) <==> (final(bus).cartdrige is Some),
        r == 0,
        final(cpu).a == old(cpu).a,
        spec_only_a_and_flags_changed(*old(cpu), *final(cpu)),
        spec_idbu_unchanged(*old(cpu), *final(cpu)),
        final(cpu).flags.c() == old(cpu).flags.c(),
        final(cpu).flags.v() == old(cpu).flags.v(),
        *ar matches AddressingResult::ReadFrom { address, cycles } ==> ({
            let m = old(bus).spec_read_value(address, false);
            &&& (spec_value_known(old(bus), address) ==> final(cpu).flags.z() == (((m + 1) % 256) as u8 == 0) && final(cpu).flags.n() == (((m + 1) % 256) as u8 >= 0x80))
            &&& (spec_value_known(old(bus), address) && old(bus).spec_plain_read(address) && address <= 0x1fff && !old(bus).spec_cart_cpu_write_claims(address) ==> final(bus).cpu_ram@ == old(bus).cpu_ram@.update((address % 0x800) as int, ((m + 1) % 256) as u8))
        }),
{
    let m = ar.fetch(bus);
    let temp = m.wrapping_add(1);
    match ar {
        AddressingResult::ReadFrom { address, cycles: _ } => {
            bus.cpu_write(*address, temp);
        },
        _ => {},
    }
    cpu.set_zn(temp);
    0
}

/// Store A at the target address.
pub fn op_sta<C: Cartdrige, P: InputProvider, O: PpuOutput>(
    cpu: &mut Cpu,
    bus: &mut BusDevices<C, P, O>,
    ar: &AddressingResult,
) -> (r: i8)
    requires
        old(bus).wf(),
    ensures
        final(bus).wf(),
        spec_frame_counters_eq(old(bus), final(bus)),
        (old(bus).cartdrige is Some) <==> (final(bus).cartdrige is Some),
        r == 0,
        *final(cpu) == *old(cpu),
        *ar matches AddressingResult::ReadFrom { address, cycles } ==> ((address <= 0x1fff && !old(bus).spec_cart_cpu_write_claims(address)) ==> final(bus).cpu_ram@ == old(bus).cpu_ram@.update(
            (address % 0x800) as int,
            old(cpu).a,
        )),
{
    let target = ar.address(cpu);
    bus.cpu_write(target, cpu.a);
    0
}

/// Store X at the target address.
pub fn op_stx<C: Cartdrige, P: InputProvider, O: PpuOutput>(
    cpu: &mut Cpu,
    bus: &mut BusDevices<C, P, O>,
    ar: &AddressingResult,
) -> (r: i8)
    requires
        old(bus).wf(),
    ensures
        final(bus).wf(),
        spec_frame_counters_eq(old(bus), final(bus)),
        (old(bus).cartdrige is Some) <==> (final(bus).cartdrige is Some),
        r == 0,
        *final(cpu) == *old(cpu),
        *ar matches AddressingResult::ReadFrom { address, cycles } ==> ((address <= 0x1fff && !old(bus).spec_cart_cpu_write_claims(address)) ==> final(bus).cpu_ram@ == old(bus).cpu_ram@.update(
            (address % 0x800) as int,
            old(cpu).x,
        )),
{
    let target = ar.address(cpu);
    bus.cpu_write(target, cpu.x);
    0
}

/// Store Y at the target address.
pub fn op_sty<C: Cartdrige, P: InputProvider, O: PpuOutput>(
    cpu: &mut Cpu,
    bus: &mut BusDevices<C, P, O>,
    ar: &AddressingResult,
) -> (r: i8)
    requires
        old(bus).wf(),
    ensures
        final(bus).wf(),
        spec_frame_counters_eq(old(bus), final(bus)),
        (old(bus).cartdrige is Some) <==> (final(bus).cartdrige is Some),
        r == 0,
        *final(cpu) == *old(cpu),
        *ar matches AddressingResult::ReadFrom { address, cycles } ==> ((address <= 0x1fff && !old(bus).spec_cart_cpu_write_claims(address)) ==> final(bus).cpu_ram@ == old(bus).cpu_ram@.update(
            (address % 0x800) as int,
            old(cpu).y,
        )),
{
    let target = ar.address(cpu);
    bus.cpu_write(target, cpu.y);
    0
}

/// Branch when Carry is set. On a taken branch one cycle is charged, and a second if the target
/// sits on a different page from the program counter.
pub fn op_bcs<C: Cartdrige, P: InputProvider, O: PpuOutput>(
    cpu: &mut Cpu,
    bus: &mut BusDevices<C, P, O>,
    ar: &AddressingResult,
) -> (r: i8)
    requires
        old(cpu).wf(),
        old(cpu).rem_cycles <= 18,
    ensures
        *final(bus) == *old(bus),
        final(cpu).wf(),
        r == 0,
        !(old(cpu).flags.c()) ==> *final(cpu) == *old(cpu),
        (old(cpu).flags.c()) ==> (*ar matches AddressingResult::ProgramCounterRelative { address_rel } ==> ({
            let target = vstd::wrapping::u16_specs::wrapping_add(old(cpu).pc, address_rel);
            *final(cpu) == (Cpu {
                pc: target,
                rem_cycles: (old(cpu).rem_cycles + 1 + (if target / 256 != old(cpu).pc / 256 {
                    1int
                } else {
                    0int
                })) as i8,
                ..*old(cpu)
            })
        })),
{
    if cpu.flags.get_c() {
        cpu.rem_cycles = cpu.rem_cycles + 1;

        let offset = match ar {
            AddressingResult::ProgramCounterRelative { address_rel } => *address_rel,
            _ => 0,
        };

        let address_abs = cpu.pc.wrapping_add(offset);

        if address_abs / 256 != cpu.pc / 256 {
            cpu.rem_cycles = cpu.rem_cycles + 1;
        }

        cpu.pc = address_abs;
    }
    0
}

/// Branch when Carry is clear. On a taken branch one cycle is charged, and a second if the target
/// sits on a different page from the program counter.
pub fn op_bcc<C: Cartdrige, P: InputProvider, O: PpuOutput>(
    cpu: &mut Cpu,
    bus: &mut BusDevices<C, P, O>,
    ar: &AddressingResult,
) -> (r: i8)
    requires
        old(cpu).wf(),
        old(cpu).rem_cycles <= 18,
    ensures
        *final(bus) == *old(bus),
        final(cpu).wf(),
        r == 0,
        !(!old(cpu).flags.c()) ==> *final(cpu) == *old(cpu),
        (!old(cpu).flags.c()) ==> (*ar matches AddressingResult::ProgramCounterRelative { address_rel } ==> ({
            let target = vstd::wrapping::u16_specs::wrapping_add(old(cpu).pc, address_rel);
            *final(cpu) == (Cpu {
                pc: target,
                rem_cycles: (old(cpu).rem_cycles + 1 + (if target / 256 != old(cpu).pc / 256 {
                    1int
                } else {
                    0int
                })) as i8,
                ..*old(cpu)
            })
        })),
{
    if !cpu.flags.get_c() {
        cpu.rem_cycles = cpu.rem_cycles + 1;

        let offset = match ar {
            AddressingResult::ProgramCounterRelative { address_rel } => *address_rel,
            _ => 0,
        };

        let address_abs = cpu.pc.wrapping_add(offset);

        if address_abs / 256 != cpu.pc / 256 {
            cpu.rem_cycles = cpu.rem_cycles + 1;
        }

        cpu.pc = address_abs;
    }
    0
}

/// Branch when Zero is set. On a taken branch one cycle is charged, and a second if the target
/// sits on a different page from the program counter.
pub fn op_beq<C: Cartdrige, P: InputProvider, O: PpuOutput>(
    cpu: &mut Cpu,
    bus: &mut BusDevices<C, P, O>,
    ar: &AddressingResult,
) -> (r: i8)
    requires
        old(cpu).wf(),
        old(cpu).rem_cycles <= 18,
    ensures
        *final(bus) == *old(bus),
        final(cpu).wf(),
        r == 0,
        !(old(cpu).flags.z()) ==> *final(cpu) == *old(cpu),
        (old(cpu).flags.z()) ==> (*ar matches AddressingResult::ProgramCounterRelative { address_rel } ==> ({
            let target = vstd::wrapping::u16_specs::wrapping_add(old(cpu).pc, address_rel);
            *final(cpu) == (Cpu {
                pc: target,
                rem_cycles: (old(cpu).rem_cycles + 1 + (if target / 256 != old(cpu).pc / 256 {
                    1int
                } else {
                    0int
                })) as i8,
                ..*old(cpu)
            })
        })),
{
    if cpu.flags.get_z() {
        cpu.rem_cycles = cpu.rem_cycles + 1;

        let offset = match ar {
            AddressingResult::ProgramCounterRelative { address_rel } => *address_rel,
            _ => 0,
        };

        let address_abs = cpu.pc.wrapping_add(offset);

        if address_abs / 256 != cpu.pc / 256 {
            cpu.rem_cycles = cpu.rem_cycles + 1;
        }

        cpu.pc = address_abs;
    }
    0
}

/// Branch when Zero is clear. On a taken branch one cycle is charged, and a second if the target
/// sits on a different page from the program counter.
pub fn op_bne<C: Cartdrige, P: InputProvider, O: PpuOutput>(
    cpu: &mut Cpu,
    bus: &mut BusDevices<C, P, O>,
    ar: &AddressingResult,
) -> (r: i8)
    requires
        old(cpu).wf(),
        old(cpu).rem_cycles <= 18,
    ensures
        *final(bus) == *old(bus),
        final(cpu).wf(),
        r == 0,
        !(!old(cpu).flags.z()) ==> *final(cpu) == *old(cpu),
        (!old(cpu).flags.z()) ==> (*ar matches AddressingResult::ProgramCounterRelative { address_rel } ==> ({
            let target = vstd::wrapping::u16_specs::wrapping_add(old(cpu).pc, address_rel);
            *final(cpu) == (Cpu {
                pc: target,
                rem_cycles: (old(cpu).rem_cycles + 1 + (if target / 256 != old(cpu).pc / 256 {
                    1int
                } else {
                    0int
                })) as i8,
                ..*old(cpu)
            })
        })),
{
    if !cpu.flags.get_z() {
        cpu.rem_cycles = cpu.rem_cycles + 1;

        let offset = match ar {
            AddressingResult::ProgramCounterRelative { address_rel } => *address_rel,
            _ => 0,
        };

        let address_abs = cpu.pc.wrapping_add(offset);

        if address_abs / 256 != cpu.pc / 256 {
            cpu.rem_cycles = cpu.rem_cycles + 1;
        }

        cpu.pc = address_abs;
    }
    0
}

/// Branch when Negative is set. On a taken branch one cycle is charged, and a second if the target
/// sits on a different page from the program counter.
pub fn op_bmi<C: Cartdrige, P: InputProvider, O: PpuOutput>(
    cpu: &mut Cpu,
    bus: &mut BusDevices<C, P, O>,
    ar: &AddressingResult,
) -> (r: i8)
    requires
        old(cpu).wf(),
        old(cpu).rem_cycles <= 18,
    ensures
        *final(bus) == *old(bus),
        final(cpu).wf(),
        r == 0,
        !(old(cpu).flags.n()) ==> *final(cpu) == *old(cpu),
        (old(cpu).flags.n()) ==> (*ar matches AddressingResult::ProgramCounterRelative { address_rel } ==> ({
            let target = vstd::wrapping::u16_specs::wrapping_add(old(cpu).pc, address_rel);
            *final(cpu) == (Cpu {
                pc: target,
                rem_cycles: (old(cpu).rem_cycles + 1 + (if target / 256 != old(cpu).pc / 256 {
                    1int
                } else {
                    0int
                })) as i8,
                ..*old(cpu)
            })
        })),
{
    if cpu.flags.get_n() {
        cpu.rem_cycles = cpu.rem_cycles + 1;

        let offset = match ar {
            AddressingResult::ProgramCounterRelative { address_rel } => *address_rel,
            _ => 0,
        };

        let address_abs = cpu.pc.wrapping_add(offset);

        if address_abs / 256 != cpu.pc / 256 {
            cpu.rem_cycles = cpu.rem_cycles + 1;
        }

        cpu.pc = address_abs;
    }
    0
}

/// Branch when Negative is clear. On a taken branch one cycle is charged, and a second if the target
/// sits on a different page from the program counter.
pub fn op_bpl<C: Cartdrige, P: InputProvider, O: PpuOutput>(
    cpu: &mut Cpu,
    bus: &mut BusDevices<C, P, O>,
    ar: &AddressingResult,
) -> (r: i8)
    requires
        old(cpu).wf(),
        old(cpu).rem_cycles <= 18,
    ensures
        *final(bus) == *old(bus),
        final(cpu).wf(),
        r == 0,
        !(!old(cpu).flags.n()) ==> *final(cpu) == *old(cpu),
        (!old(cpu).flags.n()) ==> (*ar matches AddressingResult::ProgramCounterRelative { address_rel } ==> ({
            let target = vstd::wrapping::u16_specs::wrapping_add(old(cpu).pc, address_rel);
            *final(cpu) == (Cpu {
                pc: target,
                rem_cycles: (old(cpu).rem_cycles + 1 + (if target / 256 != old(cpu).pc / 256 {
                    1int
                } else {
                    0int
                })) as i8,
                ..*old(cpu)
            })
        })),
{
    if !cpu.flags.get_n() {
        cpu.rem_cycles = cpu.rem_cycles + 1;

        let offset = match ar {
            AddressingResult::ProgramCounterRelative { address_rel } => *address_rel,
            _ => 0,
        };

        let address_abs = cpu.pc.wrapping_add(offset);

        if address_abs / 256 != cpu.pc / 256 {
            cpu.rem_cycles = cpu.rem_cycles + 1;
        }

        cpu.pc = address_abs;
    }
    0
}

/// Branch when Overflow is set. On a taken branch one cycle is charged, and a second if the target
/// sits on a different page from the program counter.
pub fn op_bvs<C: Cartdrige, P: InputProvider, O: PpuOutput>(
    cpu: &mut Cpu,
    bus: &mut BusDevices<C, P, O>,
    ar: &AddressingResult,
) -> (r: i8)
    requires
        old(cpu).wf(),
        old(cpu).rem_cycles <= 18,
    ensures
        *final(bus) == *old(bus),
        final(cpu).wf(),
        r == 0,
        !(old(cpu).flags.v()) ==> *final(cpu) == *old(cpu),
        (old(cpu).flags.v()) ==> (*ar matches AddressingResult::ProgramCounterRelative { address_rel } ==> ({
            let target = vstd::wrapping::u16_specs::wrapping_add(old(cpu).pc, address_rel);
            *final(cpu) == (Cpu {
                pc: target,
                rem_cycles: (old(cpu).rem_cycles + 1 + (if target / 256 != old(cpu).pc / 256 {
                    1int
                } else {
                    0int
                })) as i8,
                ..*old(cpu)
            })
        })),
{
    if cpu.flags.get_v() {
        cpu.rem_cycles = cpu.rem_cycles + 1;

        let offset = match ar {
            AddressingResult::ProgramCounterRelative { address_rel } => *address_rel,
            _ => 0,
        };

        let address_abs = cpu.pc.wrapping_add(offset);

        if address_abs / 256 != cpu.pc / 256 {
            cpu.rem_cycles = cpu.rem_cycles + 1;
        }

        cpu.pc = address_abs;
    }
    0
}

/// Branch when Overflow is clear. On a taken branch one cycle is charged, and a second if the target
/// sits on a different page from the program counter.
pub fn op_bvc<C: Cartdrige, P: InputProvider, O: PpuOutput>(
    cpu: &mut Cpu,
    bus: &mut BusDevices<C, P, O>,
    ar: &AddressingResult,
) -> (r: i8)
    requires
        old(cpu).wf(),
        old(cpu).rem_cycles <= 18,
    ensures
        *final(bus) == *old(bus),
        final(cpu).wf(),
        r == 0,
        !(!old(cpu).flags.v()) ==> *final(cpu) == *old(cpu),
        (!old(cpu).flags.v()) ==> (*ar matches AddressingResult::ProgramCounterRelative { address_rel } ==> ({
            let target = vstd::wrapping::u16_specs::wrapping_add(old(cpu).pc, address_rel);
            *final(cpu) == (Cpu {
                pc: target,
                rem_cycles: (old(cpu).rem_cycles + 1 + (if target / 256 != old(cpu).pc / 256 {
                    1int
                } else {
                    0int
                })) as i8,
                ..*old(cpu)
            })
        })),
{
    if !cpu.flags.get_v() {
        cpu.rem_cycles = cpu.rem_cycles + 1;

        let offset = match ar {
            AddressingResult::ProgramCounterRelative { address_rel } => *address_rel,
            _ => 0,
        };

        let address_abs = cpu.pc.wrapping_add(offset);

        if address_abs / 256 != cpu.pc / 256 {
            cpu.rem_cycles = cpu.rem_cycles + 1;
        }

        cpu.pc = address_abs;
    }
    0
}

/// Clear Carry.
pub fn op_clc<C: Cartdrige, P: InputProvider, O: PpuOutput>(
    cpu: &mut Cpu,
    bus: &mut BusDevices<C, P, O>,
    ar: &AddressingResult,
) -> (r: i8)
    ensures
        *final(bus) == *old(bus),
        r == 0,
        final(cpu).flags.c() == false,
        final(cpu).flags.others_eq(old(cpu).flags, 0x01),
        spec_only_a_and_flags_changed(*old(cpu), *final(cpu)),
        final(cpu).a == old(cpu).a,
{
    cpu.flags.set_c(false);
    0
}

/// Clear Decimal (decimal mode is wired but unused).
pub fn op_cld<C: Cartdrige, P: InputProvider, O: PpuOutput>(
    cpu: &mut Cpu,
    bus: &mut BusDevices<C, P, O>,
    ar: &AddressingResult,
) -> (r: i8)
    ensures
        *final(bus) == *old(bus),
        r == 0,
        final(cpu).flags.d() == false,
        final(cpu).flags.others_eq(old(cpu).flags, 0x08),
        spec_only_a_and_flags_changed(*old(cpu), *final(cpu)),
        final(cpu).a == old(cpu).a,
{
    cpu.flags.set_d(false);
    0
}

/// Clear InterruptDisable.
pub fn op_cli<C: Cartdrige, P: InputProvider, O: PpuOutput>(
    cpu: &mut Cpu,
    bus: &mut BusDevices<C, P, O>,
    ar: &AddressingResult,
) -> (r: i8)
    ensures
        *final(bus) == *old(bus),
        r == 0,
        final(cpu).flags.i() == false,
        final(cpu).flags.others_eq(old(cpu).flags, 0x04),
        spec_only_a_and_flags_changed(*old(cpu), *final(cpu)),
        final(cpu).a == old(cpu).a,
{
    cpu.flags.set_i(false);
    0
}

/// Clear Overflow.
pub fn op_clv<C: Cartdrige, P: InputProvider, O: PpuOutput>(
    cpu: &mut Cpu,
    bus: &mut BusDevices<C, P, O>,
    ar: &AddressingResult,
) -> (r: i8)
    ensures
        *final(bus) == *old(bus),
        r == 0,
        final(cpu).flags.v() == false,
        final(cpu).flags.others_eq(old(cpu).flags, 0x40),
        spec_only_a_and_flags_changed(*old(cpu), *final(cpu)),
        final(cpu).a == old(cpu).a,
{
    cpu.flags.set_v(false);
    0
}

/// Set Carry.
pub fn op_sec<C: Cartdrige, P: InputProvider, O: PpuOutput>(
    cpu: &mut Cpu,
    bus: &mut BusDevices<C, P, O>,
    ar: &AddressingResult,
) -> (r: i8)
    ensures
        *final(bus) == *old(bus),
        r == 0,
        final(cpu).flags.c() == true,
        final(cpu).flags.others_eq(old(cpu).flags, 0x01),
        spec_only_a_and_flags_changed(*old(cpu), *final(cpu)),
        final(cpu).a == old(cpu).a,
{
    cpu.flags.set_c(true);
    0
}

/// Set Decimal (decimal mode is wired but unused).
pub fn op_sed<C: Cartdrige, P: InputProvider, O: PpuOutput>(
    cpu: &mut Cpu,
    bus: &mut BusDevices<C, P, O>,
    ar: &AddressingResult,
) -> (r: i8)
    ensures
        *final(bus) == *old(bus),
        r == 0,
        final(cpu).flags.d() == true,
        final(cpu).flags.others_eq(old(cpu).flags, 0x08),
        spec_only_a_and_flags_changed(*old(cpu), *final(cpu)),
        final(cpu).a == old(cpu).a,
{
    cpu.flags.set_d(true);
    0
}

/// Set InterruptDisable.
pub fn op_sei<C: Cartdrige, P: InputProvider, O: PpuOutput>(
    cpu: &mut Cpu,
    bus: &mut BusDevices<C, P, O>,
    ar: &AddressingResult,
) -> (r: i8)
    ensures
        *final(bus) == *old(bus),
        r == 0,
        final(cpu).flags.i() == true,
        final(cpu).flags.others_eq(old(cpu).flags, 0x04),
        spec_only_a_and_flags_changed(*old(cpu), *final(cpu)),
        final(cpu).a == old(cpu).a,
{
    cpu.flags.set_i(true);
    0
}

/// Transfer A to X, setting Zero and Negative.
pub fn op_tax<C: Cartdrige, P: InputProvider, O: PpuOutput>(
    cpu: &mut Cpu,
    bus: &mut BusDevices<C, P, O>,
    ar: &AddressingResult,
) -> (r: i8)
    ensures
        *final(bus) == *old(bus),
        r == 0,
        final(cpu).x == old(cpu).a,
        spec_load_flags(*old(cpu), old(cpu).a, *final(cpu)),
        final(cpu).pc == old(cpu).pc,
        final(cpu).rem_cycles == old(cpu).rem_cycles,
{
    cpu.x = cpu.a;
    let v = cpu.x;
    cpu.set_zn(v);
    0
}

/// Transfer A to Y, setting Zero and Negative.
pub fn op_tay<C: Cartdrige, P: InputProvider, O: PpuOutput>(
    cpu: &mut Cpu,
    bus: &mut BusDevices<C, P, O>,
    ar: &AddressingResult,
) -> (r: i8)
    ensures
        *final(bus) == *old(bus),
        r == 0,
        final(cpu).y == old(cpu).a,
        spec_load_flags(*old(cpu), old(cpu).a, *final(cpu)),
        final(cpu).pc == old(cpu).pc,
        final(cpu).rem_cycles == old(cpu).rem_cycles,
{
    cpu.y = cpu.a;
    let v = cpu.y;
    cpu.set_zn(v);
    0
}

/// Transfer the stack pointer to X, setting Zero and Negative.
pub fn op_tsx<C: Cartdrige, P: InputProvider, O: PpuOutput>(
    cpu: &mut Cpu,
    bus: &mut BusDevices<C, P, O>,
    ar: &AddressingResult,
) -> (r: i8)
    ensures
        *final(bus) == *old(bus),
        r == 0,
        final(cpu).x == old(cpu).stack_pointer,
        spec_load_flags(*old(cpu), old(cpu).stack_pointer, *final(cpu)),
        final(cpu).pc == old(cpu).pc,
        final(cpu).rem_cycles == old(cpu).rem_cycles,
{
    cpu.x = cpu.stack_pointer;
    let v = cpu.x;
    cpu.set_zn(v);
    0
}

/// Transfer X to A, setting Zero and Negative.
pub fn op_txa<C: Cartdrige, P: InputProvider, O: PpuOutput>(
    cpu: &mut Cpu,
    bus: &mut BusDevices<C, P, O>,
    ar: &AddressingResult,
) -> (r: i8)
    ensures
        *final(bus) == *old(bus),
        r == 0,
        final(cpu).a == old(cpu).x,
        spec_load_flags(*old(cpu), old(cpu).x, *final(cpu)),
        final(cpu).pc == old(cpu).pc,
        final(cpu).rem_cycles == old(cpu).rem_cycles,
{
    cpu.a = cpu.x;
    let v = cpu.a;
    cpu.set_zn(v);
    0
}

/// Transfer Y to A, setting Zero and Negative.
pub fn op_tya<C: Cartdrige, P: InputProvider, O: PpuOutput>(
    cpu: &mut Cpu,
    bus: &mut BusDevices<C, P, O>,
    ar: &AddressingResult,
) -> (r: i8)
    ensures
        *final(bus) == *old(bus),
        r == 0,
        final(cpu).a == old(cpu).y,
        spec_load_flags(*old(cpu), old(cpu).y, *final(cpu)),
        final(cpu).pc == old(cpu).pc,
        final(cpu).rem_cycles == old(cpu).rem_cycles,
{
    cpu.a = cpu.y;
    let v = cpu.a;
    cpu.set_zn(v);
    0
}

/// Transfer X to the stack pointer; no flags change.
pub fn op_txs<C: Cartdrige, P: InputProvider, O: PpuOutput>(
    cpu: &mut Cpu,
    bus: &mut BusDevices<C, P, O>,
    ar: &AddressingResult,
) -> (r: i8)
    ensures
        *final(bus) == *old(bus),
        r == 0,
        *final(cpu) == (Cpu { stack_pointer: old(cpu).x, ..*old(cpu) }),
{
    cpu.stack_pointer = cpu.x;
    0
}

/// Decrement X, setting Zero and Negative.
pub fn op_dex<C: Cartdrige, P: InputProvider, O: PpuOutput>(
    cpu: &mut Cpu,
    bus: &mut BusDevices<C, P, O>,
    ar: &AddressingResult,
) -> (r: i8)
    ensures
        *final(bus) == *old(bus),
        r == 0,
        final(cpu).x == ((old(cpu).x + 255) % 256) as u8,
        spec_load_flags(*old(cpu), final(cpu).x, *final(cpu)),
        final(cpu).pc == old(cpu).pc,
        final(cpu).rem_cycles == old(cpu).rem_cycles,
        final(cpu).stack_pointer == old(cpu).stack_pointer,
{
    cpu.x = cpu.x.wrapping_sub(1);
    let v = cpu.x;
    cpu.set_zn(v);
    0
}

/// Decrement Y, setting Zero and Negative.
pub fn op_dey<C: Cartdrige, P: InputProvider, O: PpuOutput>(
    cpu: &mut Cpu,
    bus: &mut BusDevices<C, P, O>,
    ar: &AddressingResult,
) -> (r: i8)
    ensures
        *final(bus) == *old(bus),
        r == 0,
        final(cpu).y == ((old(cpu).y + 255) % 256) as u8,
        spec_load_flags(*old(cpu), final(cpu).y, *final(cpu)),
        final(cpu).pc == old(cpu).pc,
        final(cpu).rem_cycles == old(cpu).rem_cycles,
        final(cpu).stack_pointer == old(cpu).stack_pointer,
{
    cpu.y = cpu.y.wrapping_sub(1);
    let v = cpu.y;
    cpu.set_zn(v);
    0
}

/// Increment X, setting Zero and Negative.
pub fn op_inx<C: Cartdrige, P: InputProvider, O: PpuOutput>(
    cpu: &mut Cpu,
    bus: &mut BusDevices<C, P, O>,
    ar: &AddressingResult,
) -> (r: i8)
    ensures
        *final(bus) == *old(bus),
        r == 0,
        final(cpu).x == ((old(cpu).x + 1) % 256) as u8,
        spec_load_flags(*old(cpu), final(cpu).x, *final(cpu)),
        final(cpu).pc == old(cpu).pc,
        final(cpu).rem_cycles == old(cpu).rem_cycles,
        final(cpu).stack_pointer == old(cpu).stack_pointer,
{
    cpu.x = cpu.x.wrapping_add(1);
    let v = cpu.x;
    cpu.set_zn(v);
    0
}

/// Increment Y, setting Zero and Negative.
pub fn op_iny<C: Cartdrige, P: InputProvider, O: PpuOutput>(
    cpu: &mut Cpu,
    bus: &mut BusDevices<C, P, O>,
    ar: &AddressingResult,
) -> (r: i8)
    ensures
        *final(bus) == *old(bus),
        r == 0,
        final(cpu).y == ((old(cpu).y + 1) % 256) as u8,
        spec_load_flags(*old(cpu), final(cpu).y, *final(cpu)),
        final(cpu).pc == old(cpu).pc,
        final(cpu).rem_cycles == old(cpu).rem_cycles,
        final(cpu).stack_pointer == old(cpu).stack_pointer,
{
    cpu.y = cpu.y.wrapping_add(1);
    let v = cpu.y;
    cpu.set_zn(v);
    0
}

/// The documented no-op (and the harmless undocumented slots routed here).
pub fn op_nop<C: Cartdrige, P: InputProvider, O: PpuOutput>(
    cpu: &mut Cpu,
    bus: &mut BusDevices<C, P, O>,
    ar: &AddressingResult,
) -> (r: i8)
    ensures
        *final(bus) == *old(bus),
        *final(cpu) == *old(cpu),
        r == 1,
{
    1
}

/// The designated illegal entry: a silent no-op in permissive mode.
pub fn op_xxx<C: Cartdrige, P: InputProvider, O: PpuOutput>(
    cpu: &mut Cpu,
    bus: &mut BusDevices<C, P, O>,
    ar: &AddressingResult,
) -> (r: i8)
    ensures
        *final(bus) == *old(bus),
        *final(cpu) == *old(cpu),
        r == 0,
{
    0
}

/// Jump: the program counter takes the target address.
pub fn op_jmp<C: Cartdrige, P: InputProvider, O: PpuOutput>(
    cpu: &mut Cpu,
    bus: &mut BusDevices<C, P, O>,
    ar: &AddressingResult,
) -> (r: i8)
    ensures
        *final(bus) == *old(bus),
        r == 0,
        final(cpu).rem_cycles == old(cpu).rem_cycles,
        *ar matches AddressingResult::ReadFrom { address, cycles } ==> *final(cpu) == (Cpu {
            pc: address,
            ..*old(cpu)
        }),
{
    let target = ar.address(cpu);
    cpu.pc = target;
    0
}

/// Push A onto the page-1 stack and step the stack pointer down.
pub fn op_pha<C: Cartdrige, P: InputProvider, O: PpuOutput>(
    cpu: &mut Cpu,
    bus: &mut BusDevices<C, P, O>,
    ar: &AddressingResult,
) -> (r: i8)
    requires
        old(bus).wf(),
    ensures
        final(bus).wf(),
        spec_frame_counters_eq(old(bus), final(bus)),
        (old(bus).cartdrige is Some) <==> (final(bus).cartdrige is Some),
        r == 0,
        *final(cpu) == (Cpu { stack_pointer: old(cpu).stack_pointer.wrapping_sub(1), ..*old(cpu) }),
        !old(bus).spec_cart_cpu_write_claims((0x0100 + old(cpu).stack_pointer) as u16) ==> final(bus).cpu_ram@ == old(bus).cpu_ram@.update(((0x0100 + old(cpu).stack_pointer) % 0x800) as int, old(cpu).a),
{
    bus.cpu_write(0x0100 + cpu.stack_pointer as u16, cpu.a);
    cpu.stack_pointer = cpu.stack_pointer.wrapping_sub(1);
    0
}

/// Pop A from the page-1 stack, setting Zero and Negative.
pub fn op_pla<C: Cartdrige, P: InputProvider, O: PpuOutput>(
    cpu: &mut Cpu,
    bus: &mut BusDevices<C, P, O>,
    ar: &AddressingResult,
) -> (r: i8)
    requires
        old(bus).wf(),
    ensures
        final(bus).wf(),
        spec_frame_counters_eq(old(bus), final(bus)),
        cart_views_eq(old(bus).cartdrige, final(bus).cartdrige),
        final(bus).cpu_ram == old(bus).cpu_ram,
        final(bus).dma == old(bus).dma,
        r == 0,
        final(cpu).stack_pointer == old(cpu).stack_pointer.wrapping_add(1),
        spec_bitop_effect(
            (Cpu { stack_pointer: final(cpu).stack_pointer, ..*old(cpu) }),
            old(bus).spec_read_value((0x0100 + old(cpu).stack_pointer.wrapping_add(1)) as u16, false),
            *final(cpu),
        ),
        old(bus).spec_plain_read((0x0100 + old(cpu).stack_pointer.wrapping_add(1)) as u16) ==> *final(bus) == *old(bus),
{
    cpu.stack_pointer = cpu.stack_pointer.wrapping_add(1);
    let v = bus.cpu_read(0x0100 + cpu.stack_pointer as u16, false);
    cpu.do_lda(v);
    0
}

/// Push the status byte with Break and Unused forced on, then clear both in
/// the live flags and step the stack pointer down.
pub fn op_php<C: Cartdrige, P: InputProvider, O: PpuOutput>(
    cpu: &mut Cpu,
    bus: &mut BusDevices<C, P, O>,
    ar: &AddressingResult,
) -> (r: i8)
    requires
        old(bus).wf(),
    ensures
        final(bus).wf(),
        spec_frame_counters_eq(old(bus), final(bus)),
        (old(bus).cartdrige is Some) <==> (final(bus).cartdrige is Some),
        r == 0,
        final(cpu).stack_pointer == old(cpu).stack_pointer.wrapping_sub(1),
        final(cpu).flags.b() == false,
        final(cpu).flags.u() == false,
        final(cpu).flags.c() == old(cpu).flags.c() && final(cpu).flags.z() == old(cpu).flags.z() && final(cpu).flags.i() == old(cpu).flags.i() && final(cpu).flags.d() == old(cpu).flags.d() && final(cpu).flags.v() == old(cpu).flags.v() && final(cpu).flags.n() == old(cpu).flags.n(),
        final(cpu).a == old(cpu).a && final(cpu).x == old(cpu).x && final(cpu).y == old(cpu).y && final(cpu).pc == old(cpu).pc && final(cpu).rem_cycles == old(cpu).rem_cycles,
        !old(bus).spec_cart_cpu_write_claims((0x0100 + old(cpu).stack_pointer) as u16) ==> final(bus).cpu_ram@ == old(bus).cpu_ram@.update(((0x0100 + old(cpu).stack_pointer) % 0x800) as int, old(cpu).flags.val | 0x30),
{
    let pushed = cpu.flags.val | 0x30;
    bus.cpu_write(0x0100 + cpu.stack_pointer as u16, pushed);
    cpu.flags.set_b(false);
    cpu.flags.set_u(false);
    cpu.stack_pointer = cpu.stack_pointer.wrapping_sub(1);
    0
}

/// Pop the status byte from the stack, forcing Unused on.
pub fn op_plp<C: Cartdrige, P: InputProvider, O: PpuOutput>(
    cpu: &mut Cpu,
    bus: &mut BusDevices<C, P, O>,
    ar: &AddressingResult,
) -> (r: i8)
    requires
        old(bus).wf(),
    ensures
        final(bus).wf(),
        spec_frame_counters_eq(old(bus), final(bus)),
        cart_views_eq(old(bus).cartdrige, final(bus).cartdrige),
        final(bus).cpu_ram == old(bus).cpu_ram,
        final(bus).dma == old(bus).dma,
        r == 0,
        final(cpu).stack_pointer == old(cpu).stack_pointer.wrapping_add(1),
        final(cpu).flags.u(),
        spec_value_known(old(bus), (0x0100 + old(cpu).stack_pointer.wrapping_add(1)) as u16) ==> final(cpu).flags.val
            == (old(bus).spec_read_value((0x0100 + old(cpu).stack_pointer.wrapping_add(1)) as u16, false) | 0x20),
        final(cpu).a == old(cpu).a && final(cpu).x == old(cpu).x && final(cpu).y == old(cpu).y && final(cpu).pc == old(cpu).pc && final(cpu).rem_cycles == old(cpu).rem_cycles,
        old(bus).spec_plain_read((0x0100 + old(cpu).stack_pointer.wrapping_add(1)) as u16) ==> *final(bus) == *old(bus),
{
    cpu.stack_pointer = cpu.stack_pointer.wrapping_add(1);
    let v = bus.cpu_read(0x0100 + cpu.stack_pointer as u16, false);
    cpu.flags.val = v;
    cpu.flags.set_u(true);
    0
}

/// Software interrupt: push the incremented program counter and the status
/// byte (Break set in the pushed copy), set InterruptDisable, and load the
/// program counter from the interrupt vector at $FFFE/$FFFF.
pub fn op_brk<C: Cartdrige, P: InputProvider, O: PpuOutput>(
    cpu: &mut Cpu,
    bus: &mut BusDevices<C, P, O>,
    ar: &AddressingResult,
) -> (r: i8)
    requires
        old(bus).wf(),
    ensures
        final(bus).wf(),
        spec_frame_counters_eq(old(bus), final(bus)),
        (old(bus).cartdrige is Some) <==> (final(bus).cartdrige is Some),
        r == 0,
        final(cpu).stack_pointer == old(cpu).stack_pointer.wrapping_sub(3),
        final(cpu).flags.i(),
        final(cpu).flags.b() == false,
        final(cpu).flags.val == (((old(cpu).flags.val | 0x04) | 0x10) & !0x10),
        final(cpu).a == old(cpu).a && final(cpu).x == old(cpu).x && final(cpu).y == old(cpu).y && final(cpu).rem_cycles == old(cpu).rem_cycles,
        ({
            let s0 = (0x0100 + old(cpu).stack_pointer) as u16;
            let s1 = (0x0100 + old(cpu).stack_pointer.wrapping_sub(1)) as u16;
            let s2 = (0x0100 + old(cpu).stack_pointer.wrapping_sub(2)) as u16;
            let pushed_pc = vstd::wrapping::u16_specs::wrapping_add(old(cpu).pc, 1);
            (!old(bus).spec_cart_cpu_write_claims(s0) && !old(bus).spec_cart_cpu_write_claims(s1) && !old(bus).spec_cart_cpu_write_claims(s2)) ==> final(cpu).pc == (old(bus).spec_read_value(0xffff, false) * 256
                + old(bus).spec_read_value(0xfffe, false)) as u16 && final(bus).cpu_ram@ == old(bus).cpu_ram@.update(
                (s0 % 0x800) as int,
                (pushed_pc / 256) as u8,
            ).update((s1 % 0x800) as int, (pushed_pc % 256) as u8).update(
                (s2 % 0x800) as int,
                ((old(cpu).flags.val | 0x04) | 0x10),
            )
        }),
{
    cpu.pc = cpu.pc.wrapping_add(1);

    cpu.flags.set_i(true);
    bus.cpu_write(0x0100 + cpu.stack_pointer as u16, (cpu.pc / 256) as u8);
    cpu.stack_pointer = cpu.stack_pointer.wrapping_sub(1);
    bus.cpu_write(0x0100 + cpu.stack_pointer as u16, (cpu.pc % 256) as u8);
    cpu.stack_pointer = cpu.stack_pointer.wrapping_sub(1);

    cpu.flags.set_b(true);
    bus.cpu_write(0x0100 + cpu.stack_pointer as u16, cpu.flags.val);
    cpu.stack_pointer = cpu.stack_pointer.wrapping_sub(1);

    cpu.flags.set_b(false);

    let lo = bus.cpu_read(0xfffe, false) as u16;
    let hi = bus.cpu_read(0xffff, false) as u16;

    cpu.pc = hi * 256 + lo;
    0
}

/// Return from interrupt: pop the status byte (Break and Unused cleared),
/// then the program counter, low byte first.
pub fn op_rti<C: Cartdrige, P: InputProvider, O: PpuOutput>(
    cpu: &mut Cpu,
    bus: &mut BusDevices<C, P, O>,
    ar: &AddressingResult,
) -> (r: i8)
    requires
        old(bus).wf(),
    ensures
        final(bus).wf(),
        spec_frame_counters_eq(old(bus), final(bus)),
        cart_views_eq(old(bus).cartdrige, final(bus).cartdrige),
        final(bus).cpu_ram == old(bus).cpu_ram,
        final(bus).dma == old(bus).dma,
        r == 0,
        final(cpu).stack_pointer == old(cpu).stack_pointer.wrapping_add(3),
        final(cpu).flags.b() == false,
        final(cpu).flags.u() == false,
        spec_value_known(old(bus), (0x0100 + old(cpu).stack_pointer.wrapping_add(1)) as u16) ==> final(cpu).flags.val
            == ((old(bus).spec_read_value((0x0100 + old(cpu).stack_pointer.wrapping_add(1)) as u16, false) & !0x10)
            & !0x20),
        final(cpu).a == old(cpu).a && final(cpu).x == old(cpu).x && final(cpu).y == old(cpu).y && final(cpu).rem_cycles == old(cpu).rem_cycles,
        ({
            let s1 = (0x0100 + old(cpu).stack_pointer.wrapping_add(1)) as u16;
            let s2 = (0x0100 + old(cpu).stack_pointer.wrapping_add(2)) as u16;
            let s3 = (0x0100 + old(cpu).stack_pointer.wrapping_add(3)) as u16;
            (old(bus).spec_plain_read(s1) && old(bus).spec_plain_read(s2) && spec_value_known(old(bus), s3))
                ==> final(cpu).pc == (old(bus).spec_read_value(s3, false) * 256 + old(bus).spec_read_value(
                s2,
                false,
            )) as u16
        }),
{
    cpu.stack_pointer = cpu.stack_pointer.wrapping_add(1);
    let v = bus.cpu_read(0x0100 + cpu.stack_pointer as u16, false);
    cpu.flags.val = v;
    cpu.flags.set_b(false);
    cpu.flags.set_u(false);

    cpu.stack_pointer = cpu.stack_pointer.wrapping_add(1);
    let pc_lo = bus.cpu_read(0x0100 + cpu.stack_pointer as u16, false) as u16;
    cpu.stack_pointer = cpu.stack_pointer.wrapping_add(1);
    let pc_hi = bus.cpu_read(0x0100 + cpu.stack_pointer as u16, false) as u16;

    cpu.pc = pc_hi * 256 + pc_lo;
    0
}

/// Jump to subroutine: push the address of the last byte of this instruction
/// and take the target.
pub fn op_jsr<C: Cartdrige, P: InputProvider, O: PpuOutput>(
    cpu: &mut Cpu,
    bus: &mut BusDevices<C, P, O>,
    ar: &AddressingResult,
) -> (r: i8)
    requires
        old(bus).wf(),
    ensures
        final(bus).wf(),
        spec_frame_counters_eq(old(bus), final(bus)),
        (old(bus).cartdrige is Some) <==> (final(bus).cartdrige is Some),
        r == 0,
        final(cpu).stack_pointer == old(cpu).stack_pointer.wrapping_sub(2),
        final(cpu).a == old(cpu).a && final(cpu).x == old(cpu).x && final(cpu).y == old(cpu).y && final(cpu).rem_cycles == old(cpu).rem_cycles && final(cpu).flags == old(cpu).flags,
        *ar matches AddressingResult::ReadFrom { address, cycles } ==> final(cpu).pc == address,
        ({
            let ret = vstd::wrapping::u16_specs::wrapping_sub(old(cpu).pc, 1);
            let s0 = (0x0100 + old(cpu).stack_pointer) as u16;
            let s1 = (0x0100 + old(cpu).stack_pointer.wrapping_sub(1)) as u16;
            (!old(bus).spec_cart_cpu_write_claims(s0) && !old(bus).spec_cart_cpu_write_claims(s1)) ==> final(bus).cpu_ram@ == old(bus).cpu_ram@.update((s0 % 0x800) as int, (ret / 256) as u8).update(
                (s1 % 0x800) as int,
                (ret % 256) as u8,
            )
        }),
{
    cpu.pc = cpu.pc.wrapping_sub(1);

    bus.cpu_write(0x0100 + cpu.stack_pointer as u16, (cpu.pc / 256) as u8);
    cpu.stack_pointer = cpu.stack_pointer.wrapping_sub(1);
    bus.cpu_write(0x0100 + cpu.stack_pointer as u16, (cpu.pc % 256) as u8);
    cpu.stack_pointer = cpu.stack_pointer.wrapping_sub(1);

    let target = ar.address(cpu);
    cpu.pc = target;
    0
}

/// Return from subroutine: pop the return address, low byte first, and resume
/// one past it.
pub fn op_rts<C: Cartdrige, P: InputProvider, O: PpuOutput>(
    cpu: &mut Cpu,
    bus: &mut BusDevices<C, P, O>,
    ar: &AddressingResult,
) -> (r: i8)
    requires
        old(bus).wf(),
    ensures
        final(bus).wf(),
        spec_frame_counters_eq(old(bus), final(bus)),
        cart_views_eq(old(bus).cartdrige, final(bus).cartdrige),
        final(bus).cpu_ram == old(bus).cpu_ram,
        final(bus).dma == old(bus).dma,
        r == 0,
        final(cpu).stack_pointer == old(cpu).stack_pointer.wrapping_add(2),
        final(cpu).a == old(cpu).a && final(cpu).x == old(cpu).x && final(cpu).y == old(cpu).y && final(cpu).rem_cycles == old(cpu).rem_cycles && final(cpu).flags == old(cpu).flags,
        ({
            let s1 = (0x0100 + old(cpu).stack_pointer.wrapping_add(1)) as u16;
            let s2 = (0x0100 + old(cpu).stack_pointer.wrapping_add(2)) as u16;
            (old(bus).spec_plain_read(s1) && spec_value_known(old(bus), s2)) ==> final(cpu).pc
                == vstd::wrapping::u16_specs::wrapping_add(
                (old(bus).spec_read_value(s2, false) * 256 + old(bus).spec_read_value(s1, false)) as u16,
                1,
            )
        }),
{
    cpu.stack_pointer = cpu.stack_pointer.wrapping_add(1);
    let pc_lo = bus.cpu_read(0x0100 + cpu.stack_pointer as u16, false) as u16;
    cpu.stack_pointer = cpu.stack_pointer.wrapping_add(1);
    let pc_hi = bus.cpu_read(0x0100 + cpu.stack_pointer as u16, false) as u16;

    cpu.pc = (pc_hi * 256 + pc_lo).wrapping_add(1);
    0
}


impl Cpu {
    /// Advances the CPU by one tick. When no instruction is under way, one
    /// full instruction is fetched at the program counter, decoded through
    /// the opcode table, addressed and executed, and the remaining-cycle
    /// counter takes the base cost plus any page-cross penalty the mode and
    /// operation agree on; every call then burns one remaining cycle.
    #[verifier::rlimit(100)]
    #[verifier::spinoff_prover]
    pub fn clock<C: Cartdrige, P: InputProvider, O: PpuOutput>(&mut self, bus: &mut BusDevices<C, P, O>)
        requires
            old(self).wf(),
            old(bus).wf(),
        ensures
            final(self).wf(),
            final(bus).wf(),
        spec_frame_counters_eq(old(bus), final(bus)),
            old(self).rem_cycles > 0 ==> *final(self) == (Cpu {
                rem_cycles: (old(self).rem_cycles - 1) as i8,
                ..*old(self)
            }) && *final(bus) == *old(bus),
            old(self).rem_cycles == 0 ==> final(self).flags.u(),
            (old(self).rem_cycles == 0 && spec_value_known(old(bus), old(self).pc)) ==> ({
                let base = spec_instruction_for(old(bus).spec_read_value(old(self).pc, false)).cycles;
                base - 1 <= final(self).rem_cycles <= base + 1
            }),
    {
        if self.rem_cycles == 0 {
            let opcode = bus.cpu_read(self.pc, false);
            self.flags.set_u(true);
            self.pc = self.pc.wrapping_add(1);
            let instruction = instruction_for(opcode);

            self.rem_cycles = instruction.cycles;

            let ar = match instruction.addressing {
                AddressingMode::Imp => am_implied(self, bus),
                AddressingMode::Imm => am_immediate(self, bus),
                AddressingMode::Zp0 => am_zero_page(self, bus),
                AddressingMode::Zpx => am_zero_page_x_offset(self, bus),
                AddressingMode::Zpy => am_zero_page_y_offset(self, bus),
                AddressingMode::Rel => am_relative(self, bus),
                AddressingMode::Abs => am_absolute(self, bus),
                AddressingMode::Abx => am_absolute_x(self, bus),
                AddressingMode::Aby => am_absolute_y(self, bus),
                AddressingMode::Ind => am_indirect(self, bus),
                AddressingMode::Izx => am_indexed_indirect(self, bus),
                AddressingMode::Izy => am_indirect_indexed(self, bus),
            };

            let addressing_extra: i8 = match ar {
                AddressingResult::ReadFrom { address: _, cycles } => cycles,
                _ => 0,
            };

            let operation_extra: i8 = match instruction.operation {
                Operation::Adc => op_adc(self, bus, &ar),
                Operation::And => op_and(self, bus, &ar),
                Operation::Asl => op_asl(self, bus, &ar),
                Operation::Bcc => op_bcc(self, bus, &ar),
                Operation::Bcs => op_bcs(self, bus, &ar),
                Operation::Beq => op_beq(self, bus, &ar),
                Operation::Bit => op_bit(self, bus, &ar),
                Operation::Bmi => op_bmi(self, bus, &ar),
                Operation::Bne => op_bne(self, bus, &ar),
                Operation::Bpl => op_bpl(self, bus, &ar),
                Operation::Brk => op_brk(self, bus, &ar),
                Operation::Bvc => op_bvc(self, bus, &ar),
                Operation::Bvs => op_bvs(self, bus, &ar),
                Operation::Clc => op_clc(self, bus, &ar),
                Operation::Cld => op_cld(self, bus, &ar),
                Operation::Cli => op_cli(self, bus, &ar),
                Operation::Clv => op_clv(self, bus, &ar),
                Operation::Cmp => op_cmp(self, bus, &ar),
                Operation::Cpx => op_cpx(self, bus, &ar),
                Operation::Cpy => op_cpy(self, bus, &ar),
                Operation::Dec => op_dec(self, bus, &ar),
                Operation::Dex => op_dex(self, bus, &ar),
                Operation::Dey => op_dey(self, bus, &ar),
                Operation::Eor => op_eor(self, bus, &ar),
                Operation::Inc => op_inc(self, bus, &ar),
                Operation::Inx => op_inx(self, bus, &ar),
                Operation::Iny => op_iny(self, bus, &ar),
                Operation::Jmp => op_jmp(self, bus, &ar),
                Operation::Jsr => op_jsr(self, bus, &ar),
                Operation::Lda => op_lda(self, bus, &ar),
                Operation::Ldx => op_ldx(self, bus, &ar),
                Operation::Ldy => op_ldy(self, bus, &ar),
                Operation::Lsr => op_lsr(self, bus, &ar),
                Operation::Nop => op_nop(self, bus, &ar),
                Operation::Ora => op_ora(self, bus, &ar),
                Operation::Pha => op_pha(self, bus, &ar),
                Operation::Php => op_php(self, bus, &ar),
                Operation::Pla => op_pla(self, bus, &ar),
                Operation::Plp => op_plp(self, bus, &ar),
                Operation::Rol => op_rol(self, bus, &ar),
                Operation::Ror => op_ror(self, bus, &ar),
                Operation::Rti => op_rti(self, bus, &ar),
                Operation::Rts => op_rts(self, bus, &ar),
                Operation::Sbc => op_sbc(self, bus, &ar),
                Operation::Sec => op_sec(self, bus, &ar),
                Operation::Sed => op_sed(self, bus, &ar),
                Operation::Sei => op_sei(self, bus, &ar),
                Operation::Sta => op_sta(self, bus, &ar),
                Operation::Stx => op_stx(self, bus, &ar),
                Operation::Sty => op_sty(self, bus, &ar),
                Operation::Tax => op_tax(self, bus, &ar),
                Operation::Tay => op_tay(self, bus, &ar),
                Operation::Tsx => op_tsx(self, bus, &ar),
                Operation::Txa => op_txa(self, bus, &ar),
                Operation::Txs => op_txs(self, bus, &ar),
                Operation::Tya => op_tya(self, bus, &ar),
                Operation::Xxx => op_xxx(self, bus, &ar),
            };

            if addressing_extra == 1 && operation_extra == 1 {
                self.rem_cycles = self.rem_cycles + 1;
            }

            self.flags.set_u(true);
        }

        self.rem_cycles = self.rem_cycles - 1;
    }

    /// Reset: registers clear, the stack pointer parks at $FD, only the
    /// Unused flag stands, the program counter loads little-endian from the
    /// reset vector at $FFFC/$FFFD, and the sequence costs eight cycles.
    pub fn reset<C: Cartdrige, P: InputProvider, O: PpuOutput>(&mut self, bus: &mut BusDevices<C, P, O>)
        requires
            old(bus).wf(),
        ensures
            final(bus).wf(),
        spec_frame_counters_eq(old(bus), final(bus)),
            *final(bus) == *old(bus),
            final(self).wf(),
            final(self).a == 0,
            final(self).x == 0,
            final(self).y == 0,
            final(self).stack_pointer == 0xfd,
            final(self).flags.val == 0x20,
            final(self).rem_cycles == 8,
            final(self).pc == (old(bus).spec_read_value(0xfffd, false) * 256 + old(bus).spec_read_value(
                0xfffc,
                false,
            )) as u16,
    {
        self.a = 0;
        self.x = 0;
        self.y = 0;

        self.stack_pointer = 0xfd;
        self.flags = CpuStateFlags::new(0);
        self.flags.set_u(true);

        let reset_vector = 0xfffcu16;
        let lo = bus.cpu_read(reset_vector, false) as u16;
        let hi = bus.cpu_read(reset_vector + 1, false) as u16;

        self.pc = hi * 256 + lo;
        self.rem_cycles = 8;

        proof {
            assert((0u8 | 0x20) == 0x20) by (bit_vector);
        }
    }

    /// Maskable interrupt: ignored while InterruptDisable is set; otherwise
    /// the program counter and status byte (Break clear, Unused set) are
    /// pushed and the program counter loads from $FFFE/$FFFF, for 7 cycles.
    pub fn irq<C: Cartdrige, P: InputProvider, O: PpuOutput>(&mut self, bus: &mut BusDevices<C, P, O>)
        requires
            old(bus).wf(),
        ensures
            final(bus).wf(),
        spec_frame_counters_eq(old(bus), final(bus)),
            final(bus).dma == old(bus).dma,
            final(bus).ppu == old(bus).ppu,
            final(bus).apu == old(bus).apu,
            final(bus).controllers == old(bus).controllers,
            old(self).flags.i() ==> *final(self) == *old(self) && *final(bus) == *old(bus),
            !old(self).flags.i() ==> {
                &&& final(self).stack_pointer == old(self).stack_pointer.wrapping_sub(3)
                &&& final(self).flags.i()
                &&& final(self).flags.b() == false
                &&& final(self).flags.u()
                &&& final(self).rem_cycles == 7
                &&& final(self).a == old(self).a && final(self).x == old(self).x && final(self).y == old(self).y
                &&& final(self).flags.val == (((old(self).flags.val & !0x10) | 0x20) | 0x04)
                &&& ({
                    let s0 = (0x0100 + old(self).stack_pointer) as u16;
                    let s1 = (0x0100 + old(self).stack_pointer.wrapping_sub(1)) as u16;
                    let s2 = (0x0100 + old(self).stack_pointer.wrapping_sub(2)) as u16;
                    (!old(bus).spec_cart_cpu_write_claims(s0) && !old(bus).spec_cart_cpu_write_claims(s1) && !old(bus).spec_cart_cpu_write_claims(s2)) ==> final(self).pc == (old(bus).spec_read_value(0xffff, false)
                        * 256 + old(bus).spec_read_value(0xfffe, false)) as u16 && final(bus).cpu_ram@ == old(bus).cpu_ram@.update((s0 % 0x800) as int, (old(self).pc / 256) as u8).update(
                        (s1 % 0x800) as int,
                        (old(self).pc % 256) as u8,
                    ).update((s2 % 0x800) as int, (((old(self).flags.val & !0x10) | 0x20) | 0x04))
                })
            },
    {
        if !self.flags.get_i() {
            bus.cpu_write(0x0100 + self.stack_pointer as u16, (self.pc / 256) as u8);
            self.stack_pointer = self.stack_pointer.wrapping_sub(1);
            bus.cpu_write(0x0100 + self.stack_pointer as u16, (self.pc % 256) as u8);
            self.stack_pointer = self.stack_pointer.wrapping_sub(1);

            self.flags.set_b(false);
            self.flags.set_u(true);
            self.flags.set_i(true);
            bus.cpu_write(0x0100 + self.stack_pointer as u16, self.flags.val);
            self.stack_pointer = self.stack_pointer.wrapping_sub(1);

            let interrupt_vector = 0xfffeu16;
            let lo = bus.cpu_read(interrupt_vector, false) as u16;
            let hi = bus.cpu_read(interrupt_vector + 1, false) as u16;

            self.pc = hi * 256 + lo;

            self.rem_cycles = 7;
        }
    }

    /// Non-maskable interrupt: the same push sequence as `irq` regardless of
    /// InterruptDisable, vectored through $FFFA/$FFFB, for 8 cycles.
    pub fn nmi<C: Cartdrige, P: InputProvider, O: PpuOutput>(&mut self, bus: &mut BusDevices<C, P, O>)
        requires
            old(bus).wf(),
        ensures
            final(bus).wf(),
        spec_frame_counters_eq(old(bus), final(bus)),
            final(bus).dma == old(bus).dma,
            final(bus).ppu == old(bus).ppu,
            final(bus).apu == old(bus).apu,
            final(bus).controllers == old(bus).controllers,
            final(self).stack_pointer == old(self).stack_pointer.wrapping_sub(3),
            final(self).flags.i(),
            final(self).flags.b() == false,
            final(self).flags.u(),
            final(self).rem_cycles == 8,
            final(self).a == old(self).a && final(self).x == old(self).x && final(self).y == old(self).y,
            final(self).flags.val == (((old(self).flags.val & !0x10) | 0x20) | 0x04),
            ({
                let s0 = (0x0100 + old(self).stack_pointer) as u16;
                let s1 = (0x0100 + old(self).stack_pointer.wrapping_sub(1)) as u16;
                let s2 = (0x0100 + old(self).stack_pointer.wrapping_sub(2)) as u16;
                (!old(bus).spec_cart_cpu_write_claims(s0) && !old(bus).spec_cart_cpu_write_claims(s1) && !old(bus).spec_cart_cpu_write_claims(s2)) ==> final(self).pc == (old(bus).spec_read_value(0xfffb, false) * 256
                    + old(bus).spec_read_value(0xfffa, false)) as u16 && final(bus).cpu_ram@ == old(bus).cpu_ram@.update((s0 % 0x800) as int, (old(self).pc / 256) as u8).update(
                    (s1 % 0x800) as int,
                    (old(self).pc % 256) as u8,
                ).update((s2 % 0x800) as int, (((old(self).flags.val & !0x10) | 0x20) | 0x04))
            }),
    {
        bus.cpu_write(0x0100 + self.stack_pointer as u16, (self.pc / 256) as u8);
        self.stack_pointer = self.stack_pointer.wrapping_sub(1);
        bus.cpu_write(0x0100 + self.stack_pointer as u16, (self.pc % 256) as u8);
        self.stack_pointer = self.stack_pointer.wrapping_sub(1);

        self.flags.set_b(false);
        self.flags.set_u(true);
        self.flags.set_i(true);
        bus.cpu_write(0x0100 + self.stack_pointer as u16, self.flags.val);
        self.stack_pointer = self.stack_pointer.wrapping_sub(1);

        let interrupt_vector = 0xfffau16;
        let lo = bus.cpu_read(interrupt_vector, false) as u16;
        let hi = bus.cpu_read(interrupt_vector + 1, false) as u16;

        self.pc = hi * 256 + lo;

        self.rem_cycles = 8;
    }
}

} // verus!
