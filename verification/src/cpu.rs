//! The 6502-style CPU: architectural registers, the packed status byte, and
//! the pure register/flag effect of each arithmetic and logic operation.
//! Decimal mode is wired but unused. Instruction fetch and execution against
//! the bus live in the `instructions` and `addressing_modes` submodules.

use vstd::prelude::*;

use crate::bits::lemma_u8_bit_update;

pub mod addressing_modes;
pub mod instructions;

verus! {

/// The packed status byte: Carry, Zero, InterruptDisable, Decimal (unused),
/// Break, Unused, Overflow, Negative, in bits 0 through 7.
pub struct CpuStateFlags {
    pub val: u8,
}

impl CpuStateFlags {
    pub open spec fn c(self) -> bool {
        self.val & 0x01 != 0
    }

    pub open spec fn z(self) -> bool {
        self.val & 0x02 != 0
    }

    pub open spec fn i(self) -> bool {
        self.val & 0x04 != 0
    }

    pub open spec fn d(self) -> bool {
        self.val & 0x08 != 0
    }

    pub open spec fn b(self) -> bool {
        self.val & 0x10 != 0
    }

    pub open spec fn u(self) -> bool {
        self.val & 0x20 != 0
    }

    pub open spec fn v(self) -> bool {
        self.val & 0x40 != 0
    }

    pub open spec fn n(self) -> bool {
        self.val & 0x80 != 0
    }

    /// All flags but the one at `mask` agree between the two bytes.
    pub open spec fn others_eq(self, other: CpuStateFlags, mask: u8) -> bool {
        &&& (mask != 0x01 ==> self.c() == other.c())
        &&& (mask != 0x02 ==> self.z() == other.z())
        &&& (mask != 0x04 ==> self.i() == other.i())
        &&& (mask != 0x08 ==> self.d() == other.d())
        &&& (mask != 0x10 ==> self.b() == other.b())
        &&& (mask != 0x20 ==> self.u() == other.u())
        &&& (mask != 0x40 ==> self.v() == other.v())
        &&& (mask != 0x80 ==> self.n() == other.n())
    }

    pub fn new(val: u8) -> (r: CpuStateFlags)
        ensures
            r.val == val,
    {
        CpuStateFlags { val }
    }

    fn set_mask(&mut self, mask: u8, on: bool)
        requires
            mask == 0x01 || mask == 0x02 || mask == 0x04 || mask == 0x08 || mask == 0x10 || mask == 0x20
                || mask == 0x40 || mask == 0x80,
        ensures
            final(self).val == if on {
                old(self).val | mask
            } else {
                old(self).val & !mask
            },
            (final(self).val & mask != 0) == on,
            final(self).others_eq(*old(self), mask),
    {
        proof {
            lemma_u8_bit_update(self.val, mask, 0x01, on);
            lemma_u8_bit_update(self.val, mask, 0x02, on);
            lemma_u8_bit_update(self.val, mask, 0x04, on);
            lemma_u8_bit_update(self.val, mask, 0x08, on);
            lemma_u8_bit_update(self.val, mask, 0x10, on);
            lemma_u8_bit_update(self.val, mask, 0x20, on);
            lemma_u8_bit_update(self.val, mask, 0x40, on);
            lemma_u8_bit_update(self.val, mask, 0x80, on);
        }
        if on {
            self.val = self.val | mask;
        } else {
            self.val = self.val & !mask;
        }
    }

    pub fn set_c(&mut self, on: bool)
        ensures
            final(self).c() == on,
            final(self).others_eq(*old(self), 0x01),
            final(self).val == if on {
                old(self).val | 0x01
            } else {
                old(self).val & !0x01
            },
    {
        self.set_mask(0x01, on);
    }

    pub fn set_z(&mut self, on: bool)
        ensures
            final(self).z() == on,
            final(self).others_eq(*old(self), 0x02),
            final(self).val == if on {
                old(self).val | 0x02
            } else {
                old(self).val & !0x02
            },
    {
        self.set_mask(0x02, on);
    }

    pub fn set_i(&mut self, on: bool)
        ensures
            final(self).i() == on,
            final(self).others_eq(*old(self), 0x04),
            final(self).val == if on {
                old(self).val | 0x04
            } else {
                old(self).val & !0x04
            },
    {
        self.set_mask(0x04, on);
    }

    pub fn set_d(&mut self, on: bool)
        ensures
            final(self).d() == on,
            final(self).others_eq(*old(self), 0x08),
            final(self).val == if on {
                old(self).val | 0x08
            } else {
                old(self).val & !0x08
            },
    {
        self.set_mask(0x08, on);
    }

    pub fn set_b(&mut self, on: bool)
        ensures
            final(self).b() == on,
            final(self).others_eq(*old(self), 0x10),
            final(self).val == if on {
                old(self).val | 0x10
            } else {
                old(self).val & !0x10
            },
    {
        self.set_mask(0x10, on);
    }

    pub fn set_u(&mut self, on: bool)
        ensures
            final(self).u() == on,
            final(self).others_eq(*old(self), 0x20),
            final(self).val == if on {
                old(self).val | 0x20
            } else {
                old(self).val & !0x20
            },
    {
        self.set_mask(0x20, on);
    }

    pub fn set_v(&mut self, on: bool)
        ensures
            final(self).v() == on,
            final(self).others_eq(*old(self), 0x40),
            final(self).val == if on {
                old(self).val | 0x40
            } else {
                old(self).val & !0x40
            },
    {
        self.set_mask(0x40, on);
    }

    pub fn set_n(&mut self, on: bool)
        ensures
            final(self).n() == on,
            final(self).others_eq(*old(self), 0x80),
            final(self).val == if on {
                old(self).val | 0x80
            } else {
                old(self).val & !0x80
            },
    {
        self.set_mask(0x80, on);
    }

    pub fn get_c(&self) -> (r: bool)
        ensures
            r == self.c(),
    {
        self.val & 0x01 != 0
    }

    pub fn get_z(&self) -> (r: bool)
        ensures
            r == self.z(),
    {
        self.val & 0x02 != 0
    }

    pub fn get_i(&self) -> (r: bool)
        ensures
            r == self.i(),
    {
        self.val & 0x04 != 0
    }

    pub fn get_v(&self) -> (r: bool)
        ensures
            r == self.v(),
    {
        self.val & 0x40 != 0
    }

    pub fn get_n(&self) -> (r: bool)
        ensures
            r == self.n(),
    {
        self.val & 0x80 != 0
    }
}

/// The CPU's architectural state. The stack lives in page 1 of bus RAM;
/// `rem_cycles` counts the ticks left in the instruction under way.
pub struct Cpu {
    pub flags: CpuStateFlags,
    pub a: u8,
    pub x: u8,
    pub y: u8,
    pub stack_pointer: u8,
    pub pc: u16,

    pub rem_cycles: i8,
}

/// The full 9-bit sum an add-with-carry forms.
pub open spec fn spec_adc_sum(a: u8, m: u8, c: bool) -> int {
    a + m + (if c {
        1int
    } else {
        0int
    })
}

/// The result byte of add-with-carry.
pub open spec fn spec_adc_result(a: u8, m: u8, c: bool) -> u8 {
    (spec_adc_sum(a, m, c) % 256) as u8
}

/// The signed-overflow rule: set when the operands agree in sign and the
/// result disagrees — `(~(A ^ M) & (A ^ R) & 0x80) != 0`.
pub open spec fn spec_overflow_flag(a: u8, m: u8, r: u8) -> bool {
    (!(a ^ m)) & (a ^ r) & 0x80 != 0
}

/// Registers other than A, and the program state, are untouched.
pub open spec fn spec_only_a_and_flags_changed(pre: Cpu, post: Cpu) -> bool {
    &&& post.x == pre.x
    &&& post.y == pre.y
    &&& post.stack_pointer == pre.stack_pointer
    &&& post.pc == pre.pc
    &&& post.rem_cycles == pre.rem_cycles
}

/// The I, D, B and U flags are untouched.
pub open spec fn spec_idbu_unchanged(pre: Cpu, post: Cpu) -> bool {
    &&& post.flags.i() == pre.flags.i()
    &&& post.flags.d() == pre.flags.d()
    &&& post.flags.b() == pre.flags.b()
    &&& post.flags.u() == pre.flags.u()
}

impl Cpu {
    pub open spec fn wf(self) -> bool {
        0 <= self.rem_cycles <= 20
    }

    pub fn new() -> (r: Cpu)
        ensures
            r.wf(),
            r.flags.val == 0,
            r.a == 0,
            r.x == 0,
            r.y == 0,
            r.stack_pointer == 0,
            r.pc == 0,
            r.rem_cycles == 0,
    {
        Cpu {
            flags: CpuStateFlags { val: 0 },
            a: 0x00u8,
            x: 0x00u8,
            y: 0x00u8,
            stack_pointer: 0x00u8,
            pc: 0x0000u16,

            rem_cycles: 0,
        }
    }

    /// Sets Zero and Negative from a result byte: Zero iff the byte is zero,
    /// Negative iff bit 7 is set.
    pub fn set_zn(&mut self, value: u8)
        ensures
            final(self).flags.z() == (value == 0),
            final(self).flags.n() == (value >= 0x80),
            final(self).flags.c() == old(self).flags.c(),
            final(self).flags.v() == old(self).flags.v(),
            spec_idbu_unchanged(*old(self), *final(self)),
            final(self).a == old(self).a,
            spec_only_a_and_flags_changed(*old(self), *final(self)),
    {
        self.flags.set_z(value == 0);
        self.flags.set_n(value >= 0x80);
    }

    /// Add with carry: A := A + M + C, with Carry as the unsigned carry out,
    /// Zero and Negative from the result byte, and Overflow by the signed
    /// rule.
    pub fn do_adc(&mut self, m: u8)
        ensures
            final(self).a == spec_adc_result(old(self).a, m, old(self).flags.c()),
            final(self).flags.c() == (spec_adc_sum(old(self).a, m, old(self).flags.c()) > 255),
            final(self).flags.z() == (final(self).a == 0),
            final(self).flags.n() == (final(self).a >= 0x80),
            final(self).flags.v() == spec_overflow_flag(old(self).a, m, final(self).a),
            spec_idbu_unchanged(*old(self), *final(self)),
            spec_only_a_and_flags_changed(*old(self), *final(self)),
    {
        let carry_in: u16 = if self.flags.get_c() {
            1
        } else {
            0
        };
        let temp: u16 = (self.a as u16) + (m as u16) + carry_in;

        self.flags.set_c(temp > 255);
        let result: u8 = (temp % 256) as u8;
        self.flags.set_z(result == 0);

        let v = (!(self.a ^ m)) & (self.a ^ result) & 0x80 != 0;
        self.flags.set_v(v);

        self.flags.set_n(result >= 0x80);

        self.a = result;
    }

    /// Subtract with borrow: the operand is one's-complemented and the
    /// add-with-carry path reused.
    pub fn do_sbc(&mut self, m: u8)
        ensures
            final(self).a == spec_adc_result(old(self).a, !m, old(self).flags.c()),
            final(self).flags.c() == (spec_adc_sum(old(self).a, !m, old(self).flags.c()) > 255),
            final(self).flags.z() == (final(self).a == 0),
            final(self).flags.n() == (final(self).a >= 0x80),
            final(self).flags.v() == spec_overflow_flag(old(self).a, !m, final(self).a),
            spec_idbu_unchanged(*old(self), *final(self)),
            spec_only_a_and_flags_changed(*old(self), *final(self)),
    {
        self.do_adc(!m);
    }

    /// A := A & M, with Zero and Negative from the result.
    pub fn do_and(&mut self, m: u8)
        ensures
            final(self).a == (old(self).a & m),
            final(self).flags.z() == (final(self).a == 0),
            final(self).flags.n() == (final(self).a >= 0x80),
            final(self).flags.c() == old(self).flags.c(),
            final(self).flags.v() == old(self).flags.v(),
            spec_idbu_unchanged(*old(self), *final(self)),
            spec_only_a_and_flags_changed(*old(self), *final(self)),
    {
        self.a = self.a & m;
        let a = self.a;
        self.set_zn(a);
    }

    /// A := A | M, with Zero and Negative from the result.
    pub fn do_ora(&mut self, m: u8)
        ensures
            final(self).a == (old(self).a | m),
            final(self).flags.z() == (final(self).a == 0),
            final(self).flags.n() == (final(self).a >= 0x80),
            final(self).flags.c() == old(self).flags.c(),
            final(self).flags.v() == old(self).flags.v(),
            spec_idbu_unchanged(*old(self), *final(self)),
            spec_only_a_and_flags_changed(*old(self), *final(self)),
    {
        self.a = self.a | m;
        let a = self.a;
        self.set_zn(a);
    }

    /// A := A ^ M, with Zero and Negative from the result.
    pub fn do_eor(&mut self, m: u8)
        ensures
            final(self).a == (old(self).a ^ m),
            final(self).flags.z() == (final(self).a == 0),
            final(self).flags.n() == (final(self).a >= 0x80),
            final(self).flags.c() == old(self).flags.c(),
            final(self).flags.v() == old(self).flags.v(),
            spec_idbu_unchanged(*old(self), *final(self)),
            spec_only_a_and_flags_changed(*old(self), *final(self)),
    {
        self.a = self.a ^ m;
        let a = self.a;
        self.set_zn(a);
    }

    /// A := M, with Zero and Negative from the loaded byte.
    pub fn do_lda(&mut self, m: u8)
        ensures
            final(self).a == m,
            final(self).flags.z() == (m == 0),
            final(self).flags.n() == (m >= 0x80),
            final(self).flags.c() == old(self).flags.c(),
            final(self).flags.v() == old(self).flags.v(),
            spec_idbu_unchanged(*old(self), *final(self)),
            spec_only_a_and_flags_changed(*old(self), *final(self)),
    {
        self.a = m;
        self.set_zn(m);
    }

    /// Compare a register byte with the operand: Carry iff reg >= M, Zero iff
    /// equal, Negative from bit 7 of the wrapped difference.
    pub fn do_compare(&mut self, reg: u8, m: u8)
        ensures
            final(self).flags.c() == (reg >= m),
            final(self).flags.z() == (reg == m),
            final(self).flags.n() == ((reg - m) % 256 >= 128),
            final(self).flags.v() == old(self).flags.v(),
            spec_idbu_unchanged(*old(self), *final(self)),
            final(self).a == old(self).a,
            spec_only_a_and_flags_changed(*old(self), *final(self)),
    {
        let temp: u16 = (reg as u16).wrapping_sub(m as u16);

        self.flags.set_c(reg >= m);
        self.flags.set_z(reg == m);
        self.flags.set_n(temp % 256 >= 128);
    }

    /// Bit test: Zero from A & M, Negative and Overflow copied from bits 7
    /// and 6 of the operand.
    pub fn do_bit(&mut self, m: u8)
        ensures
            final(self).flags.z() == (old(self).a & m == 0),
            final(self).flags.n() == (m & 0x80 != 0),
            final(self).flags.v() == (m & 0x40 != 0),
            final(self).flags.c() == old(self).flags.c(),
            spec_idbu_unchanged(*old(self), *final(self)),
            final(self).a == old(self).a,
            spec_only_a_and_flags_changed(*old(self), *final(self)),
    {
        let temp = self.a & m;

        self.flags.set_z(temp == 0);
        self.flags.set_n(m & 0x80 != 0);
        self.flags.set_v(m & 0x40 != 0);
    }

    /// Arithmetic shift left of an operand byte: returns the shifted byte;
    /// Carry takes the bit shifted out.
    pub fn do_asl(&mut self, m: u8) -> (r: u8)
        ensures
            r == (m * 2) % 256,
            final(self).flags.c() == (m >= 0x80),
            final(self).flags.z() == (r == 0),
            final(self).flags.n() == (r >= 0x80),
            final(self).flags.v() == old(self).flags.v(),
            spec_idbu_unchanged(*old(self), *final(self)),
            final(self).a == old(self).a,
            spec_only_a_and_flags_changed(*old(self), *final(self)),
    {
        let temp: u16 = (m as u16) * 2;
        let result: u8 = (temp % 256) as u8;

        self.flags.set_c(temp > 255);
        self.flags.set_z(result == 0);
        self.flags.set_n(result >= 0x80);

        result
    }

    /// Logical shift right: returns the shifted byte; Carry takes bit 0.
    pub fn do_lsr(&mut self, m: u8) -> (r: u8)
        ensures
            r == m / 2,
            final(self).flags.c() == (m % 2 == 1),
            final(self).flags.z() == (r == 0),
            final(self).flags.n() == false,
            final(self).flags.v() == old(self).flags.v(),
            spec_idbu_unchanged(*old(self), *final(self)),
            final(self).a == old(self).a,
            spec_only_a_and_flags_changed(*old(self), *final(self)),
    {
        let result: u8 = m / 2;

        self.flags.set_c(m % 2 == 1);
        self.flags.set_z(result == 0);
        self.flags.set_n(result >= 0x80);

        result
    }

    /// Rotate left through Carry: returns the rotated byte; Carry takes the
    /// bit shifted out.
    pub fn do_rol(&mut self, m: u8) -> (r: u8)
        ensures
            r == (m * 2 + (if old(self).flags.c() {
                1int
            } else {
                0int
            })) % 256,
            final(self).flags.c() == (m >= 0x80),
            final(self).flags.z() == (r == 0),
            final(self).flags.n() == (r >= 0x80),
            final(self).flags.v() == old(self).flags.v(),
            spec_idbu_unchanged(*old(self), *final(self)),
            final(self).a == old(self).a,
            spec_only_a_and_flags_changed(*old(self), *final(self)),
    {
        let carry_in: u16 = if self.flags.get_c() {
            1
        } else {
            0
        };
        let temp: u16 = (m as u16) * 2 + carry_in;
        let result: u8 = (temp % 256) as u8;

        self.flags.set_c(temp > 255);
        self.flags.set_z(result == 0);
        self.flags.set_n(result >= 0x80);

        result
    }

    /// Rotate right through Carry: returns the rotated byte; Carry takes
    /// bit 0.
    pub fn do_ror(&mut self, m: u8) -> (r: u8)
        ensures
            r == (if old(self).flags.c() {
                128int
            } else {
                0int
            }) + m / 2,
            final(self).flags.c() == (m % 2 == 1),
            final(self).flags.z() == (r == 0),
            final(self).flags.n() == (r >= 0x80),
            final(self).flags.v() == old(self).flags.v(),
            spec_idbu_unchanged(*old(self), *final(self)),
            final(self).a == old(self).a,
            spec_only_a_and_flags_changed(*old(self), *final(self)),
    {
        let carry_in: u8 = if self.flags.get_c() {
            128
        } else {
            0
        };
        let result: u8 = carry_in + m / 2;

        self.flags.set_c(m % 2 == 1);
        self.flags.set_z(result == 0);
        self.flags.set_n(result >= 0x80);

        result
    }
}

} // verus!
