//! The twelve addressing modes: each resolves an instruction's operand by
//! reading zero or more bytes after the opcode, and reports either an implied
//! value, a target address (with any page-cross penalty), or a branch offset.

use vstd::prelude::*;

use crate::bus::BusDevices;
use crate::bus::spec_frame_counters_eq;
use crate::cartdrige::Cartdrige;
use crate::cpu::Cpu;
use crate::input::InputProvider;
use crate::ppu::PpuOutput;
use crate::ppu::cart_views_eq;

verus! {

/// What an addressing mode hands the instruction: an implied value, a target
/// address plus extra-cycle flag, or a signed (sign-extended) branch offset.
#[derive(Clone, Copy, PartialEq, Eq, Structural)]
pub enum AddressingResult {
    Implicit { data: u8 },
    ReadFrom { address: u16, cycles: i8 },
    ProgramCounterRelative { address_rel: u16 },
}

/// The CPU with only its program counter advanced by `k`, wrapping.
pub open spec fn spec_pc_bump(c: Cpu, k: u16) -> Cpu {
    Cpu { pc: vstd::wrapping::u16_specs::wrapping_add(c.pc, k), ..c }
}

/// Whether `spec_read_value` pins the byte a read of `address` returns: it
/// does everywhere but at the controller ports (unless the cartridge claims
/// them), whose value depends on the buttons held.
pub open spec fn spec_value_known<C: Cartdrige, P: InputProvider, O: PpuOutput>(
    d: &BusDevices<C, P, O>,
    address: u16,
) -> bool {
    !(address == 0x4016 || address == 0x4017) || d.spec_cart_cpu_claims(address)
}

/// The page-cross penalty: one extra cycle exactly when adding the index
/// changes the address's high byte.
pub open spec fn spec_page_cross_cycles(base: u16, offseted: u16) -> i8 {
    if base / 256 != offseted / 256 {
        1i8
    } else {
        0i8
    }
}

/// The address the indirect mode reads its high byte from: one past the
/// pointer, except that a pointer ending in $FF wraps to the start of its own
/// page instead of carrying into the next.
pub open spec fn spec_indirect_high_address(ptr_lo: u8, ptr_hi: u8) -> u16 {
    if ptr_lo == 0xff {
        ((ptr_hi as u16) * 256) as u16
    } else {
        ((ptr_hi as u16) * 256 + ptr_lo + 1) as u16
    }
}

/// The indirect mode's high-byte fetch never leaves the pointer's page: its
/// page is always the pointer's own high byte, even for pointers ending in
/// $FF, where a carry into the next page would be the "natural" reading.
pub proof fn lemma_indirect_high_never_crosses(ptr_lo: u8, ptr_hi: u8)
    ensures
        spec_indirect_high_address(ptr_lo, ptr_hi) / 256 == ptr_hi,
{
}

/// Both operand bytes after the opcode sit in side-effect-free locations.
pub open spec fn spec_two_plain<C: Cartdrige, P: InputProvider, O: PpuOutput>(
    d: &BusDevices<C, P, O>,
    pc: u16,
) -> bool {
    d.spec_plain_read(pc) && d.spec_plain_read(vstd::wrapping::u16_specs::wrapping_add(pc, 1))
}

/// Implied: the operand is the accumulator itself; nothing is read.
pub fn am_implied<C: Cartdrige, P: InputProvider, O: PpuOutput>(cpu: &mut Cpu, bus: &mut BusDevices<C, P, O>) -> (r:
    AddressingResult)
    ensures
        *final(cpu) == *old(cpu),
        *final(bus) == *old(bus),
        r == (AddressingResult::Implicit { data: old(cpu).a }),
{
    AddressingResult::Implicit { data: cpu.a }
}

/// Immediate: the operand is the byte at the program counter.
pub fn am_immediate<C: Cartdrige, P: InputProvider, O: PpuOutput>(cpu: &mut Cpu, bus: &mut BusDevices<C, P, O>) -> (r:
    AddressingResult)
    ensures
        *final(cpu) == spec_pc_bump(*old(cpu), 1),
        *final(bus) == *old(bus),
        r == (AddressingResult::ReadFrom { address: old(cpu).pc, cycles: 0 }),
{
    let address = cpu.pc;
    cpu.pc = cpu.pc.wrapping_add(1);
    AddressingResult::ReadFrom { address, cycles: 0 }
}

/// Zero page: one operand byte names an address in page 0.
pub fn am_zero_page<C: Cartdrige, P: InputProvider, O: PpuOutput>(cpu: &mut Cpu, bus: &mut BusDevices<C, P, O>) -> (r:
    AddressingResult)
    requires
        old(bus).wf(),
    ensures
        final(bus).wf(),
        spec_frame_counters_eq(old(bus), final(bus)),
        cart_views_eq(old(bus).cartdrige, final(bus).cartdrige),
        final(bus).cpu_ram == old(bus).cpu_ram,
        final(bus).dma == old(bus).dma,
        *final(cpu) == spec_pc_bump(*old(cpu), 1),
        old(bus).spec_plain_read(old(cpu).pc) ==> *final(bus) == *old(bus),
        spec_value_known(old(bus), old(cpu).pc) ==> r == (AddressingResult::ReadFrom {
            address: old(bus).spec_read_value(old(cpu).pc, false) as u16,
            cycles: 0,
        }),
        r matches AddressingResult::ReadFrom { address, cycles } && address <= 0xff && cycles == 0,
{
    let mut address = bus.cpu_read(cpu.pc, false) as u16;
    address = address % 256;
    cpu.pc = cpu.pc.wrapping_add(1);
    AddressingResult::ReadFrom { address, cycles: 0 }
}

/// Zero page indexed by X, wrapping inside page 0.
pub fn am_zero_page_x_offset<C: Cartdrige, P: InputProvider, O: PpuOutput>(
    cpu: &mut Cpu,
    bus: &mut BusDevices<C, P, O>,
) -> (r: AddressingResult)
    requires
        old(bus).wf(),
    ensures
        final(bus).wf(),
        spec_frame_counters_eq(old(bus), final(bus)),
        cart_views_eq(old(bus).cartdrige, final(bus).cartdrige),
        final(bus).cpu_ram == old(bus).cpu_ram,
        final(bus).dma == old(bus).dma,
        *final(cpu) == spec_pc_bump(*old(cpu), 1),
        old(bus).spec_plain_read(old(cpu).pc) ==> *final(bus) == *old(bus),
        spec_value_known(old(bus), old(cpu).pc) ==> r == (AddressingResult::ReadFrom {
            address: ((old(bus).spec_read_value(old(cpu).pc, false) + old(cpu).x) % 256) as u16,
            cycles: 0,
        }),
        r matches AddressingResult::ReadFrom { address, cycles } && address <= 0xff && cycles == 0,
{
    let mut address = bus.cpu_read(cpu.pc, false) as u16;
    address = address + cpu.x as u16;
    address = address % 256;
    cpu.pc = cpu.pc.wrapping_add(1);
    AddressingResult::ReadFrom { address, cycles: 0 }
}

/// Zero page indexed by Y, wrapping inside page 0.
pub fn am_zero_page_y_offset<C: Cartdrige, P: InputProvider, O: PpuOutput>(
    cpu: &mut Cpu,
    bus: &mut BusDevices<C, P, O>,
) -> (r: AddressingResult)
    requires
        old(bus).wf(),
    ensures
        final(bus).wf(),
        spec_frame_counters_eq(old(bus), final(bus)),
        cart_views_eq(old(bus).cartdrige, final(bus).cartdrige),
        final(bus).cpu_ram == old(bus).cpu_ram,
        final(bus).dma == old(bus).dma,
        *final(cpu) == spec_pc_bump(*old(cpu), 1),
        old(bus).spec_plain_read(old(cpu).pc) ==> *final(bus) == *old(bus),
        spec_value_known(old(bus), old(cpu).pc) ==> r == (AddressingResult::ReadFrom {
            address: ((old(bus).spec_read_value(old(cpu).pc, false) + old(cpu).y) % 256) as u16,
            cycles: 0,
        }),
        r matches AddressingResult::ReadFrom { address, cycles } && address <= 0xff && cycles == 0,
{
    let mut address = bus.cpu_read(cpu.pc, false) as u16;
    address = address + cpu.y as u16;
    address = address % 256;
    cpu.pc = cpu.pc.wrapping_add(1);
    AddressingResult::ReadFrom { address, cycles: 0 }
}

/// Absolute: two operand bytes, low then high, name the address.
pub fn am_absolute<C: Cartdrige, P: InputProvider, O: PpuOutput>(cpu: &mut Cpu, bus: &mut BusDevices<C, P, O>) -> (r:
    AddressingResult)
    requires
        old(bus).wf(),
    ensures
        final(bus).wf(),
        spec_frame_counters_eq(old(bus), final(bus)),
        cart_views_eq(old(bus).cartdrige, final(bus).cartdrige),
        final(bus).cpu_ram == old(bus).cpu_ram,
        final(bus).dma == old(bus).dma,
        *final(cpu) == spec_pc_bump(*old(cpu), 2),
        spec_two_plain(old(bus), old(cpu).pc) ==> *final(bus) == *old(bus),
        (old(bus).spec_plain_read(old(cpu).pc) && spec_value_known(
            old(bus),
            vstd::wrapping::u16_specs::wrapping_add(old(cpu).pc, 1),
        )) ==> r == (AddressingResult::ReadFrom {
            address: (old(bus).spec_read_value(vstd::wrapping::u16_specs::wrapping_add(old(cpu).pc, 1), false) * 256
                + old(bus).spec_read_value(old(cpu).pc, false)) as u16,
            cycles: 0,
        }),
        r matches AddressingResult::ReadFrom { address, cycles } && cycles == 0,
{
    let low = bus.cpu_read(cpu.pc, false);
    cpu.pc = cpu.pc.wrapping_add(1);
    let hi = bus.cpu_read(cpu.pc, false);
    cpu.pc = cpu.pc.wrapping_add(1);
    let address = (hi as u16) * 256 + (low as u16);
    AddressingResult::ReadFrom { address, cycles: 0 }
}

/// Absolute indexed by X: the effective address is the absolute base plus X,
/// and crossing a page charges one extra cycle.
pub fn am_absolute_x<C: Cartdrige, P: InputProvider, O: PpuOutput>(cpu: &mut Cpu, bus: &mut BusDevices<C, P, O>) -> (r:
    AddressingResult)
    requires
        old(bus).wf(),
    ensures
        final(bus).wf(),
        spec_frame_counters_eq(old(bus), final(bus)),
        cart_views_eq(old(bus).cartdrige, final(bus).cartdrige),
        final(bus).cpu_ram == old(bus).cpu_ram,
        final(bus).dma == old(bus).dma,
        *final(cpu) == spec_pc_bump(*old(cpu), 2),
        spec_two_plain(old(bus), old(cpu).pc) ==> *final(bus) == *old(bus),
        (old(bus).spec_plain_read(old(cpu).pc) && spec_value_known(
            old(bus),
            vstd::wrapping::u16_specs::wrapping_add(old(cpu).pc, 1),
        )) ==> ({
            let base = (old(bus).spec_read_value(vstd::wrapping::u16_specs::wrapping_add(old(cpu).pc, 1), false) * 256
                + old(bus).spec_read_value(old(cpu).pc, false)) as u16;
            let eff = vstd::wrapping::u16_specs::wrapping_add(base, old(cpu).x as u16);
            r == (AddressingResult::ReadFrom { address: eff, cycles: spec_page_cross_cycles(base, eff) })
        }),
        exists|base: u16|
            #![trigger spec_page_cross_cycles(base, vstd::wrapping::u16_specs::wrapping_add(base, old(cpu).x as u16))]
            r == (AddressingResult::ReadFrom {
                address: vstd::wrapping::u16_specs::wrapping_add(base, old(cpu).x as u16),
                cycles: spec_page_cross_cycles(
                    base,
                    vstd::wrapping::u16_specs::wrapping_add(base, old(cpu).x as u16),
                ),
            }),
{
    let low = bus.cpu_read(cpu.pc, false);
    cpu.pc = cpu.pc.wrapping_add(1);
    let hi = bus.cpu_read(cpu.pc, false);
    cpu.pc = cpu.pc.wrapping_add(1);

    let address = (hi as u16) * 256 + (low as u16);
    let offseted_address = address.wrapping_add(cpu.x as u16);

    let og_page = address / 256;
    let offseted_page = offseted_address / 256;

    let additional_cycles: i8 = if og_page != offseted_page {
        1
    } else {
        0
    };

    proof {
        assert(spec_page_cross_cycles(
            (hi * 256 + low) as u16,
            vstd::wrapping::u16_specs::wrapping_add((hi * 256 + low) as u16, old(cpu).x as u16),
        ) == additional_cycles);
    }
    AddressingResult::ReadFrom { address: offseted_address, cycles: additional_cycles }
}

/// Absolute indexed by Y, with the same page-cross penalty rule.
pub fn am_absolute_y<C: Cartdrige, P: InputProvider, O: PpuOutput>(cpu: &mut Cpu, bus: &mut BusDevices<C, P, O>) -> (r:
    AddressingResult)
    requires
        old(bus).wf(),
    ensures
        final(bus).wf(),
        spec_frame_counters_eq(old(bus), final(bus)),
        cart_views_eq(old(bus).cartdrige, final(bus).cartdrige),
        final(bus).cpu_ram == old(bus).cpu_ram,
        final(bus).dma == old(bus).dma,
        *final(cpu) == spec_pc_bump(*old(cpu), 2),
        spec_two_plain(old(bus), old(cpu).pc) ==> *final(bus) == *old(bus),
        (old(bus).spec_plain_read(old(cpu).pc) && spec_value_known(
            old(bus),
            vstd::wrapping::u16_specs::wrapping_add(old(cpu).pc, 1),
        )) ==> ({
            let base = (old(bus).spec_read_value(vstd::wrapping::u16_specs::wrapping_add(old(cpu).pc, 1), false) * 256
                + old(bus).spec_read_value(old(cpu).pc, false)) as u16;
            let eff = vstd::wrapping::u16_specs::wrapping_add(base, old(cpu).y as u16);
            r == (AddressingResult::ReadFrom { address: eff, cycles: spec_page_cross_cycles(base, eff) })
        }),
        exists|base: u16|
            #![trigger spec_page_cross_cycles(base, vstd::wrapping::u16_specs::wrapping_add(base, old(cpu).y as u16))]
            r == (AddressingResult::ReadFrom {
                address: vstd::wrapping::u16_specs::wrapping_add(base, old(cpu).y as u16),
                cycles: spec_page_cross_cycles(
                    base,
                    vstd::wrapping::u16_specs::wrapping_add(base, old(cpu).y as u16),
                ),
            }),
{
    let low = bus.cpu_read(cpu.pc, false);
    cpu.pc = cpu.pc.wrapping_add(1);
    let hi = bus.cpu_read(cpu.pc, false);
    cpu.pc = cpu.pc.wrapping_add(1);

    let address = (hi as u16) * 256 + (low as u16);
    let offseted_address = address.wrapping_add(cpu.y as u16);

    let og_page = address / 256;
    let offseted_page = offseted_address / 256;

    let additional_cycles: i8 = if og_page != offseted_page {
        1
    } else {
        0
    };

    proof {
        assert(spec_page_cross_cycles(
            (hi * 256 + low) as u16,
            vstd::wrapping::u16_specs::wrapping_add((hi * 256 + low) as u16, old(cpu).y as u16),
        ) == additional_cycles);
    }
    AddressingResult::ReadFrom { address: offseted_address, cycles: additional_cycles }
}

/// Indirect: a two-byte pointer names where the real address is stored.
/// Reproduces the hardware page-wrap bug: a pointer ending in $FF reads its
/// high byte from the start of the same page, not the next one.
pub fn am_indirect<C: Cartdrige, P: InputProvider, O: PpuOutput>(cpu: &mut Cpu, bus: &mut BusDevices<C, P, O>) -> (r:
    AddressingResult)
    requires
        old(bus).wf(),
    ensures
        final(bus).wf(),
        spec_frame_counters_eq(old(bus), final(bus)),
        cart_views_eq(old(bus).cartdrige, final(bus).cartdrige),
        final(bus).cpu_ram == old(bus).cpu_ram,
        final(bus).dma == old(bus).dma,
        *final(cpu) == spec_pc_bump(*old(cpu), 2),
        ({
            let p_lo = old(bus).spec_read_value(old(cpu).pc, false);
            let p_hi = old(bus).spec_read_value(vstd::wrapping::u16_specs::wrapping_add(old(cpu).pc, 1), false);
            let ptr = (p_hi * 256 + p_lo) as u16;
            let hi_addr = spec_indirect_high_address(p_lo, p_hi);
            (spec_two_plain(old(bus), old(cpu).pc) && old(bus).spec_plain_read(ptr) && spec_value_known(
                old(bus),
                hi_addr,
            )) ==> r == (AddressingResult::ReadFrom {
                address: (old(bus).spec_read_value(hi_addr, false) * 256 + old(bus).spec_read_value(
                    ptr,
                    false,
                )) as u16,
                cycles: 0,
            })
        }),
        r matches AddressingResult::ReadFrom { address, cycles } && cycles == 0,
{
    let ptr_low = bus.cpu_read(cpu.pc, false);
    cpu.pc = cpu.pc.wrapping_add(1);
    let ptr_hi = bus.cpu_read(cpu.pc, false);
    cpu.pc = cpu.pc.wrapping_add(1);

    let ptr = (ptr_hi as u16) * 256 + (ptr_low as u16);

    let address_lo = bus.cpu_read(ptr, false);

    let address_hi = if ptr_low == 0xff {
        bus.cpu_read((ptr_hi as u16) * 256, false)
    } else {
        bus.cpu_read(ptr + 1, false)
    };

    let address = (address_hi as u16) * 256 + (address_lo as u16);

    AddressingResult::ReadFrom { address, cycles: 0 }
}

/// Indexed indirect: a zero-page pointer offset by X (wrapping in page 0)
/// names where the real address is stored, both bytes read inside page 0.
pub fn am_indexed_indirect<C: Cartdrige, P: InputProvider, O: PpuOutput>(
    cpu: &mut Cpu,
    bus: &mut BusDevices<C, P, O>,
) -> (r: AddressingResult)
    requires
        old(bus).wf(),
    ensures
        final(bus).wf(),
        spec_frame_counters_eq(old(bus), final(bus)),
        cart_views_eq(old(bus).cartdrige, final(bus).cartdrige),
        final(bus).cpu_ram == old(bus).cpu_ram,
        final(bus).dma == old(bus).dma,
        *final(cpu) == spec_pc_bump(*old(cpu), 1),
        ({
            let ptr = old(bus).spec_read_value(old(cpu).pc, false) + old(cpu).x;
            let lo_addr = (ptr % 256) as u16;
            let hi_addr = ((ptr + 1) % 256) as u16;
            (old(bus).spec_plain_read(old(cpu).pc) && old(bus).spec_plain_read(lo_addr) && spec_value_known(
                old(bus),
                hi_addr,
            )) ==> r == (AddressingResult::ReadFrom {
                address: (old(bus).spec_read_value(hi_addr, false) * 256 + old(bus).spec_read_value(
                    lo_addr,
                    false,
                )) as u16,
                cycles: 0,
            })
        }),
        r matches AddressingResult::ReadFrom { address, cycles } && cycles == 0,
{
    let mut ptr = bus.cpu_read(cpu.pc, false) as u16;
    cpu.pc = cpu.pc.wrapping_add(1);

    ptr = ptr + cpu.x as u16;

    let address_lo = bus.cpu_read(ptr % 256, false);
    let address_hi = bus.cpu_read((ptr + 1) % 256, false);

    let address = (address_hi as u16) * 256 + (address_lo as u16);

    AddressingResult::ReadFrom { address, cycles: 0 }
}

/// Indirect indexed: a zero-page pointer is dereferenced (both bytes in page
/// 0), then Y is added; crossing a page charges one extra cycle.
pub fn am_indirect_indexed<C: Cartdrige, P: InputProvider, O: PpuOutput>(
    cpu: &mut Cpu,
    bus: &mut BusDevices<C, P, O>,
) -> (r: AddressingResult)
    requires
        old(bus).wf(),
    ensures
        final(bus).wf(),
        spec_frame_counters_eq(old(bus), final(bus)),
        cart_views_eq(old(bus).cartdrige, final(bus).cartdrige),
        final(bus).cpu_ram == old(bus).cpu_ram,
        final(bus).dma == old(bus).dma,
        *final(cpu) == spec_pc_bump(*old(cpu), 1),
        ({
            let ptr = old(bus).spec_read_value(old(cpu).pc, false) as u16;
            let hi_addr = ((ptr + 1) % 256) as u16;
            (old(bus).spec_plain_read(old(cpu).pc) && old(bus).spec_plain_read(ptr) && spec_value_known(
                old(bus),
                hi_addr,
            )) ==> ({
                let base = (old(bus).spec_read_value(hi_addr, false) * 256 + old(bus).spec_read_value(
                    ptr,
                    false,
                )) as u16;
                let eff = vstd::wrapping::u16_specs::wrapping_add(base, old(cpu).y as u16);
                r == (AddressingResult::ReadFrom { address: eff, cycles: spec_page_cross_cycles(base, eff) })
            })
        }),
        exists|base: u16|
            #![trigger spec_page_cross_cycles(base, vstd::wrapping::u16_specs::wrapping_add(base, old(cpu).y as u16))]
            r == (AddressingResult::ReadFrom {
                address: vstd::wrapping::u16_specs::wrapping_add(base, old(cpu).y as u16),
                cycles: spec_page_cross_cycles(
                    base,
                    vstd::wrapping::u16_specs::wrapping_add(base, old(cpu).y as u16),
                ),
            }),
{
    let ptr = bus.cpu_read(cpu.pc, false) as u16;
    cpu.pc = cpu.pc.wrapping_add(1);

    let address_lo = bus.cpu_read(ptr % 256, false);
    let address_hi = bus.cpu_read((ptr + 1) % 256, false);

    let address = (address_hi as u16) * 256 + (address_lo as u16);
    let offseted_address = address.wrapping_add(cpu.y as u16);

    let og_page = address / 256;
    let offseted_page = offseted_address / 256;

    let additional_cycles: i8 = if og_page != offseted_page {
        1
    } else {
        0
    };

    proof {
        assert(spec_page_cross_cycles(
            (address_hi * 256 + address_lo) as u16,
            vstd::wrapping::u16_specs::wrapping_add((address_hi * 256 + address_lo) as u16, old(cpu).y as u16),
        ) == additional_cycles);
    }
    AddressingResult::ReadFrom { address: offseted_address, cycles: additional_cycles }
}

/// Relative, for branches: one operand byte, sign-extended to a 16-bit
/// offset from the program counter.
pub fn am_relative<C: Cartdrige, P: InputProvider, O: PpuOutput>(cpu: &mut Cpu, bus: &mut BusDevices<C, P, O>) -> (r:
    AddressingResult)
    requires
        old(bus).wf(),
    ensures
        final(bus).wf(),
        spec_frame_counters_eq(old(bus), final(bus)),
        cart_views_eq(old(bus).cartdrige, final(bus).cartdrige),
        final(bus).cpu_ram == old(bus).cpu_ram,
        final(bus).dma == old(bus).dma,
        *final(cpu) == spec_pc_bump(*old(cpu), 1),
        old(bus).spec_plain_read(old(cpu).pc) ==> *final(bus) == *old(bus),
        spec_value_known(old(bus), old(cpu).pc) ==> ({
            let v = old(bus).spec_read_value(old(cpu).pc, false);
            r == (AddressingResult::ProgramCounterRelative {
                address_rel: if v >= 0x80 {
                    (0xff00 + v) as u16
                } else {
                    v as u16
                },
            })
        }),
        r matches AddressingResult::ProgramCounterRelative { address_rel },
{
    let v = bus.cpu_read(cpu.pc, false);
    cpu.pc = cpu.pc.wrapping_add(1);

    let address_rel: u16 = if v >= 0x80 {
        0xff00 + (v as u16)
    } else {
        v as u16
    };

    AddressingResult::ProgramCounterRelative { address_rel }
}

impl AddressingResult {
    /// The operand byte this result denotes: the implied value itself, or a
    /// bus read of the target address (a branch offset has no operand).
    pub fn fetch<C: Cartdrige, P: InputProvider, O: PpuOutput>(&self, bus: &mut BusDevices<C, P, O>) -> (r: u8)
        requires
            old(bus).wf(),
        ensures
            final(bus).wf(),
        spec_frame_counters_eq(old(bus), final(bus)),
            cart_views_eq(old(bus).cartdrige, final(bus).cartdrige),
            final(bus).cpu_ram == old(bus).cpu_ram,
            final(bus).dma == old(bus).dma,
            self matches AddressingResult::Implicit { data } ==> r == *data && *final(bus) == *old(bus),
            self matches AddressingResult::ProgramCounterRelative { address_rel } ==> r == 0 && *final(bus) == *old(
                bus,
            ),
            self matches AddressingResult::ReadFrom { address, cycles } ==> ((spec_value_known(old(bus), *address)
                ==> r == old(bus).spec_read_value(*address, false)) && (old(bus).spec_plain_read(*address)
                ==> *final(bus) == *old(bus))),
    {
        match self {
            AddressingResult::Implicit { data } => *data,
            AddressingResult::ReadFrom { address, cycles: _ } => bus.cpu_read(*address, false),
            AddressingResult::ProgramCounterRelative { address_rel: _ } => 0,
        }
    }

    /// The target address this result denotes: the read address, or the
    /// program counter plus the branch offset (an implied operand has none).
    pub fn address(&self, cpu: &Cpu) -> (r: u16)
        ensures
            self matches AddressingResult::ReadFrom { address, cycles } ==> r == *address,
            self matches AddressingResult::ProgramCounterRelative { address_rel } ==> r
                == vstd::wrapping::u16_specs::wrapping_add(cpu.pc, *address_rel),
            self matches AddressingResult::Implicit { data } ==> r == 0,
    {
        match self {
            AddressingResult::Implicit { data: _ } => 0,
            AddressingResult::ReadFrom { address, cycles: _ } => *address,
            AddressingResult::ProgramCounterRelative { address_rel } => cpu.pc.wrapping_add(*address_rel),
        }
    }
}

} // verus!
