//! Debug tooling: renders the CPU and picture address spaces as hex-dump
//! text, eight bytes per line. The host decides where the text goes.

use vstd::prelude::*;

use crate::bus::Bus;
use crate::bus::BusDevices;
use crate::cartdrige::Cartdrige;
use crate::input::InputProvider;
use crate::ppu::PpuOutput;

verus! {

/// Relies on String::push_str: appends exactly the given characters.
pub assume_specification[ String::push_str ](s: &mut String, string: &str)
    ensures
        final(s)@ == old(s)@ + string@,
;

/// Relies on String::push: appends exactly the given character.
pub assume_specification[ String::push ](s: &mut String, ch: char)
    ensures
        final(s)@ == old(s)@.push(ch),
;

/// The lower-case hex digit for a value below 16: '0' through '9' then 'a'
/// through 'f'.
pub open spec fn spec_hex_digit(v: u8) -> char {
    if v < 10 {
        ((48 + v) as u8) as char
    } else {
        ((87 + v) as u8) as char
    }
}

/// Relies on hex::encode: two lower-case hex digits per byte, high nibble
/// first.
#[verifier::external_body]
fn hex_encode(bytes: &Vec<u8>) -> (r: String)
    ensures
        r@.len() == 2 * bytes@.len(),
        forall|i: int|
            #![trigger bytes@[i]]
            0 <= i < bytes@.len() ==> r@[2 * i] == spec_hex_digit(bytes@[i] / 16) && r@[2 * i + 1]
                == spec_hex_digit(bytes@[i] % 16),
{
    hex::encode(bytes.as_slice())
}

/// Two lower-case hex digits, high nibble first.
pub open spec fn spec_hex_pair(b: u8) -> Seq<char> {
    seq![spec_hex_digit(b / 16), spec_hex_digit(b % 16)]
}

/// The line under construction after the address and `groups` byte groups.
pub open spec fn spec_line_prefix(at: u16, bytes: Seq<u8>, groups: int) -> Seq<char> {
    let head = seq!['$'] + spec_hex_pair((at / 256) as u8) + spec_hex_pair((at % 256) as u8);
    if groups <= 0 {
        head
    } else if groups == 1 {
        head + seq![' '] + spec_hex_pair(bytes[0]) + spec_hex_pair(bytes[1]) + spec_hex_pair(bytes[2])
            + spec_hex_pair(bytes[3])
    } else {
        head + seq![' '] + spec_hex_pair(bytes[0]) + spec_hex_pair(bytes[1]) + spec_hex_pair(bytes[2])
            + spec_hex_pair(bytes[3]) + seq![' '] + spec_hex_pair(bytes[4]) + spec_hex_pair(bytes[5])
            + spec_hex_pair(bytes[6]) + spec_hex_pair(bytes[7])
    }
}

/// One dump line as characters: a '$', the four address digits, two
/// space-separated groups of four bytes, and a newline — 24 characters.
pub open spec fn spec_dump_line(at: u16, bytes: Seq<u8>) -> Seq<char> {
    spec_line_prefix(at, bytes, 2) + seq!['\n']
}

/// One dump line: a '$', the four-digit address, two space-separated groups
/// of four bytes, and a newline — 24 characters exactly.
fn dump_line(at: u16, bytes: &Vec<u8>) -> (r: String)
    requires
        bytes@.len() == 8,
    ensures
        r@.len() == 24,
        r@ == spec_dump_line(at, bytes@),
{
    let mut line = String::new();
    line.push('$');
    let mut addr_bytes: Vec<u8> = Vec::new();
    addr_bytes.push((at / 256) as u8);
    addr_bytes.push((at % 256) as u8);
    let addr_hex = hex_encode(&addr_bytes);
    line.push_str(addr_hex.as_str());
    proof {
        assert(addr_bytes@[0] == (at / 256) as u8);
        assert(addr_bytes@[1] == (at % 256) as u8);
        assert(line@ =~= spec_line_prefix(at, bytes@, 0));
    }

    let mut group: usize = 0;
    while group < 2
        invariant
            group <= 2,
            bytes@.len() == 8,
            line@.len() == 5 + group * 9,
            line@ == spec_line_prefix(at, bytes@, group as int),
        decreases 2 - group,
    {
        line.push(' ');
        let mut chunk: Vec<u8> = Vec::new();
        chunk.push(bytes[group * 4]);
        chunk.push(bytes[group * 4 + 1]);
        chunk.push(bytes[group * 4 + 2]);
        chunk.push(bytes[group * 4 + 3]);
        let chunk_hex = hex_encode(&chunk);
        proof {
            assert(chunk@[0] == bytes@[4 * (group as int)]);
            assert(chunk@[1] == bytes@[4 * (group as int) + 1]);
            assert(chunk@[2] == bytes@[4 * (group as int) + 2]);
            assert(chunk@[3] == bytes@[4 * (group as int) + 3]);
            assert(chunk_hex@ =~= spec_hex_pair(bytes@[4 * (group as int)]) + spec_hex_pair(
                bytes@[4 * (group as int) + 1],
            ) + spec_hex_pair(bytes@[4 * (group as int) + 2]) + spec_hex_pair(bytes@[4 * (group as int) + 3]));
        }
        line.push_str(chunk_hex.as_str());
        proof {
            assert(line@ =~= spec_line_prefix(at, bytes@, group as int + 1));
        }
        group = group + 1;
    }

    line.push('\n');
    proof {
        assert(line@ =~= spec_dump_line(at, bytes@));
    }
    line
}

/// The dump line for the eight bytes at `at`, as the debug port reads them.
pub open spec fn spec_dump_line_at<C: Cartdrige, P: InputProvider, O: PpuOutput>(
    d: &BusDevices<C, P, O>,
    at: u16,
) -> Seq<char> {
    spec_dump_line(at, Seq::new(8, |i: int| d.spec_read_value((at + i) as u16, true)))
}

/// The whole CPU address space, $0000 through $FFFF, as hex-dump text:
/// 8192 lines of 24 characters, read through the debug (read-only) port so
/// no device state is disturbed by the register reads.
#[verifier::rlimit(100)]
#[verifier::spinoff_prover]
pub fn dump_memory_contents<C: Cartdrige, P: InputProvider, O: PpuOutput>(nes: &mut Bus<C, P, O>) -> (r: String)
    requires
        old(nes).wf(),
    ensures
        *final(nes) == *old(nes),
        r@.len() == 8192 * 24,
        forall|k: int|
            #![trigger r@.subrange(24 * k, 24 * k + 24)]
            0 <= k < 8192 ==> r@.subrange(24 * k, 24 * k + 24) == spec_dump_line_at(
                &old(nes).devices,
                (8 * k) as u16,
            ),
{
    let mut text = String::new();
    let mut at: u32 = 0;
    #[verifier::loop_isolation(false)]
    while at < 0x10000
        invariant
            old(nes).wf(),
            *nes == *old(nes),
            at % 8 == 0,
            at <= 0x10000,
            text@.len() == (at / 8) * 24,
            forall|k: int|
                #![trigger text@.subrange(24 * k, 24 * k + 24)]
                0 <= k < at / 8 ==> text@.subrange(24 * k, 24 * k + 24) == spec_dump_line_at(
                    &old(nes).devices,
                    (8 * k) as u16,
                ),
        decreases 0x10000 - at,
    {
        let ghost prev_text = text@;
        let mut bytes: Vec<u8> = Vec::new();
        let mut i: u32 = 0;
        while i < 8
            invariant
                old(nes).wf(),
                *nes == *old(nes),
                i <= 8,
                at + 8 <= 0x10000,
                bytes@.len() == i,
                forall|j: int|
                    0 <= j < i ==> #[trigger] bytes@[j] == old(nes).devices.spec_read_value(
                        ((at + j) as u16),
                        true,
                    ),
            decreases 8 - i,
        {
            let b = nes.cpu_read((at + i) as u16, true);
            bytes.push(b);
            i = i + 1;
        }
        let line = dump_line(at as u16, &bytes);
        proof {
            assert(bytes@ =~= Seq::new(8, |j: int| old(nes).devices.spec_read_value(((at as u16) + j) as u16, true)));
            assert(line@ == spec_dump_line_at(&old(nes).devices, at as u16));
        }
        text.push_str(line.as_str());
        proof {
            assert forall|k: int| 0 <= k < at / 8 + 1 implies #[trigger] text@.subrange(24 * k, 24 * k + 24)
                == spec_dump_line_at(&old(nes).devices, (8 * k) as u16) by {
                if k < at / 8 {
                    assert(text@.subrange(24 * k, 24 * k + 24) =~= prev_text.subrange(24 * k, 24 * k + 24));
                } else {
                    assert(text@.subrange(24 * k, 24 * k + 24) =~= line@);
                }
            }
        }
        at = at + 8;
    }
    text
}

/// Reads eight picture-space bytes for one dump line through the debug path.
fn read_visual_line<C: Cartdrige, P: InputProvider, O: PpuOutput>(nes: &mut Bus<C, P, O>, at: u16) -> (bytes: Vec<
    u8,
>)
    requires
        old(nes).wf(),
        at + 8 <= 0x4000,
    ensures
        final(nes).wf(),
        final(nes).cpu == old(nes).cpu,
        final(nes).devices.ppu == old(nes).devices.ppu,
        final(nes).devices.cpu_ram == old(nes).devices.cpu_ram,
        final(nes).devices.apu == old(nes).devices.apu,
        final(nes).devices.controllers == old(nes).devices.controllers,
        final(nes).devices.dma == old(nes).devices.dma,
        final(nes).master_clock_counter == old(nes).master_clock_counter,
        crate::ppu::cart_views_eq(old(nes).devices.cartdrige, final(nes).devices.cartdrige),
        bytes@ == Seq::new(8, |j: int| old(nes).devices.ppu.spec_ppu_mem_byte(old(nes).devices.cartdrige, (at + j) as u16)),
{
    let mut bytes: Vec<u8> = Vec::new();
    let mut i: u32 = 0;
    while i < 8
        invariant
            old(nes).wf(),
            nes.wf(),
            nes.devices.ppu == old(nes).devices.ppu,
            crate::ppu::cart_views_eq(old(nes).devices.cartdrige, nes.devices.cartdrige),
            nes.cpu == old(nes).cpu,
            nes.devices.cpu_ram == old(nes).devices.cpu_ram,
            nes.devices.apu == old(nes).devices.apu,
            nes.devices.controllers == old(nes).devices.controllers,
            nes.devices.dma == old(nes).devices.dma,
            nes.master_clock_counter == old(nes).master_clock_counter,
            i <= 8,
            at + 8 <= 0x4000,
            bytes@.len() == i,
            forall|j: int|
                0 <= j < i ==> #[trigger] bytes@[j] == old(nes).devices.ppu.spec_ppu_mem_byte(
                    old(nes).devices.cartdrige,
                    ((at + j) as u16),
                ),
        decreases 8 - i,
    {
        let d = &mut nes.devices;
        let b = d.ppu.ppu_read(&mut d.cartdrige, at + (i as u16), true);
        proof {
            assert(b == old(nes).devices.ppu.spec_ppu_mem_byte(old(nes).devices.cartdrige, (at + i) as u16));
        }
        bytes.push(b);
        i = i + 1;
    }
    proof {
        assert(bytes@ =~= Seq::new(
            8,
            |j: int| old(nes).devices.ppu.spec_ppu_mem_byte(old(nes).devices.cartdrige, (at + j) as u16),
        ));
    }
    bytes
}

/// The dump line for eight bytes of the picture address space at `at`.
#[verifier::opaque]
pub open spec fn spec_visual_dump_line_at<C: Cartdrige, P: InputProvider, O: PpuOutput>(
    d: &BusDevices<C, P, O>,
    at: u16,
) -> Seq<char> {
    spec_dump_line(at, Seq::new(8, |i: int| d.ppu.spec_ppu_mem_byte(d.cartdrige, (at + i) as u16)))
}

/// The whole picture address space, $0000 through $3FFF, as hex-dump text:
/// 2048 lines of 24 characters. Reading through a board with a scanline
/// counter steps that counter, exactly as the live hardware's address lines
/// would; nothing else moves.
#[verifier::rlimit(100)]
#[verifier::spinoff_prover]
pub fn dump_visual_memory_contents<C: Cartdrige, P: InputProvider, O: PpuOutput>(nes: &mut Bus<C, P, O>) -> (r:
    String)
    requires
        old(nes).wf(),
    ensures
        final(nes).wf(),
        final(nes).cpu == old(nes).cpu,
        final(nes).devices.ppu == old(nes).devices.ppu,
        final(nes).devices.cpu_ram == old(nes).devices.cpu_ram,
        crate::ppu::cart_views_eq(old(nes).devices.cartdrige, final(nes).devices.cartdrige),
        r@.len() == 2048 * 24,
        forall|k: int|
            #![trigger r@.subrange(24 * k, 24 * k + 24)]
            0 <= k < 2048 ==> r@.subrange(24 * k, 24 * k + 24) == spec_visual_dump_line_at(
                &old(nes).devices,
                (8 * k) as u16,
            ),
{
    let mut text = String::new();
    let mut at: u32 = 0;
    #[verifier::loop_isolation(false)]
    while at < 0x4000
        invariant
            old(nes).wf(),
            nes.wf(),
            nes.cpu == old(nes).cpu,
            nes.devices.ppu == old(nes).devices.ppu,
            nes.devices.cpu_ram == old(nes).devices.cpu_ram,
            nes.devices.apu == old(nes).devices.apu,
            nes.devices.controllers == old(nes).devices.controllers,
            nes.devices.dma == old(nes).devices.dma,
            nes.master_clock_counter == old(nes).master_clock_counter,
            crate::ppu::cart_views_eq(old(nes).devices.cartdrige, nes.devices.cartdrige),
            at % 8 == 0,
            at <= 0x4000,
            text@.len() == (at / 8) * 24,
            forall|k: int|
                #![trigger text@.subrange(24 * k, 24 * k + 24)]
                0 <= k < at / 8 ==> text@.subrange(24 * k, 24 * k + 24) == spec_visual_dump_line_at(
                    &old(nes).devices,
                    (8 * k) as u16,
                ),
        decreases 0x4000 - at,
    {
        let ghost prev_text = text@;
        let bytes = read_visual_line(nes, at as u16);
        let line = dump_line(at as u16, &bytes);
        proof {
            reveal(spec_visual_dump_line_at);
            assert(line@ == spec_visual_dump_line_at(&old(nes).devices, at as u16));
        }
        text.push_str(line.as_str());
        proof {
            assert forall|k: int| 0 <= k < at / 8 + 1 implies #[trigger] text@.subrange(24 * k, 24 * k + 24)
                == spec_visual_dump_line_at(&old(nes).devices, (8 * k) as u16) by {
                if k < at / 8 {
                    assert(text@.subrange(24 * k, 24 * k + 24) =~= prev_text.subrange(24 * k, 24 * k + 24));
                } else {
                    assert(text@.subrange(24 * k, 24 * k + 24) =~= line@);
                }
            }
        }
        at = at + 8;
    }
    text
}

} // verus!
