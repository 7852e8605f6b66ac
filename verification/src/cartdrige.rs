//! The capability a program cartridge offers the bus and the picture unit.
//!
//! A cartridge may claim any CPU or PPU address; the bus and the PPU fall back
//! to their own RAM and nametables only when a claim is refused. Each
//! implementation describes its address decoding with the spec functions
//! below, and the method contracts tie every call to that description.

use vstd::prelude::*;

use crate::ines_loader::INesHeaderInfo;
use crate::ines_loader::MirroringMode;

verus! {

pub trait Cartdrige: Sized {
    /// Internal consistency of the mapper state (page counts, bank bounds).
    spec fn inv(&self) -> bool;

    /// The nametable mirroring the board is wired for.
    spec fn mirroring_spec(&self) -> MirroringMode;

    /// Whether a CPU read of `address` is claimed.
    spec fn cpu_claims(&self, address: u16) -> bool;

    /// The byte a claimed CPU read of `address` returns.
    spec fn cpu_byte(&self, address: u16) -> u8;

    /// Whether a CPU write to `address` is claimed (swallowed).
    spec fn cpu_write_claims(&self, address: u16) -> bool;

    /// Whether a PPU read of `address` is claimed.
    spec fn ppu_claims(&self, address: u16) -> bool;

    /// The byte a claimed PPU read of `address` returns.
    spec fn ppu_byte(&self, address: u16) -> u8;

    /// Whether a PPU write to `address` is claimed.
    spec fn ppu_write_claims(&self, address: u16) -> bool;

    fn get_info(&self) -> (r: &INesHeaderInfo)
        requires
            self.inv(),
        ensures
            r.mirroring_mode == self.mirroring_spec(),
    ;

    /// A CPU read never changes mapper state.
    fn cpu_read(&mut self, address: u16, data: &mut u8) -> (claimed: bool)
        requires
            old(self).inv(),
        ensures
            *final(self) == *old(self),
            claimed == old(self).cpu_claims(address),
            claimed ==> *final(data) == old(self).cpu_byte(address),
            !claimed ==> *final(data) == *old(data),
    ;

    /// A CPU write may re-bank both address spaces, but never rewires the
    /// board's mirroring.
    fn cpu_write(&mut self, address: u16, data: u8) -> (claimed: bool)
        requires
            old(self).inv(),
        ensures
            final(self).inv(),
            claimed == old(self).cpu_write_claims(address),
            final(self).mirroring_spec() == old(self).mirroring_spec(),
            forall|a: u16| #[trigger] final(self).cpu_claims(a) == old(self).cpu_claims(a),
            forall|a: u16| #[trigger] final(self).cpu_write_claims(a) == old(self).cpu_write_claims(a),
            forall|a: u16| #[trigger] final(self).ppu_claims(a) == old(self).ppu_claims(a),
            forall|a: u16| #[trigger] final(self).ppu_write_claims(a) == old(self).ppu_write_claims(a),
            (address < 0x8000 && !old(self).cpu_write_claims(address)) ==> *final(self) == *old(self),
    ;

    /// A PPU read may step a scanline counter inside the mapper (the second
    /// result reports a raised interrupt), but leaves every mapping as it was.
    fn ppu_read(&mut self, address: u16, data: &mut u8) -> (r: (bool, bool))
        requires
            old(self).inv(),
        ensures
            final(self).inv(),
            r.0 == old(self).ppu_claims(address),
            r.0 ==> *final(data) == old(self).ppu_byte(address),
            !r.0 ==> *final(data) == *old(data),
            final(self).mirroring_spec() == old(self).mirroring_spec(),
            forall|a: u16| #[trigger] final(self).cpu_claims(a) == old(self).cpu_claims(a),
            forall|a: u16| #[trigger] final(self).cpu_byte(a) == old(self).cpu_byte(a),
            forall|a: u16| #[trigger] final(self).cpu_write_claims(a) == old(self).cpu_write_claims(a),
            forall|a: u16| #[trigger] final(self).ppu_claims(a) == old(self).ppu_claims(a),
            forall|a: u16| #[trigger] final(self).ppu_byte(a) == old(self).ppu_byte(a),
            forall|a: u16| #[trigger] final(self).ppu_write_claims(a) == old(self).ppu_write_claims(a),
    ;

    /// A claimed PPU write may change character bytes; an unclaimed one
    /// changes nothing at all.
    fn ppu_write(&mut self, address: u16, data: u8) -> (claimed: bool)
        requires
            old(self).inv(),
        ensures
            final(self).inv(),
            claimed == old(self).ppu_write_claims(address),
            final(self).mirroring_spec() == old(self).mirroring_spec(),
            forall|a: u16| #[trigger] final(self).cpu_claims(a) == old(self).cpu_claims(a),
            forall|a: u16| #[trigger] final(self).cpu_byte(a) == old(self).cpu_byte(a),
            forall|a: u16| #[trigger] final(self).cpu_write_claims(a) == old(self).cpu_write_claims(a),
            forall|a: u16| #[trigger] final(self).ppu_claims(a) == old(self).ppu_claims(a),
            forall|a: u16| #[trigger] final(self).ppu_write_claims(a) == old(self).ppu_write_claims(a),
            !claimed ==> *final(self) == *old(self),
    ;
}

} // verus!
