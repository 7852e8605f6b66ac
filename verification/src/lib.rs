//! Cycle-level model of an 8-bit home console: a 6502-style CPU, a tile and
//! sprite picture unit (PPU), and the bus that advances both from one master
//! clock, with memory-mapped register dispatch, OAM DMA, and interrupt routing.

pub mod apu;
pub mod bits;
pub mod bus;
pub mod cartdrige;
pub mod cpu;
pub mod ines_loader;
pub mod input;
pub mod mappers;
pub mod ppu;
pub mod tools;
