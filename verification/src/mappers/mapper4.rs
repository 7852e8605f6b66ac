//! A register-driven board: eight bank registers rearrange 8KB program and
//! 1KB character windows, and a scanline counter clocked by the picture
//! address line A12 can raise an interrupt.

use vstd::prelude::*;

use crate::cartdrige::Cartdrige;
use crate::ines_loader::INesHeaderInfo;
use crate::ines_loader::MirroringMode;

verus! {

broadcast use crate::bits::lemma_u8_and_le, crate::bits::lemma_u16_and_le, crate::bits::lemma_u8_shr_le, crate::bits::lemma_u16_shr_le;

pub struct Mapper4Cartdrige {
    pub header: INesHeaderInfo,
    pub prg_data: Vec<u8>,

    pub prg_banks_count: u8,
    pub prg_second_to_last_bank: u8,
    pub prg_last_bank: u8,

    pub chr_data: Vec<u8>,

    pub register_to_update: u8,
    pub prg_bank_mode: bool,
    pub chr_a12_inversion: bool,

    pub registers: Vec<u8>,

    pub a12_low_clocks: u8,
    pub irq_couter: u8,
    pub irq_reload_value: u8,
    pub irq_reload_flag: bool,
    pub irq_enable: bool,

    pub mirroring_mode: MirroringMode,
}

/// The 8KB program bank each quarter of the CPU window maps to, before
/// wrapping to the banks actually present.
pub open spec fn spec_mapper4_prg_bank_raw(c: Mapper4Cartdrige, address: u16) -> u8 {
    let quad = (address / 0x2000) % 4;
    if quad == 0 {
        if !c.prg_bank_mode {
            c.registers@[6] & 0x3f
        } else {
            c.prg_second_to_last_bank
        }
    } else if quad == 1 {
        c.registers@[7] & 0x3f
    } else if quad == 2 {
        if !c.prg_bank_mode {
            c.prg_second_to_last_bank
        } else {
            c.registers@[6] & 0x3f
        }
    } else {
        c.prg_last_bank
    }
}

/// The byte offset into character memory an address maps to, after the six
/// 1KB/2KB windows and the optional A12 inversion, wrapped to the data
/// actually present.
pub open spec fn spec_mapper4_chr_offset(c: Mapper4Cartdrige, address: u16) -> int {
    let a = if c.chr_a12_inversion {
        address ^ 0x1000
    } else {
        address
    };
    let raw: int = if a <= 0x07ff {
        (c.registers@[0] & 0xfe) * 1024 + (a % 0x800)
    } else if a <= 0x0fff {
        (c.registers@[1] & 0xfe) * 1024 + (a % 0x800)
    } else if a <= 0x13ff {
        c.registers@[2] * 1024 + (a % 0x400)
    } else if a <= 0x17ff {
        c.registers@[3] * 1024 + (a % 0x400)
    } else if a <= 0x1bff {
        c.registers@[4] * 1024 + (a % 0x400)
    } else {
        c.registers@[5] * 1024 + (a % 0x400)
    };
    raw % (c.chr_data@.len() as int)
}

impl Cartdrige for Mapper4Cartdrige {
    open spec fn inv(&self) -> bool {
        &&& self.prg_banks_count >= 2
        &&& self.prg_data@.len() == self.prg_banks_count * 8192
        &&& self.prg_last_bank == self.prg_banks_count - 1
        &&& self.prg_second_to_last_bank == self.prg_banks_count - 2
        &&& self.chr_data@.len() >= 1
        &&& self.registers@.len() == 8
        &&& self.register_to_update < 8
    }

    open spec fn mirroring_spec(&self) -> MirroringMode {
        self.header.mirroring_mode
    }

    open spec fn cpu_claims(&self, address: u16) -> bool {
        address >= 0x8000
    }

    open spec fn cpu_byte(&self, address: u16) -> u8 {
        let bank = spec_mapper4_prg_bank_raw(*self, address) % self.prg_banks_count;
        self.prg_data@[bank * 8192 + (address % 0x2000)]
    }

    open spec fn cpu_write_claims(&self, address: u16) -> bool {
        false
    }

    open spec fn ppu_claims(&self, address: u16) -> bool {
        address <= 0x1fff
    }

    open spec fn ppu_byte(&self, address: u16) -> u8 {
        self.chr_data@[spec_mapper4_chr_offset(*self, address)]
    }

    open spec fn ppu_write_claims(&self, address: u16) -> bool {
        address <= 0x1fff
    }

    fn get_info(&self) -> (r: &INesHeaderInfo) {
        &self.header
    }

    fn cpu_read(&mut self, address: u16, data: &mut u8) -> (claimed: bool) {
        if address >= 0x8000 {
            let quad = (address / 0x2000) % 4;
            let raw: u8 = if quad == 0 {
                if !self.prg_bank_mode {
                    self.registers[6] & 0x3f
                } else {
                    self.prg_second_to_last_bank
                }
            } else if quad == 1 {
                self.registers[7] & 0x3f
            } else if quad == 2 {
                if !self.prg_bank_mode {
                    self.prg_second_to_last_bank
                } else {
                    self.registers[6] & 0x3f
                }
            } else {
                self.prg_last_bank
            };
            let bank = raw % self.prg_banks_count;
            proof {
                assert(bank * 8192 + (address % 0x2000) < self.prg_banks_count * 8192) by (nonlinear_arith)
                    requires
                        bank < self.prg_banks_count,
                        address % 0x2000 < 8192,
                ;
            }
            *data = self.prg_data[(bank as usize) * 8192 + ((address % 0x2000) as usize)];
            return true;
        }
        false
    }

    /// Writes above $8000 drive the control pairs: bank select / bank data,
    /// mirroring / RAM protect, interrupt latch / reload, interrupt disable /
    /// enable. The board never claims the write.
    fn cpu_write(&mut self, address: u16, data: u8) -> (claimed: bool)
        ensures
            address >= 0x8000 ==> ({
                let quad = (address / 0x2000) % 4;
                let even = address % 2 == 0;
                if quad == 0 && even {
                    *final(self) == (Mapper4Cartdrige {
                        register_to_update: data & 0x07,
                        prg_bank_mode: (data >> 6) & 0x01 == 1,
                        chr_a12_inversion: (data >> 7) & 0x01 == 1,
                        ..*old(self)
                    })
                } else if quad == 0 {
                    *final(self) == (Mapper4Cartdrige { registers: final(self).registers, ..*old(self) }) && final(self).registers@ == old(self).registers@.update(old(self).register_to_update as int, data)
                } else if quad == 1 && even {
                    *final(self) == (Mapper4Cartdrige {
                        mirroring_mode: if data & 0x01 == 0 {
                            MirroringMode::Vertical
                        } else {
                            MirroringMode::Horizontal
                        },
                        ..*old(self)
                    })
                } else if quad == 1 {
                    *final(self) == *old(self)
                } else if quad == 2 && even {
                    *final(self) == (Mapper4Cartdrige { irq_reload_value: data, ..*old(self) })
                } else if quad == 2 {
                    *final(self) == (Mapper4Cartdrige { irq_reload_flag: true, ..*old(self) })
                } else if even {
                    *final(self) == (Mapper4Cartdrige { irq_enable: false, ..*old(self) })
                } else {
                    *final(self) == (Mapper4Cartdrige { irq_enable: true, ..*old(self) })
                }
            }),
    {
        if address >= 0x8000 {
            let quad = (address / 0x2000) % 4;
            let even = address % 2 == 0;
            if quad == 0 {
                if even {
                    self.register_to_update = data & 0x07;
                    self.prg_bank_mode = (data >> 6) & 0x01 == 1;
                    self.chr_a12_inversion = (data >> 7) & 0x01 == 1;
                } else {
                    let idx = self.register_to_update as usize;
                    self.registers.set(idx, data);
                }
            } else if quad == 1 {
                if even {
                    self.mirroring_mode = if data & 0x01 == 0 {
                        MirroringMode::Vertical
                    } else {
                        MirroringMode::Horizontal
                    };
                }
            } else if quad == 2 {
                if even {
                    self.irq_reload_value = data;
                } else {
                    self.irq_reload_flag = true;
                }
            } else {
                if even {
                    self.irq_enable = false;
                } else {
                    self.irq_enable = true;
                }
            }
        }
        false
    }

    /// A read also clocks the scanline counter off address line A12: a rising
    /// edge after a long-enough low spell decrements the counter (or reloads
    /// it), and the second result reports the interrupt when it reaches zero
    /// with interrupts enabled.
    fn ppu_read(&mut self, address: u16, data: &mut u8) -> (r: (bool, bool))
        ensures
            ({
                let rising = (address >> 12) & 0x01 == 1;
                let counting = rising && old(self).a12_low_clocks == 6;
                let reloads = counting && (old(self).irq_couter == 0 || old(self).irq_reload_flag);
                let decrements = counting && !reloads;
                &&& r.1 == (decrements && old(self).irq_couter == 1 && old(self).irq_enable)
                &&& final(self).a12_low_clocks == if rising {
                    0u8
                } else if old(self).a12_low_clocks < 255 {
                    (old(self).a12_low_clocks + 1) as u8
                } else {
                    255u8
                }
                &&& final(self).irq_couter == if reloads {
                    old(self).irq_reload_value
                } else if decrements {
                    (old(self).irq_couter - 1) as u8
                } else {
                    old(self).irq_couter
                }
                &&& final(self).irq_reload_flag == (old(self).irq_reload_flag && !reloads)
                &&& *final(self) == (Mapper4Cartdrige {
                    a12_low_clocks: final(self).a12_low_clocks,
                    irq_couter: final(self).irq_couter,
                    irq_reload_flag: final(self).irq_reload_flag,
                    ..*old(self)
                })
            }),
    {
        let mut irq = false;
        let a12 = (address >> 12) & 0x01;
        if a12 == 1 {
            if self.a12_low_clocks == 6 {
                if self.irq_couter == 0 || self.irq_reload_flag {
                    self.irq_couter = self.irq_reload_value;
                    self.irq_reload_flag = false;
                } else {
                    self.irq_couter = self.irq_couter - 1;

                    if self.irq_couter == 0 {
                        if self.irq_enable {
                            irq = true;
                        }
                    }
                }
            }
            self.a12_low_clocks = 0;
        } else {
            if self.a12_low_clocks < 255 {
                self.a12_low_clocks = self.a12_low_clocks + 1;
            }
        }

        if address <= 0x1fff {
            let a = if self.chr_a12_inversion {
                address ^ 0x1000
            } else {
                address
            };
            proof {
                crate::bits::lemma_u16_xor_0x1000(address);
            }
            let raw: usize = if a <= 0x07ff {
                ((self.registers[0] & 0xfe) as usize) * 1024 + ((a % 0x800) as usize)
            } else if a <= 0x0fff {
                ((self.registers[1] & 0xfe) as usize) * 1024 + ((a % 0x800) as usize)
            } else if a <= 0x13ff {
                (self.registers[2] as usize) * 1024 + ((a % 0x400) as usize)
            } else if a <= 0x17ff {
                (self.registers[3] as usize) * 1024 + ((a % 0x400) as usize)
            } else if a <= 0x1bff {
                (self.registers[4] as usize) * 1024 + ((a % 0x400) as usize)
            } else {
                (self.registers[5] as usize) * 1024 + ((a % 0x400) as usize)
            };
            let offset = raw % self.chr_data.len();
            *data = self.chr_data[offset];

            return (true, irq);
        }
        (false, irq)
    }

    fn ppu_write(&mut self, address: u16, data: u8) -> (claimed: bool) {
        address <= 0x1fff
    }
}

/// Builds the register-driven board from an already-read header and its raw
/// program and character data.
pub fn create_mapper4_cartdrige(header: INesHeaderInfo, prg_data: Vec<u8>, chr_data: Vec<u8>) -> (r: Mapper4Cartdrige)
    requires
        1 <= header.prg_pages <= 127,
        1 <= header.chr_pages,
        prg_data@.len() == header.prg_pages * 16384,
        chr_data@.len() == header.chr_pages * 8192,
    ensures
        r.inv(),
        r.header == header,
        r.prg_data@ == prg_data@,
        r.chr_data@ == chr_data@,
        r.prg_banks_count == 2 * header.prg_pages,
{
    proof {
        assert(header.prg_pages * 16384 == (2 * header.prg_pages) * 8192) by (nonlinear_arith);
        assert(header.chr_pages * 8192 >= 1) by (nonlinear_arith)
            requires
                header.chr_pages >= 1,
        ;
        assert(2 * header.prg_pages >= 2) by (nonlinear_arith)
            requires
                header.prg_pages >= 1,
        ;
    }
    let prg_banks_count = 2 * header.prg_pages;
    let prg_last_bank = prg_banks_count - 1;
    let prg_second_to_last_bank = prg_banks_count - 2;

    let mut registers: Vec<u8> = Vec::new();
    let mut i: usize = 0;
    while i < 8
        invariant
            registers@.len() == i,
            i <= 8,
        decreases 8 - i,
    {
        registers.push(0);
        i = i + 1;
    }

    Mapper4Cartdrige {
        header,

        register_to_update: 0,
        prg_bank_mode: false,
        chr_a12_inversion: false,

        registers,

        a12_low_clocks: 0,
        irq_couter: 0,
        irq_reload_value: 0,
        irq_reload_flag: false,
        irq_enable: false,

        prg_banks_count,
        prg_second_to_last_bank,
        prg_last_bank,

        mirroring_mode: MirroringMode::Horizontal,

        prg_data,
        chr_data,
    }
}

} // verus!
