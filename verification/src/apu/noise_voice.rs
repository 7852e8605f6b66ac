//! The noise voice: length counter, envelope, and a 15-bit linear-feedback
//! shift register clocked from a fixed period table.

use vstd::prelude::*;

use crate::apu::length_counter_lookup;
use crate::apu::spec_length_counter_lookup;

verus! {

broadcast use crate::bits::lemma_u8_and_le, crate::bits::lemma_u16_and_le, crate::bits::lemma_u8_or_le, crate::bits::lemma_u16_or_le, crate::bits::lemma_u8_shr_le, crate::bits::lemma_u16_shr_le, crate::bits::lemma_u16_shl8_small;

/// Volume / envelope register.
pub struct NoiseVoiceReg1 {
    pub val: u8,
}

impl NoiseVoiceReg1 {
    pub open spec fn volume(self) -> u8 {
        self.val & 0x0f
    }

    pub open spec fn envelope_period(self) -> u8 {
        self.val & 0x0f
    }

    pub open spec fn envelope_disable(self) -> u8 {
        (self.val >> 4) & 0x01
    }

    pub open spec fn loop_envelope(self) -> u8 {
        (self.val >> 5) & 0x01
    }

    pub open spec fn halt(self) -> u8 {
        (self.val >> 5) & 0x01
    }
}

/// Period-index / mode register.
pub struct NoiseVoiceReg3 {
    pub val: u8,
}

impl NoiseVoiceReg3 {
    pub open spec fn period_index(self) -> u8 {
        self.val & 0x0f
    }

    pub open spec fn mode(self) -> u8 {
        (self.val >> 7) & 0x01
    }
}

/// Length-index register.
pub struct NoiseVoiceReg4 {
    pub val: u8,
}

impl NoiseVoiceReg4 {
    pub open spec fn length_index(self) -> u8 {
        (self.val >> 3) & 0x1f
    }
}

pub struct NoiseVoice {
    pub control_enabled: bool,
    pub length_counter: u16,

    pub register1: NoiseVoiceReg1,
    pub register3: NoiseVoiceReg3,
    pub register4: NoiseVoiceReg4,

    pub envelope_counter: u8,
    pub envelope_divider: u8,
    pub envelope_freshly_reset_flag: bool,
    pub volume_out_of_envelope: u8,

    pub shift_register: u16,

    pub timer: u16,
}

/// The shift-register timer period selected by the period-index bits.
pub open spec fn spec_noise_timer_period(index: u8) -> u16 {
    match index & 0x0f {
        0x00 => 0x04,
        0x01 => 0x08,
        0x02 => 0x10,
        0x03 => 0x20,
        0x04 => 0x40,
        0x05 => 0x60,
        0x06 => 0x80,
        0x07 => 0xa0,
        0x08 => 0xca,
        0x09 => 0xfe,
        0x0a => 0x17c,
        0x0b => 0x1fc,
        0x0c => 0x2fa,
        0x0d => 0x3f8,
        0x0e => 0x7f2,
        _ => 0xfe4,
    }
}

pub fn noise_timer_period(index: u8) -> (r: u16)
    ensures
        r == spec_noise_timer_period(index),
{
    match index & 0x0f {
        0x00 => 0x04,
        0x01 => 0x08,
        0x02 => 0x10,
        0x03 => 0x20,
        0x04 => 0x40,
        0x05 => 0x60,
        0x06 => 0x80,
        0x07 => 0xa0,
        0x08 => 0xca,
        0x09 => 0xfe,
        0x0a => 0x17c,
        0x0b => 0x1fc,
        0x0c => 0x2fa,
        0x0d => 0x3f8,
        0x0e => 0x7f2,
        _ => 0xfe4,
    }
}

/// The register write's effect: plain stores, except that the fourth register
/// also reloads the length counter when the channel is enabled.
pub open spec fn spec_noise_write_register(v: NoiseVoice, address: u8, data: u8) -> NoiseVoice {
    if address == 0x00 {
        NoiseVoice { register1: NoiseVoiceReg1 { val: data }, ..v }
    } else if address == 0x02 {
        NoiseVoice { register3: NoiseVoiceReg3 { val: data }, ..v }
    } else if address == 0x03 {
        let reg4 = NoiseVoiceReg4 { val: data };
        let lc = if v.control_enabled {
            spec_length_counter_lookup(reg4.length_index()) as u16
        } else {
            v.length_counter
        };
        NoiseVoice { register4: reg4, length_counter: lc, ..v }
    } else {
        v
    }
}

/// One length-counter clock: counts down unless halted, and dies when the
/// channel is disabled.
pub open spec fn spec_noise_clock_length(v: NoiseVoice) -> NoiseVoice {
    let lc = if v.control_enabled {
        if v.register1.halt() == 0 && v.length_counter > 0 {
            (v.length_counter - 1) as u16
        } else {
            v.length_counter
        }
    } else {
        0u16
    };
    NoiseVoice { length_counter: lc, ..v }
}

/// One envelope clock, identical in shape to the square voices' envelope.
pub open spec fn spec_noise_clock_envelope(v: NoiseVoice) -> NoiseVoice {
    let dp = (v.register1.envelope_period() + 1) as u8;
    let st = if v.envelope_freshly_reset_flag {
        (15u8, (dp - 1) as u8, false)
    } else {
        if v.envelope_divider == 0 {
            let ec = if v.register1.loop_envelope() == 1 && v.envelope_counter == 0 {
                15u8
            } else if v.envelope_counter > 0 {
                (v.envelope_counter - 1) as u8
            } else {
                v.envelope_counter
            };
            (ec, (dp - 1) as u8, v.envelope_freshly_reset_flag)
        } else {
            (v.envelope_counter, (v.envelope_divider - 1) as u8, v.envelope_freshly_reset_flag)
        }
    };
    let vol = if v.register1.envelope_disable() == 1 {
        v.register1.volume()
    } else {
        st.0
    };
    NoiseVoice {
        envelope_counter: st.0,
        envelope_divider: st.1,
        envelope_freshly_reset_flag: st.2,
        volume_out_of_envelope: vol,
        ..v
    }
}

/// One CPU-rate clock: when the timer expires, the 15-bit shift register
/// steps, feeding back bit 0 xor bit 6 (short mode) or bit 0 xor bit 1.
pub open spec fn spec_noise_clock_cpu(v: NoiseVoice) -> NoiseVoice {
    let tp = spec_noise_timer_period(v.register3.period_index());
    if v.timer == 0 {
        let bit14 = if v.register3.mode() == 1 {
            (v.shift_register & 0x01) ^ ((v.shift_register >> 6) & 0x01)
        } else {
            (v.shift_register & 0x01) ^ ((v.shift_register >> 1) & 0x01)
        };
        let sr = (v.shift_register >> 1) | (bit14 << 14);
        NoiseVoice { shift_register: sr, timer: (tp - 1) as u16, ..v }
    } else {
        NoiseVoice { timer: (v.timer - 1) as u16, ..v }
    }
}

/// The current sample: the envelope volume gated by shift-register bit 0 and
/// a live length counter.
pub open spec fn spec_noise_output(v: NoiseVoice) -> u8 {
    if v.shift_register & 0x01 == 1 && v.length_counter > 0 {
        v.volume_out_of_envelope
    } else {
        0
    }
}

impl NoiseVoice {
    pub fn new() -> (r: NoiseVoice)
        ensures
            r.control_enabled == false,
            r.length_counter == 0,
            r.register1.val == 0,
            r.register3.val == 0,
            r.register4.val == 0,
            r.envelope_counter == 0,
            r.envelope_divider == 0,
            r.envelope_freshly_reset_flag == false,
            r.volume_out_of_envelope == 0,
            r.shift_register == 1,
            r.timer == 0,
    {
        NoiseVoice {
            control_enabled: false,
            length_counter: 0,

            register1: NoiseVoiceReg1 { val: 0 },
            register3: NoiseVoiceReg3 { val: 0 },
            register4: NoiseVoiceReg4 { val: 0 },

            envelope_counter: 0,
            envelope_divider: 0,
            envelope_freshly_reset_flag: false,
            volume_out_of_envelope: 0,

            shift_register: 1,

            timer: 0,
        }
    }

    pub fn write_register(&mut self, address: u8, data: u8)
        ensures
            *final(self) == spec_noise_write_register(*old(self), address, data),
    {
        match address {
            0x00 => {
                self.register1.val = data;
            },
            0x02 => {
                self.register3.val = data;
            },
            0x03 => {
                self.register4.val = data;

                if self.control_enabled {
                    let length_key = (self.register4.val >> 3) & 0x1f;
                    self.length_counter = length_counter_lookup(length_key) as u16;
                }
            },
            _ => {},
        }
    }

    pub fn clock_length_counter(&mut self)
        ensures
            *final(self) == spec_noise_clock_length(*old(self)),
    {
        if self.control_enabled {
            if (self.register1.val >> 5) & 0x01 == 0 && self.length_counter > 0 {
                self.length_counter = self.length_counter - 1;
            }
        } else {
            self.length_counter = 0;
        }
    }

    pub fn clock_envelope(&mut self)
        ensures
            *final(self) == spec_noise_clock_envelope(*old(self)),
    {
        let divider_period = (self.register1.val & 0x0f) + 1;
        if self.envelope_freshly_reset_flag {
            self.envelope_counter = 15;
            self.envelope_divider = divider_period;
            self.envelope_freshly_reset_flag = false;
        } else {
            if self.envelope_divider == 0 {
                if (self.register1.val >> 5) & 0x01 == 1 && self.envelope_counter == 0 {
                    self.envelope_counter = 15;
                } else if self.envelope_counter > 0 {
                    self.envelope_counter = self.envelope_counter - 1;
                }
                self.envelope_divider = divider_period;
            }
        }
        self.envelope_divider = self.envelope_divider - 1;

        self.volume_out_of_envelope = if (self.register1.val >> 4) & 0x01 == 1 {
            self.register1.val & 0x0f
        } else {
            self.envelope_counter
        };
    }

    pub fn clock_cpu(&mut self)
        ensures
            *final(self) == spec_noise_clock_cpu(*old(self)),
    {
        let timer_period = noise_timer_period(self.register3.val & 0x0f);
        if self.timer == 0 {
            let bit14 = if (self.register3.val >> 7) & 0x01 == 1 {
                let bit0 = self.shift_register & 0x01;
                let bit6 = (self.shift_register >> 6) & 0x01;
                bit0 ^ bit6
            } else {
                let bit0 = self.shift_register & 0x01;
                let bit1 = (self.shift_register >> 1) & 0x01;
                bit0 ^ bit1
            };
            self.shift_register = (self.shift_register >> 1) | (bit14 << 14);

            self.timer = timer_period;
        }
        self.timer = self.timer - 1;
    }

    pub fn output(&self) -> (r: u8)
        ensures
            r == spec_noise_output(*self),
    {
        let bit0 = (self.shift_register & 0x01) as u8;
        if bit0 == 1 && self.length_counter > 0 {
            self.volume_out_of_envelope
        } else {
            0
        }
    }
}

} // verus!
