//! The triangle voice: length counter, linear counter, and a 32-step
//! triangle output sequence.

use vstd::prelude::*;

use crate::apu::length_counter_lookup;
use crate::apu::spec_length_counter_lookup;

verus! {

broadcast use crate::bits::lemma_u8_and_le, crate::bits::lemma_u16_and_le, crate::bits::lemma_u8_or_le, crate::bits::lemma_u16_or_le, crate::bits::lemma_u8_shr_le, crate::bits::lemma_u16_shr_le, crate::bits::lemma_u16_shl8_small;

/// Linear-counter register.
pub struct TriangleVoiceReg1 {
    pub val: u8,
}

impl TriangleVoiceReg1 {
    pub open spec fn linear_counter_reload_value(self) -> u8 {
        self.val & 0x7f
    }

    pub open spec fn control(self) -> u8 {
        (self.val >> 7) & 0x01
    }
}

/// Period-high / length-index register.
pub struct TriangleVoiceReg4 {
    pub val: u8,
}

impl TriangleVoiceReg4 {
    pub open spec fn period_high(self) -> u8 {
        self.val & 0x07
    }

    pub open spec fn length_index(self) -> u8 {
        (self.val >> 3) & 0x1f
    }
}

pub struct TriangleVoice {
    pub control_enabled: bool,
    pub length_counter: u16,

    pub register1: TriangleVoiceReg1,
    pub register3: u8,
    pub register4: TriangleVoiceReg4,

    pub linear_counter: u8,
    pub linear_counter_halt_flag: bool,

    pub timer: u16,

    pub output_sequencer: u8,
}

/// The descending-then-ascending 32-step triangle sequence.
pub open spec fn spec_triangle_sequence(step: u8) -> u8 {
    if step < 16 {
        (15 - step) as u8
    } else {
        (step - 16) as u8
    }
}

/// The register write's effect: plain stores, except that the fourth register
/// also reloads the length counter (when the channel is enabled) and arms the
/// linear-counter reload.
pub open spec fn spec_triangle_write_register(v: TriangleVoice, address: u8, data: u8) -> TriangleVoice {
    if address == 0x00 {
        TriangleVoice { register1: TriangleVoiceReg1 { val: data }, ..v }
    } else if address == 0x02 {
        TriangleVoice { register3: data, ..v }
    } else if address == 0x03 {
        let reg4 = TriangleVoiceReg4 { val: data };
        let lc = if v.control_enabled {
            spec_length_counter_lookup(reg4.length_index()) as u16
        } else {
            v.length_counter
        };
        TriangleVoice { register4: reg4, length_counter: lc, linear_counter_halt_flag: true, ..v }
    } else {
        v
    }
}

/// One length-counter clock: counts down unless the control bit halts it,
/// and dies when the channel is disabled.
pub open spec fn spec_triangle_clock_length(v: TriangleVoice) -> TriangleVoice {
    let lc = if v.control_enabled {
        if v.register1.control() == 0 && v.length_counter > 0 {
            (v.length_counter - 1) as u16
        } else {
            v.length_counter
        }
    } else {
        0u16
    };
    TriangleVoice { length_counter: lc, ..v }
}

/// One linear-counter clock: a pending halt flag reloads the counter, else it
/// counts down; the halt flag clears once the control bit is clear.
pub open spec fn spec_triangle_clock_linear(v: TriangleVoice) -> TriangleVoice {
    let lin = if v.linear_counter_halt_flag {
        v.register1.linear_counter_reload_value()
    } else if v.linear_counter > 0 {
        (v.linear_counter - 1) as u8
    } else {
        v.linear_counter
    };
    let halt = if v.register1.control() == 0 {
        false
    } else {
        v.linear_counter_halt_flag
    };
    TriangleVoice { linear_counter: lin, linear_counter_halt_flag: halt, ..v }
}

/// One CPU-rate clock: when the timer expires it reloads from the period and,
/// while both counters are live, the 32-step sequencer advances.
pub open spec fn spec_triangle_clock_cpu(v: TriangleVoice) -> TriangleVoice {
    let vp = (((v.register3 as u16) | ((v.register4.period_high() as u16) << 8)) + 1) as u16;
    if v.timer == 0 {
        let seq = if v.linear_counter > 0 && v.length_counter > 0 {
            ((v.output_sequencer + 1) as u8 % 32) as u8
        } else {
            v.output_sequencer
        };
        TriangleVoice { output_sequencer: seq, timer: (vp - 1) as u16, ..v }
    } else {
        TriangleVoice { timer: (v.timer - 1) as u16, ..v }
    }
}

impl TriangleVoice {
    pub open spec fn wf(self) -> bool {
        self.output_sequencer < 32
    }

    pub fn new() -> (r: TriangleVoice)
        ensures
            r.wf(),
            r.control_enabled == false,
            r.length_counter == 0,
            r.register1.val == 0,
            r.register3 == 0,
            r.register4.val == 0,
            r.linear_counter == 0,
            r.linear_counter_halt_flag == false,
            r.timer == 0,
            r.output_sequencer == 0,
    {
        TriangleVoice {
            control_enabled: false,

            register1: TriangleVoiceReg1 { val: 0 },
            register3: 0,
            register4: TriangleVoiceReg4 { val: 0 },

            length_counter: 0,

            linear_counter: 0,
            linear_counter_halt_flag: false,

            timer: 0,

            output_sequencer: 0,
        }
    }

    pub fn write_register(&mut self, address: u8, data: u8)
        requires
            old(self).wf(),
        ensures
            final(self).wf(),
            *final(self) == spec_triangle_write_register(*old(self), address, data),
    {
        match address {
            0x00 => {
                self.register1.val = data;
            },
            0x02 => {
                self.register3 = data;
            },
            0x03 => {
                self.register4.val = data;

                if self.control_enabled {
                    let length_key = (self.register4.val >> 3) & 0x1f;
                    self.length_counter = length_counter_lookup(length_key) as u16;
                }

                self.linear_counter_halt_flag = true;
            },
            _ => {},
        }
    }

    pub fn clock_length_counter(&mut self)
        ensures
            final(self).wf() == old(self).wf(),
            *final(self) == spec_triangle_clock_length(*old(self)),
    {
        if self.control_enabled {
            if (self.register1.val >> 7) & 0x01 == 0 && self.length_counter > 0 {
                self.length_counter = self.length_counter - 1;
            }
        } else {
            self.length_counter = 0;
        }
    }

    pub fn clock_linear_counter(&mut self)
        ensures
            final(self).wf() == old(self).wf(),
            *final(self) == spec_triangle_clock_linear(*old(self)),
    {
        if self.linear_counter_halt_flag {
            self.linear_counter = self.register1.val & 0x7f;
        } else if self.linear_counter > 0 {
            self.linear_counter = self.linear_counter - 1;
        }

        if (self.register1.val >> 7) & 0x01 == 0 {
            self.linear_counter_halt_flag = false;
        }
    }

    pub fn clock_cpu(&mut self)
        requires
            old(self).wf(),
        ensures
            final(self).wf(),
            *final(self) == spec_triangle_clock_cpu(*old(self)),
    {
        let voice_period = ((self.register3 as u16) | (((self.register4.val & 0x07) as u16) << 8)) + 1;
        if self.timer == 0 {
            if self.linear_counter > 0 && self.length_counter > 0 {
                self.output_sequencer = (self.output_sequencer + 1) % 32;
            }

            self.timer = voice_period;
        }
        self.timer = self.timer - 1;
    }

    /// The current sample: one step of the descending-then-ascending
    /// 15-to-0-to-15 sequence.
    pub fn output(&self) -> (r: u8)
        requires
            self.wf(),
        ensures
            r == spec_triangle_sequence(self.output_sequencer),
    {
        let step = self.output_sequencer;
        if step < 16 {
            15 - step
        } else {
            step - 16
        }
    }
}

} // verus!
