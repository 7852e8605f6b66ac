//! One square-wave voice: length counter, envelope, sweep unit, and the
//! 8-step duty sequencer, each advanced by its own clock.

use vstd::prelude::*;

use crate::apu::length_counter_lookup;
use crate::apu::spec_length_counter_lookup;
use crate::apu::spec_waveform_sequence;
use crate::apu::waveform_sequence;

verus! {

broadcast use crate::bits::lemma_u8_and_le, crate::bits::lemma_u16_and_le, crate::bits::lemma_u8_or_le, crate::bits::lemma_u16_or_le, crate::bits::lemma_u8_shr_le, crate::bits::lemma_u16_shr_le, crate::bits::lemma_u16_shl8_small;

/// Volume / envelope / duty register.
pub struct SquareVoiceReg1 {
    pub val: u8,
}

impl SquareVoiceReg1 {
    pub open spec fn volume(self) -> u8 {
        self.val & 0x0f
    }

    pub open spec fn envelope_period(self) -> u8 {
        self.val & 0x0f
    }

    pub open spec fn envelope_disable(self) -> u8 {
        (self.val >> 4) & 0x01
    }

    pub open spec fn loop_envelope(self) -> u8 {
        (self.val >> 5) & 0x01
    }

    pub open spec fn halt(self) -> u8 {
        (self.val >> 5) & 0x01
    }

    pub open spec fn duty(self) -> u8 {
        (self.val >> 6) & 0x03
    }
}

/// Sweep-unit register.
pub struct SquareVoiceReg2 {
    pub val: u8,
}

impl SquareVoiceReg2 {
    pub open spec fn shift(self) -> u8 {
        self.val & 0x07
    }

    pub open spec fn negative(self) -> u8 {
        (self.val >> 3) & 0x01
    }

    pub open spec fn period(self) -> u8 {
        (self.val >> 4) & 0x07
    }

    pub open spec fn enable_sweep(self) -> u8 {
        (self.val >> 7) & 0x01
    }
}

/// Period-high / length-index register.
pub struct SquareVoiceReg4 {
    pub val: u8,
}

impl SquareVoiceReg4 {
    pub open spec fn period_high(self) -> u8 {
        self.val & 0x07
    }

    pub open spec fn length_index(self) -> u8 {
        (self.val >> 3) & 0x1f
    }
}

pub struct PulseVoice {
    pub is_second_pulse_voice: bool,

    pub control_enabled: bool,
    pub length_counter: u16,

    pub register1: SquareVoiceReg1,
    pub register2: SquareVoiceReg2,
    pub register3: u8,
    pub register4: SquareVoiceReg4,

    pub envelope_counter: u8,
    pub envelope_divider: u8,
    pub envelope_freshly_reset_flag: bool,
    pub volume_out_of_envelope: u8,

    pub sweep_divider: u8,
    pub sweep_freshly_reset_flag: bool,
    pub sweep_output: bool,

    pub wave_timer: u16,
    pub cpu_clock_divider: u8,

    pub output_sequencer: u8,
}

/// The voice's 11-bit wave period as the two period registers spell it.
pub open spec fn spec_pulse_period(v: PulseVoice) -> u16 {
    (v.register3 as u16) | ((v.register4.period_high() as u16) << 8)
}

/// What the sweep shifter computes: the period shifted down, optionally
/// one's-complemented, bumped by one on the second voice, plus the period
/// (wrapping, as the adder does).
pub open spec fn spec_sweep_shift_result(v: PulseVoice) -> u16 {
    let period = spec_pulse_period(v);
    let s0 = period >> (v.register2.shift() as u16);
    let s1 = if v.register2.negative() == 1 {
        !s0
    } else {
        s0
    };
    let s2 = if v.is_second_pulse_voice {
        vstd::wrapping::u16_specs::wrapping_add(s1, 1)
    } else {
        s1
    };
    vstd::wrapping::u16_specs::wrapping_add(s2, period)
}

/// The register write's effect: plain stores, except that the fourth register
/// also reloads the length counter (when the channel is enabled), restarts the
/// envelope and rewinds the duty sequencer, and the second arms a sweep reload.
pub open spec fn spec_pulse_write_register(v: PulseVoice, address: u8, data: u8) -> PulseVoice {
    if address == 0x00 {
        PulseVoice { register1: SquareVoiceReg1 { val: data }, ..v }
    } else if address == 0x01 {
        PulseVoice { register2: SquareVoiceReg2 { val: data }, sweep_freshly_reset_flag: true, ..v }
    } else if address == 0x02 {
        PulseVoice { register3: data, ..v }
    } else if address == 0x03 {
        let reg4 = SquareVoiceReg4 { val: data };
        let lc = if v.control_enabled {
            spec_length_counter_lookup(reg4.length_index()) as u16
        } else {
            v.length_counter
        };
        PulseVoice {
            register4: reg4,
            length_counter: lc,
            envelope_freshly_reset_flag: true,
            output_sequencer: 0,
            ..v
        }
    } else {
        v
    }
}

/// One length-counter-and-sweep clock: the length counter counts down unless
/// halted (and dies when the channel is disabled); when the sweep divider
/// expires, the shifter result either mutes the voice (period too small or
/// result too large) or, with the sweep enabled, is written back as the new
/// period.
pub open spec fn spec_pulse_clock_length_and_sweep(v: PulseVoice) -> PulseVoice {
    let lc = if v.control_enabled {
        if v.register1.halt() == 0 && v.length_counter > 0 {
            (v.length_counter - 1) as u16
        } else {
            v.length_counter
        }
    } else {
        0u16
    };
    let period = spec_pulse_period(v);
    let shifter = spec_sweep_shift_result(v);
    let sdp = (v.register2.period() + 1) as u8;
    let st = if v.sweep_divider > 0 {
        (v.register3, v.register4, v.sweep_output, (v.sweep_divider - 1) as u8)
    } else {
        if period < 8 || shifter > 0x7ff {
            (v.register3, v.register4, false, (sdp - 1) as u8)
        } else if v.register2.enable_sweep() == 1 && v.register2.shift() != 0 {
            (
                (shifter & 0xff) as u8,
                SquareVoiceReg4 { val: (v.register4.val & 0xf8) | ((((shifter >> 8) & 0xff) as u8) & 0x07) },
                true,
                (sdp - 1) as u8,
            )
        } else {
            (v.register3, v.register4, true, (sdp - 1) as u8)
        }
    };
    let div = if v.sweep_freshly_reset_flag {
        sdp
    } else {
        st.3
    };
    PulseVoice {
        length_counter: lc,
        register3: st.0,
        register4: st.1,
        sweep_output: st.2,
        sweep_divider: div,
        sweep_freshly_reset_flag: false,
        ..v
    }
}

/// One envelope clock: a freshly written fourth register restarts the decay
/// at 15; otherwise an expired divider steps the decay counter (looping when
/// the loop bit is set); the output volume is the decay counter, or the raw
/// volume bits when the envelope is disabled.
pub open spec fn spec_pulse_clock_envelope(v: PulseVoice) -> PulseVoice {
    let dp = (v.register1.envelope_period() + 1) as u8;
    let st = if v.envelope_freshly_reset_flag {
        (15u8, (dp - 1) as u8, false)
    } else {
        if v.envelope_divider == 0 {
            let ec = if v.register1.loop_envelope() == 1 && v.envelope_counter == 0 {
                15u8
            } else if v.envelope_counter > 0 {
                (v.envelope_counter - 1) as u8
            } else {
                v.envelope_counter
            };
            (ec, (dp - 1) as u8, v.envelope_freshly_reset_flag)
        } else {
            (v.envelope_counter, (v.envelope_divider - 1) as u8, v.envelope_freshly_reset_flag)
        }
    };
    let vol = if v.register1.envelope_disable() == 1 {
        v.register1.volume()
    } else {
        st.0
    };
    PulseVoice {
        envelope_counter: st.0,
        envelope_divider: st.1,
        envelope_freshly_reset_flag: st.2,
        volume_out_of_envelope: vol,
        ..v
    }
}

/// One CPU-rate clock: when the wave timer expires it reloads from the period
/// and, every second expiry, the duty sequencer steps.
pub open spec fn spec_pulse_clock_cpu(v: PulseVoice) -> PulseVoice {
    let vp = (spec_pulse_period(v) + 1) as u16;
    if v.wave_timer == 0 {
        let st = if v.cpu_clock_divider == 0 {
            (1u8, ((v.output_sequencer + 1) as u8 % 8) as u8)
        } else {
            ((v.cpu_clock_divider - 1) as u8, v.output_sequencer)
        };
        PulseVoice {
            cpu_clock_divider: st.0,
            output_sequencer: st.1,
            wave_timer: (vp - 1) as u16,
            ..v
        }
    } else {
        PulseVoice { wave_timer: (v.wave_timer - 1) as u16, ..v }
    }
}

/// The voice's current sample: the envelope volume when the duty sequence
/// bit is high and the sweep unit is not muting the channel, else zero.
pub open spec fn spec_pulse_output(v: PulseVoice) -> u8 {
    let w = (spec_waveform_sequence(v.register1.duty()) >> (v.output_sequencer & 0x07)) & 0x01;
    if v.sweep_output && w == 1 {
        v.volume_out_of_envelope
    } else {
        0
    }
}

impl PulseVoice {
    pub open spec fn wf(self) -> bool {
        &&& self.output_sequencer < 8
        &&& self.envelope_counter <= 15
        &&& self.volume_out_of_envelope <= 15
    }

    pub fn new(is_second_pulse_voice: bool) -> (r: PulseVoice)
        ensures
            r.wf(),
            r.is_second_pulse_voice == is_second_pulse_voice,
            r.control_enabled == false,
            r.length_counter == 0,
            r.register1.val == 0,
            r.register2.val == 0,
            r.register3 == 0,
            r.register4.val == 0,
            r.envelope_counter == 0,
            r.envelope_divider == 0,
            r.envelope_freshly_reset_flag == false,
            r.volume_out_of_envelope == 0,
            r.sweep_divider == 0,
            r.sweep_freshly_reset_flag == false,
            r.sweep_output == false,
            r.wave_timer == 0,
            r.cpu_clock_divider == 0,
            r.output_sequencer == 0,
    {
        PulseVoice {
            is_second_pulse_voice,

            control_enabled: false,
            length_counter: 0,

            register1: SquareVoiceReg1 { val: 0 },
            register2: SquareVoiceReg2 { val: 0 },
            register3: 0,
            register4: SquareVoiceReg4 { val: 0 },

            envelope_counter: 0,
            envelope_divider: 0,
            envelope_freshly_reset_flag: false,
            volume_out_of_envelope: 0,

            sweep_divider: 0,
            sweep_freshly_reset_flag: false,
            sweep_output: false,

            wave_timer: 0,
            cpu_clock_divider: 0,

            output_sequencer: 0,
        }
    }

    pub fn write_register(&mut self, address: u8, data: u8)
        requires
            old(self).wf(),
        ensures
            final(self).wf(),
            *final(self) == spec_pulse_write_register(*old(self), address, data),
    {
        match address {
            0x00 => {
                self.register1.val = data;
            },
            0x01 => {
                self.register2.val = data;
                self.sweep_freshly_reset_flag = true;
            },
            0x02 => {
                self.register3 = data;
            },
            0x03 => {
                self.register4.val = data;
                if self.control_enabled {
                    let length_key = (self.register4.val >> 3) & 0x1f;
                    self.length_counter = length_counter_lookup(length_key) as u16;
                }
                self.envelope_freshly_reset_flag = true;
                self.output_sequencer = 0;
            },
            _ => {},
        }
    }

    pub fn clock_length_counter_and_sweep_unit(&mut self)
        requires
            old(self).wf(),
        ensures
            final(self).wf(),
            *final(self) == spec_pulse_clock_length_and_sweep(*old(self)),
    {
        if self.control_enabled {
            if (self.register1.val >> 5) & 0x01 == 0 && self.length_counter > 0 {
                self.length_counter = self.length_counter - 1;
            }
        } else {
            self.length_counter = 0;
        }

        let voice_period = (self.register3 as u16) | (((self.register4.val & 0x07) as u16) << 8);
        let mut shifter_result = voice_period >> ((self.register2.val & 0x07) as u16);
        if (self.register2.val >> 3) & 0x01 == 1 {
            shifter_result = !shifter_result;
        }
        if self.is_second_pulse_voice {
            shifter_result = shifter_result.wrapping_add(1);
        }
        shifter_result = shifter_result.wrapping_add(voice_period);

        let sweep_divider_period = ((self.register2.val >> 4) & 0x07) + 1;
        if self.sweep_divider > 0 {
        } else {
            let mut dac_output = true;
            if voice_period < 8 || shifter_result > 0x7ff {
                dac_output = false;
            } else if (self.register2.val >> 7) & 0x01 == 1 && self.register2.val & 0x07 != 0 {
                self.register3 = (shifter_result & 0xff) as u8;
                self.register4.val = (self.register4.val & 0xf8) | ((((shifter_result >> 8) & 0xff) as u8) & 0x07);
            }
            self.sweep_output = dac_output;

            self.sweep_divider = sweep_divider_period;
        }
        self.sweep_divider = self.sweep_divider - 1;

        if self.sweep_freshly_reset_flag {
            self.sweep_freshly_reset_flag = false;
            self.sweep_divider = sweep_divider_period;
        }
    }

    pub fn clock_envelope(&mut self)
        requires
            old(self).wf(),
        ensures
            final(self).wf(),
            *final(self) == spec_pulse_clock_envelope(*old(self)),
    {
        let divider_period = (self.register1.val & 0x0f) + 1;
        if self.envelope_freshly_reset_flag {
            self.envelope_counter = 15;
            self.envelope_divider = divider_period;
            self.envelope_freshly_reset_flag = false;
        } else {
            if self.envelope_divider == 0 {
                if (self.register1.val >> 5) & 0x01 == 1 && self.envelope_counter == 0 {
                    self.envelope_counter = 15;
                } else if self.envelope_counter > 0 {
                    self.envelope_counter = self.envelope_counter - 1;
                }
                self.envelope_divider = divider_period;
            }
        }
        self.envelope_divider = self.envelope_divider - 1;

        self.volume_out_of_envelope = if (self.register1.val >> 4) & 0x01 == 1 {
            self.register1.val & 0x0f
        } else {
            self.envelope_counter
        };
    }

    pub fn clock_cpu(&mut self)
        requires
            old(self).wf(),
        ensures
            final(self).wf(),
            *final(self) == spec_pulse_clock_cpu(*old(self)),
    {
        let voice_period = ((self.register3 as u16) | (((self.register4.val & 0x07) as u16) << 8)) + 1;
        if self.wave_timer == 0 {
            if self.cpu_clock_divider == 0 {
                self.cpu_clock_divider = 2;
                self.output_sequencer = (self.output_sequencer + 1) % 8;
            }
            self.cpu_clock_divider = self.cpu_clock_divider - 1;

            self.wave_timer = voice_period;
        }
        self.wave_timer = self.wave_timer - 1;
    }

    pub fn output(&self) -> (r: u8)
        ensures
            r == spec_pulse_output(*self),
    {
        let sequence = self.output_sequencer & 0x07;
        let waveform = (waveform_sequence((self.register1.val >> 6) & 0x03) >> sequence) & 0x01;
        if self.sweep_output && waveform == 1 {
            self.volume_out_of_envelope
        } else {
            0
        }
    }
}

} // verus!
