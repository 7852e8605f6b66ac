//! The audio unit: two square voices, a triangle voice, the noise and DMC
//! register files, and the frame sequencer that clocks them. One sample is
//! produced per CPU clock into a buffer that the host drains once per frame.

use vstd::prelude::*;

use crate::apu::pulse_voice::PulseVoice;
use crate::apu::pulse_voice::spec_pulse_clock_cpu;
use crate::apu::pulse_voice::spec_pulse_clock_envelope;
use crate::apu::pulse_voice::spec_pulse_clock_length_and_sweep;
use crate::apu::pulse_voice::spec_pulse_output;
use crate::apu::pulse_voice::spec_pulse_write_register;
use crate::apu::noise_voice::NoiseVoiceReg1;
use crate::apu::noise_voice::NoiseVoiceReg3;
use crate::apu::noise_voice::NoiseVoiceReg4;
use crate::apu::triangle_voice::TriangleVoice;
use crate::apu::triangle_voice::spec_triangle_clock_cpu;
use crate::apu::triangle_voice::spec_triangle_clock_length;
use crate::apu::triangle_voice::spec_triangle_clock_linear;
use crate::apu::triangle_voice::spec_triangle_sequence;
use crate::apu::triangle_voice::spec_triangle_write_register;

pub mod noise_voice;
pub mod pulse_voice;
pub mod triangle_voice;

verus! {

broadcast use crate::bits::lemma_u8_and_le, crate::bits::lemma_u16_and_le, crate::bits::lemma_u8_or_le, crate::bits::lemma_u16_or_le, crate::bits::lemma_u8_shr_le, crate::bits::lemma_u16_shr_le, crate::bits::lemma_u16_shl8_small;

/// The length-counter load value for a 5-bit length index.
pub open spec fn spec_length_counter_lookup(index: u8) -> u8 {
    match index & 0x1f {
        0x00 => 0x0a,
        0x01 => 0xfe,
        0x02 => 0x14,
        0x03 => 0x02,
        0x04 => 0x28,
        0x05 => 0x04,
        0x06 => 0x50,
        0x07 => 0x06,
        0x08 => 0xa0,
        0x09 => 0x08,
        0x0a => 0x3c,
        0x0b => 0x0a,
        0x0c => 0x0e,
        0x0d => 0x0c,
        0x0e => 0x1a,
        0x0f => 0x0e,
        0x10 => 0x0c,
        0x11 => 0x10,
        0x12 => 0x18,
        0x13 => 0x12,
        0x14 => 0x30,
        0x15 => 0x14,
        0x16 => 0x60,
        0x17 => 0x16,
        0x18 => 0xc0,
        0x19 => 0x18,
        0x1a => 0x48,
        0x1b => 0x1a,
        0x1c => 0x10,
        0x1d => 0x1c,
        0x1e => 0x20,
        _ => 0x1e,
    }
}

pub fn length_counter_lookup(index: u8) -> (r: u8)
    ensures
        r == spec_length_counter_lookup(index),
{
    match index & 0x1f {
        0x00 => 0x0a,
        0x01 => 0xfe,
        0x02 => 0x14,
        0x03 => 0x02,
        0x04 => 0x28,
        0x05 => 0x04,
        0x06 => 0x50,
        0x07 => 0x06,
        0x08 => 0xa0,
        0x09 => 0x08,
        0x0a => 0x3c,
        0x0b => 0x0a,
        0x0c => 0x0e,
        0x0d => 0x0c,
        0x0e => 0x1a,
        0x0f => 0x0e,
        0x10 => 0x0c,
        0x11 => 0x10,
        0x12 => 0x18,
        0x13 => 0x12,
        0x14 => 0x30,
        0x15 => 0x14,
        0x16 => 0x60,
        0x17 => 0x16,
        0x18 => 0xc0,
        0x19 => 0x18,
        0x1a => 0x48,
        0x1b => 0x1a,
        0x1c => 0x10,
        0x1d => 0x1c,
        0x1e => 0x20,
        _ => 0x1e,
    }
}

/// The four 8-step square duty sequences.
pub open spec fn spec_waveform_sequence(duty: u8) -> u8 {
    match duty & 0x03 {
        0x00 => 0x40,
        0x01 => 0x60,
        0x02 => 0x78,
        _ => 0x9f,
    }
}

pub fn waveform_sequence(duty: u8) -> (r: u8)
    ensures
        r == spec_waveform_sequence(duty),
{
    match duty & 0x03 {
        0x00 => 0x40,
        0x01 => 0x60,
        0x02 => 0x78,
        _ => 0x9f,
    }
}

/// DMC frequency / loop register.
pub struct DmcReg1 {
    pub val: u8,
}

/// DMC direct-load register.
pub struct DmcReg2 {
    pub val: u8,
}

/// DMC sample-address register.
pub struct DmcReg3 {
    pub val: u8,
}

/// DMC sample-length register.
pub struct DmcReg4 {
    pub val: u8,
}

/// Channel-enable register ($4015 writes).
pub struct CommonReg1 {
    pub val: u8,
}

impl CommonReg1 {
    pub open spec fn length_ctr_enable_pulse_1(self) -> u8 {
        self.val & 0x01
    }

    pub open spec fn length_ctr_enable_pulse_2(self) -> u8 {
        (self.val >> 1) & 0x01
    }

    pub open spec fn length_ctr_enable_triangle(self) -> u8 {
        (self.val >> 2) & 0x01
    }

    pub open spec fn length_ctr_enable_noise(self) -> u8 {
        (self.val >> 3) & 0x01
    }

    pub open spec fn length_ctr_enable_dmc(self) -> u8 {
        (self.val >> 4) & 0x01
    }
}

/// Frame-sequencer mode register ($4017 writes).
pub struct CommonReg2 {
    pub val: u8,
}

impl CommonReg2 {
    pub open spec fn irq_disable(self) -> u8 {
        (self.val >> 6) & 0x01
    }

    pub open spec fn frame_sequencer_mode(self) -> u8 {
        (self.val >> 7) & 0x01
    }
}

pub struct Apu {
    pub square_voice1: PulseVoice,
    pub square_voice2: PulseVoice,
    pub triangle_voice: TriangleVoice,

    pub noise_1: NoiseVoiceReg1,
    pub noise_2: NoiseVoiceReg3,
    pub noise_3: NoiseVoiceReg4,
    pub noise_length_counter: u16,

    pub dmc_1: DmcReg1,
    pub dmc_2: DmcReg2,
    pub dmc_3: DmcReg3,
    pub dmc_4: DmcReg4,
    pub dmc_irq: bool,

    pub common1: CommonReg1,
    pub common2: CommonReg2,

    pub sequencer_counter: u8,
    pub sequencer_divider: u32,
    pub sequencer_interrupt_flag: bool,

    pub audio_buffer: Vec<u8>,
}

/// One length-counter / sweep clock across the voices. The noise length
/// counter lives in the register file here and counts down the same way.
pub open spec fn spec_apu_clock_lengths(v: Apu) -> Apu {
    let nlc = if v.common1.length_ctr_enable_noise() == 0 {
        0u16
    } else {
        if v.noise_1.halt() == 0 && v.noise_length_counter > 0 {
            (v.noise_length_counter - 1) as u16
        } else {
            v.noise_length_counter
        }
    };
    Apu {
        square_voice1: spec_pulse_clock_length_and_sweep(v.square_voice1),
        square_voice2: spec_pulse_clock_length_and_sweep(v.square_voice2),
        triangle_voice: spec_triangle_clock_length(v.triangle_voice),
        noise_length_counter: nlc,
        ..v
    }
}

/// One envelope / linear-counter clock across the voices.
pub open spec fn spec_apu_clock_envelopes(v: Apu) -> Apu {
    Apu {
        square_voice1: spec_pulse_clock_envelope(v.square_voice1),
        square_voice2: spec_pulse_clock_envelope(v.square_voice2),
        triangle_voice: spec_triangle_clock_linear(v.triangle_voice),
        ..v
    }
}

/// One frame-sequencer step in the 4-step (mode 0) or 5-step (mode 1)
/// pattern: length counters on alternating steps, envelopes every step that
/// runs, and in mode 0 the interrupt flag on step 3.
pub open spec fn spec_apu_clock_sequencer(v: Apu) -> Apu {
    if v.common2.frame_sequencer_mode() == 0 {
        let v1 = Apu { sequencer_interrupt_flag: v.sequencer_counter == 3 || v.sequencer_interrupt_flag, ..v };
        let v2 = if v1.sequencer_counter % 2 == 1 {
            spec_apu_clock_lengths(v1)
        } else {
            v1
        };
        let v3 = spec_apu_clock_envelopes(v2);
        Apu { sequencer_counter: ((v3.sequencer_counter + 1) as u8 % 5) as u8, ..v3 }
    } else {
        let v2 = if v.sequencer_counter % 2 == 0 && v.sequencer_counter < 4 {
            spec_apu_clock_lengths(v)
        } else {
            v
        };
        let v3 = if v2.sequencer_counter < 4 {
            spec_apu_clock_envelopes(v2)
        } else {
            v2
        };
        Apu { sequencer_counter: ((v3.sequencer_counter + 1) as u8 % 5) as u8, ..v3 }
    }
}

/// The effect of a register-file write: voice registers route to their voice,
/// $4015 enables channels, $4017 resets the sequencer (and steps it at once
/// in mode 1).
pub open spec fn spec_apu_cpu_write(v: Apu, address: u16, data: u8) -> Apu {
    let v1 = if 0x4000 <= address <= 0x4003 {
        Apu { square_voice1: spec_pulse_write_register(v.square_voice1, (address & 0x03) as u8, data), ..v }
    } else if 0x4004 <= address <= 0x4007 {
        Apu { square_voice2: spec_pulse_write_register(v.square_voice2, (address & 0x03) as u8, data), ..v }
    } else if 0x4008 <= address <= 0x400b {
        Apu { triangle_voice: spec_triangle_write_register(v.triangle_voice, (address & 0x03) as u8, data), ..v }
    } else {
        v
    };
    if address == 0x400c {
        Apu { noise_1: NoiseVoiceReg1 { val: data }, ..v1 }
    } else if address == 0x400e {
        Apu { noise_2: NoiseVoiceReg3 { val: data }, ..v1 }
    } else if address == 0x400f {
        Apu { noise_3: NoiseVoiceReg4 { val: data }, ..v1 }
    } else if address == 0x4010 {
        Apu { dmc_1: DmcReg1 { val: data }, ..v1 }
    } else if address == 0x4011 {
        Apu { dmc_2: DmcReg2 { val: data }, ..v1 }
    } else if address == 0x4012 {
        Apu { dmc_3: DmcReg3 { val: data }, ..v1 }
    } else if address == 0x4013 {
        Apu { dmc_4: DmcReg4 { val: data }, ..v1 }
    } else if address == 0x4015 {
        let c1 = CommonReg1 { val: data };
        Apu {
            common1: c1,
            square_voice1: PulseVoice { control_enabled: c1.length_ctr_enable_pulse_1() != 0, ..v1.square_voice1 },
            square_voice2: PulseVoice { control_enabled: c1.length_ctr_enable_pulse_2() != 0, ..v1.square_voice2 },
            triangle_voice: TriangleVoice { control_enabled: c1.length_ctr_enable_triangle() != 0, ..v1.triangle_voice },
            dmc_irq: false,
            ..v1
        }
    } else if address == 0x4017 {
        let v2 = Apu { common2: CommonReg2 { val: data }, sequencer_counter: 0, sequencer_divider: 0, ..v1 };
        if v2.common2.frame_sequencer_mode() != 0 {
            spec_apu_clock_sequencer(v2)
        } else {
            v2
        }
    } else {
        v1
    }
}

/// The packed status byte a $4015 read reports.
pub open spec fn spec_apu_status(v: Apu) -> u8 {
    (((if v.dmc_irq { 1u8 } else { 0u8 }) << 7) | ((if v.sequencer_interrupt_flag { 1u8 } else { 0u8 }) << 6)
        | ((if v.noise_length_counter > 0 { 1u8 } else { 0u8 }) << 3)
        | ((if v.triangle_voice.length_counter > 0 { 1u8 } else { 0u8 }) << 2)
        | ((if v.square_voice2.length_counter > 0 { 1u8 } else { 0u8 }) << 1)) as u8
}

impl Apu {
    pub open spec fn wf(self) -> bool {
        &&& self.square_voice1.wf()
        &&& self.square_voice2.wf()
        &&& self.triangle_voice.wf()
        &&& self.sequencer_divider < 89490
        &&& self.sequencer_counter < 5
    }

    pub fn new() -> (r: Apu)
        ensures
            r.wf(),
            r.noise_length_counter == 0,
            r.common1.val == 0,
            r.common2.val == 0,
            r.sequencer_counter == 0,
            r.sequencer_divider == 0,
            r.sequencer_interrupt_flag == false,
            r.dmc_irq == false,
            r.audio_buffer@ == Seq::<u8>::empty(),
            r.square_voice1.length_counter == 0,
            r.square_voice2.length_counter == 0,
            r.triangle_voice.length_counter == 0,
    {
        Apu {
            square_voice1: PulseVoice::new(false),
            square_voice2: PulseVoice::new(true),

            triangle_voice: TriangleVoice::new(),

            noise_1: NoiseVoiceReg1 { val: 0 },
            noise_2: NoiseVoiceReg3 { val: 0 },
            noise_3: NoiseVoiceReg4 { val: 0 },
            noise_length_counter: 0,

            dmc_1: DmcReg1 { val: 0 },
            dmc_2: DmcReg2 { val: 0 },
            dmc_3: DmcReg3 { val: 0 },
            dmc_4: DmcReg4 { val: 0 },
            dmc_irq: false,

            common1: CommonReg1 { val: 0 },
            common2: CommonReg2 { val: 0 },
            sequencer_counter: 0,
            sequencer_divider: 0,
            sequencer_interrupt_flag: false,

            audio_buffer: Vec::new(),
        }
    }

    #[verifier::rlimit(100)]
    #[verifier::spinoff_prover]
    pub fn cpu_write(&mut self, address: u16, data: u8)
        requires
            old(self).wf(),
        ensures
            final(self).wf(),
            *final(self) == spec_apu_cpu_write(*old(self), address, data),
    {
        if 0x4000 <= address && address <= 0x4003 {
            self.square_voice1.write_register((address & 0x03) as u8, data);
        } else if 0x4004 <= address && address <= 0x4007 {
            self.square_voice2.write_register((address & 0x03) as u8, data);
        } else if 0x4008 <= address && address <= 0x400b {
            self.triangle_voice.write_register((address & 0x03) as u8, data);
        }

        match address {
            0x400c => {
                self.noise_1.val = data;
            },
            0x400e => {
                self.noise_2.val = data;
            },
            0x400f => {
                self.noise_3.val = data;
            },
            0x4010 => {
                self.dmc_1.val = data;
            },
            0x4011 => {
                self.dmc_2.val = data;
            },
            0x4012 => {
                self.dmc_3.val = data;
            },
            0x4013 => {
                self.dmc_4.val = data;
            },
            0x4015 => {
                self.common1.val = data;
                self.square_voice1.control_enabled = self.common1.val & 0x01 != 0;
                self.square_voice2.control_enabled = (self.common1.val >> 1) & 0x01 != 0;
                self.triangle_voice.control_enabled = (self.common1.val >> 2) & 0x01 != 0;

                self.dmc_irq = false;
            },
            0x4017 => {
                self.common2.val = data;
                self.sequencer_counter = 0;
                self.sequencer_divider = 0;

                if (self.common2.val >> 7) & 0x01 != 0 {
                    self.clock_sequencer();
                }
            },
            _ => {},
        }
    }

    /// A $4015 read reports the channel status byte and acknowledges the
    /// frame interrupt.
    pub fn cpu_read(&mut self, address: u16, data: &mut u8)
        ensures
            address == 0x4015 ==> *final(data) == spec_apu_status(*old(self)),
            address == 0x4015 ==> *final(self) == (Apu { sequencer_interrupt_flag: false, ..*old(self) }),
            address != 0x4015 ==> *final(data) == *old(data) && *final(self) == *old(self),
    {
        if address == 0x4015 {
            *data = ((if self.dmc_irq { 1u8 } else { 0u8 }) << 7) | ((if self.sequencer_interrupt_flag { 1u8 } else { 0u8 })
                << 6) | ((if self.noise_length_counter > 0 { 1u8 } else { 0u8 }) << 3) | ((if self.triangle_voice.length_counter
                > 0 {
                1u8
            } else {
                0u8
            }) << 2) | ((if self.square_voice2.length_counter > 0 { 1u8 } else { 0u8 }) << 1);

            self.sequencer_interrupt_flag = false;
        }
    }

    /// Accumulates master-clock cycles; each time 89490 have passed the frame
    /// sequencer steps once.
    pub fn clock_main(&mut self, cycles: u32)
        requires
            old(self).wf(),
            cycles <= 89490,
        ensures
            final(self).wf(),
            *final(self) == if old(self).sequencer_divider + cycles >= 89490 {
                spec_apu_clock_sequencer(
                    Apu { sequencer_divider: (old(self).sequencer_divider + cycles - 89490) as u32, ..*old(self) },
                )
            } else {
                Apu { sequencer_divider: (old(self).sequencer_divider + cycles) as u32, ..*old(self) }
            },
    {
        self.sequencer_divider = self.sequencer_divider + cycles;
        if self.sequencer_divider >= 89490 {
            self.sequencer_divider = self.sequencer_divider - 89490;
            self.clock_sequencer();
        }
    }

    fn clock_sequencer(&mut self)
        requires
            old(self).square_voice1.wf(),
            old(self).square_voice2.wf(),
            old(self).triangle_voice.wf(),
            old(self).sequencer_counter < 5,
        ensures
            *final(self) == spec_apu_clock_sequencer(*old(self)),
    {
        if (self.common2.val >> 7) & 0x01 == 0 {
            if self.sequencer_counter == 3 {
                self.sequencer_interrupt_flag = true;
            }

            if self.sequencer_counter % 2 == 1 {
                self.clock_length_counters_and_sweep_units();
            }

            self.clock_envelopes_and_triangle_linear_counter();

            self.sequencer_counter = (self.sequencer_counter + 1) % 5;
        } else {
            if self.sequencer_counter % 2 == 0 && self.sequencer_counter < 4 {
                self.clock_length_counters_and_sweep_units();
            }

            if self.sequencer_counter < 4 {
                self.clock_envelopes_and_triangle_linear_counter();
            }

            self.sequencer_counter = (self.sequencer_counter + 1) % 5;
        }
    }

    /// Whether the frame sequencer is holding the interrupt line.
    pub fn is_raising_interrupt(&self) -> (r: bool)
        ensures
            r == ((self.common2.val >> 6) & 0x01 == 0 && self.sequencer_interrupt_flag),
    {
        (self.common2.val >> 6) & 0x01 == 0 && self.sequencer_interrupt_flag
    }

    fn clock_length_counters_and_sweep_units(&mut self)
        requires
            old(self).square_voice1.wf(),
            old(self).square_voice2.wf(),
        ensures
            *final(self) == spec_apu_clock_lengths(*old(self)),
    {
        self.square_voice1.clock_length_counter_and_sweep_unit();
        self.square_voice2.clock_length_counter_and_sweep_unit();

        self.triangle_voice.clock_length_counter();

        if (self.common1.val >> 3) & 0x01 == 0 {
            self.noise_length_counter = 0;
        } else {
            if (self.noise_1.val >> 5) & 0x01 == 0 && self.noise_length_counter > 0 {
                self.noise_length_counter = self.noise_length_counter - 1;
            }
        }
    }

    fn clock_envelopes_and_triangle_linear_counter(&mut self)
        requires
            old(self).square_voice1.wf(),
            old(self).square_voice2.wf(),
        ensures
            *final(self) == spec_apu_clock_envelopes(*old(self)),
    {
        self.square_voice1.clock_envelope();
        self.square_voice2.clock_envelope();
        self.triangle_voice.clock_linear_counter();
    }

    /// One CPU-rate clock: every voice steps and the mixed sample (square
    /// plus square plus triangle) is appended to the frame's buffer.
    pub fn clock_cpu_clock(&mut self)
        requires
            old(self).wf(),
        ensures
            final(self).wf(),
            final(self).square_voice1 == spec_pulse_clock_cpu(old(self).square_voice1),
            final(self).square_voice2 == spec_pulse_clock_cpu(old(self).square_voice2),
            final(self).triangle_voice == spec_triangle_clock_cpu(old(self).triangle_voice),
            final(self).audio_buffer@ == old(self).audio_buffer@.push(
                (spec_pulse_output(final(self).square_voice1) + spec_pulse_output(final(self).square_voice2)
                    + spec_triangle_sequence(final(self).triangle_voice.output_sequencer)) as u8,
            ),
            *final(self) == (Apu {
                square_voice1: final(self).square_voice1,
                square_voice2: final(self).square_voice2,
                triangle_voice: final(self).triangle_voice,
                audio_buffer: final(self).audio_buffer,
                ..*old(self)
            }),
    {
        self.square_voice1.clock_cpu();
        self.square_voice2.clock_cpu();
        self.triangle_voice.clock_cpu();

        let o1 = self.square_voice1.output();
        let o2 = self.square_voice2.output();
        let o3 = self.triangle_voice.output();
        let output = o1 + o2 + o3;
        self.audio_buffer.push(output);
    }

    /// Hands the samples gathered since the last call to the host and starts
    /// a fresh buffer. The host resamples and plays them; nothing here blocks.
    pub fn frame_done(&mut self) -> (r: Vec<u8>)
        ensures
            r@ == old(self).audio_buffer@,
            *final(self) == (Apu { audio_buffer: final(self).audio_buffer, ..*old(self) }),
            final(self).audio_buffer@ == Seq::<u8>::empty(),
    {
        let mut swap: Vec<u8> = Vec::new();
        core::mem::swap(&mut self.audio_buffer, &mut swap);
        swap
    }
}

} // verus!
