//! The audio processor's channel logic: two pulse channels, triangle,
//! noise and delta-modulation channels, and the frame counter that clocks
//! their envelopes, sweeps and length counters. Mixing to samples is left
//! to the host.
use vstd::prelude::*;

verus! {

/// Length-counter load values, indexed by the top five bits of the fourth
/// register of a channel.
pub open spec fn length_table(i: u8) -> u8 {
    match i % 32 {
        0 => 10, 1 => 254, 2 => 20, 3 => 2, 4 => 40, 5 => 4, 6 => 80, 7 => 6,
        8 => 160, 9 => 8, 10 => 60, 11 => 10, 12 => 14, 13 => 12, 14 => 26, 15 => 14,
        16 => 12, 17 => 16, 18 => 24, 19 => 18, 20 => 48, 21 => 20, 22 => 96, 23 => 22,
        24 => 192, 25 => 24, 26 => 72, 27 => 26, 28 => 16, 29 => 28, 30 => 32, _ => 30,
    }
}

pub fn length_lookup(i: u8) -> (r: u8)
    ensures
        r == length_table(i),
{
    match i % 32 {
        0 => 10, 1 => 254, 2 => 20, 3 => 2, 4 => 40, 5 => 4, 6 => 80, 7 => 6,
        8 => 160, 9 => 8, 10 => 60, 11 => 10, 12 => 14, 13 => 12, 14 => 26, 15 => 14,
        16 => 12, 17 => 16, 18 => 24, 19 => 18, 20 => 48, 21 => 20, 22 => 96, 23 => 22,
        24 => 192, 25 => 24, 26 => 72, 27 => 26, 28 => 16, 29 => 28, 30 => 32, _ => 30,
    }
}

/// Noise timer periods in CPU cycles.
pub open spec fn noise_period_table(i: u8) -> u16 {
    match i % 16 {
        0 => 4, 1 => 8, 2 => 16, 3 => 32, 4 => 64, 5 => 96, 6 => 128, 7 => 160,
        8 => 202, 9 => 254, 10 => 380, 11 => 508, 12 => 762, 13 => 1016, 14 => 2034, _ => 4068,
    }
}

pub fn noise_period_lookup(i: u8) -> (r: u16)
    ensures
        r == noise_period_table(i),
{
    match i % 16 {
        0 => 4, 1 => 8, 2 => 16, 3 => 32, 4 => 64, 5 => 96, 6 => 128, 7 => 160,
        8 => 202, 9 => 254, 10 => 380, 11 => 508, 12 => 762, 13 => 1016, 14 => 2034, _ => 4068,
    }
}

/// DMC timer periods in CPU cycles.
pub open spec fn dmc_rate_table(i: u8) -> u16 {
    match i % 16 {
        0 => 428, 1 => 380, 2 => 340, 3 => 320, 4 => 286, 5 => 254, 6 => 226, 7 => 214,
        8 => 190, 9 => 160, 10 => 142, 11 => 128, 12 => 106, 13 => 84, 14 => 72, _ => 54,
    }
}

pub fn dmc_rate_lookup(i: u8) -> (r: u16)
    ensures
        r == dmc_rate_table(i),
{
    match i % 16 {
        0 => 428, 1 => 380, 2 => 340, 3 => 320, 4 => 286, 5 => 254, 6 => 226, 7 => 214,
        8 => 190, 9 => 160, 10 => 142, 11 => 128, 12 => 106, 13 => 84, 14 => 72, _ => 54,
    }
}

/// How the host resamples the CPU-rate mix: linear, Hermite or
/// band-limited steps.
#[derive(Clone, Copy, Debug, PartialEq, Eq, Structural)]
pub enum ResamplerQuality {
    Low,
    Medium,
    High,
}

/// A volume envelope (pulse and noise).
#[derive(Clone, Copy, Debug, PartialEq, Eq, Structural)]
pub struct Envelope {
    pub start: bool,
    pub divider: u8,
    pub decay: u8,
    /// The divider period, which is also the constant volume.
    pub period: u8,
    pub constant: bool,
    /// Loop flag; the same bit halts the length counter.
    pub looping: bool,
}

/// A quarter-frame clock of an envelope: a latched restart reloads decay
/// 15 and the divider; else an expired divider reloads and steps the decay
/// down (wrapping to 15 when looping); else the divider counts down.
pub open spec fn envelope_clock_spec(e: Envelope) -> Envelope {
    if e.start {
        Envelope { start: false, decay: 15, divider: e.period, ..e }
    } else if e.divider == 0 {
        Envelope {
            divider: e.period,
            decay: if e.decay > 0 {
                (e.decay - 1) as u8
            } else if e.looping {
                15
            } else {
                0
            },
            ..e
        }
    } else {
        Envelope { divider: (e.divider - 1) as u8, ..e }
    }
}

impl Envelope {
    pub fn clock(&mut self)
        ensures
            *final(self) == envelope_clock_spec(*old(self)),
    {
        if self.start {
            self.start = false;
            self.decay = 15;
            self.divider = self.period;
        } else if self.divider == 0 {
            self.divider = self.period;
            if self.decay > 0 {
                self.decay = self.decay - 1;
            } else if self.looping {
                self.decay = 15;
            }
        } else {
            self.divider = self.divider - 1;
        }
    }

    /// The constant volume, or the decay level.
    pub fn volume(&self) -> (r: u8)
        ensures
            r == if self.constant {
                self.period
            } else {
                self.decay
            },
    {
        if self.constant {
            self.period
        } else {
            self.decay
        }
    }
}

/// A half-frame clock of a length counter: it counts down unless halted
/// or already zero.
pub open spec fn length_clock_spec(counter: u8, halt: bool) -> u8 {
    if !halt && counter > 0 {
        (counter - 1) as u8
    } else {
        counter
    }
}

pub fn clock_length_counter(counter: &mut u8, halt: bool)
    ensures
        *final(counter) == length_clock_spec(*old(counter), halt),
{
    if !halt && *counter > 0 {
        *counter = *counter - 1;
    }
}

#[derive(Clone, Copy, Debug, PartialEq, Eq, Structural)]
pub struct PulseChannel {
    pub enabled: bool,
    pub duty: u8,
    pub duty_position: u8,
    pub length_counter: u8,
    pub timer: u16,
    pub timer_period: u16,
    pub envelope: Envelope,
    pub sweep_enabled: bool,
    pub sweep_negate: bool,
    pub sweep_shift: u8,
    /// Pulse 2 negates in two's complement, pulse 1 in one's complement.
    pub twos_complement: bool,
}

/// The period the sweep unit aims at: the period plus or minus the period
/// shifted right; pulse 1 subtracts one more.
pub open spec fn sweep_target_spec(p: PulseChannel) -> int {
    let change = (p.timer_period >> (p.sweep_shift % 8) as u16) as int;
    if p.sweep_negate {
        if p.twos_complement {
            p.timer_period - change
        } else {
            p.timer_period - change - 1
        }
    } else {
        p.timer_period + change
    }
}

/// A pulse channel is muted when its period is below 8 or its sweep
/// target passes 0x7FF.
pub open spec fn pulse_muted(p: PulseChannel) -> bool {
    p.timer_period < 8 || sweep_target_spec(p) > 0x7FF
}

/// A half-frame sweep clock: when enabled with a non-zero shift and not
/// muted, the period moves to the target.
#[verifier::opaque]
pub open spec fn sweep_clock_spec(p: PulseChannel) -> PulseChannel {
    let t = sweep_target_spec(p);
    if p.sweep_enabled && p.sweep_shift % 8 != 0 && !pulse_muted(p) && t >= 0 {
        PulseChannel { timer_period: t as u16, ..p }
    } else {
        p
    }
}

/// A pulse channel's level 0..=15: silent when disabled, when the length
/// counter is zero, when muted, or on a low duty step.
pub open spec fn pulse_output_spec(p: PulseChannel) -> u8 {
    if !p.enabled || p.length_counter == 0 || pulse_muted(p) || !duty_bit(p.duty, p.duty_position) {
        0
    } else if p.envelope.constant {
        p.envelope.period
    } else {
        p.envelope.decay
    }
}

/// The 8-step duty waveforms.
pub open spec fn duty_bit(duty: u8, pos: u8) -> bool {
    let d = duty % 4;
    let p = pos % 8;
    if d == 0 {
        p == 1
    } else if d == 1 {
        p == 1 || p == 2
    } else if d == 2 {
        1 <= p <= 4
    } else {
        !(1 <= p <= 2)
    }
}

/// A pulse register write (`reg` 0..=3): duty and envelope, sweep, timer
/// low, timer high with a length load (while enabled) and a restart.
#[verifier::opaque]
pub open spec fn pulse_write_spec(p: PulseChannel, reg: u16, value: u8) -> PulseChannel {
    if reg == 0 {
        PulseChannel {
            duty: (value >> 6u8) & 3,
            envelope: Envelope {
                period: value & 0x0F,
                constant: value & 0x10 != 0,
                looping: value & 0x20 != 0,
                ..p.envelope
            },
            ..p
        }
    } else if reg == 1 {
        PulseChannel {
            sweep_enabled: value & 0x80 != 0,
            sweep_negate: value & 0x08 != 0,
            sweep_shift: value & 0x07,
            ..p
        }
    } else if reg == 2 {
        PulseChannel { timer_period: (p.timer_period & 0xFF00) | (value as u16), ..p }
    } else if reg == 3 {
        let period = (p.timer_period & 0x00FF) | (((value as u16) & 7) << 8u16);
        PulseChannel {
            timer_period: period,
            timer: period,
            length_counter: if p.enabled {
                length_table(value >> 3u8)
            } else {
                p.length_counter
            },
            envelope: Envelope { start: true, ..p.envelope },
            duty_position: 0,
            ..p
        }
    } else {
        p
    }
}

/// A triangle register write: control and linear reload, timer low, timer
/// high with a length load (while enabled) and the reload flag.
#[verifier::opaque]
pub open spec fn triangle_write_spec(t: TriangleChannel, reg: u16, value: u8) -> TriangleChannel {
    if reg == 0 {
        TriangleChannel { control_flag: value & 0x80 != 0, linear_reload: value & 0x7F, ..t }
    } else if reg == 2 {
        TriangleChannel { timer_period: (t.timer_period & 0xFF00) | (value as u16), ..t }
    } else if reg == 3 {
        let period = (t.timer_period & 0x00FF) | (((value as u16) & 7) << 8u16);
        TriangleChannel {
            timer_period: period,
            timer: period,
            length_counter: if t.enabled {
                length_table(value >> 3u8)
            } else {
                t.length_counter
            },
            reload_flag: true,
            ..t
        }
    } else {
        t
    }
}

/// A noise register write: envelope, mode and period, length load (while
/// enabled) with an envelope restart.
#[verifier::opaque]
pub open spec fn noise_write_spec(n: NoiseChannel, reg: u16, value: u8) -> NoiseChannel {
    if reg == 0 {
        NoiseChannel {
            envelope: Envelope {
                period: value & 0x0F,
                constant: value & 0x10 != 0,
                looping: value & 0x20 != 0,
                ..n.envelope
            },
            ..n
        }
    } else if reg == 2 {
        NoiseChannel { mode: value & 0x80 != 0, timer_period: noise_period_table(value & 0x0F), ..n }
    } else if reg == 3 {
        NoiseChannel {
            length_counter: if n.enabled {
                length_table(value >> 3u8)
            } else {
                n.length_counter
            },
            envelope: Envelope { start: true, ..n.envelope },
            ..n
        }
    } else {
        n
    }
}

/// A DMC register write: IRQ enable (clearing acknowledges), loop and
/// rate; direct output load; sample address 0xC000 + 64 * value; sample
/// length 16 * value + 1.
#[verifier::opaque]
pub open spec fn dmc_write_spec(d: DmcChannel, reg: u16, value: u8) -> DmcChannel {
    if reg == 0 {
        DmcChannel {
            irq_enabled: value & 0x80 != 0,
            loop_flag: value & 0x40 != 0,
            timer_period: dmc_rate_table(value & 0x0F),
            interrupt: d.interrupt && value & 0x80 != 0,
            ..d
        }
    } else if reg == 1 {
        DmcChannel { output_level: value & 0x7F, ..d }
    } else if reg == 2 {
        DmcChannel { sample_address: (0xC000 + value * 64) as u16, ..d }
    } else if reg == 3 {
        DmcChannel { sample_length: (value * 16 + 1) as u16, ..d }
    } else {
        d
    }
}

/// A pulse timer clock: at zero it reloads and the duty step advances.
pub open spec fn pulse_timer_spec(p: PulseChannel) -> PulseChannel {
    if p.timer > 0 {
        PulseChannel { timer: (p.timer - 1) as u16, ..p }
    } else {
        PulseChannel { timer: p.timer_period, duty_position: ((p.duty_position + 1) % 8) as u8, ..p }
    }
}

impl PulseChannel {
    pub fn new(twos_complement: bool) -> (r: PulseChannel)
        ensures
            r.twos_complement == twos_complement,
            !r.enabled && r.length_counter == 0 && r.timer_period == 0,
    {
        PulseChannel {
            enabled: false,
            duty: 0,
            duty_position: 0,
            length_counter: 0,
            timer: 0,
            timer_period: 0,
            envelope: Envelope {
                start: false,
                divider: 0,
                decay: 0,
                period: 0,
                constant: false,
                looping: false,
            },
            sweep_enabled: false,
            sweep_negate: false,
            sweep_shift: 0,
            twos_complement,
        }
    }

    fn sweep_target(&self) -> (r: i32)
        ensures
            r as int == sweep_target_spec(*self),
    {
        let period = self.timer_period;
        let shift = (self.sweep_shift % 8) as u16;
        assert(period >> shift <= period) by (bit_vector);
        let change = (period >> shift) as i32;
        if self.sweep_negate {
            if self.twos_complement {
                self.timer_period as i32 - change
            } else {
                self.timer_period as i32 - change - 1
            }
        } else {
            self.timer_period as i32 + change
        }
    }

    pub fn clock_sweep(&mut self)
        ensures
            *final(self) == sweep_clock_spec(*old(self)),
    {
        proof {
            reveal(sweep_clock_spec);
        }
        let t = self.sweep_target();
        if self.sweep_enabled && self.sweep_shift % 8 != 0 && !(self.timer_period < 8 || t > 0x7FF)
            && t >= 0 {
            self.timer_period = t as u16;
        }
    }

    /// A timer clock: at zero it reloads and the duty step advances.
    pub fn clock_timer(&mut self)
        ensures
            *final(self) == pulse_timer_spec(*old(self)),
    {
        if self.timer > 0 {
            self.timer = self.timer - 1;
        } else {
            self.timer = self.timer_period;
            self.duty_position = ((self.duty_position as u16 + 1) % 8) as u8;
        }
    }

    /// A register write (`reg` 0..=3): duty/envelope, sweep, timer low,
    /// timer high with length load.
    pub fn write(&mut self, reg: u16, value: u8)
        ensures
            *final(self) == pulse_write_spec(*old(self), reg, value),
    {
        proof {
            reveal(pulse_write_spec);
        }
        if reg == 0 {
            self.duty = (value >> 6) & 3;
            self.envelope.period = value & 0x0F;
            self.envelope.constant = value & 0x10 != 0;
            self.envelope.looping = value & 0x20 != 0;
        } else if reg == 1 {
            self.sweep_enabled = value & 0x80 != 0;
            self.sweep_negate = value & 0x08 != 0;
            self.sweep_shift = value & 0x07;
        } else if reg == 2 {
            self.timer_period = (self.timer_period & 0xFF00) | (value as u16);
        } else if reg == 3 {
            let period = (self.timer_period & 0x00FF) | (((value as u16) & 7) << 8);
            self.timer_period = period;
            self.timer = period;
            if self.enabled {
                self.length_counter = length_lookup(value >> 3);
            }
            self.envelope.start = true;
            self.duty_position = 0;
        }
    }

    /// The channel's level 0..=15: silent when disabled, when the length
    /// counter is zero, when muted, or on a low duty step.
    pub fn output(&self) -> (r: u8)
        ensures
            r == pulse_output_spec(*self),
    {
        let t = self.sweep_target();
        let d = self.duty % 4;
        let p = self.duty_position % 8;
        let high = if d == 0 {
            p == 1
        } else if d == 1 {
            p == 1 || p == 2
        } else if d == 2 {
            1 <= p && p <= 4
        } else {
            !(1 <= p && p <= 2)
        };
        if !self.enabled || self.length_counter == 0 || self.timer_period < 8 || t > 0x7FF || !high {
            0
        } else {
            self.envelope.volume()
        }
    }
}

#[derive(Clone, Copy, Debug, PartialEq, Eq, Structural)]
pub struct TriangleChannel {
    pub enabled: bool,
    pub length_counter: u8,
    pub timer: u16,
    pub timer_period: u16,
    pub linear_counter: u8,
    pub linear_reload: u8,
    pub reload_flag: bool,
    /// Also halts the length counter.
    pub control_flag: bool,
    pub sequence_position: u8,
}

/// The 32-step triangle level 15..0, 0..15; silent when disabled or a
/// counter is zero.
pub open spec fn triangle_output_spec(t: TriangleChannel) -> u8 {
    if !t.enabled || t.length_counter == 0 || t.linear_counter == 0 {
        0
    } else if t.sequence_position % 32 < 16 {
        (15 - t.sequence_position % 32) as u8
    } else {
        (t.sequence_position % 32 - 16) as u8
    }
}

/// A triangle timer clock: the sequencer steps on reload, only while both
/// counters are non-zero and the period is at least 2.
pub open spec fn triangle_timer_spec(t: TriangleChannel) -> TriangleChannel {
    if t.timer > 0 {
        TriangleChannel { timer: (t.timer - 1) as u16, ..t }
    } else {
        TriangleChannel {
            timer: t.timer_period,
            sequence_position: if t.length_counter > 0 && t.linear_counter > 0 && t.timer_period >= 2 {
                ((t.sequence_position + 1) % 32) as u8
            } else {
                t.sequence_position
            },
            ..t
        }
    }
}

/// A quarter-frame clock of the linear counter: reload when flagged, else
/// count down; the flag clears unless the control bit is set.
pub open spec fn linear_clock_spec(t: TriangleChannel) -> TriangleChannel {
    TriangleChannel {
        linear_counter: if t.reload_flag {
            t.linear_reload
        } else if t.linear_counter > 0 {
            (t.linear_counter - 1) as u8
        } else {
            0
        },
        reload_flag: t.reload_flag && t.control_flag,
        ..t
    }
}

impl TriangleChannel {
    /// A timer clock: the sequencer steps on reload, only while both
    /// counters are non-zero and the period is at least 2.
    pub fn clock_timer(&mut self)
        ensures
            *final(self) == triangle_timer_spec(*old(self)),
    {
        if self.timer > 0 {
            self.timer = self.timer - 1;
        } else {
            self.timer = self.timer_period;
            if self.length_counter > 0 && self.linear_counter > 0 && self.timer_period >= 2 {
                self.sequence_position = ((self.sequence_position as u16 + 1) % 32) as u8;
            }
        }
    }

    /// A quarter-frame clock of the linear counter: reload when flagged,
    /// else count down; the flag clears unless the control bit is set.
    pub fn clock_linear_counter(&mut self)
        ensures
            *final(self) == linear_clock_spec(*old(self)),
    {
        if self.reload_flag {
            self.linear_counter = self.linear_reload;
        } else if self.linear_counter > 0 {
            self.linear_counter = self.linear_counter - 1;
        }
        if !self.control_flag {
            self.reload_flag = false;
        }
    }

    /// The 32-step triangle level 15..0, 0..15; silent when disabled or a
    /// counter is zero.
    pub fn output(&self) -> (r: u8)
        ensures
            r == triangle_output_spec(*self),
    {
        if !self.enabled || self.length_counter == 0 || self.linear_counter == 0 {
            0
        } else {
            let p = self.sequence_position % 32;
            if p < 16 {
                15 - p
            } else {
                p - 16
            }
        }
    }
}

#[derive(Clone, Copy, Debug, PartialEq, Eq, Structural)]
pub struct NoiseChannel {
    pub enabled: bool,
    pub length_counter: u8,
    pub timer: u16,
    pub timer_period: u16,
    pub envelope: Envelope,
    /// Short mode: feedback from bit 6 instead of bit 1.
    pub mode: bool,
    pub shift_register: u16,
}

/// One LFSR step: feedback is bit 0 XOR bit 1 (bit 6 in short mode); the
/// register shifts right and the feedback enters at bit 14.
pub open spec fn lfsr_step(reg: u16, mode: bool) -> u16 {
    let other = if mode {
        (reg >> 6u16) & 1
    } else {
        (reg >> 1u16) & 1
    };
    let feedback = (reg & 1) ^ other;
    (reg >> 1u16) | (feedback << 14u16)
}

/// The envelope level while bit 0 of the LFSR is clear; silent otherwise,
/// when disabled, or when the length counter is zero.
pub open spec fn noise_output_spec(n: NoiseChannel) -> u8 {
    if !n.enabled || n.length_counter == 0 || n.shift_register & 1 != 0 {
        0
    } else if n.envelope.constant {
        n.envelope.period
    } else {
        n.envelope.decay
    }
}

/// A noise timer clock: at zero it reloads and the LFSR steps.
pub open spec fn noise_timer_spec(n: NoiseChannel) -> NoiseChannel {
    if n.timer > 0 {
        NoiseChannel { timer: (n.timer - 1) as u16, ..n }
    } else {
        NoiseChannel { timer: n.timer_period, shift_register: lfsr_step(n.shift_register, n.mode), ..n }
    }
}

impl NoiseChannel {
    pub fn clock_timer(&mut self)
        ensures
            *final(self) == noise_timer_spec(*old(self)),
    {
        if self.timer > 0 {
            self.timer = self.timer - 1;
        } else {
            self.timer = self.timer_period;
            let reg = self.shift_register;
            let other = if self.mode {
                (reg >> 6) & 1
            } else {
                (reg >> 1) & 1
            };
            let feedback = (reg & 1) ^ other;
            self.shift_register = (reg >> 1) | (feedback << 14);
        }
    }

    /// The envelope level while bit 0 of the LFSR is clear; silent
    /// otherwise, when disabled, or when the length counter is zero.
    pub fn output(&self) -> (r: u8)
        ensures
            r == noise_output_spec(*self),
    {
        if !self.enabled || self.length_counter == 0 || self.shift_register & 1 != 0 {
            0
        } else {
            self.envelope.volume()
        }
    }
}

#[derive(Clone, Copy, Debug, PartialEq, Eq, Structural)]
pub struct DmcChannel {
    pub enabled: bool,
    pub timer: u16,
    pub timer_period: u16,
    pub sample_address: u16,
    pub sample_length: u16,
    pub current_address: u16,
    pub bytes_remaining: u16,
    pub sample_buffer: Option<u8>,
    pub shift_register: u8,
    pub bits_remaining: u8,
    pub output_level: u8,
    pub silence: bool,
    pub loop_flag: bool,
    pub irq_enabled: bool,
    pub interrupt: bool,
}

/// The DMC output unit after one timer expiry: unless silent, bit 0 of the
/// shift register moves the level by 2 up or down within 0..=127; after
/// eight bits the sample buffer (if full) becomes the next shift register.
pub open spec fn dmc_output_spec(d: DmcChannel) -> DmcChannel {
    let level = if d.silence {
        d.output_level
    } else if d.shift_register & 1 != 0 {
        if d.output_level <= 125 {
            (d.output_level + 2) as u8
        } else {
            d.output_level
        }
    } else if d.output_level >= 2 {
        (d.output_level - 2) as u8
    } else {
        d.output_level
    };
    let bits = if d.bits_remaining > 0 {
        (d.bits_remaining - 1) as u8
    } else {
        0
    };
    let d1 = DmcChannel {
        output_level: level,
        shift_register: d.shift_register >> 1u8,
        bits_remaining: bits,
        timer: d.timer_period,
        ..d
    };
    if bits == 0 {
        match d.sample_buffer {
            Some(s) => DmcChannel {
                bits_remaining: 8,
                shift_register: s,
                sample_buffer: None,
                silence: false,
                ..d1
            },
            None => DmcChannel { bits_remaining: 8, silence: true, ..d1 },
        }
    } else {
        d1
    }
}

/// A DMC timer clock: at zero the output unit runs.
pub open spec fn dmc_timer_spec(d: DmcChannel) -> DmcChannel {
    if d.timer > 0 {
        DmcChannel { timer: (d.timer - 1) as u16, ..d }
    } else {
        dmc_output_spec(d)
    }
}

impl DmcChannel {
    /// A timer clock of the output unit.
    pub fn clock_dmc(&mut self)
        ensures
            *final(self) == dmc_timer_spec(*old(self)),
    {
        if self.timer > 0 {
            self.timer = self.timer - 1;
            return;
        }
        self.timer = self.timer_period;
        if !self.silence {
            if self.shift_register & 1 != 0 {
                if self.output_level <= 125 {
                    self.output_level = self.output_level + 2;
                }
            } else if self.output_level >= 2 {
                self.output_level = self.output_level - 2;
            }
        }
        self.shift_register = self.shift_register >> 1;
        if self.bits_remaining > 0 {
            self.bits_remaining = self.bits_remaining - 1;
        }
        if self.bits_remaining == 0 {
            self.bits_remaining = 8;
            match self.sample_buffer {
                Some(s) => {
                    self.shift_register = s;
                    self.sample_buffer = None;
                    self.silence = false;
                },
                None => {
                    self.silence = true;
                },
            }
        }
    }

    /// The address of the next sample byte, when the buffer is empty and
    /// bytes remain.
    pub fn fetch_address(&self) -> (r: Option<u16>)
        ensures
            r == if self.sample_buffer is None && self.bytes_remaining > 0 {
                Some(self.current_address)
            } else {
                None::<u16>
            },
    {
        if self.sample_buffer.is_none() && self.bytes_remaining > 0 {
            Some(self.current_address)
        } else {
            None
        }
    }

    /// Delivers the byte read at `fetch_address`: the buffer fills, the
    /// address advances (0xFFFF wraps to 0x8000), and on the last byte the
    /// sample loops or, with IRQs enabled, raises the DMC interrupt.
    pub fn load_sample(&mut self, value: u8)
        requires
            old(self).bytes_remaining > 0,
        ensures
            final(self).sample_buffer == Some(value),
            ({
                let next: u16 = if old(self).current_address == 0xFFFF {
                    0x8000
                } else {
                    (old(self).current_address + 1) as u16
                };
                &&& old(self).bytes_remaining > 1 ==> final(self).current_address == next
                    && final(self).bytes_remaining == old(self).bytes_remaining - 1
                    && final(self).interrupt == old(self).interrupt
                &&& old(self).bytes_remaining == 1 && old(self).loop_flag ==> final(self).current_address
                    == old(self).sample_address && final(self).bytes_remaining == old(self).sample_length
                    && final(self).interrupt == old(self).interrupt
                &&& old(self).bytes_remaining == 1 && !old(self).loop_flag ==> final(self).current_address
                    == next && final(self).bytes_remaining == 0 && final(self).interrupt == (old(self).interrupt
                    || old(self).irq_enabled)
            }),
            final(self).output_level == old(self).output_level,
            final(self).enabled == old(self).enabled && final(self).irq_enabled == old(self).irq_enabled,
    {
        self.sample_buffer = Some(value);
        self.current_address = if self.current_address == 0xFFFF {
            0x8000
        } else {
            self.current_address + 1
        };
        self.bytes_remaining = self.bytes_remaining - 1;
        if self.bytes_remaining == 0 {
            if self.loop_flag {
                self.current_address = self.sample_address;
                self.bytes_remaining = self.sample_length;
            } else if self.irq_enabled {
                self.interrupt = true;
            }
        }
    }
}


/// What the frame counter does at count `fc` (after the increment): a
/// quarter-frame clock, a half-frame clock, an IRQ, and a restart.
/// 4-step: quarters at 7457, 14913, 22371, 29829, halves at 14913 and
/// 29829, IRQ and restart at 29829. 5-step: quarters at 7457, 14913,
/// 22371, 37281, halves at 14913 and 37281, restart at 37281, no IRQ.
pub open spec fn frame_event(five_step: bool, fc: u32) -> (bool, bool, bool, bool) {
    if !five_step {
        (
            fc == 7457 || fc == 14913 || fc == 22371 || fc == 29829,
            fc == 14913 || fc == 29829,
            fc == 29829,
            fc == 29829,
        )
    } else {
        (
            fc == 7457 || fc == 14913 || fc == 22371 || fc == 37281,
            fc == 14913 || fc == 37281,
            false,
            fc == 37281,
        )
    }
}

#[derive(Clone, Copy, Debug, PartialEq, Eq, Structural)]
pub struct Apu {
    pub pulse1: PulseChannel,
    pub pulse2: PulseChannel,
    pub triangle: TriangleChannel,
    pub noise: NoiseChannel,
    pub dmc: DmcChannel,
    /// 5-step sequence when set.
    pub frame_mode: bool,
    pub frame_irq_inhibit: bool,
    pub frame_irq: bool,
    pub frame_cycles: u32,
    pub cycles: u64,
}

/// Envelopes and the triangle's linear counter.
#[verifier::opaque]
pub open spec fn quarter_frame_spec(a: Apu) -> Apu {
    Apu {
        pulse1: PulseChannel { envelope: envelope_clock_spec(a.pulse1.envelope), ..a.pulse1 },
        pulse2: PulseChannel { envelope: envelope_clock_spec(a.pulse2.envelope), ..a.pulse2 },
        noise: NoiseChannel { envelope: envelope_clock_spec(a.noise.envelope), ..a.noise },
        triangle: linear_clock_spec(a.triangle),
        ..a
    }
}

/// Length counters (halted by the envelope loop or triangle control bit)
/// and sweeps.
#[verifier::opaque]
pub open spec fn half_frame_spec(a: Apu) -> Apu {
    let p1 = PulseChannel {
        length_counter: length_clock_spec(a.pulse1.length_counter, a.pulse1.envelope.looping),
        ..a.pulse1
    };
    let p2 = PulseChannel {
        length_counter: length_clock_spec(a.pulse2.length_counter, a.pulse2.envelope.looping),
        ..a.pulse2
    };
    Apu {
        pulse1: sweep_clock_spec(p1),
        pulse2: sweep_clock_spec(p2),
        triangle: TriangleChannel {
            length_counter: length_clock_spec(a.triangle.length_counter, a.triangle.control_flag),
            ..a.triangle
        },
        noise: NoiseChannel {
            length_counter: length_clock_spec(a.noise.length_counter, a.noise.envelope.looping),
            ..a.noise
        },
        ..a
    }
}

/// One CPU cycle: pulse and noise timers on every other cycle, triangle
/// and DMC timers on every cycle, then the frame counter.
pub open spec fn step_spec(a: Apu) -> Apu {
    let cycles = ((a.cycles + 1) % 0x1_0000_0000_0000_0000) as u64;
    let even = cycles % 2 == 0;
    let a1 = Apu {
        cycles: cycles,
        pulse1: if even {
            pulse_timer_spec(a.pulse1)
        } else {
            a.pulse1
        },
        pulse2: if even {
            pulse_timer_spec(a.pulse2)
        } else {
            a.pulse2
        },
        noise: if even {
            noise_timer_spec(a.noise)
        } else {
            a.noise
        },
        triangle: triangle_timer_spec(a.triangle),
        dmc: dmc_timer_spec(a.dmc),
        ..a
    };
    let fc = ((a.frame_cycles + 1) % 0x1_0000_0000) as u32;
    let (quarter, half, irq, restart) = frame_event(a.frame_mode, fc);
    let a2 = if quarter {
        quarter_frame_spec(a1)
    } else {
        a1
    };
    let a3 = if half {
        half_frame_spec(a2)
    } else {
        a2
    };
    Apu {
        frame_cycles: if restart {
            0
        } else {
            fc
        },
        frame_irq: a.frame_irq || (irq && !a.frame_irq_inhibit),
        ..a3
    }
}

/// What a read at `addr` does to the APU: `q` is after it, `r` the value.
pub open spec fn apu_read_rel(a: Apu, addr: u16, q: Apu, r: u8) -> bool {
    &&& (addr == 0x4015 ==> r == (if a.pulse1.length_counter > 0 {
                0x01u8
            } else {
                0
            }) | (if a.pulse2.length_counter > 0 {
                0x02u8
            } else {
                0
            }) | (if a.triangle.length_counter > 0 {
                0x04u8
            } else {
                0
            }) | (if a.noise.length_counter > 0 {
                0x08u8
            } else {
                0
            }) | (if a.dmc.bytes_remaining > 0 {
                0x10u8
            } else {
                0
            }) | (if a.frame_irq {
                0x40u8
            } else {
                0
            }) | (if a.dmc.interrupt {
                0x80u8
            } else {
                0
            }))
    &&& (addr == 0x4015 ==> q == (Apu { frame_irq: false, ..a }))
    &&& (addr != 0x4015 ==> r == 0 && q == a)
}

/// What a write of `value` at `addr` does to the APU: `q` is after it.
pub open spec fn apu_write_rel(a: Apu, addr: u16, value: u8, q: Apu) -> bool {
    &&& (0x4000 <= addr <= 0x4003 ==> q == (Apu {
                pulse1: pulse_write_spec(a.pulse1, (addr - 0x4000) as u16, value),
                ..a
            }))
    &&& (0x4004 <= addr <= 0x4007 ==> q == (Apu {
                pulse2: pulse_write_spec(a.pulse2, (addr - 0x4004) as u16, value),
                ..a
            }))
    &&& (0x4008 <= addr <= 0x400B ==> q == (Apu {
                triangle: triangle_write_spec(a.triangle, (addr - 0x4008) as u16, value),
                ..a
            }))
    &&& (0x400C <= addr <= 0x400F ==> q == (Apu {
                noise: noise_write_spec(a.noise, (addr - 0x400C) as u16, value),
                ..a
            }))
    &&& (0x4010 <= addr <= 0x4013 ==> q == (Apu {
                dmc: dmc_write_spec(a.dmc, (addr - 0x4010) as u16, value),
                ..a
            }))
    &&& (addr == 0x4015 ==> {
                &&& q.pulse1.enabled == (value & 0x01 != 0)
                &&& q.pulse2.enabled == (value & 0x02 != 0)
                &&& q.triangle.enabled == (value & 0x04 != 0)
                &&& q.noise.enabled == (value & 0x08 != 0)
                &&& q.dmc.enabled == (value & 0x10 != 0)
                &&& q.pulse1.length_counter == if value & 0x01 != 0 {
                    a.pulse1.length_counter
                } else {
                    0
                }
                &&& q.pulse2.length_counter == if value & 0x02 != 0 {
                    a.pulse2.length_counter
                } else {
                    0
                }
                &&& q.triangle.length_counter == if value & 0x04 != 0 {
                    a.triangle.length_counter
                } else {
                    0
                }
                &&& q.noise.length_counter == if value & 0x08 != 0 {
                    a.noise.length_counter
                } else {
                    0
                }
                &&& q.dmc.bytes_remaining == if value & 0x10 == 0 {
                    0
                } else if a.dmc.bytes_remaining == 0 {
                    a.dmc.sample_length
                } else {
                    a.dmc.bytes_remaining
                }
                &&& !q.dmc.interrupt
                &&& q.frame_irq == a.frame_irq
            })
    &&& (addr == 0x4017 ==> {
                let a = Apu {
                    frame_mode: value & 0x80 != 0,
                    frame_irq_inhibit: value & 0x40 != 0,
                    frame_irq: a.frame_irq && value & 0x40 == 0,
                    frame_cycles: 0,
                    ..a
                };
                q == if value & 0x80 != 0 {
                    half_frame_spec(quarter_frame_spec(a))
                } else {
                    a
                }
            })
    &&& (!(0x4000 <= addr <= 0x4013 || addr == 0x4015 || addr == 0x4017) ==> q == a)
}

impl Apu {
    /// Silent channels, the noise LFSR seeded with 1, the 4-step sequence.
    pub fn new() -> (r: Apu)
        ensures
            r.noise.shift_register == 1,
            !r.frame_mode && !r.frame_irq && !r.frame_irq_inhibit && r.frame_cycles == 0,
            !r.pulse1.enabled && !r.pulse2.enabled && !r.triangle.enabled && !r.noise.enabled
                && !r.dmc.enabled,
            !r.pulse1.twos_complement && r.pulse2.twos_complement,
    {
        let env = Envelope {
            start: false,
            divider: 0,
            decay: 0,
            period: 0,
            constant: false,
            looping: false,
        };
        Apu {
            pulse1: PulseChannel::new(false),
            pulse2: PulseChannel::new(true),
            triangle: TriangleChannel {
                enabled: false,
                length_counter: 0,
                timer: 0,
                timer_period: 0,
                linear_counter: 0,
                linear_reload: 0,
                reload_flag: false,
                control_flag: false,
                sequence_position: 0,
            },
            noise: NoiseChannel {
                enabled: false,
                length_counter: 0,
                timer: 0,
                timer_period: 4,
                envelope: env,
                mode: false,
                shift_register: 1,
            },
            dmc: DmcChannel {
                enabled: false,
                timer: 0,
                timer_period: 428,
                sample_address: 0xC000,
                sample_length: 1,
                current_address: 0xC000,
                bytes_remaining: 0,
                sample_buffer: None,
                shift_register: 0,
                bits_remaining: 8,
                output_level: 0,
                silence: true,
                loop_flag: false,
                irq_enabled: false,
                interrupt: false,
            },
            frame_mode: false,
            frame_irq_inhibit: false,
            frame_irq: false,
            frame_cycles: 0,
            cycles: 0,
        }
    }

    /// Envelopes and linear counter.
    pub fn clock_quarter_frame(&mut self)
        ensures
            *final(self) == quarter_frame_spec(*old(self)),
    {
        proof {
            reveal(quarter_frame_spec);
        }
        self.pulse1.envelope.clock();
        self.pulse2.envelope.clock();
        self.noise.envelope.clock();
        self.triangle.clock_linear_counter();
    }

    /// Length counters and sweeps.
    pub fn clock_half_frame(&mut self)
        ensures
            *final(self) == half_frame_spec(*old(self)),
    {
        proof {
            reveal(half_frame_spec);
        }
        let halt1 = self.pulse1.envelope.looping;
        let halt2 = self.pulse2.envelope.looping;
        let halt_t = self.triangle.control_flag;
        let halt_n = self.noise.envelope.looping;
        clock_length_counter(&mut self.pulse1.length_counter, halt1);
        clock_length_counter(&mut self.pulse2.length_counter, halt2);
        clock_length_counter(&mut self.triangle.length_counter, halt_t);
        clock_length_counter(&mut self.noise.length_counter, halt_n);
        self.pulse1.clock_sweep();
        self.pulse2.clock_sweep();
    }

    /// Advances the APU by one CPU cycle.
    pub fn step(&mut self)
        ensures
            *final(self) == step_spec(*old(self)),
    {
        self.cycles = self.cycles.wrapping_add(1);
        if self.cycles % 2 == 0 {
            self.pulse1.clock_timer();
            self.pulse2.clock_timer();
            self.noise.clock_timer();
        }
        self.triangle.clock_timer();
        self.dmc.clock_dmc();
        let fc = self.frame_cycles.wrapping_add(1);
        let (quarter, half, irq, restart) = if !self.frame_mode {
            (
                fc == 7457 || fc == 14913 || fc == 22371 || fc == 29829,
                fc == 14913 || fc == 29829,
                fc == 29829,
                fc == 29829,
            )
        } else {
            (
                fc == 7457 || fc == 14913 || fc == 22371 || fc == 37281,
                fc == 14913 || fc == 37281,
                false,
                fc == 37281,
            )
        };
        let frame_irq = self.frame_irq || (irq && !self.frame_irq_inhibit);
        if quarter {
            self.clock_quarter_frame();
        }
        if half {
            self.clock_half_frame();
        }
        self.frame_irq = frame_irq;
        self.frame_cycles = if restart {
            0
        } else {
            fc
        };
    }

    /// Whether the frame counter or the DMC holds the IRQ line.
    pub open spec fn irq_pending_spec(&self) -> bool {
        self.frame_irq || self.dmc.interrupt
    }

    /// Whether the frame counter or the DMC holds the IRQ line.
    pub fn irq_pending(&self) -> (r: bool)
        ensures
            r == self.irq_pending_spec(),
    {
        self.frame_irq || self.dmc.interrupt
    }

    /// The five channel levels for the mixer: pulse 1, pulse 2, triangle,
    /// noise (0..=15 each) and DMC (0..=127).
    pub fn outputs(&self) -> (r: (u8, u8, u8, u8, u8))
        ensures
            r == (
                pulse_output_spec(self.pulse1),
                pulse_output_spec(self.pulse2),
                triangle_output_spec(self.triangle),
                noise_output_spec(self.noise),
                self.dmc.output_level,
            ),
    {
        (self.pulse1.output(), self.pulse2.output(), self.triangle.output(), self.noise.output(),
            self.dmc.output_level)
    }

    /// Reads $4015: bits 0-3 for non-zero length counters, bit 4 for DMC
    /// bytes left, bit 6 for the frame IRQ, bit 7 for the DMC IRQ. Reading
    /// acknowledges the frame IRQ. Other addresses read 0.
    pub fn read_register(&mut self, addr: u16) -> (r: u8)
        ensures
            apu_read_rel(*old(self), addr, *final(self), r),

    {
        if addr != 0x4015 {
            return 0;
        }
        let r = (if self.pulse1.length_counter > 0 {
            0x01u8
        } else {
            0
        }) | (if self.pulse2.length_counter > 0 {
            0x02u8
        } else {
            0
        }) | (if self.triangle.length_counter > 0 {
            0x04u8
        } else {
            0
        }) | (if self.noise.length_counter > 0 {
            0x08u8
        } else {
            0
        }) | (if self.dmc.bytes_remaining > 0 {
            0x10u8
        } else {
            0
        }) | (if self.frame_irq {
            0x40u8
        } else {
            0
        }) | (if self.dmc.interrupt {
            0x80u8
        } else {
            0
        });
        self.frame_irq = false;
        r
    }

    pub fn write_triangle(&mut self, reg: u16, value: u8)
        ensures
            *final(self) == (Apu { triangle: triangle_write_spec(old(self).triangle, reg, value), ..*old(self) }),
    {
        proof {
            reveal(triangle_write_spec);
        }
        if reg == 0 {
            self.triangle.control_flag = value & 0x80 != 0;
            self.triangle.linear_reload = value & 0x7F;
        } else if reg == 2 {
            self.triangle.timer_period = (self.triangle.timer_period & 0xFF00) | (value as u16);
        } else if reg == 3 {
            let period = (self.triangle.timer_period & 0x00FF) | (((value as u16) & 7) << 8);
            self.triangle.timer_period = period;
            self.triangle.timer = period;
            if self.triangle.enabled {
                self.triangle.length_counter = length_lookup(value >> 3);
            }
            self.triangle.reload_flag = true;
        }
    }

    pub fn write_noise(&mut self, reg: u16, value: u8)
        ensures
            *final(self) == (Apu { noise: noise_write_spec(old(self).noise, reg, value), ..*old(self) }),
    {
        proof {
            reveal(noise_write_spec);
        }
        if reg == 0 {
            self.noise.envelope.period = value & 0x0F;
            self.noise.envelope.constant = value & 0x10 != 0;
            self.noise.envelope.looping = value & 0x20 != 0;
        } else if reg == 2 {
            self.noise.mode = value & 0x80 != 0;
            self.noise.timer_period = noise_period_lookup(value & 0x0F);
        } else if reg == 3 {
            if self.noise.enabled {
                self.noise.length_counter = length_lookup(value >> 3);
            }
            self.noise.envelope.start = true;
        }
    }

    pub fn write_dmc(&mut self, reg: u16, value: u8)
        ensures
            *final(self) == (Apu { dmc: dmc_write_spec(old(self).dmc, reg, value), ..*old(self) }),
    {
        proof {
            reveal(dmc_write_spec);
        }
        if reg == 0 {
            self.dmc.irq_enabled = value & 0x80 != 0;
            self.dmc.loop_flag = value & 0x40 != 0;
            self.dmc.timer_period = dmc_rate_lookup(value & 0x0F);
            if value & 0x80 == 0 {
                self.dmc.interrupt = false;
            }
        } else if reg == 1 {
            self.dmc.output_level = value & 0x7F;
        } else if reg == 2 {
            self.dmc.sample_address = 0xC000 + (value as u16) * 64;
        } else if reg == 3 {
            self.dmc.sample_length = (value as u16) * 16 + 1;
        }
    }

    /// A write to 0x4015, the channel enables.
    pub fn write_status(&mut self, value: u8)
        ensures
            ({
                &&& final(self).pulse1.enabled == (value & 0x01 != 0)
                &&& final(self).pulse2.enabled == (value & 0x02 != 0)
                &&& final(self).triangle.enabled == (value & 0x04 != 0)
                &&& final(self).noise.enabled == (value & 0x08 != 0)
                &&& final(self).dmc.enabled == (value & 0x10 != 0)
                &&& final(self).pulse1.length_counter == if value & 0x01 != 0 {
                    old(self).pulse1.length_counter
                } else {
                    0
                }
                &&& final(self).pulse2.length_counter == if value & 0x02 != 0 {
                    old(self).pulse2.length_counter
                } else {
                    0
                }
                &&& final(self).triangle.length_counter == if value & 0x04 != 0 {
                    old(self).triangle.length_counter
                } else {
                    0
                }
                &&& final(self).noise.length_counter == if value & 0x08 != 0 {
                    old(self).noise.length_counter
                } else {
                    0
                }
                &&& final(self).dmc.bytes_remaining == if value & 0x10 == 0 {
                    0
                } else if old(self).dmc.bytes_remaining == 0 {
                    old(self).dmc.sample_length
                } else {
                    old(self).dmc.bytes_remaining
                }
                &&& !final(self).dmc.interrupt
                &&& final(self).frame_irq == old(self).frame_irq
            }),
            final(self).frame_cycles == old(self).frame_cycles && final(self).frame_mode == old(self).frame_mode,
    {
            self.pulse1.enabled = value & 0x01 != 0;
            self.pulse2.enabled = value & 0x02 != 0;
            self.triangle.enabled = value & 0x04 != 0;
            self.noise.enabled = value & 0x08 != 0;
            self.dmc.enabled = value & 0x10 != 0;
            if !self.pulse1.enabled {
                self.pulse1.length_counter = 0;
            }
            if !self.pulse2.enabled {
                self.pulse2.length_counter = 0;
            }
            if !self.triangle.enabled {
                self.triangle.length_counter = 0;
            }
            if !self.noise.enabled {
                self.noise.length_counter = 0;
            }
            if !self.dmc.enabled {
                self.dmc.bytes_remaining = 0;
            } else if self.dmc.bytes_remaining == 0 {
                self.dmc.current_address = self.dmc.sample_address;
                self.dmc.bytes_remaining = self.dmc.sample_length;
            }
            self.dmc.interrupt = false;
    }

    /// A write to 0x4017, the frame counter.
    pub fn write_frame_counter(&mut self, value: u8)
        ensures
            ({
                let a = Apu {
                    frame_mode: value & 0x80 != 0,
                    frame_irq_inhibit: value & 0x40 != 0,
                    frame_irq: old(self).frame_irq && value & 0x40 == 0,
                    frame_cycles: 0,
                    ..*old(self)
                };
                *final(self) == if value & 0x80 != 0 {
                    half_frame_spec(quarter_frame_spec(a))
                } else {
                    a
                }
            }),
    {
            self.frame_mode = value & 0x80 != 0;
            self.frame_irq_inhibit = value & 0x40 != 0;
            if self.frame_irq_inhibit {
                self.frame_irq = false;
            }
            self.frame_cycles = 0;
            if self.frame_mode {
                self.clock_quarter_frame();
                self.clock_half_frame();
            }
    }

    /// A CPU write to an APU register: 0x4000-0x4013 go to the channels;
    /// 0x4015 enables channels (a disabled channel's length counter
    /// clears; the DMC restarts its sample when enabled with nothing left,
    /// and stops when disabled) and acknowledges the DMC IRQ; 0x4017
    /// selects the sequence (bit 7) and IRQ inhibit (bit 6, which also
    /// acknowledges), restarts the sequence, and in 5-step mode clocks a
    /// quarter and a half frame at once.
    pub fn write_register(&mut self, addr: u16, value: u8)
        ensures
            apu_write_rel(*old(self), addr, value, *final(self)),

    {
        if 0x4000 <= addr && addr <= 0x4003 {
            self.pulse1.write(addr - 0x4000, value);
        } else if 0x4004 <= addr && addr <= 0x4007 {
            self.pulse2.write(addr - 0x4004, value);
        } else if 0x4008 <= addr && addr <= 0x400B {
            self.write_triangle(addr - 0x4008, value);
        } else if 0x400C <= addr && addr <= 0x400F {
            self.write_noise(addr - 0x400C, value);
        } else if 0x4010 <= addr && addr <= 0x4013 {
            self.write_dmc(addr - 0x4010, value);
        } else if addr == 0x4015 {
            self.write_status(value);
        } else if addr == 0x4017 {
            self.write_frame_counter(value);
        }
    }
}

} // verus!
