//! Audio Processing Unit: two pulse channels, triangle, noise and DMC, the
//! frame counter that sequences envelopes, length counters and sweeps, and
//! the sample clock. Each emitted sample holds the five channel levels; the
//! host mixes them into its output format.

use vstd::prelude::*;

verus! {

/// CPU cycles per quarter frame.
pub const QUARTER_FRAME_CYCLES: u16 = 7457;

/// NTSC CPU clock in Hz.
pub const CPU_HZ: u64 = 1789773;

/// Host sample rate in Hz.
pub const SAMPLE_HZ: u64 = 44100;

/// Samples kept between two drains.
pub const SAMPLES_PER_FRAME: usize = 735;

/// Length-counter load values indexed by the 5-bit field of the write.
pub open spec fn length_value(i: u8) -> u8 {
    if i == 0 {
        10
    } else if i == 1 {
        254
    } else if i == 2 {
        20
    } else if i == 3 {
        2
    } else if i == 4 {
        40
    } else if i == 5 {
        4
    } else if i == 6 {
        80
    } else if i == 7 {
        6
    } else if i == 8 {
        160
    } else if i == 9 {
        8
    } else if i == 10 {
        60
    } else if i == 11 {
        10
    } else if i == 12 {
        14
    } else if i == 13 {
        12
    } else if i == 14 {
        26
    } else if i == 15 {
        14
    } else if i == 16 {
        12
    } else if i == 17 {
        16
    } else if i == 18 {
        24
    } else if i == 19 {
        18
    } else if i == 20 {
        48
    } else if i == 21 {
        20
    } else if i == 22 {
        96
    } else if i == 23 {
        22
    } else if i == 24 {
        192
    } else if i == 25 {
        24
    } else if i == 26 {
        72
    } else if i == 27 {
        26
    } else if i == 28 {
        16
    } else if i == 29 {
        28
    } else if i == 30 {
        32
    } else {
        30
    }
}

pub fn length_table(i: u8) -> (r: u8)
    ensures
        r == length_value(i),
{
    match i {
        0 => 10,
        1 => 254,
        2 => 20,
        3 => 2,
        4 => 40,
        5 => 4,
        6 => 80,
        7 => 6,
        8 => 160,
        9 => 8,
        10 => 60,
        11 => 10,
        12 => 14,
        13 => 12,
        14 => 26,
        15 => 14,
        16 => 12,
        17 => 16,
        18 => 24,
        19 => 18,
        20 => 48,
        21 => 20,
        22 => 96,
        23 => 22,
        24 => 192,
        25 => 24,
        26 => 72,
        27 => 26,
        28 => 16,
        29 => 28,
        30 => 32,
        _ => 30,
    }
}

fn triangle_level(i: u8) -> (r: u8)
    ensures
        r <= 15,
{
    match i % 32 {
        0 => 15,
        1 => 14,
        2 => 13,
        3 => 12,
        4 => 11,
        5 => 10,
        6 => 9,
        7 => 8,
        8 => 7,
        9 => 6,
        10 => 5,
        11 => 4,
        12 => 3,
        13 => 2,
        14 => 1,
        15 => 0,
        16 => 0,
        17 => 1,
        18 => 2,
        19 => 3,
        20 => 4,
        21 => 5,
        22 => 6,
        23 => 7,
        24 => 8,
        25 => 9,
        26 => 10,
        27 => 11,
        28 => 12,
        29 => 13,
        30 => 14,
        _ => 15,
    }
}

fn noise_period(i: u8) -> u16 {
    match i % 16 {
        0 => 4,
        1 => 8,
        2 => 16,
        3 => 32,
        4 => 64,
        5 => 96,
        6 => 128,
        7 => 160,
        8 => 202,
        9 => 254,
        10 => 380,
        11 => 508,
        12 => 762,
        13 => 1016,
        14 => 2034,
        _ => 4068,
    }
}

fn dmc_rate(i: u8) -> u16 {
    match i % 16 {
        0 => 428,
        1 => 380,
        2 => 340,
        3 => 320,
        4 => 286,
        5 => 254,
        6 => 226,
        7 => 214,
        8 => 190,
        9 => 160,
        10 => 142,
        11 => 128,
        12 => 106,
        13 => 84,
        14 => 72,
        _ => 54,
    }
}

/// Bit of the duty waveform `duty` at step `pos`.
fn duty_bit(duty: u8, pos: u8) -> bool {
    let pattern: u8 = match duty % 4 {
        0 => 0b0100_0000,
        1 => 0b0110_0000,
        2 => 0b0111_1000,
        _ => 0b1001_1111,
    };
    (pattern >> (7 - pos % 8)) & 1 != 0
}

/// The five channel levels at one sample point.
#[derive(Debug, Clone, Copy, PartialEq, Eq, Structural)]
pub struct ChannelLevels {
    pub pulse1: u8,
    pub pulse2: u8,
    pub triangle: u8,
    pub noise: u8,
    pub dmc: u8,
}

pub struct PulseChannel {
    pub enabled: bool,
    pub duty: u8,
    pub duty_position: u8,
    pub length_counter: u8,
    /// `$4000.5`: halts the length counter and also loops the envelope; on
    /// the hardware this is one bit serving both purposes.
    pub length_halt: bool,
    pub constant_volume: bool,
    pub volume: u8,
    pub envelope_start: bool,
    pub envelope_divider: u8,
    pub envelope_decay: u8,
    pub sweep_enabled: bool,
    pub sweep_period: u8,
    pub sweep_negate: bool,
    pub sweep_shift: u8,
    pub sweep_reload: bool,
    pub sweep_divider: u8,
    pub timer: u16,
    pub timer_period: u16,
    pub is_pulse2: bool,
}

pub struct TriangleChannel {
    pub enabled: bool,
    pub length_counter: u8,
    pub length_halt: bool,
    pub linear_counter: u8,
    pub linear_counter_reload: u8,
    pub linear_counter_reload_flag: bool,
    pub timer: u16,
    pub timer_period: u16,
    pub sequence_position: u8,
}

pub struct NoiseChannel {
    pub enabled: bool,
    pub length_counter: u8,
    pub length_halt: bool,
    pub constant_volume: bool,
    pub volume: u8,
    pub envelope_start: bool,
    pub envelope_divider: u8,
    pub envelope_decay: u8,
    pub mode: bool,
    pub timer: u16,
    pub timer_period: u16,
    pub shift_register: u16,
}

pub struct DmcChannel {
    pub enabled: bool,
    pub irq_enabled: bool,
    pub irq_pending: bool,
    pub loop_flag: bool,
    pub rate: u16,
    pub timer: u16,
    pub output_level: u8,
    pub sample_address: u16,
    pub sample_length: u16,
    pub current_address: u16,
    pub bytes_remaining: u16,
    pub sample_buffer: Option<u8>,
    pub shift_register: u8,
    pub bits_remaining: u8,
    pub silence: bool,
}

pub struct FrameCounter {
    /// false = 4-step, true = 5-step.
    pub mode: bool,
    pub irq_inhibit: bool,
    pub irq_pending: bool,
    pub step: u8,
    pub divider: u16,
}

pub struct Apu {
    pub pulse1: PulseChannel,
    pub pulse2: PulseChannel,
    pub triangle: TriangleChannel,
    pub noise: NoiseChannel,
    pub dmc: DmcChannel,
    pub frame_counter: FrameCounter,
    pub status: u8,
    pub sample_buffer: Vec<ChannelLevels>,
    /// CPU cycles since power-on.
    pub cycles: u64,
    /// Sample clock phase, in units of 1/`CPU_HZ` of a sample period.
    pub sample_phase: u64,
}

/// Length counter after one half-frame clock.
pub open spec fn length_after_clock(len: u8, halt: bool) -> u8 {
    if !halt && len > 0 {
        (len - 1) as u8
    } else {
        len
    }
}

/// Whether frame-counter step `step` clocks length counters and sweeps.
pub open spec fn is_half_step(five_step: bool, step: u8) -> bool {
    if five_step {
        step == 0 || step == 2
    } else {
        step == 1 || step == 3
    }
}

/// The frame-counter step that follows `step`.
pub open spec fn next_step(five_step: bool, step: u8) -> u8 {
    if five_step {
        ((step + 1) % 5) as u8
    } else {
        ((step + 1) % 4) as u8
    }
}

/// A pulse channel after a write of `v` to its register `reg` (0-3).
pub open spec fn pulse_written(o: PulseChannel, n: PulseChannel, reg: u16, v: u8) -> bool {
    if reg == 0 {
        n == PulseChannel {
            duty: (v >> 6u8) & 0x03,
            length_halt: v & 0x20 != 0,
            constant_volume: v & 0x10 != 0,
            volume: v & 0x0F,
            ..o
        }
    } else if reg == 1 {
        n == PulseChannel {
            sweep_enabled: v & 0x80 != 0,
            sweep_period: (v >> 4u8) & 0x07,
            sweep_negate: v & 0x08 != 0,
            sweep_shift: v & 0x07,
            sweep_reload: true,
            ..o
        }
    } else if reg == 2 {
        n == PulseChannel { timer_period: (o.timer_period & 0x0700) | (v as u16), ..o }
    } else if reg == 3 {
        n == PulseChannel {
            timer_period: (o.timer_period & 0x00FF) | (((v & 0x07) as u16) << 8u16),
            length_counter: loaded_length(o.enabled, o.length_counter, v),
            envelope_start: true,
            duty_position: 0,
            ..o
        }
    } else {
        n == o
    }
}

/// The triangle channel after a write of `v` to its register `reg` (0-3).
pub open spec fn triangle_written(o: TriangleChannel, n: TriangleChannel, reg: u16, v: u8) -> bool {
    if reg == 0 {
        n == TriangleChannel { length_halt: v & 0x80 != 0, linear_counter_reload: v & 0x7F, ..o }
    } else if reg == 2 {
        n == TriangleChannel { timer_period: (o.timer_period & 0x0700) | (v as u16), ..o }
    } else if reg == 3 {
        n == TriangleChannel {
            timer_period: (o.timer_period & 0x00FF) | (((v & 0x07) as u16) << 8u16),
            length_counter: loaded_length(o.enabled, o.length_counter, v),
            linear_counter_reload_flag: true,
            ..o
        }
    } else {
        n == o
    }
}

/// The noise channel after a write of `v` to its register `reg` (0-3).
pub open spec fn noise_written(o: NoiseChannel, n: NoiseChannel, reg: u16, v: u8) -> bool {
    if reg == 0 {
        n == NoiseChannel {
            length_halt: v & 0x20 != 0,
            constant_volume: v & 0x10 != 0,
            volume: v & 0x0F,
            ..o
        }
    } else if reg == 2 {
        n == NoiseChannel { mode: v & 0x80 != 0, timer_period: n.timer_period, ..o }
    } else if reg == 3 {
        n == NoiseChannel {
            length_counter: loaded_length(o.enabled, o.length_counter, v),
            envelope_start: true,
            ..o
        }
    } else {
        n == o
    }
}

/// The DMC after a write of `v` to its register `reg` (0-3).
pub open spec fn dmc_written(o: DmcChannel, n: DmcChannel, reg: u16, v: u8) -> bool {
    if reg == 0 {
        n == DmcChannel {
            irq_enabled: v & 0x80 != 0,
            loop_flag: v & 0x40 != 0,
            rate: n.rate,
            irq_pending: if v & 0x80 != 0 { o.irq_pending } else { false },
            ..o
        }
    } else if reg == 1 {
        n == DmcChannel { output_level: v & 0x7F, ..o }
    } else if reg == 2 {
        n == DmcChannel { sample_address: (0xC000 + (v as int) * 64) as u16, ..o }
    } else if reg == 3 {
        n == DmcChannel { sample_length: ((v as int) * 16 + 1) as u16, ..o }
    } else {
        n == o
    }
}

impl PulseChannel {

    /// Write to register `reg` (0-3) of this pulse channel.
    fn write(&mut self, reg: u16, value: u8)
        ensures
            pulse_written(*old(self), *final(self), reg, value),
    {
        if reg == 0 {
            self.duty = (value >> 6u8) & 0x03;
            self.length_halt = (value & 0x20) != 0;
            self.constant_volume = (value & 0x10) != 0;
            self.volume = value & 0x0F;
        } else if reg == 1 {
            self.sweep_enabled = (value & 0x80) != 0;
            self.sweep_period = (value >> 4u8) & 0x07;
            self.sweep_negate = (value & 0x08) != 0;
            self.sweep_shift = value & 0x07;
            self.sweep_reload = true;
        } else if reg == 2 {
            self.timer_period = (self.timer_period & 0x0700) | (value as u16);
        } else if reg == 3 {
            self.timer_period = (self.timer_period & 0x00FF) | (((value & 0x07) as u16) << 8u16);
            if self.enabled {
                self.length_counter = length_table(value >> 3u8);
            }
            self.envelope_start = true;
            self.duty_position = 0;
        }
    }
    fn new(is_pulse2: bool) -> (r: PulseChannel)
        ensures
            r.length_counter == 0,
            !r.enabled,
            !r.length_halt,
            r.duty == 0,
            r.duty_position == 0,
    {
        PulseChannel {
            enabled: false,
            duty: 0,
            duty_position: 0,
            length_counter: 0,
            length_halt: false,
            constant_volume: false,
            volume: 0,
            envelope_start: false,
            envelope_divider: 0,
            envelope_decay: 0,
            sweep_enabled: false,
            sweep_period: 0,
            sweep_negate: false,
            sweep_shift: 0,
            sweep_reload: false,
            sweep_divider: 0,
            timer: 0,
            timer_period: 0,
            is_pulse2,
        }
    }

    fn clock_timer(&mut self)
        ensures
            final(self).length_counter == old(self).length_counter,
            final(self).enabled == old(self).enabled,
            final(self).length_halt == old(self).length_halt,
            final(self).duty_position < 8,
    {
        if self.timer == 0 {
            self.timer = self.timer_period;
            self.duty_position = (self.duty_position % 8 + 1) % 8;
        } else {
            self.timer = self.timer - 1;
            self.duty_position = self.duty_position % 8;
        }
    }

    fn clock_envelope(&mut self)
        ensures
            final(self).length_counter == old(self).length_counter,
            final(self).enabled == old(self).enabled,
            final(self).length_halt == old(self).length_halt,
            final(self).duty_position == old(self).duty_position,
    {
        if self.envelope_start {
            self.envelope_start = false;
            self.envelope_decay = 15;
            self.envelope_divider = self.volume;
        } else if self.envelope_divider == 0 {
            self.envelope_divider = self.volume;
            if self.envelope_decay > 0 {
                self.envelope_decay = self.envelope_decay - 1;
            } else if self.length_halt {
                self.envelope_decay = 15;
            }
        } else {
            self.envelope_divider = self.envelope_divider - 1;
        }
    }

    fn clock_length(&mut self)
        ensures
            final(self).length_counter == length_after_clock(
                old(self).length_counter,
                old(self).length_halt,
            ),
            final(self).enabled == old(self).enabled,
            final(self).length_halt == old(self).length_halt,
            final(self).duty_position == old(self).duty_position,
    {
        if !self.length_halt && self.length_counter > 0 {
            self.length_counter = self.length_counter - 1;
        }
    }

    fn clock_sweep(&mut self)
        ensures
            final(self).length_counter == old(self).length_counter,
            final(self).enabled == old(self).enabled,
            final(self).length_halt == old(self).length_halt,
            final(self).duty_position == old(self).duty_position,
    {
        if self.sweep_reload {
            if self.sweep_enabled && self.sweep_divider == 0 {
                self.update_sweep();
            }
            self.sweep_divider = self.sweep_period;
            self.sweep_reload = false;
        } else if self.sweep_divider > 0 {
            self.sweep_divider = self.sweep_divider - 1;
        } else {
            if self.sweep_enabled {
                self.update_sweep();
            }
            self.sweep_divider = self.sweep_period;
        }
    }

    /// Moves the period by `period >> shift`; pulse 1 subtracts one more when
    /// negating (ones' complement), pulse 2 does not.
    fn update_sweep(&mut self)
        ensures
            final(self).length_counter == old(self).length_counter,
            final(self).enabled == old(self).enabled,
            final(self).length_halt == old(self).length_halt,
            final(self).duty_position == old(self).duty_position,
            final(self).sweep_divider == old(self).sweep_divider,
            final(self).sweep_reload == old(self).sweep_reload,
            final(self).sweep_period == old(self).sweep_period,
    {
        let delta = if self.sweep_shift < 16 { self.timer_period >> self.sweep_shift } else { 0 };
        if self.sweep_negate {
            self.timer_period = self.timer_period.saturating_sub(delta);
            if !self.is_pulse2 {
                self.timer_period = self.timer_period.saturating_sub(1);
            }
        } else {
            self.timer_period = self.timer_period.saturating_add(delta);
        }
    }

    fn output(&self) -> (r: u8)
        ensures
            !self.enabled || self.length_counter == 0 ==> r == 0,
    {
        if !self.enabled || self.length_counter == 0 {
            return 0;
        }
        if self.timer_period < 8 || self.timer_period > 0x7FF {
            return 0;
        }
        if !duty_bit(self.duty, self.duty_position) {
            return 0;
        }
        if self.constant_volume {
            self.volume
        } else {
            self.envelope_decay
        }
    }
}

impl TriangleChannel {

    /// Write to register `reg` (0-3) of the triangle channel.
    fn write(&mut self, reg: u16, value: u8)
        ensures
            triangle_written(*old(self), *final(self), reg, value),
    {
        if reg == 0 {
            self.length_halt = (value & 0x80) != 0;
            self.linear_counter_reload = value & 0x7F;
        } else if reg == 2 {
            self.timer_period = (self.timer_period & 0x0700) | (value as u16);
        } else if reg == 3 {
            self.timer_period = (self.timer_period & 0x00FF) | (((value & 0x07) as u16) << 8u16);
            if self.enabled {
                self.length_counter = length_table(value >> 3u8);
            }
            self.linear_counter_reload_flag = true;
        }
    }
    fn new() -> (r: TriangleChannel)
        ensures
            r.length_counter == 0,
            !r.enabled,
            !r.length_halt,
            r.sequence_position == 0,
    {
        TriangleChannel {
            enabled: false,
            length_counter: 0,
            length_halt: false,
            linear_counter: 0,
            linear_counter_reload: 0,
            linear_counter_reload_flag: false,
            timer: 0,
            timer_period: 0,
            sequence_position: 0,
        }
    }

    /// Steps the 32-entry sequence only while both counters are non-zero.
    fn clock_timer(&mut self)
        ensures
            final(self).length_counter == old(self).length_counter,
            final(self).enabled == old(self).enabled,
            final(self).length_halt == old(self).length_halt,
            final(self).sequence_position < 32,
    {
        if self.timer == 0 {
            self.timer = self.timer_period;
            if self.length_counter > 0 && self.linear_counter > 0 {
                self.sequence_position = (self.sequence_position % 32 + 1) % 32;
            } else {
                self.sequence_position = self.sequence_position % 32;
            }
        } else {
            self.timer = self.timer - 1;
            self.sequence_position = self.sequence_position % 32;
        }
    }

    fn clock_linear_counter(&mut self)
        ensures
            final(self).length_counter == old(self).length_counter,
            final(self).enabled == old(self).enabled,
            final(self).length_halt == old(self).length_halt,
            final(self).sequence_position == old(self).sequence_position,
    {
        if self.linear_counter_reload_flag {
            self.linear_counter = self.linear_counter_reload;
        } else if self.linear_counter > 0 {
            self.linear_counter = self.linear_counter - 1;
        }
        if !self.length_halt {
            self.linear_counter_reload_flag = false;
        }
    }

    fn clock_length(&mut self)
        ensures
            final(self).length_counter == length_after_clock(
                old(self).length_counter,
                old(self).length_halt,
            ),
            final(self).enabled == old(self).enabled,
            final(self).length_halt == old(self).length_halt,
            final(self).sequence_position == old(self).sequence_position,
    {
        if !self.length_halt && self.length_counter > 0 {
            self.length_counter = self.length_counter - 1;
        }
    }

    /// A period below 2 would be ultrasonic; the channel then holds level 7.
    fn output(&self) -> (r: u8)
        ensures
            !self.enabled || self.length_counter == 0 ==> r == 0,
            r <= 15,
    {
        if !self.enabled || self.length_counter == 0 {
            return 0;
        }
        if self.timer_period < 2 {
            return 7;
        }
        triangle_level(self.sequence_position)
    }
}

impl NoiseChannel {

    /// Write to register `reg` (0-3) of the noise channel.
    fn write(&mut self, reg: u16, value: u8)
        ensures
            noise_written(*old(self), *final(self), reg, value),
    {
        if reg == 0 {
            self.length_halt = (value & 0x20) != 0;
            self.constant_volume = (value & 0x10) != 0;
            self.volume = value & 0x0F;
        } else if reg == 2 {
            self.mode = (value & 0x80) != 0;
            self.timer_period = noise_period(value & 0x0F);
        } else if reg == 3 {
            if self.enabled {
                self.length_counter = length_table(value >> 3u8);
            }
            self.envelope_start = true;
        }
    }
    fn new() -> (r: NoiseChannel)
        ensures
            r.length_counter == 0,
            !r.enabled,
            !r.length_halt,
            r.shift_register == 1,
    {
        NoiseChannel {
            enabled: false,
            length_counter: 0,
            length_halt: false,
            constant_volume: false,
            volume: 0,
            envelope_start: false,
            envelope_divider: 0,
            envelope_decay: 0,
            mode: false,
            timer: 0,
            timer_period: 0,
            shift_register: 1,
        }
    }

    /// Steps the 15-bit LFSR with feedback from bits {0,1}, or {0,6} in mode 1.
    fn clock_timer(&mut self)
        ensures
            final(self).length_counter == old(self).length_counter,
            final(self).enabled == old(self).enabled,
            final(self).length_halt == old(self).length_halt,
    {
        if self.timer == 0 {
            self.timer = self.timer_period;
            let s = self.shift_register;
            let feedback: u16 = if self.mode { (s & 1) ^ ((s >> 6u16) & 1) } else { (s & 1) ^ ((s
                >> 1u16) & 1) };
            assert(feedback <= 1) by (bit_vector)
                requires
                    feedback == (s & 1) ^ ((s >> 6u16) & 1) || feedback == (s & 1) ^ ((s >> 1u16) & 1),
            ;
            self.shift_register = (s >> 1u16) | (feedback * 0x4000);
        } else {
            self.timer = self.timer - 1;
        }
    }

    fn clock_envelope(&mut self)
        ensures
            final(self).length_counter == old(self).length_counter,
            final(self).enabled == old(self).enabled,
            final(self).length_halt == old(self).length_halt,
    {
        if self.envelope_start {
            self.envelope_start = false;
            self.envelope_decay = 15;
            self.envelope_divider = self.volume;
        } else if self.envelope_divider == 0 {
            self.envelope_divider = self.volume;
            if self.envelope_decay > 0 {
                self.envelope_decay = self.envelope_decay - 1;
            } else if self.length_halt {
                self.envelope_decay = 15;
            }
        } else {
            self.envelope_divider = self.envelope_divider - 1;
        }
    }

    fn clock_length(&mut self)
        ensures
            final(self).length_counter == length_after_clock(
                old(self).length_counter,
                old(self).length_halt,
            ),
            final(self).enabled == old(self).enabled,
            final(self).length_halt == old(self).length_halt,
    {
        if !self.length_halt && self.length_counter > 0 {
            self.length_counter = self.length_counter - 1;
        }
    }

    fn output(&self) -> (r: u8)
        ensures
            !self.enabled || self.length_counter == 0 ==> r == 0,
    {
        if !self.enabled || self.length_counter == 0 {
            return 0;
        }
        if (self.shift_register & 1) != 0 {
            return 0;
        }
        if self.constant_volume {
            self.volume
        } else {
            self.envelope_decay
        }
    }
}

impl DmcChannel {

    /// Write to register `reg` (0-3) of the DMC.
    fn write(&mut self, reg: u16, value: u8)
        ensures
            dmc_written(*old(self), *final(self), reg, value),
            old(self).output_level <= 127 ==> final(self).output_level <= 127,
    {
        if reg == 0 {
            self.irq_enabled = (value & 0x80) != 0;
            self.loop_flag = (value & 0x40) != 0;
            self.rate = dmc_rate(value & 0x0F);
            if !self.irq_enabled {
                self.irq_pending = false;
            }
        } else if reg == 1 {
            self.output_level = value & 0x7F;
            assert(value & 0x7F <= 127) by (bit_vector);
        } else if reg == 2 {
            self.sample_address = 0xC000 + (value as u16) * 64;
        } else if reg == 3 {
            self.sample_length = (value as u16) * 16 + 1;
        }
    }
    fn new() -> (r: DmcChannel)
        ensures
            r.bytes_remaining == 0,
            !r.irq_pending,
            !r.enabled,
            r.output_level == 0,
    {
        DmcChannel {
            enabled: false,
            irq_enabled: false,
            irq_pending: false,
            loop_flag: false,
            rate: 428,
            timer: 0,
            output_level: 0,
            sample_address: 0xC000,
            sample_length: 1,
            current_address: 0xC000,
            bytes_remaining: 0,
            sample_buffer: None,
            shift_register: 0,
            bits_remaining: 0,
            silence: true,
        }
    }

    /// Shifts one bit of the current sample byte into the 7-bit output level
    /// (+2 for a 1, -2 for a 0, clamped), reloading from the sample buffer
    /// every eight bits.
    fn clock_timer(&mut self)
        requires
            old(self).output_level <= 127,
        ensures
            final(self).output_level <= 127,
            final(self).enabled == old(self).enabled,
            final(self).bytes_remaining == old(self).bytes_remaining,
            final(self).irq_pending == old(self).irq_pending,
            final(self).irq_enabled == old(self).irq_enabled,
    {
        if self.timer == 0 {
            self.timer = self.rate;
            if !self.silence {
                if (self.shift_register & 1) != 0 {
                    if self.output_level <= 125 {
                        self.output_level = self.output_level + 2;
                    }
                } else if self.output_level >= 2 {
                    self.output_level = self.output_level - 2;
                }
                self.shift_register = self.shift_register >> 1u8;
            }
            self.bits_remaining = self.bits_remaining.saturating_sub(1);
            if self.bits_remaining == 0 {
                self.bits_remaining = 8;
                match self.sample_buffer {
                    Some(sample) => {
                        self.silence = false;
                        self.shift_register = sample;
                    },
                    None => {
                        self.silence = true;
                    },
                }
                self.sample_buffer = None;
            }
        } else {
            self.timer = self.timer - 1;
        }
    }

    /// Address of the next sample byte, when the buffer is empty and bytes remain.
    pub open spec fn wants_byte(&self) -> bool {
        self.sample_buffer is None && self.bytes_remaining > 0
    }

    /// Takes a fetched sample byte; at the end of the sample either restarts
    /// (loop) or raises the IRQ when enabled.
    fn fill(&mut self, byte: u8)
        requires
            old(self).wants_byte(),
        ensures
            final(self).sample_buffer == Some(byte),
            final(self).output_level == old(self).output_level,
            final(self).bytes_remaining == if old(self).bytes_remaining == 1 && old(self).loop_flag {
                old(self).sample_length
            } else {
                (old(self).bytes_remaining - 1) as u16
            },
            final(self).irq_pending == (old(self).irq_pending || (old(self).bytes_remaining == 1
                && !old(self).loop_flag && old(self).irq_enabled)),
    {
        self.sample_buffer = Some(byte);
        self.current_address = if self.current_address == 0xFFFF {
            0x8000
        } else {
            self.current_address + 1
        };
        self.bytes_remaining = self.bytes_remaining - 1;
        if self.bytes_remaining == 0 {
            if self.loop_flag {
                self.current_address = self.sample_address;
                self.bytes_remaining = self.sample_length;
            } else if self.irq_enabled {
                self.irq_pending = true;
            }
        }
    }
}


/// What a read of `$4015` reports.
pub open spec fn status_value(a: &Apu) -> int {
    (if a.pulse1.length_counter > 0 { 0x01int } else { 0 }) + (if a.pulse2.length_counter > 0 {
        0x02int
    } else {
        0
    }) + (if a.triangle.length_counter > 0 { 0x04int } else { 0 }) + (if a.noise.length_counter > 0 {
        0x08int
    } else {
        0
    }) + (if a.dmc.bytes_remaining > 0 { 0x10int } else { 0 }) + (if a.frame_counter.irq_pending {
        0x40int
    } else {
        0
    }) + (if a.dmc.irq_pending { 0x80int } else { 0 })
}

/// Length counters of pulse 1, pulse 2, triangle and noise.
pub open spec fn lengths(a: &Apu) -> (u8, u8, u8, u8) {
    (
        a.pulse1.length_counter,
        a.pulse2.length_counter,
        a.triangle.length_counter,
        a.noise.length_counter,
    )
}

pub open spec fn halts(a: &Apu) -> (bool, bool, bool, bool) {
    (a.pulse1.length_halt, a.pulse2.length_halt, a.triangle.length_halt, a.noise.length_halt)
}

pub open spec fn enables(a: &Apu) -> (bool, bool, bool, bool, bool) {
    (a.pulse1.enabled, a.pulse2.enabled, a.triangle.enabled, a.noise.enabled, a.dmc.enabled)
}

/// A length counter after a write that may load it: loaded from the table
/// when the channel is enabled.
pub open spec fn loaded_length(enabled: bool, old: u8, value: u8) -> u8 {
    if enabled {
        length_value(value >> 3u8)
    } else {
        old
    }
}

/// Effect of a write of `v` to a channel register `$4000-$4013` on the
/// channel it addresses.
pub open spec fn channel_written(o: &Apu, n: &Apu, addr: u16, v: u8) -> bool {
    if 0x4000 <= addr <= 0x4003 {
        pulse_written(o.pulse1, n.pulse1, (addr - 0x4000) as u16, v)
    } else if 0x4004 <= addr <= 0x4007 {
        pulse_written(o.pulse2, n.pulse2, (addr - 0x4004) as u16, v)
    } else if 0x4008 <= addr <= 0x400B {
        triangle_written(o.triangle, n.triangle, (addr - 0x4008) as u16, v)
    } else if 0x400C <= addr <= 0x400F {
        noise_written(o.noise, n.noise, (addr - 0x400C) as u16, v)
    } else {
        dmc_written(o.dmc, n.dmc, (addr - 0x4010) as u16, v)
    }
}

impl Apu {
    pub open spec fn wf(&self) -> bool {
        &&& self.frame_counter.step < 5
        &&& self.frame_counter.divider < QUARTER_FRAME_CYCLES
        &&& self.dmc.output_level <= 127
        &&& self.sample_buffer@.len() <= SAMPLES_PER_FRAME
        &&& self.sample_phase < CPU_HZ
    }

    pub fn new() -> (r: Apu)
        ensures
            r.wf(),
            r.cycles == 0,
            lengths(&r) == (0u8, 0u8, 0u8, 0u8),
            halts(&r) == (false, false, false, false),
            enables(&r) == (false, false, false, false, false),
            !r.frame_counter.mode,
            !r.frame_counter.irq_pending,
            r.frame_counter.step == 0,
            r.frame_counter.divider == 0,
            r.sample_buffer@.len() == 0,
    {
        Apu {
            pulse1: PulseChannel::new(false),
            pulse2: PulseChannel::new(true),
            triangle: TriangleChannel::new(),
            noise: NoiseChannel::new(),
            dmc: DmcChannel::new(),
            frame_counter: FrameCounter {
                mode: false,
                irq_inhibit: false,
                irq_pending: false,
                step: 0,
                divider: 0,
            },
            status: 0,
            sample_buffer: Vec::new(),
            cycles: 0,
            sample_phase: 0,
        }
    }

    /// One CPU cycle: the triangle timer every cycle, the other timers every
    /// other cycle, the frame counter every 7457 cycles, and one sample each
    /// time the sample clock crosses a sample period.
    #[verifier::rlimit(80)]
    pub fn tick(&mut self)
        requires
            old(self).wf(),
            old(self).cycles < u64::MAX,
        ensures
            final(self).wf(),
            final(self).cycles == old(self).cycles + 1,
            enables(final(self)) == enables(old(self)),
            ({
                let fc = old(self).frame_counter;
                let wrapped = fc.divider + 1 >= QUARTER_FRAME_CYCLES;
                &&& final(self).frame_counter.divider == if wrapped { 0 } else { fc.divider + 1 }
                &&& final(self).frame_counter.step == if wrapped { next_step(fc.mode, fc.step) } else { fc.step }
                &&& lengths(final(self)) == if wrapped && is_half_step(fc.mode, fc.step) {
                    (
                        length_after_clock(old(self).pulse1.length_counter, old(self).pulse1.length_halt),
                        length_after_clock(old(self).pulse2.length_counter, old(self).pulse2.length_halt),
                        length_after_clock(old(self).triangle.length_counter, old(self).triangle.length_halt),
                        length_after_clock(old(self).noise.length_counter, old(self).noise.length_halt),
                    )
                } else {
                    lengths(old(self))
                }
                &&& final(self).frame_counter.irq_pending == (fc.irq_pending || (wrapped && !fc.mode
                    && fc.step == 3 && !fc.irq_inhibit))
            }),
            ({
                let crossed = old(self).sample_phase + SAMPLE_HZ >= CPU_HZ;
                &&& final(self).sample_phase == if crossed {
                    old(self).sample_phase + SAMPLE_HZ - CPU_HZ
                } else {
                    old(self).sample_phase + SAMPLE_HZ
                }
                &&& final(self).sample_buffer@.len() == old(self).sample_buffer@.len() + if crossed
                    && old(self).sample_buffer@.len() < SAMPLES_PER_FRAME {
                    1int
                } else {
                    0int
                }
                &&& final(self).sample_buffer@.subrange(0, old(self).sample_buffer@.len() as int)
                    == old(self).sample_buffer@
            }),
    {
        self.cycles = self.cycles + 1;
        self.triangle.clock_timer();
        if self.cycles % 2 == 0 {
            self.pulse1.clock_timer();
            self.pulse2.clock_timer();
            self.noise.clock_timer();
            self.dmc.clock_timer();
        }
        self.frame_counter.divider = self.frame_counter.divider + 1;
        if self.frame_counter.divider >= QUARTER_FRAME_CYCLES {
            self.frame_counter.divider = 0;
            self.clock_frame_counter();
        }
        self.sample_phase = self.sample_phase + SAMPLE_HZ;
        if self.sample_phase >= CPU_HZ {
            self.sample_phase = self.sample_phase - CPU_HZ;
            if self.sample_buffer.len() < SAMPLES_PER_FRAME {
                let levels = self.current_levels();
                let ghost before = self.sample_buffer@;
                self.sample_buffer.push(levels);
                proof {
                    assert(self.sample_buffer@.subrange(0, before.len() as int) =~= before);
                }
            }
        }
    }

    /// Advances the frame sequencer by one step. 4-step mode: quarter frames
    /// at steps 0-3, half frames at 1 and 3, IRQ at 3. 5-step mode: quarter
    /// frames at 0-3, half frames at 0 and 2, nothing at 4.
    #[verifier::rlimit(40)]
    pub fn clock_frame_counter(&mut self)
        requires
            old(self).wf(),
        ensures
            final(self).wf(),
            final(self).cycles == old(self).cycles,
            final(self).frame_counter.step == next_step(
                old(self).frame_counter.mode,
                old(self).frame_counter.step,
            ),
            final(self).frame_counter.mode == old(self).frame_counter.mode,
            final(self).frame_counter.irq_inhibit == old(self).frame_counter.irq_inhibit,
            final(self).frame_counter.divider == old(self).frame_counter.divider,
            final(self).frame_counter.irq_pending == (old(self).frame_counter.irq_pending || (!old(
                self,
            ).frame_counter.mode && old(self).frame_counter.step == 3
                && !old(self).frame_counter.irq_inhibit)),
            enables(final(self)) == enables(old(self)),
            lengths(final(self)) == if is_half_step(
                old(self).frame_counter.mode,
                old(self).frame_counter.step,
            ) {
                (
                    length_after_clock(old(self).pulse1.length_counter, old(self).pulse1.length_halt),
                    length_after_clock(old(self).pulse2.length_counter, old(self).pulse2.length_halt),
                    length_after_clock(
                        old(self).triangle.length_counter,
                        old(self).triangle.length_halt,
                    ),
                    length_after_clock(old(self).noise.length_counter, old(self).noise.length_halt),
                )
            } else {
                lengths(old(self))
            },
            final(self).dmc.bytes_remaining == old(self).dmc.bytes_remaining,
            final(self).dmc.irq_pending == old(self).dmc.irq_pending,
            final(self).sample_buffer == old(self).sample_buffer,
            final(self).sample_phase == old(self).sample_phase,
    {
        let step = self.frame_counter.step;
        let five_step = self.frame_counter.mode;
        let raise = !five_step && step == 3 && !self.frame_counter.irq_inhibit;
        if step <= 3 {
            self.clock_quarter_frame();
        }
        let half = if five_step { step == 0 || step == 2 } else { step == 1 || step == 3 };
        if half {
            self.clock_half_frame();
        }
        self.frame_counter.step = if five_step { (step + 1) % 5 } else { (step + 1) % 4 };
        if raise {
            self.frame_counter.irq_pending = true;
        }
    }

    /// Envelopes and the triangle's linear counter.
    fn clock_quarter_frame(&mut self)
        requires
            old(self).wf(),
        ensures
            final(self).wf(),
            final(self).cycles == old(self).cycles,
            final(self).frame_counter == old(self).frame_counter,
            enables(final(self)) == enables(old(self)),
            lengths(final(self)) == lengths(old(self)),
            halts(final(self)) == halts(old(self)),
            final(self).dmc == old(self).dmc,
            final(self).sample_buffer == old(self).sample_buffer,
            final(self).sample_phase == old(self).sample_phase,
    {
        self.pulse1.clock_envelope();
        self.pulse2.clock_envelope();
        self.triangle.clock_linear_counter();
        self.noise.clock_envelope();
    }

    /// Length counters and sweep units.
    fn clock_half_frame(&mut self)
        requires
            old(self).wf(),
        ensures
            final(self).wf(),
            final(self).cycles == old(self).cycles,
            final(self).frame_counter == old(self).frame_counter,
            enables(final(self)) == enables(old(self)),
            lengths(final(self)) == (
                length_after_clock(old(self).pulse1.length_counter, old(self).pulse1.length_halt),
                length_after_clock(old(self).pulse2.length_counter, old(self).pulse2.length_halt),
                length_after_clock(old(self).triangle.length_counter, old(self).triangle.length_halt),
                length_after_clock(old(self).noise.length_counter, old(self).noise.length_halt),
            ),
            final(self).dmc == old(self).dmc,
            final(self).sample_buffer == old(self).sample_buffer,
            final(self).sample_phase == old(self).sample_phase,
    {
        self.pulse1.clock_length();
        self.pulse2.clock_length();
        self.triangle.clock_length();
        self.noise.clock_length();
        self.pulse1.clock_sweep();
        self.pulse2.clock_sweep();
    }

    /// The five channel levels at this moment; a disabled or silenced
    /// channel contributes 0.
    pub fn current_levels(&self) -> (r: ChannelLevels)
        ensures
            !self.pulse1.enabled || self.pulse1.length_counter == 0 ==> r.pulse1 == 0,
            !self.pulse2.enabled || self.pulse2.length_counter == 0 ==> r.pulse2 == 0,
            !self.triangle.enabled || self.triangle.length_counter == 0 ==> r.triangle == 0,
            !self.noise.enabled || self.noise.length_counter == 0 ==> r.noise == 0,
            r.dmc == self.dmc.output_level,
    {
        ChannelLevels {
            pulse1: self.pulse1.output(),
            pulse2: self.pulse2.output(),
            triangle: self.triangle.output(),
            noise: self.noise.output(),
            dmc: self.dmc.output_level,
        }
    }

    /// CPU read of an APU register: `$4015` reports which length counters
    /// are non-zero, DMC activity and both IRQ flags, and clears the frame IRQ.
    pub fn read_register(&mut self, addr: u16) -> (r: u8)
        requires
            old(self).wf(),
        ensures
            final(self).wf(),
            addr == 0x4015 ==> r as int == status_value(old(self))
                && !final(self).frame_counter.irq_pending,
            addr != 0x4015 ==> r == 0 && final(self).frame_counter.irq_pending == old(
                self,
            ).frame_counter.irq_pending,
            lengths(final(self)) == lengths(old(self)),
            enables(final(self)) == enables(old(self)),
            final(self).cycles == old(self).cycles,
            final(self).dmc.irq_pending == old(self).dmc.irq_pending,
            final(self).dmc.bytes_remaining == old(self).dmc.bytes_remaining,
    {
        if addr != 0x4015 {
            return 0;
        }
        let mut status: u8 = 0;
        if self.pulse1.length_counter > 0 {
            status = status + 0x01;
        }
        if self.pulse2.length_counter > 0 {
            status = status + 0x02;
        }
        if self.triangle.length_counter > 0 {
            status = status + 0x04;
        }
        if self.noise.length_counter > 0 {
            status = status + 0x08;
        }
        if self.dmc.bytes_remaining > 0 {
            status = status + 0x10;
        }
        if self.frame_counter.irq_pending {
            status = status + 0x40;
        }
        if self.dmc.irq_pending {
            status = status + 0x80;
        }
        self.frame_counter.irq_pending = false;
        status
    }

    /// CPU write of an APU register.
    pub fn write_register(&mut self, addr: u16, value: u8)
        requires
            old(self).wf(),
        ensures
            final(self).wf(),
            final(self).cycles == old(self).cycles,
            addr == 0x4015 ==> {
                &&& enables(final(self)) == (
                    value & 0x01 != 0,
                    value & 0x02 != 0,
                    value & 0x04 != 0,
                    value & 0x08 != 0,
                    value & 0x10 != 0,
                )
                &&& lengths(final(self)) == (
                    if value & 0x01 != 0 { old(self).pulse1.length_counter } else { 0 },
                    if value & 0x02 != 0 { old(self).pulse2.length_counter } else { 0 },
                    if value & 0x04 != 0 { old(self).triangle.length_counter } else { 0 },
                    if value & 0x08 != 0 { old(self).noise.length_counter } else { 0 },
                )
                &&& final(self).dmc.bytes_remaining == if value & 0x10 == 0 {
                    0
                } else if old(self).dmc.bytes_remaining == 0 {
                    old(self).dmc.sample_length
                } else {
                    old(self).dmc.bytes_remaining
                }
                &&& !final(self).dmc.irq_pending
            },
            addr == 0x4003 ==> lengths(final(self)) == (
                loaded_length(old(self).pulse1.enabled, old(self).pulse1.length_counter, value),
                old(self).pulse2.length_counter,
                old(self).triangle.length_counter,
                old(self).noise.length_counter,
            ),
            addr == 0x4007 ==> lengths(final(self)) == (
                old(self).pulse1.length_counter,
                loaded_length(old(self).pulse2.enabled, old(self).pulse2.length_counter, value),
                old(self).triangle.length_counter,
                old(self).noise.length_counter,
            ),
            addr == 0x400B ==> lengths(final(self)) == (
                old(self).pulse1.length_counter,
                old(self).pulse2.length_counter,
                loaded_length(old(self).triangle.enabled, old(self).triangle.length_counter, value),
                old(self).noise.length_counter,
            ),
            addr == 0x400F ==> lengths(final(self)) == (
                old(self).pulse1.length_counter,
                old(self).pulse2.length_counter,
                old(self).triangle.length_counter,
                loaded_length(old(self).noise.enabled, old(self).noise.length_counter, value),
            ),
            addr != 0x4015 ==> enables(final(self)) == enables(old(self)),
            0x4000 <= addr <= 0x4013 ==> channel_written(old(self), final(self), addr, value),
            addr != 0x4003 && addr != 0x4007 && addr != 0x400B && addr != 0x400F && addr != 0x4015
                && addr != 0x4017 ==> lengths(final(self)) == lengths(old(self)),
    {
        if 0x4000 <= addr && addr <= 0x4013 {
            self.write_channel(addr, value);
        } else if addr == 0x4015 {
            self.write_status(value);
        } else if addr == 0x4017 {
            self.frame_counter.mode = (value & 0x80) != 0;
            self.frame_counter.irq_inhibit = (value & 0x40) != 0;
            if self.frame_counter.irq_inhibit {
                self.frame_counter.irq_pending = false;
            }
            self.frame_counter.step = 0;
            self.frame_counter.divider = 0;
            if self.frame_counter.mode {
                self.clock_frame_counter();
            }
        }
    }

    /// Write to a channel register `$4000-$4013`.
    fn write_channel(&mut self, addr: u16, value: u8)
        requires
            old(self).wf(),
            0x4000 <= addr <= 0x4013,
        ensures
            final(self).wf(),
            final(self).cycles == old(self).cycles,
            channel_written(old(self), final(self), addr, value),
            enables(final(self)) == enables(old(self)),
            addr == 0x4003 ==> lengths(final(self)) == (
                loaded_length(old(self).pulse1.enabled, old(self).pulse1.length_counter, value),
                old(self).pulse2.length_counter,
                old(self).triangle.length_counter,
                old(self).noise.length_counter,
            ),
            addr == 0x4007 ==> lengths(final(self)) == (
                old(self).pulse1.length_counter,
                loaded_length(old(self).pulse2.enabled, old(self).pulse2.length_counter, value),
                old(self).triangle.length_counter,
                old(self).noise.length_counter,
            ),
            addr == 0x400B ==> lengths(final(self)) == (
                old(self).pulse1.length_counter,
                old(self).pulse2.length_counter,
                loaded_length(old(self).triangle.enabled, old(self).triangle.length_counter, value),
                old(self).noise.length_counter,
            ),
            addr == 0x400F ==> lengths(final(self)) == (
                old(self).pulse1.length_counter,
                old(self).pulse2.length_counter,
                old(self).triangle.length_counter,
                loaded_length(old(self).noise.enabled, old(self).noise.length_counter, value),
            ),
            addr != 0x4003 && addr != 0x4007 && addr != 0x400B && addr != 0x400F ==> lengths(final(self))
                == lengths(old(self)),
    {
        if addr <= 0x4003 {
            self.pulse1.write(addr - 0x4000, value);
        } else if addr <= 0x4007 {
            self.pulse2.write(addr - 0x4004, value);
        } else if addr <= 0x400B {
            self.triangle.write(addr - 0x4008, value);
        } else if addr <= 0x400F {
            self.noise.write(addr - 0x400C, value);
        } else {
            self.dmc.write(addr - 0x4010, value);
        }
    }

    /// `$4015` write: enables channels; a disabled channel's length counter
    /// drops to zero at once, and the DMC restarts its sample when enabled idle.
    fn write_status(&mut self, value: u8)
        requires
            old(self).wf(),
        ensures
            final(self).wf(),
            final(self).cycles == old(self).cycles,
            enables(final(self)) == (
                value & 0x01 != 0,
                value & 0x02 != 0,
                value & 0x04 != 0,
                value & 0x08 != 0,
                value & 0x10 != 0,
            ),
            lengths(final(self)) == (
                if value & 0x01 != 0 { old(self).pulse1.length_counter } else { 0 },
                if value & 0x02 != 0 { old(self).pulse2.length_counter } else { 0 },
                if value & 0x04 != 0 { old(self).triangle.length_counter } else { 0 },
                if value & 0x08 != 0 { old(self).noise.length_counter } else { 0 },
            ),
            final(self).dmc.bytes_remaining == if value & 0x10 == 0 {
                0
            } else if old(self).dmc.bytes_remaining == 0 {
                old(self).dmc.sample_length
            } else {
                old(self).dmc.bytes_remaining
            },
            !final(self).dmc.irq_pending,
    {
        self.pulse1.enabled = (value & 0x01) != 0;
        self.pulse2.enabled = (value & 0x02) != 0;
        self.triangle.enabled = (value & 0x04) != 0;
        self.noise.enabled = (value & 0x08) != 0;
        self.dmc.enabled = (value & 0x10) != 0;
        if !self.pulse1.enabled {
            self.pulse1.length_counter = 0;
        }
        if !self.pulse2.enabled {
            self.pulse2.length_counter = 0;
        }
        if !self.triangle.enabled {
            self.triangle.length_counter = 0;
        }
        if !self.noise.enabled {
            self.noise.length_counter = 0;
        }
        if !self.dmc.enabled {
            self.dmc.bytes_remaining = 0;
        } else if self.dmc.bytes_remaining == 0 {
            self.dmc.current_address = self.dmc.sample_address;
            self.dmc.bytes_remaining = self.dmc.sample_length;
        }
        self.dmc.irq_pending = false;
        self.status = value;
    }

    /// Hands out the samples gathered since the last call and empties the buffer.
    pub fn get_samples(&mut self) -> (r: Vec<ChannelLevels>)
        requires
            old(self).wf(),
        ensures
            final(self).wf(),
            r@ == old(self).sample_buffer@,
            final(self).sample_buffer@.len() == 0,
            final(self).cycles == old(self).cycles,
    {
        let mut out: Vec<ChannelLevels> = Vec::new();
        core::mem::swap(&mut out, &mut self.sample_buffer);
        out
    }

    /// Drops buffered samples and restarts the cycle count.
    pub fn reset(&mut self)
        requires
            old(self).wf(),
        ensures
            final(self).wf(),
            final(self).cycles == 0,
            final(self).sample_buffer@.len() == 0,
    {
        self.sample_buffer = Vec::new();
        self.cycles = 0;
    }

    /// An IRQ is requested by the frame counter or by the DMC.
    pub fn irq_pending(&self) -> (r: bool)
        ensures
            r == (self.frame_counter.irq_pending || self.dmc.irq_pending),
    {
        self.frame_counter.irq_pending || self.dmc.irq_pending
    }

    /// The DMC needs a sample byte from `current_address`.
    pub fn dmc_fetch_address(&self) -> (r: Option<u16>)
        ensures
            r == if self.dmc.wants_byte() {
                Some(self.dmc.current_address)
            } else {
                None::<u16>
            },
    {
        if self.dmc.sample_buffer.is_none() && self.dmc.bytes_remaining > 0 {
            Some(self.dmc.current_address)
        } else {
            None
        }
    }

    /// Delivers the byte the DMC asked for.
    pub fn dmc_fill(&mut self, byte: u8)
        requires
            old(self).wf(),
            old(self).dmc.wants_byte(),
        ensures
            final(self).wf(),
            final(self).cycles == old(self).cycles,
            final(self).dmc.sample_buffer == Some(byte),
    {
        self.dmc.fill(byte);
    }
}


impl Default for Apu {
    fn default() -> (r: Apu)
        ensures
            r.wf(),
            r.cycles == 0,
    {
        Apu::new()
    }
}

} // verus!
