use vstd::prelude::*;

use crate::bits::flag;
use crate::bits::replace_byte;
use crate::bits::spec_replace_byte;

verus! {

/// The length that each five-bit index of a length register stands for.
pub const LENGTH_COUNTER_TABLE: [u8; 32] = [
    10,
    254,
    20,
    2,
    40,
    4,
    80,
    6,
    160,
    8,
    60,
    10,
    14,
    12,
    26,
    14,
    12,
    16,
    24,
    18,
    48,
    20,
    96,
    22,
    192,
    24,
    72,
    26,
    16,
    28,
    32,
    30,
];

/// The length for a five-bit index.
pub open spec fn spec_length_for(index: int) -> u8 {
    LENGTH_COUNTER_TABLE[index]
}

/// The length for the index in `index`, which is below 32.
pub fn length_for(index: u32) -> (r: u8)
    requires
        index < 32,
    ensures
        r == spec_length_for(index as int),
{
    LENGTH_COUNTER_TABLE[index as usize]
}

/// A counter one lower, staying at zero.
#[verifier::allow_in_spec]
pub fn count_down(v: u8) -> u8
    returns
        (if v == 0 {
            0u8
        } else {
            (v - 1) as u8
        }),
{
    if v == 0 {
        0
    } else {
        v - 1
    }
}

/// The four register bytes of a pulse channel in one word: volume in bits
/// 0 to 3, constant volume in bit 4, length halt and envelope loop in bit 5,
/// duty in bits 6 and 7; the sweep's shift in bits 8 to 10, negate in bit 11,
/// period in bits 12 to 14, enable in bit 15; the timer in bits 16 to 26;
/// the length index in bits 27 to 31.
#[derive(Debug, Clone, Copy, PartialEq, Eq, Structural)]
pub struct PulseRegister(pub u32);

impl PulseRegister {
    #[verifier::allow_in_spec]
    pub fn volume(&self) -> u32
        returns
            self.0 % 16,
    {
        self.0 % 16
    }

    #[verifier::allow_in_spec]
    pub fn constant_volume(&self) -> u32
        returns
            self.0 / 16 % 2,
    {
        self.0 / 16 % 2
    }

    #[verifier::allow_in_spec]
    pub fn envelope(&self) -> u32
        returns
            self.0 / 16 % 2,
    {
        self.0 / 16 % 2
    }

    #[verifier::allow_in_spec]
    pub fn length_counter_halt(&self) -> u32
        returns
            self.0 / 32 % 2,
    {
        self.0 / 32 % 2
    }

    #[verifier::allow_in_spec]
    pub fn envelope_loop(&self) -> u32
        returns
            self.0 / 32 % 2,
    {
        self.0 / 32 % 2
    }

    #[verifier::allow_in_spec]
    pub fn duty(&self) -> u32
        returns
            self.0 / 64 % 4,
    {
        self.0 / 64 % 4
    }

    #[verifier::allow_in_spec]
    pub fn shift_amount(&self) -> u32
        returns
            self.0 / 0x100 % 8,
    {
        self.0 / 0x100 % 8
    }

    #[verifier::allow_in_spec]
    pub fn negate(&self) -> u32
        returns
            self.0 / 0x800 % 2,
    {
        self.0 / 0x800 % 2
    }

    #[verifier::allow_in_spec]
    pub fn sweep_period(&self) -> u32
        returns
            self.0 / 0x1000 % 8,
    {
        self.0 / 0x1000 % 8
    }

    #[verifier::allow_in_spec]
    pub fn sweep_enabled(&self) -> u32
        returns
            self.0 / 0x8000 % 2,
    {
        self.0 / 0x8000 % 2
    }

    #[verifier::allow_in_spec]
    pub fn timer(&self) -> u32
        returns
            self.0 / 0x1_0000 % 0x800,
    {
        self.0 / 0x1_0000 % 0x800
    }

    #[verifier::allow_in_spec]
    pub fn length_counter(&self) -> u32
        returns
            self.0 / 0x800_0000,
    {
        self.0 / 0x800_0000
    }

    /// The register with the timer replaced by `value mod 2048`.
    #[verifier::allow_in_spec]
    pub fn with_timer(self, value: u32) -> Self
        returns
            PulseRegister(
                (self.0 - (self.0 / 0x1_0000 % 0x800) * 0x1_0000 + (value % 0x800) * 0x1_0000) as u32,
            ),
    {
        PulseRegister(self.0 - (self.0 / 0x1_0000 % 0x800) * 0x1_0000 + (value % 0x800) * 0x1_0000)
    }

    pub fn set_timer(&mut self, value: u32)
        ensures
            *final(self) == old(self).with_timer(value),
    {
        *self = self.with_timer(value);
    }
}

/// What the sweep unit aims at: the timer plus the timer shifted down, or,
/// with negate, the timer minus that and minus the channel's complement,
/// not going below zero.
pub open spec fn spec_sweep_target(reg: PulseRegister, complement: bool) -> int {
    let change = (reg.timer() >> reg.shift_amount()) as int;
    if reg.negate() != 0 {
        let t = reg.timer() - change - (if complement {
            1int
        } else {
            0int
        });
        if t < 0 {
            0
        } else {
            t
        }
    } else {
        reg.timer() + change
    }
}

/// Whether the sweep unit mutes the channel: the target is above 0x7FF or
/// the timer is below 8.
pub open spec fn spec_sweep_mute(reg: PulseRegister, complement: bool) -> bool {
    spec_sweep_target(reg, complement) > 0x7FF || reg.timer() < 8
}

/// A pulse channel.
#[derive(Debug, Clone, Copy, PartialEq, Eq, Structural)]
pub struct Pulse {
    pub reg: PulseRegister,
    pub target_period: u32,
    pub volume: u8,
    pub mute: bool,
    pub length_counter: u8,
    pub envelope_reload: bool,
    pub decay_level: u8,
    pub envelope_divider: u8,
    pub envelope_period: u8,
    pub sweep_reload: bool,
    pub sweep_counter: u8,
    pub sweep_complement: bool,
}

impl Pulse {
    pub open spec fn spec_new(sweep_complement: bool) -> Self {
        Pulse {
            reg: PulseRegister(0),
            target_period: 0,
            volume: 0,
            mute: false,
            length_counter: 0,
            envelope_reload: false,
            decay_level: 0,
            envelope_divider: 0,
            envelope_period: 0,
            sweep_reload: false,
            sweep_counter: 0,
            sweep_complement,
        }
    }

    pub fn new(sweep_complement: bool) -> (r: Self)
        ensures
            r == Self::spec_new(sweep_complement),
    {
        Pulse {
            reg: PulseRegister(0),
            target_period: 0,
            volume: 0,
            mute: false,
            length_counter: 0,
            envelope_reload: false,
            decay_level: 0,
            envelope_divider: 0,
            envelope_period: 0,
            sweep_reload: false,
            sweep_counter: 0,
            sweep_complement,
        }
    }

    /// The channel with target and mute flag brought up to date.
    pub open spec fn spec_update_target_period(self) -> Self {
        Pulse {
            target_period: spec_sweep_target(self.reg, self.sweep_complement) as u32,
            mute: spec_sweep_mute(self.reg, self.sweep_complement),
            ..self
        }
    }

    /// The channel after a length clock: without the halt flag the counter
    /// goes down and stays at zero.
    pub open spec fn spec_clock_length_counter(self) -> Self {
        if self.reg.length_counter_halt() == 0 {
            Pulse { length_counter: count_down(self.length_counter), ..self }
        } else {
            self
        }
    }

    /// The channel after an envelope clock. With the reload flag the decay
    /// starts again at 15 and the divider at the volume nibble plus one.
    /// Else the divider goes down, and at zero it starts again and the
    /// decay goes down, or from zero back to 15 with the loop flag. The
    /// output volume is the volume nibble with the constant-volume flag,
    /// else the decay.
    pub open spec fn spec_clock_envelope(self) -> Self {
        let s = if self.envelope_reload {
            Pulse {
                envelope_reload: false,
                decay_level: 15,
                envelope_period: (self.reg.volume() + 1) as u8,
                envelope_divider: (self.reg.volume() + 1) as u8,
                ..self
            }
        } else if count_down(self.envelope_divider) == 0 {
            Pulse {
                envelope_divider: self.envelope_period,
                decay_level: if self.decay_level > 0 {
                    (self.decay_level - 1) as u8
                } else if self.reg.envelope_loop() != 0 {
                    15u8
                } else {
                    self.decay_level
                },
                ..self
            }
        } else {
            Pulse { envelope_divider: count_down(self.envelope_divider), ..self }
        };
        Pulse {
            volume: if s.reg.constant_volume() != 0 {
                s.reg.volume() as u8
            } else {
                s.decay_level
            },
            ..s
        }
    }

    /// The channel after a sweep clock. Target and mute flag are brought up
    /// to date; the target goes into the timer where the sweep is enabled,
    /// its counter is zero, its shift is not zero, and the channel is not
    /// muted; then the counter starts again at the sweep period, with the
    /// reload flag or from zero, and else goes down.
    pub open spec fn spec_clock_sweep(self) -> Self {
        let s = self.spec_update_target_period();
        let commit = s.reg.sweep_enabled() != 0 && s.sweep_counter == 0 && s.reg.shift_amount()
            != 0 && !s.mute;
        let reg = if commit {
            s.reg.with_timer(s.target_period)
        } else {
            s.reg
        };
        if s.sweep_reload || s.sweep_counter == 0 {
            Pulse { reg, sweep_counter: s.reg.sweep_period() as u8, sweep_reload: false, ..s }
        } else {
            Pulse { reg, sweep_counter: count_down(s.sweep_counter), ..s }
        }
    }

    pub fn update_target_period(&mut self)
        ensures
            *final(self) == old(self).spec_update_target_period(),
            final(self).target_period <= 0xFFF,
    {
        let timer: u32 = self.reg.timer();
        let shift: u32 = self.reg.shift_amount();
        let change_amount: u32 = timer >> shift;
        assert(change_amount <= timer) by (bit_vector)
            requires
                change_amount == timer >> shift,
                shift < 8,
        ;
        let complement: u32 = if self.sweep_complement {
            1
        } else {
            0
        };
        self.target_period = if self.reg.negate() != 0 {
            if timer - change_amount >= complement {
                timer - change_amount - complement
            } else {
                0
            }
        } else {
            timer + change_amount
        };
        self.mute = self.target_period > 0x7FF || timer < 0x08;
    }

    pub fn clock_length_counter(&mut self)
        ensures
            *final(self) == old(self).spec_clock_length_counter(),
    {
        if self.reg.length_counter_halt() == 0 {
            self.length_counter = count_down(self.length_counter);
        }
    }

    pub fn clock_envelope(&mut self)
        ensures
            *final(self) == old(self).spec_clock_envelope(),
    {
        if self.envelope_reload {
            self.envelope_reload = false;
            self.decay_level = 15;
            self.envelope_period = (self.reg.volume() + 1) as u8;
            self.envelope_divider = self.envelope_period;
        } else {
            self.envelope_divider = count_down(self.envelope_divider);
            if self.envelope_divider == 0 {
                self.envelope_divider = self.envelope_period;
                if self.decay_level > 0 {
                    self.decay_level -= 1;
                } else if self.reg.envelope_loop() != 0 {
                    self.decay_level = 15;
                }
            }
        }
        if self.reg.constant_volume() != 0 {
            self.volume = self.reg.volume() as u8;
        } else {
            self.volume = self.decay_level;
        }
    }

    pub fn clock_sweep(&mut self)
        ensures
            *final(self) == old(self).spec_clock_sweep(),
    {
        self.update_target_period();
        let period: u8 = self.reg.sweep_period() as u8;
        if self.reg.sweep_enabled() != 0 && self.sweep_counter == 0 && self.reg.shift_amount() != 0 {
            if !self.mute {
                self.reg.set_timer(self.target_period);
            }
        }
        if self.sweep_reload || self.sweep_counter == 0 {
            self.sweep_counter = period;
            self.sweep_reload = false;
        } else {
            self.sweep_counter = count_down(self.sweep_counter);
        }
    }
}

/// A new timer reads back modulo 2048, and leaves the low sixteen bits of
/// the register and the length index as they were.
pub proof fn lemma_timer_set_get(reg: PulseRegister, value: u32)
    ensures
        reg.with_timer(value).timer() == value % 0x800,
        reg.with_timer(value).0 % 0x1_0000 == reg.0 % 0x1_0000,
        reg.with_timer(value).length_counter() == reg.length_counter(),
{
    crate::bits::lemma_field_swap(reg.0 as int, 0x1_0000, 0x800, value as int);
}

/// While the sweep mutes a channel, that is while its timer is below 8 or
/// its target above 0x7FF, a sweep clock raises the mute flag and leaves the
/// channel's register, and so its timer, as it was.
pub proof fn lemma_sweep_mute(p: Pulse)
    requires
        p.reg.timer() < 8 || spec_sweep_target(p.reg, p.sweep_complement) > 0x7FF,
    ensures
        p.spec_clock_sweep().mute,
        p.spec_clock_sweep().reg == p.reg,
        p.spec_clock_length_counter().spec_clock_sweep().reg == p.reg,
{
}

/// A write to a length register loads the length counter of its channel
/// with the table's entry for the top five bits of the byte written, where
/// the channel is switched on, for every byte.
pub proof fn lemma_length_load(apu: Apu, data: u8)
    ensures
        apu.status.pulse_enabled(0) ==> apu.spec_cpu_write(0x4003, data).pulse[0].length_counter
            == LENGTH_COUNTER_TABLE[data as int / 8],
        apu.status.pulse_enabled(1) ==> apu.spec_cpu_write(0x4007, data).pulse[1].length_counter
            == LENGTH_COUNTER_TABLE[data as int / 8],
        apu.status.triangle() ==> apu.spec_cpu_write(0x400B, data).triangle.length_counter
            == LENGTH_COUNTER_TABLE[data as int / 8],
        apu.status.noise() ==> apu.spec_cpu_write(0x400F, data).noise.length_counter
            == LENGTH_COUNTER_TABLE[data as int / 8],
{
    crate::bits::lemma_replace_byte(apu.pulse[0].reg.0, 3, data, 3);
    crate::bits::lemma_replace_byte(apu.pulse[1].reg.0, 3, data, 3);
    crate::bits::lemma_replace_byte(apu.triangle.reg.0, 3, data, 3);
    crate::bits::lemma_replace_byte(apu.noise.reg.0, 3, data, 3);
    let w0 = spec_replace_byte(apu.pulse[0].reg.0, 3, data);
    let w1 = spec_replace_byte(apu.pulse[1].reg.0, 3, data);
    let w2 = spec_replace_byte(apu.triangle.reg.0, 3, data);
    let w3 = spec_replace_byte(apu.noise.reg.0, 3, data);
    assert(w0 / 0x800_0000 == (w0 / 0x100_0000) / 8);
    assert(w1 / 0x800_0000 == (w1 / 0x100_0000) / 8);
    assert(w2 / 0x800_0000 == (w2 / 0x100_0000) / 8);
    assert(w3 / 0x800_0000 == (w3 / 0x100_0000) / 8);
}

/// The register bytes of the triangle channel in one word: the linear
/// counter's start in bits 0 to 6, the control and length-halt flag in bit
/// 7, the timer in bits 16 to 26, the length index in bits 27 to 31.
#[derive(Debug, Clone, Copy, PartialEq, Eq, Structural)]
pub struct TriangleRegister(pub u32);

impl TriangleRegister {
    #[verifier::allow_in_spec]
    pub fn linear_counter(&self) -> u32
        returns
            self.0 % 128,
    {
        self.0 % 128
    }

    #[verifier::allow_in_spec]
    pub fn linear_control(&self) -> u32
        returns
            self.0 / 128 % 2,
    {
        self.0 / 128 % 2
    }

    #[verifier::allow_in_spec]
    pub fn length_counter_halt(&self) -> u32
        returns
            self.0 / 128 % 2,
    {
        self.0 / 128 % 2
    }

    #[verifier::allow_in_spec]
    pub fn timer(&self) -> u32
        returns
            self.0 / 0x1_0000 % 0x800,
    {
        self.0 / 0x1_0000 % 0x800
    }

    #[verifier::allow_in_spec]
    pub fn length_counter(&self) -> u32
        returns
            self.0 / 0x800_0000,
    {
        self.0 / 0x800_0000
    }
}

/// The triangle channel.
#[derive(Debug, Clone, Copy, PartialEq, Eq, Structural)]
pub struct Triangle {
    pub reg: TriangleRegister,
    pub length_counter: u8,
    pub linear_counter_reload: bool,
    pub linear_counter: u8,
}

impl Triangle {
    pub open spec fn spec_new() -> Self {
        Triangle {
            reg: TriangleRegister(0),
            length_counter: 0,
            linear_counter_reload: false,
            linear_counter: 0,
        }
    }

    /// The channel after a linear-counter clock: with the reload flag the
    /// counter starts again from the register, else it goes down and stays
    /// at zero; without the control flag the reload flag is cleared.
    pub open spec fn spec_clock_linear_counter(self) -> Self {
        Triangle {
            linear_counter: if self.linear_counter_reload {
                self.reg.linear_counter() as u8
            } else {
                count_down(self.linear_counter)
            },
            linear_counter_reload: self.linear_counter_reload && self.reg.linear_control() != 0,
            ..self
        }
    }

    pub open spec fn spec_clock_length_counter(self) -> Self {
        if self.reg.length_counter_halt() == 0 {
            Triangle { length_counter: count_down(self.length_counter), ..self }
        } else {
            self
        }
    }

    pub fn clock_linear_counter(&mut self)
        ensures
            *final(self) == old(self).spec_clock_linear_counter(),
    {
        if self.linear_counter_reload {
            self.linear_counter = self.reg.linear_counter() as u8;
        } else {
            self.linear_counter = count_down(self.linear_counter);
        }
        if self.reg.linear_control() == 0 {
            self.linear_counter_reload = false;
        }
    }

    pub fn clock_length_counter(&mut self)
        ensures
            *final(self) == old(self).spec_clock_length_counter(),
    {
        if self.reg.length_counter_halt() == 0 {
            self.length_counter = count_down(self.length_counter);
        }
    }
}

/// The register bytes of the noise channel in one word: volume in bits 0
/// to 3, constant volume in bit 4, length halt and envelope loop in bit 5,
/// the period index in bits 16 to 19, the mode in bit 23, the length index
/// in bits 27 to 31.
#[derive(Debug, Clone, Copy, PartialEq, Eq, Structural)]
pub struct NoiseRegister(pub u32);

impl NoiseRegister {
    #[verifier::allow_in_spec]
    pub fn volume(&self) -> u32
        returns
            self.0 % 16,
    {
        self.0 % 16
    }

    #[verifier::allow_in_spec]
    pub fn constant_volume(&self) -> u32
        returns
            self.0 / 16 % 2,
    {
        self.0 / 16 % 2
    }

    #[verifier::allow_in_spec]
    pub fn envelope_loop(&self) -> u32
        returns
            self.0 / 32 % 2,
    {
        self.0 / 32 % 2
    }

    #[verifier::allow_in_spec]
    pub fn length_counter_halt(&self) -> u32
        returns
            self.0 / 32 % 2,
    {
        self.0 / 32 % 2
    }

    #[verifier::allow_in_spec]
    pub fn period(&self) -> u32
        returns
            self.0 / 0x1_0000 % 16,
    {
        self.0 / 0x1_0000 % 16
    }

    #[verifier::allow_in_spec]
    pub fn loop_noise(&self) -> u32
        returns
            self.0 / 0x80_0000 % 2,
    {
        self.0 / 0x80_0000 % 2
    }

    #[verifier::allow_in_spec]
    pub fn length_counter(&self) -> u32
        returns
            self.0 / 0x800_0000,
    {
        self.0 / 0x800_0000
    }
}

/// The noise channel.
#[derive(Debug, Clone, Copy, PartialEq, Eq, Structural)]
pub struct Noise {
    pub reg: NoiseRegister,
    pub volume: u8,
    pub length_counter: u8,
    pub envelope_reload: bool,
    pub decay_level: u8,
    pub envelope_divider: u8,
    pub envelope_period: u8,
}

impl Noise {
    pub open spec fn spec_new() -> Self {
        Noise {
            reg: NoiseRegister(0),
            volume: 0,
            length_counter: 0,
            envelope_reload: false,
            decay_level: 0,
            envelope_divider: 0,
            envelope_period: 0,
        }
    }

    pub open spec fn spec_clock_length_counter(self) -> Self {
        if self.reg.length_counter_halt() == 0 {
            Noise { length_counter: count_down(self.length_counter), ..self }
        } else {
            self
        }
    }

    /// The channel after an envelope clock; the envelope is that of a pulse
    /// channel.
    pub open spec fn spec_clock_envelope(self) -> Self {
        let s = if self.envelope_reload {
            Noise {
                envelope_reload: false,
                decay_level: 15,
                envelope_period: (self.reg.volume() + 1) as u8,
                envelope_divider: (self.reg.volume() + 1) as u8,
                ..self
            }
        } else if count_down(self.envelope_divider) == 0 {
            Noise {
                envelope_divider: self.envelope_period,
                decay_level: if self.decay_level > 0 {
                    (self.decay_level - 1) as u8
                } else if self.reg.envelope_loop() != 0 {
                    15u8
                } else {
                    self.decay_level
                },
                ..self
            }
        } else {
            Noise { envelope_divider: count_down(self.envelope_divider), ..self }
        };
        Noise {
            volume: if s.reg.constant_volume() != 0 {
                s.reg.volume() as u8
            } else {
                s.decay_level
            },
            ..s
        }
    }

    pub fn clock_length_counter(&mut self)
        ensures
            *final(self) == old(self).spec_clock_length_counter(),
    {
        if self.reg.length_counter_halt() == 0 {
            self.length_counter = count_down(self.length_counter);
        }
    }

    pub fn clock_envelope(&mut self)
        ensures
            *final(self) == old(self).spec_clock_envelope(),
    {
        if self.envelope_reload {
            self.envelope_reload = false;
            self.decay_level = 15;
            self.envelope_period = (self.reg.volume() + 1) as u8;
            self.envelope_divider = self.envelope_period;
        } else {
            self.envelope_divider = count_down(self.envelope_divider);
            if self.envelope_divider == 0 {
                self.envelope_divider = self.envelope_period;
                if self.decay_level > 0 {
                    self.decay_level -= 1;
                } else if self.reg.envelope_loop() != 0 {
                    self.decay_level = 15;
                }
            }
        }
        if self.reg.constant_volume() != 0 {
            self.volume = self.reg.volume() as u8;
        } else {
            self.volume = self.decay_level;
        }
    }
}

/// The channel switches, written at 0x4015: the pulse channels in bits 0
/// and 1, the triangle in bit 2, the noise in bit 3.
#[derive(Debug, Clone, Copy, PartialEq, Eq, Structural)]
pub struct ApuStatus(pub u8);

impl ApuStatus {
    #[verifier::allow_in_spec]
    pub fn pulse(&self) -> u8
        returns
            self.0 % 4,
    {
        self.0 % 4
    }

    /// Whether pulse channel `id` (0 or 1) is switched on.
    #[verifier::allow_in_spec]
    pub fn pulse_enabled(&self, id: usize) -> bool
        returns
            (if id == 0 {
                flag(self.0, 0x01)
            } else {
                flag(self.0, 0x02)
            }),
    {
        if id == 0 {
            flag(self.0, 0x01)
        } else {
            flag(self.0, 0x02)
        }
    }

    #[verifier::allow_in_spec]
    pub fn triangle(&self) -> bool
        returns
            flag(self.0, 0x04),
    {
        flag(self.0, 0x04)
    }

    #[verifier::allow_in_spec]
    pub fn noise(&self) -> bool
        returns
            flag(self.0, 0x08),
    {
        flag(self.0, 0x08)
    }
}

/// The frame counter register, written at 0x4017: the interrupt inhibit
/// flag in bit 6 and the step mode in bit 7.
#[derive(Debug, Clone, Copy, PartialEq, Eq, Structural)]
pub struct FrameCounter(pub u8);

impl FrameCounter {
    #[verifier::allow_in_spec]
    pub fn irq_inhibit(&self) -> u8
        returns
            self.0 / 64 % 2,
    {
        self.0 / 64 % 2
    }

    #[verifier::allow_in_spec]
    pub fn step_mode(&self) -> u8
        returns
            self.0 / 128,
    {
        self.0 / 128
    }
}

/// What a pulse channel hands to the sound output: the length of one wave
/// in CPU cycles, the duty as an index from 0 to 3 (an eighth, a quarter, a
/// half, three quarters), the volume from 0 to 15, and whether it sounds.
#[derive(Debug, Clone, Copy, PartialEq, Eq, Structural)]
pub struct PulseOutput {
    pub period: u32,
    pub duty: u8,
    pub volume: u8,
    pub playing: bool,
}

/// What the triangle channel hands to the sound output: the length of one
/// wave in CPU cycles, and whether it sounds.
#[derive(Debug, Clone, Copy, PartialEq, Eq, Structural)]
pub struct TriangleOutput {
    pub period: u32,
    pub playing: bool,
}

/// What the noise channel hands to the sound output: the index of its
/// period, its mode flag, the volume from 0 to 15, and whether it sounds.
#[derive(Debug, Clone, Copy, PartialEq, Eq, Structural)]
pub struct NoiseOutput {
    pub period_index: u8,
    pub short_mode: bool,
    pub volume: u8,
    pub playing: bool,
}

/// The audio processing unit.
#[derive(Debug, Clone, Copy)]
pub struct Apu {
    pub pulse: [Pulse; 2],
    pub triangle: Triangle,
    pub noise: Noise,
    pub status: ApuStatus,
    pub frame_counter: FrameCounter,
    pub cycles: usize,
}

impl Default for Apu {
    /// The unit at power-on, all channels off; pulse channel 0 has the
    /// sweep complement and channel 1 has not.
    fn default() -> (r: Self)
        ensures
            r.spec_power_on(),
    {
        Apu {
            pulse: [Pulse::new(true), Pulse::new(false)],
            triangle: Triangle {
                reg: TriangleRegister(0),
                length_counter: 0,
                linear_counter_reload: false,
                linear_counter: 0,
            },
            noise: Noise {
                reg: NoiseRegister(0),
                volume: 0,
                length_counter: 0,
                envelope_reload: false,
                decay_level: 0,
                envelope_divider: 0,
                envelope_period: 0,
            },
            status: ApuStatus(0),
            frame_counter: FrameCounter(0),
            cycles: 0,
        }
    }
}

impl Apu {
    /// The unit is as at power-on: every register zero and all channels
    /// off; pulse channel 0 has the sweep complement and channel 1 has not.
    pub open spec fn spec_power_on(self) -> bool {
        &&& self.pulse[0] == Pulse::spec_new(true)
        &&& self.pulse[1] == Pulse::spec_new(false)
        &&& self.triangle == Triangle::spec_new()
        &&& self.noise == Noise::spec_new()
        &&& self.status.0 == 0
        &&& self.frame_counter.0 == 0
        &&& self.cycles == 0
    }

    /// The unit with pulse channel `id` replaced.
    pub open spec fn spec_with_pulse(self, id: int, p: Pulse) -> Self {
        Apu { pulse: vstd::array::spec_array_update(self.pulse, id, p), ..self }
    }

    /// The unit after a quarter-frame clock: the envelopes of the pulse and
    /// noise channels and the triangle's linear counter are clocked, each
    /// where its channel is switched on.
    pub open spec fn spec_quarter_frame_tick(self) -> Self {
        let s0 = if self.status.pulse_enabled(0) {
            self.spec_with_pulse(0, self.pulse[0].spec_clock_envelope())
        } else {
            self
        };
        let s1 = if s0.status.pulse_enabled(1) {
            s0.spec_with_pulse(1, s0.pulse[1].spec_clock_envelope())
        } else {
            s0
        };
        Apu {
            noise: if s1.status.noise() {
                s1.noise.spec_clock_envelope()
            } else {
                s1.noise
            },
            triangle: if s1.status.triangle() {
                s1.triangle.spec_clock_linear_counter()
            } else {
                s1.triangle
            },
            ..s1
        }
    }

    /// The unit after a half-frame clock: the length counters of all
    /// channels and the sweep units of the pulse channels are clocked, each
    /// where its channel is switched on.
    pub open spec fn spec_half_frame_tick(self) -> Self {
        let s0 = if self.status.pulse_enabled(0) {
            self.spec_with_pulse(0, self.pulse[0].spec_clock_length_counter().spec_clock_sweep())
        } else {
            self
        };
        let s1 = if s0.status.pulse_enabled(1) {
            s0.spec_with_pulse(1, s0.pulse[1].spec_clock_length_counter().spec_clock_sweep())
        } else {
            s0
        };
        Apu {
            triangle: if s1.status.triangle() {
                s1.triangle.spec_clock_length_counter()
            } else {
                s1.triangle
            },
            noise: if s1.status.noise() {
                s1.noise.spec_clock_length_counter()
            } else {
                s1.noise
            },
            ..s1
        }
    }

    /// Whether `count` is a step of the frame sequencer in the step mode
    /// `mode`: 3729, 7457 and 11186 in both modes, then 14915 in mode 0 and
    /// 18641 in mode 1.
    pub open spec fn spec_is_step(count: usize, mode: u8) -> bool {
        count == 3729 || count == 7457 || count == 11186 || (count == 14915 && mode == 0) || (count
            == 18641 && mode == 1)
    }

    /// The unit after one master tick whose number is `cycles`, and
    /// whether a step of the frame sequencer fell on it. The unit counts
    /// every sixth master tick. The steps at 3729 and 11186 clock a quarter
    /// frame; the step at 7457 and the last step clock a half and a quarter
    /// frame, and the last step starts the count again. After a step the
    /// sweep targets of both pulse channels are brought up to date.
    pub open spec fn spec_tick(self, cycles: usize) -> (Self, bool) {
        if cycles % 6 == 0 {
            let count = self.cycles.wrapping_add(1);
            let mode = self.frame_counter.step_mode();
            let s = Apu { cycles: count, ..self };
            if Self::spec_is_step(count, mode) {
                let e = if count == 3729 || count == 11186 {
                    s.spec_quarter_frame_tick()
                } else if count == 7457 {
                    s.spec_half_frame_tick().spec_quarter_frame_tick()
                } else {
                    Apu { cycles: 0, ..s.spec_half_frame_tick().spec_quarter_frame_tick() }
                };
                (
                    e.spec_with_pulse(0, e.pulse[0].spec_update_target_period()).spec_with_pulse(
                        1,
                        e.pulse[1].spec_update_target_period(),
                    ),
                    true,
                )
            } else {
                (s, false)
            }
        } else {
            (self, false)
        }
    }

    /// The unit after a write to a register of pulse channel `id`, `place`
    /// being the register's number from 0 to 3. The byte goes into the
    /// channel's word. Where the channel is switched on: register 0 asks
    /// for an envelope reload, register 1 for a sweep reload, and register
    /// 3 loads the length counter from the table and asks for both.
    pub open spec fn spec_pulse_write(self, id: int, place: int, data: u8) -> Self {
        let p = self.pulse[id];
        let reg = PulseRegister(spec_replace_byte(p.reg.0, place, data));
        let on = self.status.pulse_enabled(id as usize);
        let q = if !on || place == 2 {
            Pulse { reg, ..p }
        } else if place == 0 {
            Pulse { reg, envelope_reload: true, ..p }
        } else if place == 1 {
            Pulse { reg, sweep_reload: true, ..p }
        } else {
            Pulse {
                reg,
                length_counter: spec_length_for(reg.length_counter() as int),
                envelope_reload: true,
                sweep_reload: true,
                ..p
            }
        };
        self.spec_with_pulse(id, q)
    }

    /// The unit after a write to a register of the triangle channel.
    /// Where the channel is switched on, register 0 asks for a reload of
    /// the linear counter, and register 3 loads the length counter from the
    /// table and asks for the same.
    pub open spec fn spec_triangle_write(self, place: int, data: u8) -> Self {
        let t = self.triangle;
        let reg = TriangleRegister(spec_replace_byte(t.reg.0, place, data));
        let on = self.status.triangle();
        Apu {
            triangle: if !on || place == 2 {
                Triangle { reg, ..t }
            } else if place == 0 {
                Triangle { reg, linear_counter_reload: true, ..t }
            } else {
                Triangle {
                    reg,
                    length_counter: spec_length_for(reg.length_counter() as int),
                    linear_counter_reload: true,
                    ..t
                }
            },
            ..self
        }
    }

    /// The unit after a write to a register of the noise channel. Where
    /// the channel is switched on, register 0 asks for an envelope reload,
    /// and register 3 loads the length counter from the table and asks for
    /// the same.
    pub open spec fn spec_noise_write(self, place: int, data: u8) -> Self {
        let n = self.noise;
        let reg = NoiseRegister(spec_replace_byte(n.reg.0, place, data));
        let on = self.status.noise();
        Apu {
            noise: if !on || place == 2 {
                Noise { reg, ..n }
            } else if place == 0 {
                Noise { reg, envelope_reload: true, ..n }
            } else {
                Noise {
                    reg,
                    length_counter: spec_length_for(reg.length_counter() as int),
                    envelope_reload: true,
                    ..n
                }
            },
            ..self
        }
    }

    /// The unit after a write to 0x4015: the switches are stored, and the
    /// length counters of the pulse and triangle channels that are switched
    /// off go to zero.
    pub open spec fn spec_status_write(self, data: u8) -> Self {
        let s0 = self.spec_with_pulse(
            0,
            Pulse {
                length_counter: if flag(data, 0x01) {
                    self.pulse[0].length_counter
                } else {
                    0
                },
                ..self.pulse[0]
            },
        );
        let s1 = s0.spec_with_pulse(
            1,
            Pulse {
                length_counter: if flag(data, 0x02) {
                    s0.pulse[1].length_counter
                } else {
                    0
                },
                ..s0.pulse[1]
            },
        );
        Apu {
            status: ApuStatus(data),
            triangle: Triangle {
                length_counter: if flag(data, 0x04) {
                    s1.triangle.length_counter
                } else {
                    0
                },
                ..s1.triangle
            },
            ..s1
        }
    }

    /// The unit after a CPU write: 0x4000 to 0x4007 are the pulse
    /// channels, 0x4008, 0x400A and 0x400B the triangle, 0x400C, 0x400E and
    /// 0x400F the noise, 0x4015 the switches, 0x4017 the frame counter; other
    /// addresses change nothing.
    pub open spec fn spec_cpu_write(self, addr: u16, data: u8) -> Self {
        if 0x4000 <= addr <= 0x4007 {
            self.spec_pulse_write((addr as int - 0x4000) / 4, addr as int % 4, data)
        } else if addr == 0x4008 || addr == 0x400A || addr == 0x400B {
            self.spec_triangle_write(addr as int % 4, data)
        } else if addr == 0x400C || addr == 0x400E || addr == 0x400F {
            self.spec_noise_write(addr as int % 4, data)
        } else if addr == 0x4015 {
            self.spec_status_write(data)
        } else if addr == 0x4017 {
            Apu { frame_counter: FrameCounter(data), ..self }
        } else {
            self
        }
    }

    /// What pulse channel `id` hands to the sound output. One wave lasts
    /// sixteen CPU cycles for each timer step. The channel sounds where it
    /// is switched on, its length counter is not zero, and its sweep does
    /// not mute it.
    pub open spec fn spec_pulse_output(self, id: int) -> PulseOutput {
        let p = self.pulse[id];
        PulseOutput {
            period: (16 * (p.reg.timer() + 1)) as u32,
            duty: p.reg.duty() as u8,
            volume: p.volume,
            playing: self.status.pulse_enabled(id as usize) && p.length_counter != 0 && !p.mute,
        }
    }

    /// What the triangle channel hands to the sound output. One wave lasts
    /// thirty-two CPU cycles for each timer step. The channel sounds where
    /// it is switched on and neither its length counter nor its linear
    /// counter is zero.
    pub open spec fn spec_triangle_output(self) -> TriangleOutput {
        let t = self.triangle;
        TriangleOutput {
            period: (32 * (t.reg.timer() + 1)) as u32,
            playing: self.status.triangle() && t.length_counter != 0 && t.linear_counter != 0,
        }
    }

    /// What the noise channel hands to the sound output. The channel
    /// sounds where it is switched on and its length counter is not zero.
    pub open spec fn spec_noise_output(self) -> NoiseOutput {
        let n = self.noise;
        NoiseOutput {
            period_index: n.reg.period() as u8,
            short_mode: n.reg.loop_noise() != 0,
            volume: n.volume,
            playing: self.status.noise() && n.length_counter != 0,
        }
    }

    pub fn tick(&mut self, cycles: usize) -> (r: bool)
        ensures
            (*final(self), r) == old(self).spec_tick(cycles),
    {
        if cycles % 6 == 0 {
            self.cycles = self.cycles.wrapping_add(1);
            let mode = self.frame_counter.step_mode();
            let count: usize = self.cycles;
            if count == 3729 || count == 11186 {
                self.quarter_frame_tick();
            } else if count == 7457 {
                self.half_frame_tick();
                self.quarter_frame_tick();
            } else if (count == 14915 && mode == 0) || (count == 18641 && mode == 1) {
                self.half_frame_tick();
                self.quarter_frame_tick();
                self.cycles = 0;
            } else {
                return false;
            }
            self.pulse[0].update_target_period();
            self.pulse[1].update_target_period();
            true
        } else {
            false
        }
    }

    pub fn quarter_frame_tick(&mut self)
        ensures
            *final(self) == old(self).spec_quarter_frame_tick(),
    {
        if self.status.pulse_enabled(0) {
            self.pulse[0].clock_envelope();
        }
        if self.status.pulse_enabled(1) {
            self.pulse[1].clock_envelope();
        }
        if self.status.noise() {
            self.noise.clock_envelope();
        }
        if self.status.triangle() {
            self.triangle.clock_linear_counter();
        }
    }

    pub fn half_frame_tick(&mut self)
        ensures
            *final(self) == old(self).spec_half_frame_tick(),
    {
        if self.status.pulse_enabled(0) {
            let mut p = self.pulse[0];
            p.clock_length_counter();
            p.clock_sweep();
            self.pulse[0] = p;
        }
        if self.status.pulse_enabled(1) {
            let mut p = self.pulse[1];
            p.clock_length_counter();
            p.clock_sweep();
            self.pulse[1] = p;
        }
        if self.status.triangle() {
            self.triangle.clock_length_counter();
        }
        if self.status.noise() {
            self.noise.clock_length_counter();
        }
    }

    fn pulse_write(&mut self, id: usize, place: u8, data: u8)
        requires
            id < 2,
            place < 4,
        ensures
            *final(self) == old(self).spec_pulse_write(id as int, place as int, data),
    {
        let mut p = self.pulse[id];
        p.reg = PulseRegister(replace_byte(p.reg.0, place, data));
        if self.status.pulse_enabled(id) {
            if place == 0 {
                p.envelope_reload = true;
            } else if place == 1 {
                p.sweep_reload = true;
            } else if place == 3 {
                p.length_counter = length_for(p.reg.length_counter());
                p.envelope_reload = true;
                p.sweep_reload = true;
            }
        }
        self.pulse[id] = p;
    }

    fn triangle_write(&mut self, place: u8, data: u8)
        requires
            place < 4,
        ensures
            *final(self) == old(self).spec_triangle_write(place as int, data),
    {
        self.triangle.reg = TriangleRegister(replace_byte(self.triangle.reg.0, place, data));
        if self.status.triangle() {
            if place == 0 {
                self.triangle.linear_counter_reload = true;
            } else if place != 2 {
                self.triangle.length_counter = length_for(self.triangle.reg.length_counter());
                self.triangle.linear_counter_reload = true;
            }
        }
    }

    fn noise_write(&mut self, place: u8, data: u8)
        requires
            place < 4,
        ensures
            *final(self) == old(self).spec_noise_write(place as int, data),
    {
        self.noise.reg = NoiseRegister(replace_byte(self.noise.reg.0, place, data));
        if self.status.noise() {
            if place == 0 {
                self.noise.envelope_reload = true;
            } else if place != 2 {
                self.noise.length_counter = length_for(self.noise.reg.length_counter());
                self.noise.envelope_reload = true;
            }
        }
    }

    pub fn cpu_write(&mut self, addr: u16, data: u8)
        ensures
            *final(self) == old(self).spec_cpu_write(addr, data),
    {
        if 0x4000 <= addr && addr <= 0x4007 {
            self.pulse_write(((addr - 0x4000) / 4) as usize, (addr % 4) as u8, data);
        } else if addr == 0x4008 || addr == 0x400A || addr == 0x400B {
            self.triangle_write((addr % 4) as u8, data);
        } else if addr == 0x400C || addr == 0x400E || addr == 0x400F {
            self.noise_write((addr % 4) as u8, data);
        } else if addr == 0x4015 {
            self.status = ApuStatus(data);
            let mut first = self.pulse[0];
            if !flag(data, 0x01) {
                first.length_counter = 0;
            }
            self.pulse[0] = first;
            let mut second = self.pulse[1];
            if !flag(data, 0x02) {
                second.length_counter = 0;
            }
            self.pulse[1] = second;
            if !flag(data, 0x04) {
                self.triangle.length_counter = 0;
            }
        } else if addr == 0x4017 {
            self.frame_counter = FrameCounter(data);
        }
    }

    /// The interrupt line of the unit, which it never raises.
    pub fn irq(&self) -> (r: bool)
        ensures
            !r,
    {
        false
    }

    pub fn pulse_output(&self, id: usize) -> (r: PulseOutput)
        requires
            id < 2,
        ensures
            r == self.spec_pulse_output(id as int),
    {
        let p = self.pulse[id];
        PulseOutput {
            period: 16 * (p.reg.timer() + 1),
            duty: p.reg.duty() as u8,
            volume: p.volume,
            playing: self.status.pulse_enabled(id) && p.length_counter != 0 && !p.mute,
        }
    }

    pub fn triangle_output(&self) -> (r: TriangleOutput)
        ensures
            r == self.spec_triangle_output(),
    {
        let t = self.triangle;
        TriangleOutput {
            period: 32 * (t.reg.timer() + 1),
            playing: self.status.triangle() && t.length_counter != 0 && t.linear_counter != 0,
        }
    }

    pub fn noise_output(&self) -> (r: NoiseOutput)
        ensures
            r == self.spec_noise_output(),
    {
        let n = self.noise;
        NoiseOutput {
            period_index: n.reg.period() as u8,
            short_mode: n.reg.loop_noise() != 0,
            volume: n.volume,
            playing: self.status.noise() && n.length_counter != 0,
        }
    }
}

} // verus!
