use vstd::prelude::*;

use crate::gameboy::CPU_CLOCK_HZ;

verus! {

broadcast use vstd::array::group_array_axioms;

pub const SAMPLES: usize = 512;

pub const SAMPLE_RATE: u128 = 48000;

/// T-cycles between two output samples.
pub const SAMPLE_PERIOD: u128 = CPU_CLOCK_HZ / SAMPLE_RATE;

/// A flag as a bit.
pub open spec fn bit(b: bool) -> u8 {
    if b {
        1
    } else {
        0
    }
}

fn bit_of(b: bool) -> (r: u8)
    ensures
        r == bit(b),
{
    if b {
        1
    } else {
        0
    }
}

/// The duty waveforms of the square channels, as levels 0 or 1 at each of the
/// eight positions: 12.5%, 25%, 50% and 75% high.
pub open spec fn duty_level(pattern: u8, pos: usize) -> u8 {
    if pattern == 0 {
        bit(pos >= 7)
    } else if pattern == 1 {
        bit(pos >= 6)
    } else if pattern == 2 {
        bit(pos >= 4)
    } else {
        bit(pos >= 2)
    }
}

fn wave_duty(pattern: u8, pos: usize) -> (r: u8)
    ensures
        r == duty_level(pattern, pos),
{
    if pattern == 0 {
        bit_of(pos >= 7)
    } else if pattern == 1 {
        bit_of(pos >= 6)
    } else if pattern == 2 {
        bit_of(pos >= 4)
    } else {
        bit_of(pos >= 2)
    }
}

/// The low byte of the frequency replaced by `val`.
pub open spec fn with_low_frequency(f: u16, val: u8) -> u16 {
    (f & 0x0700) | (val as u16)
}

/// The high three bits of the frequency replaced by the low three of `val`.
pub open spec fn with_high_frequency(f: u16, val: u8) -> u16 {
    (f & 0xFF) | (((val & 0x07) as u16) << 8u16)
}

proof fn lemma_frequency_bits(f: u16, val: u8)
    by (bit_vector)
    ensures
        f <= 0x7FF ==> (f & 0x0700u16) | (val as u16) <= 0x7FFu16,
        (f & 0xFFu16) | (((val & 0x07u8) as u16) << 8u16) <= 0x7FFu16,
{
}

/// The bit fields of a register byte are within their widths.
proof fn lemma_register_fields(val: u8)
    by (bit_vector)
    ensures
        (val >> 4u8) & 0x07u8 <= 7,
        val & 0x07u8 <= 7,
        (val >> 6u8) & 0b11u8 <= 3,
        val & 0x3fu8 <= 0x3f,
        val >> 4u8 <= 0xF,
        (val >> 4u8) & 0x0Fu8 <= 15,
        (val >> 5u8) & 0x03u8 <= 3,
{
}

/// Wave RAM addressing: position `pos` selects byte `pos / 2`, and its low
/// nibble for even positions, its high nibble for odd ones.
proof fn lemma_wave_nibble(pos: usize, byte: u8)
    by (bit_vector)
    requires
        pos < 32,
    ensures
        pos >> 1usize < 16,
        pos & 1usize == 0usize ==> (pos & 1usize) << 2usize == 0usize,
        pos & 1usize != 0usize ==> (pos & 1usize) << 2usize == 4usize,
        0xFu8 & (byte >> 0u8) == byte & 0xFu8,
        0xFu8 & (byte >> 4u8) == byte >> 4u8,
{
}

/// The noise timer period is positive, and clocking the shift register keeps
/// it within 15 bits.
proof fn lemma_noise_clock(code: u32, sh: u32, l: u16)
    by (bit_vector)
    requires
        code <= 7,
        sh <= 15,
        l <= 0x7FFF,
    ensures
        (if 8u32 < code << 4u32 {
            code << 4u32
        } else {
            8u32
        }) << sh > 0u32,
        (l >> 1u16) | (((l & 0b01u16) ^ ((l & 0b10u16) >> 1u16)) << 14u16) <= 0x7FFFu16,
        (((l >> 1u16) | (((l & 0b01u16) ^ ((l & 0b10u16) >> 1u16)) << 14u16)) & !(1u16 << 6u16))
            | (((l & 0b01u16) ^ ((l & 0b10u16) >> 1u16)) << 6u16) <= 0x7FFFu16,
{
}

/// A waveform position stays below the waveform's length as it advances.
proof fn lemma_position_wraps(p: usize)
    by (bit_vector)
    ensures
        p < 8 ==> ((p + 1) as usize) & 7usize < 8,
        p < 32 ==> ((p + 1) as usize) & 31usize < 32,
{
}

fn low_frequency(f: u16, val: u8) -> (r: u16)
    ensures
        r == with_low_frequency(f, val),
        f <= 0x7FF ==> r <= 0x7FF,
{
    proof {
        lemma_frequency_bits(f, val);
    }
    (f & 0x0700) | (val as u16)
}

fn high_frequency(f: u16, val: u8) -> (r: u16)
    ensures
        r == with_high_frequency(f, val),
        r <= 0x7FF,
{
    proof {
        lemma_frequency_bits(f, val);
    }
    (f & 0xFF) | (((val & 0x07) as u16) << 8)
}

/// Square channel 1, with frequency sweep.
#[derive(Clone, Copy, Debug, PartialEq, Eq, Structural)]
pub struct Channel1 {
    pub length_timer: u8,
    pub dac_enabled: bool,
    pub enabled: bool,
    pub frequency: u16,
    pub length_enabled: bool,
    pub frequency_timer: u16,
    pub wave_duty_position: usize,
    pub wave_duty_pattern: u8,
    pub period_timer: u8,
    pub current_volume: u8,
    pub shadow_frequency: u16,
    pub is_decrementing: bool,
    pub sweep_period: u8,
    pub sweep_shift: u8,
    pub sweep_timer: u8,
    pub sweep_enabled: bool,
    pub initial_volume: u8,
    pub is_upwards: bool,
    pub period: u8,
}

impl Default for Channel1 {
    fn default() -> (r: Self)
        ensures
            r == (Channel1 {
                length_timer: 0,
                dac_enabled: false,
                enabled: false,
                frequency: 0,
                length_enabled: false,
                frequency_timer: 0,
                wave_duty_position: 0,
                wave_duty_pattern: 0,
                period_timer: 0,
                current_volume: 0,
                shadow_frequency: 0,
                is_decrementing: false,
                sweep_period: 0,
                sweep_shift: 0,
                sweep_timer: 0,
                sweep_enabled: false,
                initial_volume: 0,
                is_upwards: false,
                period: 0,
            }),
    {
        Channel1 {
            length_timer: 0,
            dac_enabled: false,
            enabled: false,
            frequency: 0,
            length_enabled: false,
            frequency_timer: 0,
            wave_duty_position: 0,
            wave_duty_pattern: 0,
            period_timer: 0,
            current_volume: 0,
            shadow_frequency: 0,
            is_decrementing: false,
            sweep_period: 0,
            sweep_shift: 0,
            sweep_timer: 0,
            sweep_enabled: false,
            initial_volume: 0,
            is_upwards: false,
            period: 0,
        }
    }
}

impl Channel1 {
    /// The state a channel is built in: everything off and zero.
    pub open spec fn is_power_on(self) -> bool {
        &&& self == (Channel1 {
            length_timer: 0,
            dac_enabled: false,
            enabled: false,
            frequency: 0,
            length_enabled: false,
            frequency_timer: 0,
            wave_duty_position: 0,
            wave_duty_pattern: 0,
            period_timer: 0,
            current_volume: 0,
            shadow_frequency: 0,
            is_decrementing: false,
            sweep_period: 0,
            sweep_shift: 0,
            sweep_timer: 0,
            sweep_enabled: false,
            initial_volume: 0,
            is_upwards: false,
            period: 0,
        })
    }

    /// Registers hold what their bit fields can hold, frequencies fit in 11
    /// bits and the volume in 4.
    pub open spec fn wf(self) -> bool {
        &&& self.frequency <= 0x7FF
        &&& self.shadow_frequency <= 0x7FF
        &&& self.wave_duty_position < 8
        &&& self.wave_duty_pattern <= 3
        &&& self.sweep_period <= 7
        &&& self.sweep_shift <= 7
        &&& self.initial_volume <= 0xF
        &&& self.current_volume <= 0xF
        &&& self.period <= 7
        &&& (self.enabled ==> self.dac_enabled)
    }

    /// One frame-sequencer step `fs`: length on even steps, the envelope on
    /// step 7, the sweep on steps 2 and 6.
    pub open spec fn after_fs_cycle(self, fs: u8) -> Channel1 {
        let c1 = if fs & 1 == 0 {
            self.after_length()
        } else {
            self
        };
        let c2 = if fs == 7 {
            c1.after_envelope()
        } else {
            c1
        };
        if fs == 2 || fs == 6 {
            c2.after_sweep()
        } else {
            c2
        }
    }

    fn emulate_fs_cycle(&mut self, fs: u8)
        requires
            old(self).wf(),
        ensures
            *final(self) == old(self).after_fs_cycle(fs),
            final(self).wf(),
    {
        if fs & 0b1 == 0 {
            self.length()
        }
        if fs == 7 {
            self.envelope();
        }
        if fs == 2 || fs == 6 {
            self.sweep();
        }
    }

    /// One T-cycle: the frequency timer counts down; when it has run out it is
    /// reloaded with (2048 - frequency) * 4 and the waveform position moves
    /// on (modulo 8).
    pub open spec fn after_t_cycle(self) -> Channel1 {
        let c = if self.frequency_timer == 0 {
            Channel1 {
                frequency_timer: ((2048 - self.frequency) * 4) as u16,
                wave_duty_position: ((self.wave_duty_position + 1) as usize) & 7usize,
                ..self
            }
        } else {
            self
        };
        Channel1 { frequency_timer: (c.frequency_timer - 1) as u16, ..c }
    }

    fn emulate_t_cycle(&mut self)
        requires
            old(self).wf(),
        ensures
            *final(self) == old(self).after_t_cycle(),
            final(self).wf(),
    {
        if self.frequency_timer == 0 {
            self.frequency_timer = (2048 - self.frequency) * 4;
            let p = self.wave_duty_position;
            proof {
                lemma_position_wraps(p);
            }
            self.wave_duty_position = (self.wave_duty_position + 1) & 7;
        }
        self.frequency_timer -= 1;
    }

    /// The length counter: when enabled and running, it counts down, and the
    /// channel turns off when it reaches zero.
    pub open spec fn after_length(self) -> Channel1 {
        if self.length_enabled && self.length_timer > 0 {
            Channel1 {
                length_timer: (self.length_timer - 1) as u8,
                enabled: self.enabled && self.length_timer - 1 > 0,
                ..self
            }
        } else {
            self
        }
    }

    fn length(&mut self)
        ensures
            *final(self) == old(self).after_length(),
    {
        if self.length_enabled && self.length_timer > 0 {
            self.length_timer -= 1;
            self.enabled = self.enabled && self.length_timer > 0;
        }
    }

    /// The volume envelope: every `period` steps (none when the period is 0)
    /// the volume moves one step up or down, staying within 0..=15.
    pub open spec fn after_envelope(self) -> Channel1 {
        if self.period != 0 {
            let pt = if self.period_timer > 0 {
                (self.period_timer - 1) as u8
            } else {
                self.period_timer
            };
            if pt == 0 {
                let vol = if self.current_volume < 0xF && self.is_upwards {
                    (self.current_volume + 1) as u8
                } else if self.current_volume > 0 && !self.is_upwards {
                    (self.current_volume - 1) as u8
                } else {
                    self.current_volume
                };
                Channel1 { period_timer: self.period, current_volume: vol, ..self }
            } else {
                Channel1 { period_timer: pt, ..self }
            }
        } else {
            self
        }
    }

    fn envelope(&mut self)
        ensures
            *final(self) == old(self).after_envelope(),
    {
        if self.period != 0 {
            if self.period_timer > 0 {
                self.period_timer -= 1;
            }
            if self.period_timer == 0 {
                self.period_timer = self.period;
                if self.current_volume < 0xF && self.is_upwards {
                    self.current_volume += 1;
                } else if self.current_volume > 0x0 && !self.is_upwards {
                    self.current_volume -= 1;
                }
            }
        }
    }

    /// The sweep: every `sweep_period` steps, when the sweep is on, the
    /// frequency becomes `swept_frequency()` and the shadow follows it.
    pub open spec fn after_sweep(self) -> Channel1 {
        let st = if self.sweep_timer > 0 {
            (self.sweep_timer - 1) as u8
        } else {
            self.sweep_timer
        };
        if st == 0 {
            if self.sweep_enabled {
                Channel1 {
                    sweep_timer: self.sweep_period,
                    frequency: self.swept_frequency(),
                    shadow_frequency: self.swept_frequency(),
                    ..self
                }
            } else {
                Channel1 { sweep_timer: self.sweep_period, ..self }
            }
        } else {
            Channel1 { sweep_timer: st, ..self }
        }
    }

    fn sweep(&mut self)
        requires
            old(self).wf(),
        ensures
            *final(self) == old(self).after_sweep(),
            final(self).wf(),
    {
        if self.sweep_timer > 0 {
            self.sweep_timer -= 1;
        }
        if self.sweep_timer == 0 {
            self.sweep_timer = self.sweep_period;
            if self.sweep_enabled {
                self.frequency = self.calculate_frequency();
                self.shadow_frequency = self.frequency;
            }
        }
    }

    /// The shadow frequency moved by itself shifted right by `sweep_shift`:
    /// down (not below 0) when decrementing, up (capped at 0x3FF) otherwise.
    pub open spec fn swept_frequency(self) -> u16 {
        let delta = self.shadow_frequency >> self.sweep_shift;
        if self.is_decrementing {
            if self.shadow_frequency >= delta {
                (self.shadow_frequency - delta) as u16
            } else {
                0
            }
        } else {
            if 0x3FF < self.shadow_frequency + delta {
                0x3FF
            } else {
                (self.shadow_frequency + delta) as u16
            }
        }
    }

    fn calculate_frequency(&mut self) -> (r: u16)
        requires
            old(self).wf(),
        ensures
            r == old(self).swept_frequency(),
            *final(self) == *old(self),
            r <= old(self).shadow_frequency || r <= 0x3FF,
    {
        let s = self.shadow_frequency;
        let sh = self.sweep_shift;
        assert(s >> sh <= s) by (bit_vector);
        let new_frequency = if self.is_decrementing {
            if self.shadow_frequency >= (self.shadow_frequency >> self.sweep_shift) {
                self.shadow_frequency - (self.shadow_frequency >> self.sweep_shift)
            } else {
                0
            }
        } else {
            let up = self.shadow_frequency + (self.shadow_frequency >> self.sweep_shift);
            if 0x3FF < up {
                0x3FF
            } else {
                up
            }
        };
        new_frequency
    }

    /// The digital level this channel feeds its DAC, or `None` when the DAC
    /// or the channel is off.
    pub open spec fn level(self) -> Option<u8> {
        if self.dac_enabled && self.enabled {
            Some((duty_level(self.wave_duty_pattern, self.wave_duty_position) * self.current_volume) as u8)
        } else {
            None
        }
    }

    pub fn dac_output(&self) -> (r: Option<u8>)
        requires
            self.wf(),
        ensures
            r == self.level(),
    {
        if self.dac_enabled && self.enabled {
            let d = wave_duty(self.wave_duty_pattern, self.wave_duty_position);
            Some(d * self.current_volume)
        } else {
            None
        }
    }

    /// Register NR1x as read back; unused bits read as 1.
    pub open spec fn reg(self, x: u16) -> u8 {
        if x == 0 {
            (self.sweep_period << 4u8) | (bit(self.is_decrementing) << 3u8) | self.sweep_shift | 0x80
        } else if x == 1 {
            (self.wave_duty_pattern << 6u8) | 0b0011_1111
        } else if x == 2 {
            (self.initial_volume << 4u8) | (bit(self.is_upwards) << 3u8) | self.period
        } else if x == 4 {
            (bit(self.length_enabled) << 6u8) | 0b1011_1111
        } else {
            0xFF
        }
    }

    fn read_nr1x(&self, x: u16) -> (r: u8)
        ensures
            r == self.reg(x),
    {
        match x {
            0 => (self.sweep_period << 4) | (bit_of(self.is_decrementing) << 3) | self.sweep_shift
                | 0x80,
            1 => (self.wave_duty_pattern << 6) | 0b0011_1111,
            2 => (self.initial_volume << 4) | (bit_of(self.is_upwards) << 3) | self.period,
            3 => 0xFF,
            4 => (bit_of(self.length_enabled) << 6) | 0b1011_1111,
            _ => 0xFF,
        }
    }

    /// The channel after a write of `val` to NR1x.
    pub open spec fn reg_written(self, x: u16, val: u8) -> Channel1 {
        if x == 0 {
            Channel1 {
                sweep_period: (val >> 4u8) & 0x07,
                is_decrementing: val & 0x08 > 0,
                sweep_shift: val & 0x07,
                ..self
            }
        } else if x == 1 {
            Channel1 {
                wave_duty_pattern: (val >> 6u8) & 0b11,
                length_timer: (64 - (val & 0x3f)) as u8,
                ..self
            }
        } else if x == 2 {
            Channel1 {
                is_upwards: val & 0x08 > 0,
                initial_volume: val >> 4u8,
                period: val & 0x07,
                dac_enabled: val & 0b1111_1000 > 0,
                enabled: self.enabled && val & 0b1111_1000 > 0,
                ..self
            }
        } else if x == 3 {
            Channel1 { frequency: with_low_frequency(self.frequency, val), ..self }
        } else if x == 4 {
            let c = Channel1 {
                frequency: with_high_frequency(self.frequency, val),
                length_enabled: val & 0x40 > 0,
                length_timer: if self.length_timer == 0 {
                    64
                } else {
                    self.length_timer
                },
                ..self
            };
            if val & 0x80 > 0 && c.dac_enabled {
                Channel1 {
                    enabled: true,
                    period_timer: c.period,
                    current_volume: c.initial_volume,
                    shadow_frequency: c.frequency,
                    sweep_timer: c.sweep_period,
                    sweep_enabled: c.sweep_period > 0 || c.sweep_shift > 0,
                    ..c
                }
            } else {
                c
            }
        } else {
            self
        }
    }

    fn write_nr1x(&mut self, x: u16, val: u8)
        requires
            old(self).wf(),
        ensures
            *final(self) == old(self).reg_written(x, val),
            final(self).wf(),
    {
        proof {
            lemma_register_fields(val);
        }
        match x {
            0 => {
                self.sweep_period = (val >> 4) & 0x07;
                self.is_decrementing = val & 0x08 > 0;
                self.sweep_shift = val & 0x07;
            },
            1 => {
                self.wave_duty_pattern = (val >> 6) & 0b11;
                self.length_timer = 64 - (val & 0x3f);
            },
            2 => {
                self.is_upwards = val & 0x08 > 0;
                self.initial_volume = val >> 4;
                self.period = val & 0x07;
                self.dac_enabled = val & 0b1111_1000 > 0;
                self.enabled = self.enabled && self.dac_enabled;
            },
            3 => {
                self.frequency = low_frequency(self.frequency, val);
            },
            4 => {
                self.frequency = high_frequency(self.frequency, val);
                self.length_enabled = val & 0x40 > 0;
                if self.length_timer == 0 {
                    self.length_timer = 64;
                }
                let trigger = val & 0x80 > 0;
                if trigger && self.dac_enabled {
                    self.enabled = true;
                    self.period_timer = self.period;
                    self.current_volume = self.initial_volume;
                    self.shadow_frequency = self.frequency;
                    self.sweep_timer = self.sweep_period;
                    self.sweep_enabled = self.sweep_period > 0 || self.sweep_shift > 0;
                    self.calculate_frequency();
                }
            },
            _ => {},
        }
    }
}

/// Square channel 2.
#[derive(Clone, Copy, Debug, PartialEq, Eq, Structural)]
pub struct Channel2 {
    pub length_timer: u8,
    pub dac_enabled: bool,
    pub enabled: bool,
    pub frequency: u16,
    pub length_enabled: bool,
    pub frequency_timer: u16,
    pub wave_duty_position: usize,
    pub wave_duty_pattern: u8,
    pub period_timer: u8,
    pub current_volume: u8,
    pub initial_volume: u8,
    pub is_upwards: bool,
    pub period: u8,
}

impl Default for Channel2 {
    fn default() -> (r: Self)
        ensures
            r == (Channel2 {
                length_timer: 0,
                dac_enabled: false,
                enabled: false,
                frequency: 0,
                length_enabled: false,
                frequency_timer: 0,
                wave_duty_position: 0,
                wave_duty_pattern: 0,
                period_timer: 0,
                current_volume: 0,
                initial_volume: 0,
                is_upwards: false,
                period: 0,
            }),
    {
        Channel2 {
            length_timer: 0,
            dac_enabled: false,
            enabled: false,
            frequency: 0,
            length_enabled: false,
            frequency_timer: 0,
            wave_duty_position: 0,
            wave_duty_pattern: 0,
            period_timer: 0,
            current_volume: 0,
            initial_volume: 0,
            is_upwards: false,
            period: 0,
        }
    }
}

impl Channel2 {
    /// The state a channel is built in: everything off and zero.
    pub open spec fn is_power_on(self) -> bool {
        &&& self == (Channel2 {
            length_timer: 0,
            dac_enabled: false,
            enabled: false,
            frequency: 0,
            length_enabled: false,
            frequency_timer: 0,
            wave_duty_position: 0,
            wave_duty_pattern: 0,
            period_timer: 0,
            current_volume: 0,
            initial_volume: 0,
            is_upwards: false,
            period: 0,
        })
    }

    pub open spec fn wf(self) -> bool {
        &&& self.frequency <= 0x7FF
        &&& self.wave_duty_position < 8
        &&& self.wave_duty_pattern <= 3
        &&& self.initial_volume <= 0xF
        &&& self.current_volume <= 0xF
        &&& self.period <= 7
        &&& (self.enabled ==> self.dac_enabled)
    }

    /// One frame-sequencer step `fs`: length on even steps, the envelope on step 7.
    pub open spec fn after_fs_cycle(self, fs: u8) -> Channel2 {
        let c1 = if fs & 1 == 0 {
            self.after_length()
        } else {
            self
        };
        if fs == 7 {
            c1.after_envelope()
        } else {
            c1
        }
    }

    fn emulate_fs_cycle(&mut self, fs: u8)
        requires
            old(self).wf(),
        ensures
            *final(self) == old(self).after_fs_cycle(fs),
            final(self).wf(),
    {
        if fs & 0b1 == 0 {
            self.length()
        }
        if fs == 7 {
            self.envelope();
        }
    }

    /// One T-cycle: the frequency timer counts down; when it has run out it is
    /// reloaded with (2048 - frequency) * 4 and the waveform position moves
    /// on (modulo 8).
    pub open spec fn after_t_cycle(self) -> Channel2 {
        let c = if self.frequency_timer == 0 {
            Channel2 {
                frequency_timer: ((2048 - self.frequency) * 4) as u16,
                wave_duty_position: ((self.wave_duty_position + 1) as usize) & 7usize,
                ..self
            }
        } else {
            self
        };
        Channel2 { frequency_timer: (c.frequency_timer - 1) as u16, ..c }
    }

    fn emulate_t_cycle(&mut self)
        requires
            old(self).wf(),
        ensures
            *final(self) == old(self).after_t_cycle(),
            final(self).wf(),
    {
        if self.frequency_timer == 0 {
            self.frequency_timer = (2048 - self.frequency) * 4;
            let p = self.wave_duty_position;
            proof {
                lemma_position_wraps(p);
            }
            self.wave_duty_position = (self.wave_duty_position + 1) & 7;
        }
        self.frequency_timer -= 1;
    }

    /// The length counter: when enabled and running, it counts down, and the
    /// channel turns off when it reaches zero.
    pub open spec fn after_length(self) -> Channel2 {
        if self.length_enabled && self.length_timer > 0 {
            Channel2 {
                length_timer: (self.length_timer - 1) as u8,
                enabled: self.enabled && self.length_timer - 1 > 0,
                ..self
            }
        } else {
            self
        }
    }

    fn length(&mut self)
        ensures
            *final(self) == old(self).after_length(),
    {
        if self.length_enabled && self.length_timer > 0 {
            self.length_timer -= 1;
            self.enabled = self.enabled && self.length_timer > 0;
        }
    }

    /// The volume envelope: every `period` steps (none when the period is 0)
    /// the volume moves one step up or down, staying within 0..=15.
    pub open spec fn after_envelope(self) -> Channel2 {
        if self.period != 0 {
            let pt = if self.period_timer > 0 {
                (self.period_timer - 1) as u8
            } else {
                self.period_timer
            };
            if pt == 0 {
                let vol = if self.current_volume < 0xF && self.is_upwards {
                    (self.current_volume + 1) as u8
                } else if self.current_volume > 0 && !self.is_upwards {
                    (self.current_volume - 1) as u8
                } else {
                    self.current_volume
                };
                Channel2 { period_timer: self.period, current_volume: vol, ..self }
            } else {
                Channel2 { period_timer: pt, ..self }
            }
        } else {
            self
        }
    }

    fn envelope(&mut self)
        ensures
            *final(self) == old(self).after_envelope(),
    {
        if self.period != 0 {
            if self.period_timer > 0 {
                self.period_timer -= 1;
            }
            if self.period_timer == 0 {
                self.period_timer = self.period;
                if self.current_volume < 0xF && self.is_upwards {
                    self.current_volume += 1;
                } else if self.current_volume > 0x0 && !self.is_upwards {
                    self.current_volume -= 1;
                }
            }
        }
    }

    /// The digital level this channel feeds its DAC, or `None` when the DAC
    /// or the channel is off.
    pub open spec fn level(self) -> Option<u8> {
        if self.dac_enabled && self.enabled {
            Some((duty_level(self.wave_duty_pattern, self.wave_duty_position) * self.current_volume) as u8)
        } else {
            None
        }
    }

    pub fn dac_output(&self) -> (r: Option<u8>)
        requires
            self.wf(),
        ensures
            r == self.level(),
    {
        if self.dac_enabled && self.enabled {
            let d = wave_duty(self.wave_duty_pattern, self.wave_duty_position);
            Some(d * self.current_volume)
        } else {
            None
        }
    }

    /// Register NR2x as read back; unused bits read as 1.
    pub open spec fn reg(self, x: u16) -> u8 {
        if x == 1 {
            (self.wave_duty_pattern << 6u8) | 0b0011_1111
        } else if x == 2 {
            (self.initial_volume << 4u8) | (bit(self.is_upwards) << 3u8) | self.period
        } else if x == 4 {
            (bit(self.length_enabled) << 6u8) | 0b1011_1111
        } else {
            0xFF
        }
    }

    fn read_nr2x(&self, x: u16) -> (r: u8)
        ensures
            r == self.reg(x),
    {
        match x {
            0 => 0xFF,
            1 => (self.wave_duty_pattern << 6) | 0b0011_1111,
            2 => (self.initial_volume << 4) | (bit_of(self.is_upwards) << 3) | self.period,
            3 => 0xFF,
            4 => (bit_of(self.length_enabled) << 6) | 0b1011_1111,
            _ => 0xFF,
        }
    }

    /// The channel after a write of `val` to NR2x.
    pub open spec fn reg_written(self, x: u16, val: u8) -> Channel2 {
        if x == 1 {
            Channel2 {
                wave_duty_pattern: (val >> 6u8) & 0b11,
                length_timer: (64 - (val & 0x3f)) as u8,
                ..self
            }
        } else if x == 2 {
            Channel2 {
                is_upwards: val & 0x08 > 0,
                initial_volume: val >> 4u8,
                period: val & 0x07,
                dac_enabled: val & 0b1111_1000 > 0,
                enabled: self.enabled && val & 0b1111_1000 > 0,
                ..self
            }
        } else if x == 3 {
            Channel2 { frequency: with_low_frequency(self.frequency, val), ..self }
        } else if x == 4 {
            let c = Channel2 {
                frequency: with_high_frequency(self.frequency, val),
                length_enabled: val & 0x40 > 0,
                length_timer: if self.length_timer == 0 {
                    64
                } else {
                    self.length_timer
                },
                ..self
            };
            if val & 0x80 > 0 && c.dac_enabled {
                Channel2 {
                    enabled: true,
                    period_timer: c.period,
                    current_volume: c.initial_volume,
                    ..c
                }
            } else {
                c
            }
        } else {
            self
        }
    }

    fn write_nr2x(&mut self, x: u16, val: u8)
        requires
            old(self).wf(),
        ensures
            *final(self) == old(self).reg_written(x, val),
            final(self).wf(),
    {
        proof {
            lemma_register_fields(val);
        }
        match x {
            0 => {},
            1 => {
                self.wave_duty_pattern = (val >> 6) & 0b11;
                self.length_timer = 64 - (val & 0x3f);
            },
            2 => {
                self.is_upwards = val & 0x08 > 0;
                self.initial_volume = val >> 4;
                self.period = val & 0x07;
                self.dac_enabled = val & 0b1111_1000 > 0;
                self.enabled = self.enabled && self.dac_enabled;
            },
            3 => {
                self.frequency = low_frequency(self.frequency, val);
            },
            4 => {
                self.frequency = high_frequency(self.frequency, val);
                self.length_enabled = val & 0x40 > 0;
                if self.length_timer == 0 {
                    self.length_timer = 64;
                }
                let trigger = val & 0x80 > 0;
                if trigger && self.dac_enabled {
                    self.enabled = true;
                    self.period_timer = self.period;
                    self.current_volume = self.initial_volume;
                }
            },
            _ => {},
        }
    }
}

/// The wave channel, which plays 32 four-bit samples from wave RAM.
#[derive(Clone, Copy, Debug)]
pub struct Channel3 {
    pub length_timer: u16,
    pub dac_enabled: bool,
    pub enabled: bool,
    pub frequency: u16,
    pub length_enabled: bool,
    pub frequency_timer: u16,
    pub wave_duty_position: usize,
    pub output_level: u8,
    pub volume_shift: u8,
    pub wave_ram: [u8; 16],
}

impl Default for Channel3 {
    fn default() -> (r: Self)
        ensures
            r == (Channel3 {
                length_timer: 0,
                dac_enabled: false,
                enabled: false,
                frequency: 0,
                length_enabled: false,
                frequency_timer: 0,
                wave_duty_position: 0,
                output_level: 0,
                volume_shift: 0,
                wave_ram: r.wave_ram,
            }),
            r.wave_ram@ == Seq::new(16, |i: int| 0u8),
    {
        Channel3 {
            length_timer: 0,
            dac_enabled: false,
            enabled: false,
            frequency: 0,
            length_enabled: false,
            frequency_timer: 0,
            wave_duty_position: 0,
            output_level: 0,
            volume_shift: 0,
            wave_ram: [0, 0, 0, 0, 0, 0, 0, 0, 0, 0, 0, 0, 0, 0, 0, 0],
        }
    }
}

impl Channel3 {
    /// The state a channel is built in: everything off and zero.
    pub open spec fn is_power_on(self) -> bool {
        &&& self == (Channel3 {
            length_timer: 0,
            dac_enabled: false,
            enabled: false,
            frequency: 0,
            length_enabled: false,
            frequency_timer: 0,
            wave_duty_position: 0,
            output_level: 0,
            volume_shift: 0,
            wave_ram: self.wave_ram,
        })
        &&& self.wave_ram@ == Seq::new(16, |i: int| 0u8)
    }

    pub open spec fn wf(self) -> bool {
        &&& self.frequency <= 0x7FF
        &&& self.wave_duty_position < 32
        &&& self.output_level <= 3
        &&& self.volume_shift <= 4
        &&& (self.enabled ==> self.dac_enabled)
    }

    /// One frame-sequencer step `fs`: length on even steps.
    pub open spec fn after_fs_cycle(self, fs: u8) -> Channel3 {
        if fs & 1 == 0 {
            self.after_length()
        } else {
            self
        }
    }

    fn emulate_fs_cycle(&mut self, fs: u8)
        requires
            old(self).wf(),
        ensures
            *final(self) == old(self).after_fs_cycle(fs),
            final(self).wf(),
    {
        if fs & 0b1 == 0 {
            self.length()
        }
    }

    /// One T-cycle: the frequency timer counts down; when it has run out it is
    /// reloaded with (2048 - frequency) * 2 and the waveform position moves
    /// on (modulo 32).
    pub open spec fn after_t_cycle(self) -> Channel3 {
        let c = if self.frequency_timer == 0 {
            Channel3 {
                frequency_timer: ((2048 - self.frequency) * 2) as u16,
                wave_duty_position: ((self.wave_duty_position + 1) as usize) & 31usize,
                ..self
            }
        } else {
            self
        };
        Channel3 { frequency_timer: (c.frequency_timer - 1) as u16, ..c }
    }

    fn emulate_t_cycle(&mut self)
        requires
            old(self).wf(),
        ensures
            *final(self) == old(self).after_t_cycle(),
            final(self).wf(),
    {
        if self.frequency_timer == 0 {
            self.frequency_timer = (2048 - self.frequency) * 2;
            let p = self.wave_duty_position;
            proof {
                lemma_position_wraps(p);
            }
            self.wave_duty_position = (self.wave_duty_position + 1) & 31;
        }
        self.frequency_timer -= 1;
    }

    /// The length counter: when enabled and running, it counts down, and the
    /// channel turns off when it reaches zero.
    pub open spec fn after_length(self) -> Channel3 {
        if self.length_enabled && self.length_timer > 0 {
            Channel3 {
                length_timer: (self.length_timer - 1) as u16,
                enabled: self.enabled && self.length_timer - 1 > 0,
                ..self
            }
        } else {
            self
        }
    }

    fn length(&mut self)
        ensures
            *final(self) == old(self).after_length(),
    {
        if self.length_enabled && self.length_timer > 0 {
            self.length_timer -= 1;
            self.enabled = self.enabled && self.length_timer > 0;
        }
    }

    /// The sample at the current position: wave RAM byte `position >> 1`, its
    /// low nibble for even positions and its high nibble for odd ones, shifted right by
    /// the volume shift; `None` when the DAC or the channel is off.
    pub open spec fn level(self) -> Option<u8> {
        if self.dac_enabled && self.enabled {
            let byte = self.wave_ram@[(self.wave_duty_position >> 1usize) as int];
            let nibble = if self.wave_duty_position & 1 == 0 {
                byte & 0xF
            } else {
                byte >> 4u8
            };
            Some(nibble >> self.volume_shift)
        } else {
            None
        }
    }

    pub fn dac_output(&self) -> (r: Option<u8>)
        requires
            self.wf(),
        ensures
            r == self.level(),
    {
        if self.dac_enabled && self.enabled {
            let pos = self.wave_duty_position;
            proof {
                lemma_wave_nibble(pos, 0);
            }
            let byte = self.wave_ram[pos >> 1];
            proof {
                lemma_wave_nibble(pos, byte);
            }
            let shift = ((pos & 1) << 2) as u8;
            Some((0xF & (byte >> shift)) >> self.volume_shift)
        } else {
            None
        }
    }

    /// The channel with wave RAM byte `i` replaced by `val`.
    pub open spec fn with_wave_byte(self, i: int, val: u8) -> Channel3 {
        Channel3 { wave_ram: vstd::array::spec_array_update(self.wave_ram, i, val), ..self }
    }

    /// Register NR3x as read back; unused bits read as 1.
    pub open spec fn reg(self, x: u16) -> u8 {
        if x == 0 {
            (bit(self.dac_enabled) << 7u8) | 0x7F
        } else if x == 2 {
            (self.output_level << 5u8) | 0x9F
        } else if x == 4 {
            (bit(self.length_enabled) << 6u8) | 0b1011_1111
        } else {
            0xFF
        }
    }

    fn read_nr3x(&self, x: u16) -> (r: u8)
        ensures
            r == self.reg(x),
    {
        match x {
            0 => (bit_of(self.dac_enabled) << 7) | 0x7F,
            1 => 0xFF,
            2 => (self.output_level << 5) | 0x9F,
            3 => 0xFF,
            4 => (bit_of(self.length_enabled) << 6) | 0b1011_1111,
            _ => 0xFF,
        }
    }

    /// The volume shift for an output level: 0 mutes (shift 4), 1, 2 and 3
    /// shift by 0, 1 and 2.
    pub open spec fn shift_for(level: u8) -> u8 {
        if level == 0 {
            4
        } else {
            (level - 1) as u8
        }
    }

    /// The channel after a write of `val` to NR3x.
    pub open spec fn reg_written(self, x: u16, val: u8) -> Channel3 {
        if x == 0 {
            Channel3 {
                dac_enabled: val & 0x80 > 0,
                enabled: self.enabled && val & 0x80 > 0,
                ..self
            }
        } else if x == 1 {
            Channel3 { length_timer: (256 - val) as u16, ..self }
        } else if x == 2 {
            Channel3 {
                output_level: (val >> 5u8) & 0x03,
                volume_shift: Self::shift_for((val >> 5u8) & 0x03),
                ..self
            }
        } else if x == 3 {
            Channel3 { frequency: with_low_frequency(self.frequency, val), ..self }
        } else if x == 4 {
            let c = Channel3 {
                frequency: with_high_frequency(self.frequency, val),
                length_enabled: val & 0x40 > 0,
                length_timer: if self.length_timer == 0 {
                    256
                } else {
                    self.length_timer
                },
                ..self
            };
            if val & 0x80 > 0 && c.dac_enabled {
                Channel3 { enabled: true, ..c }
            } else {
                c
            }
        } else {
            self
        }
    }

    fn write_nr3x(&mut self, x: u16, val: u8)
        requires
            old(self).wf(),
        ensures
            *final(self) == old(self).reg_written(x, val),
            final(self).wf(),
    {
        proof {
            lemma_register_fields(val);
        }
        match x {
            0 => {
                self.dac_enabled = val & 0x80 > 0;
                self.enabled = self.enabled && self.dac_enabled;
            },
            1 => {
                self.length_timer = 256 - val as u16;
            },
            2 => {
                self.output_level = (val >> 5) & 0x03;
                let dec = self.output_level.wrapping_sub(1);
                self.volume_shift = if 4 < dec {
                    4
                } else {
                    dec
                };
            },
            3 => {
                self.frequency = low_frequency(self.frequency, val);
            },
            4 => {
                self.frequency = high_frequency(self.frequency, val);
                self.length_enabled = val & 0x40 > 0;
                if self.length_timer == 0 {
                    self.length_timer = 256;
                }
                let trigger = val & 0x80 > 0;
                if trigger && self.dac_enabled {
                    self.enabled = true;
                }
            },
            _ => {},
        }
    }
}

/// The noise channel, driven by a linear-feedback shift register.
#[derive(Clone, Copy, Debug, PartialEq, Eq, Structural)]
pub struct Channel4 {
    pub length_timer: u8,
    pub dac_enabled: bool,
    pub enabled: bool,
    pub length_enabled: bool,
    pub frequency_timer: u32,
    pub period_timer: u8,
    pub current_volume: u8,
    pub initial_volume: u8,
    pub is_upwards: bool,
    pub period: u8,
    pub lfsr: u16,
    pub shift_amount: usize,
    pub width_mode: bool,
    pub divisor_code: u16,
}

impl Default for Channel4 {
    fn default() -> (r: Self)
        ensures
            r == (Channel4 {
                length_timer: 0,
                dac_enabled: false,
                enabled: false,
                length_enabled: false,
                frequency_timer: 0,
                period_timer: 0,
                current_volume: 0,
                initial_volume: 0,
                is_upwards: false,
                period: 0,
                lfsr: 0,
                shift_amount: 0,
                width_mode: false,
                divisor_code: 0,
            }),
    {
        Channel4 {
            length_timer: 0,
            dac_enabled: false,
            enabled: false,
            length_enabled: false,
            frequency_timer: 0,
            period_timer: 0,
            current_volume: 0,
            initial_volume: 0,
            is_upwards: false,
            period: 0,
            lfsr: 0,
            shift_amount: 0,
            width_mode: false,
            divisor_code: 0,
        }
    }
}

impl Channel4 {
    /// The state a channel is built in: everything off and zero.
    pub open spec fn is_power_on(self) -> bool {
        &&& self == (Channel4 {
            length_timer: 0,
            dac_enabled: false,
            enabled: false,
            length_enabled: false,
            frequency_timer: 0,
            period_timer: 0,
            current_volume: 0,
            initial_volume: 0,
            is_upwards: false,
            period: 0,
            lfsr: 0,
            shift_amount: 0,
            width_mode: false,
            divisor_code: 0,
        })
    }

    pub open spec fn wf(self) -> bool {
        &&& self.initial_volume <= 0xF
        &&& self.current_volume <= 0xF
        &&& self.period <= 7
        &&& self.shift_amount <= 15
        &&& self.divisor_code <= 7
        &&& self.lfsr <= 0x7FFF
        &&& (self.enabled ==> self.dac_enabled)
    }

    /// One frame-sequencer step `fs`: length on even steps, the envelope on step 7.
    pub open spec fn after_fs_cycle(self, fs: u8) -> Channel4 {
        let c1 = if fs & 1 == 0 {
            self.after_length()
        } else {
            self
        };
        if fs == 7 {
            c1.after_envelope()
        } else {
            c1
        }
    }

    fn emulate_fs_cycle(&mut self, fs: u8)
        requires
            old(self).wf(),
        ensures
            *final(self) == old(self).after_fs_cycle(fs),
            final(self).wf(),
    {
        if fs & 0b1 == 0 {
            self.length();
        }
        if fs == 7 {
            self.envelope();
        }
    }

    /// The timer period: the divisor (8 for code 0, else 16 times the code)
    /// shifted left by the clock shift.
    pub open spec fn timer_period(self) -> u32 {
        let d = if 8 < (self.divisor_code as u32) << 4u32 {
            (self.divisor_code as u32) << 4u32
        } else {
            8u32
        };
        d << (self.shift_amount as u32)
    }

    /// The shift register after one clock: it shifts right, and the XOR of
    /// its two low bits enters at bit 14 (and at bit 6 too in width mode).
    pub open spec fn lfsr_next(self) -> u16 {
        let xor = (self.lfsr & 0b01) ^ ((self.lfsr & 0b10) >> 1u16);
        let l = (self.lfsr >> 1u16) | (xor << 14u16);
        if self.width_mode {
            (l & !(1u16 << 6u16)) | (xor << 6u16)
        } else {
            l
        }
    }

    /// One T-cycle: the frequency timer counts down; when it has run out it is
    /// reloaded with `timer_period()` and the shift register is clocked.
    pub open spec fn after_t_cycle(self) -> Channel4 {
        let c = if self.frequency_timer == 0 {
            Channel4 { frequency_timer: self.timer_period(), lfsr: self.lfsr_next(), ..self }
        } else {
            self
        };
        Channel4 { frequency_timer: (c.frequency_timer - 1) as u32, ..c }
    }

    fn emulate_t_cycle(&mut self)
        requires
            old(self).wf(),
        ensures
            *final(self) == old(self).after_t_cycle(),
            final(self).wf(),
    {
        if self.frequency_timer == 0 {
            let code = self.divisor_code as u32;
            let sh = self.shift_amount as u32;
            proof {
                lemma_noise_clock(code, sh, self.lfsr);
            }
            let d = if 8 < (code << 4) {
                code << 4
            } else {
                8
            };
            self.frequency_timer = d << sh;
            let xor = (self.lfsr & 0b01) ^ ((self.lfsr & 0b10) >> 1);
            self.lfsr = (self.lfsr >> 1) | (xor << 14);
            if self.width_mode {
                self.lfsr = self.lfsr & !(1 << 6);
                self.lfsr = self.lfsr | (xor << 6);
            }
        }
        self.frequency_timer -= 1;
    }

    /// The length counter: when enabled and running, it counts down, and the
    /// channel turns off when it reaches zero.
    pub open spec fn after_length(self) -> Channel4 {
        if self.length_enabled && self.length_timer > 0 {
            Channel4 {
                length_timer: (self.length_timer - 1) as u8,
                enabled: self.enabled && self.length_timer - 1 > 0,
                ..self
            }
        } else {
            self
        }
    }

    fn length(&mut self)
        ensures
            *final(self) == old(self).after_length(),
    {
        if self.length_enabled && self.length_timer > 0 {
            self.length_timer -= 1;
            self.enabled = self.enabled && self.length_timer > 0;
        }
    }

    /// The volume envelope: every `period` steps (none when the period is 0)
    /// the volume moves one step up or down, staying within 0..=15.
    pub open spec fn after_envelope(self) -> Channel4 {
        if self.period != 0 {
            let pt = if self.period_timer > 0 {
                (self.period_timer - 1) as u8
            } else {
                self.period_timer
            };
            if pt == 0 {
                let vol = if self.current_volume < 0xF && self.is_upwards {
                    (self.current_volume + 1) as u8
                } else if self.current_volume > 0 && !self.is_upwards {
                    (self.current_volume - 1) as u8
                } else {
                    self.current_volume
                };
                Channel4 { period_timer: self.period, current_volume: vol, ..self }
            } else {
                Channel4 { period_timer: pt, ..self }
            }
        } else {
            self
        }
    }

    fn envelope(&mut self)
        ensures
            *final(self) == old(self).after_envelope(),
    {
        if self.period != 0 {
            if self.period_timer > 0 {
                self.period_timer -= 1;
            }
            if self.period_timer == 0 {
                self.period_timer = self.period;
                if self.current_volume < 0xF && self.is_upwards {
                    self.current_volume += 1;
                } else if self.current_volume > 0x0 && !self.is_upwards {
                    self.current_volume -= 1;
                }
            }
        }
    }

    /// The level this channel feeds its DAC: the volume when bit 0 of the
    /// shift register is set, else 0; `None` when the DAC or the channel is off.
    pub open spec fn level(self) -> Option<u8> {
        if self.dac_enabled && self.enabled {
            Some(((self.lfsr & 1) as u8 * self.current_volume) as u8)
        } else {
            None
        }
    }

    pub fn dac_output(&self) -> (r: Option<u8>)
        requires
            self.wf(),
        ensures
            r == self.level(),
    {
        if self.dac_enabled && self.enabled {
            let l = self.lfsr;
            assert(l & 1u16 <= 1) by (bit_vector);
            let b = (self.lfsr & 1) as u8;
            let v = self.current_volume;
            assert(b * v <= 15) by (nonlinear_arith)
                requires
                    b <= 1,
                    v <= 15,
            ;
            Some(b * v)
        } else {
            None
        }
    }

    /// Register NR4x as read back; unused bits read as 1.
    pub open spec fn reg(self, x: u16) -> u8 {
        if x == 2 {
            (self.initial_volume << 4u8) | (bit(self.is_upwards) << 3u8) | self.period
        } else if x == 3 {
            ((self.shift_amount as u8) << 4u8) | (bit(self.width_mode) << 3u8) | (
            self.divisor_code as u8)
        } else if x == 4 {
            (bit(self.length_enabled) << 6u8) | 0b1011_1111
        } else {
            0xFF
        }
    }

    fn read_nr4x(&self, x: u16) -> (r: u8)
        requires
            self.wf(),
        ensures
            r == self.reg(x),
    {
        match x {
            0 => 0xFF,
            1 => 0xFF,
            2 => (self.initial_volume << 4) | (bit_of(self.is_upwards) << 3) | self.period,
            3 => ((self.shift_amount as u8) << 4) | (bit_of(self.width_mode) << 3)
                | self.divisor_code as u8,
            4 => (bit_of(self.length_enabled) << 6) | 0b1011_1111,
            _ => 0xFF,
        }
    }

    /// The channel after a write of `val` to NR4x.
    pub open spec fn reg_written(self, x: u16, val: u8) -> Channel4 {
        if x == 1 {
            Channel4 { length_timer: (64 - (val & 0x3f)) as u8, ..self }
        } else if x == 2 {
            Channel4 {
                is_upwards: val & 0x08 > 0,
                initial_volume: val >> 4u8,
                period: val & 0x07,
                dac_enabled: val & 0b1111_1000 > 0,
                enabled: self.enabled && val & 0b1111_1000 > 0,
                ..self
            }
        } else if x == 3 {
            Channel4 {
                shift_amount: ((val >> 4u8) & 0x0F) as usize,
                width_mode: val & 0x08 > 0,
                divisor_code: (val & 0x07) as u16,
                ..self
            }
        } else if x == 4 {
            let c = Channel4 {
                length_enabled: val & 0x40 > 0,
                length_timer: if self.length_timer == 0 {
                    64
                } else {
                    self.length_timer
                },
                ..self
            };
            let trigger = val & 0x80 > 0;
            let c2 = if trigger && c.dac_enabled {
                Channel4 { enabled: true, ..c }
            } else {
                c
            };
            if trigger {
                Channel4 {
                    lfsr: 0x7FFF,
                    period_timer: c2.period,
                    current_volume: c2.initial_volume,
                    ..c2
                }
            } else {
                c2
            }
        } else {
            self
        }
    }

    fn write_nr4x(&mut self, x: u16, val: u8)
        requires
            old(self).wf(),
        ensures
            *final(self) == old(self).reg_written(x, val),
            final(self).wf(),
    {
        proof {
            lemma_register_fields(val);
        }
        match x {
            0 => {},
            1 => {
                self.length_timer = 64 - (val & 0x3f);
            },
            2 => {
                self.is_upwards = val & 0x08 > 0;
                self.initial_volume = val >> 4;
                self.period = val & 0x07;
                self.dac_enabled = val & 0b1111_1000 > 0;
                self.enabled = self.enabled && self.dac_enabled;
            },
            3 => {
                self.shift_amount = ((val >> 4) & 0x0F) as usize;
                self.width_mode = val & 0x08 > 0;
                self.divisor_code = (val & 0x07) as u16;
            },
            4 => {
                self.length_enabled = val & 0x40 > 0;
                if self.length_timer == 0 {
                    self.length_timer = 64;
                }
                let trigger = val & 0x80 > 0;
                if trigger && self.dac_enabled {
                    self.enabled = true;
                }
                if trigger {
                    self.lfsr = 0x7FFF;
                    self.period_timer = self.period;
                    self.current_volume = self.initial_volume;
                }
            },
            _ => {},
        }
    }
}

/// What the mixer reads when a sample falls due: the digital level each channel
/// feeds its DAC (`None` when the DAC or the channel is off), and the master
/// volume (NR50) and panning (NR51) registers.
#[derive(Clone, Copy, Debug, PartialEq, Eq)]
pub struct SampleLevels {
    pub channel1: Option<u8>,
    pub channel2: Option<u8>,
    pub channel3: Option<u8>,
    pub channel4: Option<u8>,
    pub nr50: u8,
    pub nr51: u8,
}

/// Whether `addr` is one of the sound registers (0xFF10..=0xFF26) or wave RAM
/// (0xFF30..=0xFF3F).
pub open spec fn apu_addr(addr: u16) -> bool {
    (0xFF10 <= addr <= 0xFF26) || (0xFF30 <= addr <= 0xFF3F)
}

/// Registers that stay writable while the APU is off: the length registers of
/// each channel and NR52 itself.
pub open spec fn writable_when_off(addr: u16) -> bool {
    addr == 0xFF11 || addr == 0xFF16 || addr == 0xFF1B || addr == 0xFF20 || addr == 0xFF26
}

/// The sound unit: master enable, the volume and panning registers, the
/// frame sequencer and the four channels.
pub struct Apu {
    pub enabled: bool,
    pub nr50: u8,
    pub nr51: u8,
    pub cycles: u128,
    pub fs: u8,
    pub channel1: Channel1,
    pub channel2: Channel2,
    pub channel3: Channel3,
    pub channel4: Channel4,
}

/// The T-cycle counter stays below 0x2000 unless it wraps to a frame-sequencer
/// step, and the frame sequencer counts modulo 8.
proof fn lemma_counter_wraps(c: u128, f: u8)
    ensures
        c <= 0x2000 && c & 0x1FFFu128 != 0 ==> c < 0x2000,
        (f + 1) as u8 & 7u8 < 8,
{
    assert(c <= 0x2000 && c & 0x1FFFu128 != 0 ==> c < 0x2000) by (bit_vector);
    assert((f + 1) as u8 & 7u8 < 8) by (bit_vector);
}

impl Apu {
    pub open spec fn wf(self) -> bool {
        &&& self.cycles < 0x2000
        &&& self.fs < 8
        &&& self.channel1.wf()
        &&& self.channel2.wf()
        &&& self.channel3.wf()
        &&& self.channel4.wf()
    }

    pub fn new() -> (r: Self)
        ensures
            r.wf(),
            !r.enabled,
            r.nr50 == 0,
            r.nr51 == 0,
            r.cycles == 0,
            r.fs == 0,
            r.channel1.is_power_on(),
            r.channel2.is_power_on(),
            r.channel3.is_power_on(),
            r.channel4.is_power_on(),
    {
        Apu {
            enabled: false,
            nr50: 0,
            nr51: 0,
            cycles: 0,
            fs: 0,
            channel1: Channel1::default(),
            channel2: Channel2::default(),
            channel3: Channel3::default(),
            channel4: Channel4::default(),
        }
    }

    /// One T-cycle: every channel runs a cycle; every 0x2000 cycles the frame
    /// sequencer steps every channel and advances (modulo 8).
    pub open spec fn after_t_cycle(self) -> Apu {
        let cyc = (self.cycles + 1) as u128;
        let a = Apu {
            cycles: cyc,
            channel1: self.channel1.after_t_cycle(),
            channel2: self.channel2.after_t_cycle(),
            channel3: self.channel3.after_t_cycle(),
            channel4: self.channel4.after_t_cycle(),
            ..self
        };
        if cyc & 0x1FFF == 0 {
            Apu {
                channel1: a.channel1.after_fs_cycle(self.fs),
                channel2: a.channel2.after_fs_cycle(self.fs),
                channel3: a.channel3.after_fs_cycle(self.fs),
                channel4: a.channel4.after_fs_cycle(self.fs),
                cycles: 0,
                fs: (self.fs + 1) as u8 & 7,
                ..a
            }
        } else {
            a
        }
    }

    /// One T-cycle of the sound unit (see `after_t_cycle`). Returns whether an
    /// output sample is due after it: every `SAMPLE_PERIOD` cycles of the
    /// counter.
    pub fn emulate_t_cycle(&mut self) -> (sample_due: bool)
        requires
            old(self).wf(),
        ensures
            *final(self) == old(self).after_t_cycle(),
            final(self).wf(),
            sample_due == (final(self).cycles % SAMPLE_PERIOD == 0),
    {
        self.cycles += 1;
        self.channel1.emulate_t_cycle();
        self.channel2.emulate_t_cycle();
        self.channel3.emulate_t_cycle();
        self.channel4.emulate_t_cycle();
        let c = self.cycles;
        let f = self.fs;
        proof {
            lemma_counter_wraps(c, f);
        }
        if self.cycles & 0x1FFF == 0 {
            self.channel1.emulate_fs_cycle(self.fs);
            self.channel2.emulate_fs_cycle(self.fs);
            self.channel3.emulate_fs_cycle(self.fs);
            self.channel4.emulate_fs_cycle(self.fs);
            self.cycles = 0;
            self.fs = (self.fs + 1) & 7;
        }
        self.cycles % SAMPLE_PERIOD == 0
    }

    /// The levels the mixer reads from the unit as it is.
    pub open spec fn sample_levels(self) -> SampleLevels {
        SampleLevels {
            channel1: self.channel1.level(),
            channel2: self.channel2.level(),
            channel3: self.channel3.level(),
            channel4: self.channel4.level(),
            nr50: self.nr50,
            nr51: self.nr51,
        }
    }

    fn levels(&self) -> (r: SampleLevels)
        requires
            self.wf(),
        ensures
            r == self.sample_levels(),
    {
        SampleLevels {
            channel1: self.channel1.dac_output(),
            channel2: self.channel2.dac_output(),
            channel3: self.channel3.dac_output(),
            channel4: self.channel4.dac_output(),
            nr50: self.nr50,
            nr51: self.nr51,
        }
    }

    /// The unit after `n` T-cycles, with the levels taken after each of them
    /// at which a sample fell due, in order.
    pub open spec fn after_t_cycles(self, n: nat) -> (Apu, Seq<SampleLevels>)
        decreases n,
    {
        if n == 0 {
            (self, Seq::empty())
        } else {
            let (a, s) = self.after_t_cycles((n - 1) as nat);
            let b = a.after_t_cycle();
            if b.cycles % SAMPLE_PERIOD == 0 {
                (b, s.push(b.sample_levels()))
            } else {
                (b, s)
            }
        }
    }

    /// One machine cycle of the sound unit: four T-cycles. Returns the levels
    /// for each output sample that fell due during them, in order.
    pub fn emulate_cycle(&mut self) -> (samples: Vec<SampleLevels>)
        requires
            old(self).wf(),
        ensures
            (*final(self), samples@) == old(self).after_t_cycles(4),
            final(self).wf(),
    {
        let ghost start = *self;
        let mut samples: Vec<SampleLevels> = Vec::new();
        let mut i: u8 = 0;
        while i < 4
            invariant
                i <= 4,
                self.wf(),
                (*self, samples@) == start.after_t_cycles(i as nat),
            decreases 4 - i,
        {
            if self.emulate_t_cycle() {
                let l = self.levels();
                samples.push(l);
            }
            i = i + 1;
        }
        samples
    }

    /// NR52 as read back: the four channel-on bits, three unused bits set, and
    /// the master enable in bit 7.
    pub open spec fn status(self) -> u8 {
        bit(self.channel1.enabled) | (bit(self.channel2.enabled) << 1u8) | (bit(
            self.channel3.enabled,
        ) << 2u8) | (bit(self.channel4.enabled) << 3u8) | 0x70 | (bit(self.enabled) << 7u8)
    }

    /// The byte a read of `addr` gives.
    pub open spec fn reg(self, addr: u16) -> u8 {
        if addr == 0xFF24 {
            self.nr50
        } else if addr == 0xFF25 {
            self.nr51
        } else if addr == 0xFF26 {
            self.status()
        } else if 0xFF10 <= addr <= 0xFF14 {
            self.channel1.reg((addr - 0xFF10) as u16)
        } else if 0xFF15 <= addr <= 0xFF19 {
            self.channel2.reg((addr - 0xFF15) as u16)
        } else if 0xFF1A <= addr <= 0xFF1E {
            self.channel3.reg((addr - 0xFF1A) as u16)
        } else if 0xFF1F <= addr <= 0xFF23 {
            self.channel4.reg((addr - 0xFF1F) as u16)
        } else {
            self.channel3.wave_ram@[addr - 0xFF30]
        }
    }

    pub fn read(&self, addr: u16) -> (r: u8)
        requires
            self.wf(),
            apu_addr(addr),
        ensures
            r == self.reg(addr),
    {
        if addr == 0xFF24 {
            self.nr50
        } else if addr == 0xFF25 {
            self.nr51
        } else if addr == 0xFF26 {
            bit_of(self.channel1.enabled) | (bit_of(self.channel2.enabled) << 1) | (bit_of(
                self.channel3.enabled,
            ) << 2) | (bit_of(self.channel4.enabled) << 3) | 0x70 | (bit_of(self.enabled) << 7)
        } else if 0xFF10 <= addr && addr <= 0xFF14 {
            self.channel1.read_nr1x(addr - 0xFF10)
        } else if 0xFF15 <= addr && addr <= 0xFF19 {
            self.channel2.read_nr2x(addr - 0xFF15)
        } else if 0xFF1A <= addr && addr <= 0xFF1E {
            self.channel3.read_nr3x(addr - 0xFF1A)
        } else if 0xFF1F <= addr && addr <= 0xFF23 {
            self.channel4.read_nr4x(addr - 0xFF1F)
        } else {
            self.channel3.wave_ram[(addr - 0xFF30) as usize]
        }
    }

    /// The unit after `val` is stored in the register at `addr` (not NR52).
    pub open spec fn reg_written(self, addr: u16, val: u8) -> Apu {
        if addr == 0xFF24 {
            Apu { nr50: val, ..self }
        } else if addr == 0xFF25 {
            Apu { nr51: val, ..self }
        } else if 0xFF10 <= addr <= 0xFF14 {
            Apu { channel1: self.channel1.reg_written((addr - 0xFF10) as u16, val), ..self }
        } else if 0xFF15 <= addr <= 0xFF19 {
            Apu { channel2: self.channel2.reg_written((addr - 0xFF15) as u16, val), ..self }
        } else if 0xFF1A <= addr <= 0xFF1E {
            Apu { channel3: self.channel3.reg_written((addr - 0xFF1A) as u16, val), ..self }
        } else if 0xFF1F <= addr <= 0xFF23 {
            Apu { channel4: self.channel4.reg_written((addr - 0xFF1F) as u16, val), ..self }
        } else {
            Apu { channel3: self.channel3.with_wave_byte((addr - 0xFF30) as int, val), ..self }
        }
    }

    fn write_register(&mut self, addr: u16, val: u8)
        requires
            old(self).wf(),
            apu_addr(addr),
            addr != 0xFF26,
        ensures
            *final(self) == old(self).reg_written(addr, val),
            final(self).wf(),
    {
        if addr == 0xFF24 {
            self.nr50 = val;
        } else if addr == 0xFF25 {
            self.nr51 = val;
        } else if 0xFF10 <= addr && addr <= 0xFF14 {
            self.channel1.write_nr1x(addr - 0xFF10, val);
        } else if 0xFF15 <= addr && addr <= 0xFF19 {
            self.channel2.write_nr2x(addr - 0xFF15, val);
        } else if 0xFF1A <= addr && addr <= 0xFF1E {
            self.channel3.write_nr3x(addr - 0xFF1A, val);
        } else if 0xFF1F <= addr && addr <= 0xFF23 {
            self.channel4.write_nr4x(addr - 0xFF1F, val);
        } else {
            self.channel3.wave_ram[(addr - 0xFF30) as usize] = val;
        }
    }

    /// The unit after zero is stored in the first `k` registers from 0xFF10
    /// on, in order.
    pub open spec fn zeroed(self, k: nat) -> Apu
        decreases k,
    {
        if k == 0 {
            self
        } else {
            self.zeroed((k - 1) as nat).reg_written((0xFF10 + k - 1) as u16, 0)
        }
    }

    /// The unit after a write of `val` to `addr`. While the unit is off, only
    /// the length registers, NR52 and wave RAM take writes, and the length
    /// registers of channels 1, 2 and 4 keep only their low six bits. A write
    /// to NR52 switches the unit on or off by bit 7: switching off clears
    /// every register from 0xFF10 to 0xFF25; switching on restarts the frame
    /// sequencer and the waveform positions of channels 1 to 3.
    pub open spec fn written(self, addr: u16, val: u8) -> Apu {
        if !self.enabled && !writable_when_off(addr) && !(0xFF30 <= addr <= 0xFF3F) {
            self
        } else {
            let v = if !self.enabled && (addr == 0xFF11 || addr == 0xFF16 || addr == 0xFF20) {
                val & 0b0011_1111
            } else {
                val
            };
            if addr == 0xFF26 {
                let on = v & 0x80 > 0;
                let a = if !on && self.enabled {
                    self.zeroed(22)
                } else if on && !self.enabled {
                    Apu {
                        fs: 0,
                        channel1: Channel1 { wave_duty_position: 0, ..self.channel1 },
                        channel2: Channel2 { wave_duty_position: 0, ..self.channel2 },
                        channel3: Channel3 { wave_duty_position: 0, ..self.channel3 },
                        ..self
                    }
                } else {
                    self
                };
                Apu { enabled: on, ..a }
            } else {
                self.reg_written(addr, v)
            }
        }
    }

    pub fn write(&mut self, addr: u16, val: u8)
        requires
            old(self).wf(),
            old(self).enabled ==> apu_addr(addr),
        ensures
            *final(self) == old(self).written(addr, val),
            final(self).wf(),
    {
        let mut val = val;
        if !self.enabled && !(addr == 0xFF11 || addr == 0xFF16 || addr == 0xFF1B || addr == 0xFF20
            || addr == 0xFF26) && !(0xFF30 <= addr && addr <= 0xFF3F) {
            return ;
        }
        assert(apu_addr(addr));
        if !self.enabled && (addr == 0xFF11 || addr == 0xFF16 || addr == 0xFF20) {
            val &= 0b0011_1111;
        }
        if addr == 0xFF26 {
            let enabled = val & 0x80 > 0;
            if !enabled && self.enabled {
                let ghost start = *self;
                let mut a: u16 = 0xFF10;
                while a <= 0xFF25
                    invariant
                        0xFF10 <= a <= 0xFF26,
                        self.wf(),
                        *self == start.zeroed((a - 0xFF10) as nat),
                    decreases 0xFF26 - a,
                {
                    self.write_register(a, 0x00);
                    a = a + 1;
                }
            } else if enabled && !self.enabled {
                self.fs = 0;
                self.channel1.wave_duty_position = 0;
                self.channel2.wave_duty_position = 0;
                self.channel3.wave_duty_position = 0;
            }
            self.enabled = enabled;
        } else {
            self.write_register(addr, val);
        }
    }
}

/// The volume envelope of channel 1: with period 0 nothing changes;
/// otherwise the period timer counts down, and when it runs out (from 1 or 0)
/// it is reloaded with the period and the volume takes one step up or down,
/// staying within 0..=15.
pub proof fn lemma_envelope_1(c: Channel1)
    requires
        c.current_volume <= 15,
    ensures
        c.after_envelope().current_volume <= 15,
        c.period == 0 ==> c.after_envelope() == c,
        c.period != 0 && c.period_timer <= 1 ==> c.after_envelope() == (Channel1 {
            period_timer: c.period,
            current_volume: if c.is_upwards {
                if c.current_volume < 15 {
                    (c.current_volume + 1) as u8
                } else {
                    15
                }
            } else {
                if c.current_volume > 0 {
                    (c.current_volume - 1) as u8
                } else {
                    0
                }
            },
            ..c
        }),
        c.period != 0 && c.period_timer >= 2 ==> c.after_envelope() == (Channel1 {
            period_timer: (c.period_timer - 1) as u8,
            ..c
        }),
{
}

/// The volume envelope of channel 2: with period 0 nothing changes;
/// otherwise the period timer counts down, and when it runs out (from 1 or 0)
/// it is reloaded with the period and the volume takes one step up or down,
/// staying within 0..=15.
pub proof fn lemma_envelope_2(c: Channel2)
    requires
        c.current_volume <= 15,
    ensures
        c.after_envelope().current_volume <= 15,
        c.period == 0 ==> c.after_envelope() == c,
        c.period != 0 && c.period_timer <= 1 ==> c.after_envelope() == (Channel2 {
            period_timer: c.period,
            current_volume: if c.is_upwards {
                if c.current_volume < 15 {
                    (c.current_volume + 1) as u8
                } else {
                    15
                }
            } else {
                if c.current_volume > 0 {
                    (c.current_volume - 1) as u8
                } else {
                    0
                }
            },
            ..c
        }),
        c.period != 0 && c.period_timer >= 2 ==> c.after_envelope() == (Channel2 {
            period_timer: (c.period_timer - 1) as u8,
            ..c
        }),
{
}

/// The volume envelope of channel 4: with period 0 nothing changes;
/// otherwise the period timer counts down, and when it runs out (from 1 or 0)
/// it is reloaded with the period and the volume takes one step up or down,
/// staying within 0..=15.
pub proof fn lemma_envelope_4(c: Channel4)
    requires
        c.current_volume <= 15,
    ensures
        c.after_envelope().current_volume <= 15,
        c.period == 0 ==> c.after_envelope() == c,
        c.period != 0 && c.period_timer <= 1 ==> c.after_envelope() == (Channel4 {
            period_timer: c.period,
            current_volume: if c.is_upwards {
                if c.current_volume < 15 {
                    (c.current_volume + 1) as u8
                } else {
                    15
                }
            } else {
                if c.current_volume > 0 {
                    (c.current_volume - 1) as u8
                } else {
                    0
                }
            },
            ..c
        }),
        c.period != 0 && c.period_timer >= 2 ==> c.after_envelope() == (Channel4 {
            period_timer: (c.period_timer - 1) as u8,
            ..c
        }),
{
}

/// A write to NR1x keeps a channel that is on with its DAC on: writing NR12
/// switches the DAC by the five high bits (and a channel whose DAC goes off
/// goes off too), and a trigger through NR14 turns the channel on exactly when
/// its DAC is on.
pub proof fn lemma_nr1x_dac(c: Channel1, x: u16, val: u8)
    requires
        c.enabled ==> c.dac_enabled,
    ensures
        c.reg_written(x, val).enabled ==> c.reg_written(x, val).dac_enabled,
        x == 2 ==> c.reg_written(x, val).dac_enabled == (val & 0xF8 != 0),
        x == 2 && val & 0xF8 == 0 ==> !c.reg_written(x, val).enabled,
        x == 4 && val & 0x80 != 0 ==> c.reg_written(x, val).enabled == c.reg_written(
            x,
            val,
        ).dac_enabled,
{
}

/// The bit identities behind reading a register back: each field a write
/// takes from `v`, put back in place, gives `v` with the unread bits set.
proof fn lemma_register_bits(v: u8)
    by (bit_vector)
    ensures
        ({
            let d: u8 = if v & 0x08u8 > 0 { 1u8 } else { 0u8 };
            let l: u8 = if v & 0x40u8 > 0 { 1u8 } else { 0u8 };
            let e: u8 = if v & 0x80u8 > 0 { 1u8 } else { 0u8 };
            &&& (((v >> 4u8) & 0x07u8) << 4u8) | (d << 3u8) | (v & 0x07u8) | 0x80u8 == v | 0x80u8
            &&& (((v >> 6u8) & 0b11u8) << 6u8) | 0b0011_1111u8 == v | 0x3Fu8
            &&& ((v >> 4u8) << 4u8) | (d << 3u8) | (v & 0x07u8) == v
            &&& (l << 6u8) | 0b1011_1111u8 == v | 0xBFu8
            &&& (v & 0x40u8) | 0xBFu8 == v | 0xBFu8
            &&& (e << 7u8) | 0x7Fu8 == v | 0x7Fu8
            &&& (((v >> 5u8) & 0x03u8) << 5u8) | 0x9Fu8 == v | 0x9Fu8
            &&& (((((v >> 4u8) & 0x0Fu8) as usize) as u8) << 4u8) | (d << 3u8) | (((v & 0x07u8)
                as u16) as u8) == v
            &&& v | 0xFFu8 == 0xFFu8
            &&& v | 0u8 == v
        }),
{
}

/// Reading NR1x right after writing `v` to it gives `v` with the unused bits
/// set: NR10 reads `v | 0x80`, NR11 `v | 0x3F` (only the duty reads back),
/// NR12 `v`, NR13 0xFF (write-only) and NR14 `(v & 0x40) | 0xBF`.
pub proof fn lemma_nr1x_read_back(c: Channel1, v: u8)
    ensures
        c.reg_written(0, v).reg(0) == v | 0x80,
        c.reg_written(1, v).reg(1) == v | 0x3F,
        c.reg_written(2, v).reg(2) == v,
        c.reg_written(3, v).reg(3) == 0xFF,
        c.reg_written(4, v).reg(4) == (v & 0x40) | 0xBF,
{
    lemma_register_bits(v);
}

/// The bits of each sound register that read back as 1 whatever was written:
/// the unused and write-only bits (every bit of NR13, NR18, NR1B, NR1D and
/// NR20, and of the unused NR15 and NR1F).
pub open spec fn read_mask(addr: u16) -> u8 {
    if addr == 0xFF10 {
        0x80
    } else if addr == 0xFF11 || addr == 0xFF16 {
        0x3F
    } else if addr == 0xFF12 || addr == 0xFF17 || addr == 0xFF21 || addr == 0xFF22 || addr
        == 0xFF24 || addr == 0xFF25 {
        0x00
    } else if addr == 0xFF14 || addr == 0xFF19 || addr == 0xFF1E || addr == 0xFF23 {
        0xBF
    } else if addr == 0xFF1A {
        0x7F
    } else if addr == 0xFF1C {
        0x9F
    } else {
        0xFF
    }
}

/// With the unit on, reading a sound register (0xFF10..=0xFF25) right after
/// writing `v` to it gives `v` with that register's unread bits set; in
/// particular NR12, NR17, NR21, NR22 (NR43), NR50 and NR51 read back exactly
/// what was written. A wave RAM byte reads back as written, on or off.
pub proof fn lemma_register_read_back(apu: Apu, addr: u16, v: u8)
    ensures
        apu.enabled && 0xFF10 <= addr <= 0xFF25 ==> apu.written(addr, v).reg(addr) == v
            | read_mask(addr),
        0xFF30 <= addr <= 0xFF3F ==> apu.written(addr, v).reg(addr) == v,
{
    lemma_register_bits(v);
    assert(bit(v & 0x08 > 0) == (if v & 0x08u8 > 0 { 1u8 } else { 0u8 }));
    assert(bit(v & 0x40 > 0) == (if v & 0x40u8 > 0 { 1u8 } else { 0u8 }));
    assert(bit(v & 0x80 > 0) == (if v & 0x80u8 > 0 { 1u8 } else { 0u8 }));
}

proof fn lemma_wave_shift_bits(val: u8, n: u8, b: u8)
    by (bit_vector)
    ensures
        (val >> 5u8) & 0x03u8 == (val / 32) % 4,
        n <= 15 ==> n >> 4u8 == 0 && n >> 0u8 == n && n >> 1u8 == n / 2 && n >> 2u8 == n / 4,
        (b & 0xFu8) <= 15 && (b >> 4u8) <= 15,
{
}

/// NR32 sets how loud channel 3 plays its wave samples. With output level
/// `(val / 32) % 4` (bits 5 and 6): level 0 mutes the channel (every 4-bit
/// sample comes out 0, so the channel gives level 0 or is off), level 1 plays a
/// sample as it is, level 2 at half and level 3 at a quarter, rounding down.
/// Writes to the other NR3x registers leave the setting as it was.
pub proof fn lemma_wave_volume(c: Channel3, val: u8, n: u8, x: u16)
    requires
        n <= 15,
    ensures
        (val / 32) % 4 == 0 ==> n >> c.reg_written(2, val).volume_shift == 0,
        (val / 32) % 4 == 1 ==> n >> c.reg_written(2, val).volume_shift == n,
        (val / 32) % 4 == 2 ==> n >> c.reg_written(2, val).volume_shift == n / 2,
        (val / 32) % 4 == 3 ==> n >> c.reg_written(2, val).volume_shift == n / 4,
        (val / 32) % 4 == 0 ==> c.reg_written(2, val).level() is None || c.reg_written(
            2,
            val,
        ).level() == Some(0u8),
        x != 2 ==> c.reg_written(x, val).volume_shift == c.volume_shift,
{
    lemma_wave_shift_bits(val, n, 0);
    let d = c.reg_written(2, val);
    if d.dac_enabled && d.enabled {
        let byte = d.wave_ram@[(d.wave_duty_position >> 1usize) as int];
        lemma_wave_shift_bits(val, byte & 0xF, byte);
        lemma_wave_shift_bits(val, byte >> 4u8, byte);
    }
}

/// One sweep calculation of channel 1 moves the frequency by `d`, the shadow
/// frequency shifted right by the sweep shift (never more than the shadow
/// frequency itself): up with the negate bit clear, capped at 0x3FF, so that a
/// frequency within 0..=0x3FF never falls; down with it set, so that it never
/// rises. When a sweep step fires, the channel plays the new frequency.
pub proof fn lemma_sweep_direction(c: Channel1)
    ensures
        ({
            let f = c.shadow_frequency;
            let d = f >> c.sweep_shift;
            let g = c.swept_frequency();
            &&& d <= f
            &&& !c.is_decrementing ==> g <= f + d && (g == 0x3FF || g == f + d)
            &&& !c.is_decrementing && f <= 0x3FF ==> f <= g <= 0x3FF
            &&& c.is_decrementing ==> g == f - d && g <= f
            &&& c.after_sweep().frequency == c.frequency || (c.after_sweep().frequency == g
                && c.after_sweep().shadow_frequency == g)
        }),
{
    let f = c.shadow_frequency;
    let sh = c.sweep_shift;
    assert(f >> sh <= f) by (bit_vector);
}

/// While the unit is off, a write to any register but the length registers,
/// NR52 and wave RAM changes nothing.
pub proof fn lemma_off_ignores_writes(apu: Apu, addr: u16, val: u8)
    requires
        !apu.enabled,
        !writable_when_off(addr),
        !(0xFF30 <= addr <= 0xFF3F),
    ensures
        apu.written(addr, val) == apu,
{
}

/// Zero masked with anything is zero.
proof fn lemma_zero_masks()
    by (bit_vector)
    ensures
        forall|x: u8| #[trigger] (0u8 & x) == 0u8,
{
}

/// Switching the unit off (a write to NR52 with bit 7 clear) silences every
/// channel and clears the master volume and panning, so that NR52 then reads
/// 0x70; wave RAM is kept.
pub proof fn lemma_power_off(apu: Apu, val: u8)
    requires
        apu.enabled,
        val & 0x80 == 0,
    ensures
        !apu.written(0xFF26, val).enabled,
        apu.written(0xFF26, val).nr50 == 0,
        apu.written(0xFF26, val).nr51 == 0,
        !apu.written(0xFF26, val).channel1.enabled,
        !apu.written(0xFF26, val).channel2.enabled,
        !apu.written(0xFF26, val).channel3.enabled,
        !apu.written(0xFF26, val).channel4.enabled,
        apu.written(0xFF26, val).status() == 0x70,
        apu.written(0xFF26, val).channel3.wave_ram == apu.channel3.wave_ram,
{
    reveal_with_fuel(Apu::zeroed, 23);
    lemma_zero_masks();
    let a = apu.written(0xFF26, val);
    assert(bit(false) == 0);
    assert((0u8 | (0u8 << 1u8) | (0u8 << 2u8) | (0u8 << 3u8) | 0x70u8 | (0u8 << 7u8)) == 0x70u8)
        by (bit_vector);
}

} // verus!
