// The audio processing unit of the 2A03 (integer part: channels, frame counter, mixer inputs).
use vstd::prelude::*;
use crate::bits::bit;
use crate::memory::MemMapped;

verus! {

pub const OUTPUT_SAMPLE_RATE: usize = 44_100;

pub const DELAY_CYCLES_PER_IRQ_WRITE: u64 = 29835;

/// Frame counter step cycles, 4-step mode (NTSC).
pub open spec fn fc_4step_table() -> [u64; 4] {
    [7457, 14913, 22371, 29829]
}

/// Length counter lookup table.
pub open spec fn lc_lookup(index: u8) -> u8 {
    match index {
        0 => 10, 1 => 254, 2 => 20, 3 => 2, 4 => 40, 5 => 4, 6 => 80, 7 => 6,
        8 => 160, 9 => 8, 10 => 60, 11 => 10, 12 => 14, 13 => 12, 14 => 26, 15 => 14,
        16 => 12, 17 => 16, 18 => 24, 19 => 18, 20 => 48, 21 => 20, 22 => 96, 23 => 22,
        24 => 192, 25 => 24, 26 => 72, 27 => 26, 28 => 16, 29 => 28, 30 => 32, 31 => 30,
        _ => 0,
    }
}

pub fn lc_lookup_table(index: u8) -> (r: u8)
    ensures
        r == lc_lookup(index),
{
    match index {
        0 => 10, 1 => 254, 2 => 20, 3 => 2, 4 => 40, 5 => 4, 6 => 80, 7 => 6,
        8 => 160, 9 => 8, 10 => 60, 11 => 10, 12 => 14, 13 => 12, 14 => 26, 15 => 14,
        16 => 12, 17 => 16, 18 => 24, 19 => 18, 20 => 48, 21 => 20, 22 => 96, 23 => 22,
        24 => 192, 25 => 24, 26 => 72, 27 => 26, 28 => 16, 29 => 28, 30 => 32, 31 => 30,
        _ => 0,
    }
}

/// Pulse waveform table: the output of step `step` of duty cycle `duty`.
pub open spec fn pulse_duty(duty: u8, step: usize) -> u8 {
    if step >= 8 || duty >= 4 {
        0
    } else if duty == 0 {
        if step == 1 { 1 } else { 0 }
    } else if duty == 1 {
        if step == 1 || step == 2 { 1 } else { 0 }
    } else if duty == 2 {
        if 1 <= step <= 4 { 1 } else { 0 }
    } else {
        if step == 1 || step == 2 { 0 } else { 1 }
    }
}

pub fn pulse_duty_table(duty: u8, step: usize) -> (r: u8)
    ensures
        r == pulse_duty(duty, step),
{
    if step >= 8 || duty >= 4 {
        0
    } else if duty == 0 {
        if step == 1 { 1 } else { 0 }
    } else if duty == 1 {
        if step == 1 || step == 2 { 1 } else { 0 }
    } else if duty == 2 {
        if 1 <= step && step <= 4 { 1 } else { 0 }
    } else {
        if step == 1 || step == 2 { 0 } else { 1 }
    }
}

/// Triangle waveform table: 15 down to 0, then 0 up to 15.
pub open spec fn triangle_waveform(step: usize) -> u8 {
    if step < 16 {
        (15 - step) as u8
    } else if step < 32 {
        (step - 16) as u8
    } else {
        0
    }
}

pub fn triangle_waveform_table(step: usize) -> (r: u8)
    ensures
        r == triangle_waveform(step),
{
    if step < 16 {
        (15 - step) as u8
    } else if step < 32 {
        (step - 16) as u8
    } else {
        0
    }
}

/// Noise period table.
pub open spec fn noise_period(index: u8) -> u16 {
    match index {
        0 => 4, 1 => 8, 2 => 16, 3 => 32, 4 => 64, 5 => 96, 6 => 128, 7 => 160,
        8 => 202, 9 => 254, 10 => 380, 11 => 508, 12 => 762, 13 => 1016, 14 => 2034, _ => 4068,
    }
}

pub fn noise_period_table(index: u8) -> (r: u16)
    ensures
        r == noise_period(index),
{
    match index {
        0 => 4, 1 => 8, 2 => 16, 3 => 32, 4 => 64, 5 => 96, 6 => 128, 7 => 160,
        8 => 202, 9 => 254, 10 => 380, 11 => 508, 12 => 762, 13 => 1016, 14 => 2034, _ => 4068,
    }
}

//
// APU Envelope
//
#[derive(Debug, Default, Clone, Copy)]
pub struct Envelope {
    pub start: bool,
    pub period: u8,
    pub decay: u8,
}

impl Envelope {
    /// One envelope clock: a restart loads the divider and sets decay to 15; otherwise the
    /// divider counts down and, when it expires, decay counts down (or loops back to 15).
    pub open spec fn spec_clock(self, volume: u8, env_loop: bool) -> Envelope {
        if self.start {
            Envelope { start: false, period: volume, decay: 15 }
        } else if self.period == 0 {
            Envelope {
                period: volume,
                decay: if self.decay > 0 { (self.decay - 1) as u8 } else if env_loop { 15 } else { self.decay },
                ..self
            }
        } else {
            Envelope { period: (self.period - 1) as u8, ..self }
        }
    }

    pub fn clock(&mut self, volume: u8, env_loop: bool)
        ensures
            *final(self) == old(self).spec_clock(volume, env_loop),
    {
        if self.start {
            self.start = false;
            self.period = volume;
            self.decay = 15;
        } else {
            if self.period == 0 {
                self.period = volume;
                if self.decay > 0 {
                    self.decay -= 1;
                } else if env_loop {
                    self.decay = 15;
                }
            } else {
                self.period -= 1;
            }
        }
    }
}

//
// APU Sweep
//
#[derive(Debug, Default, Clone, Copy)]
pub struct Sweep {
    pub enabled: bool,
    pub period: u8,
    pub negate: bool,
    pub is_twos_complement_negate: bool,
    pub shift: u8,
    pub divider: u8,
    pub reload_flag: bool,
    pub should_mute: bool,
    pub new_timer: u16,
}

/// `timer >> shift`, 0 for shifts of 16 or more.
pub open spec fn shr16(timer: u16, shift: u8) -> u16 {
    if shift < 16 { timer >> (shift as u16) } else { 0 }
}

impl Sweep {
    /// Whether this clock adjusts the period; the divider reloads when it expires or was asked to.
    pub open spec fn spec_clock(self) -> (Sweep, bool) {
        let result = self.enabled && self.divider == 0 && self.shift > 0 && !self.should_mute;
        let s = if self.divider == 0 || self.reload_flag {
            Sweep { divider: self.period, reload_flag: false, ..self }
        } else {
            Sweep { divider: (self.divider - 1) as u8, ..self }
        };
        (s, result)
    }

    pub fn clock(&mut self) -> (r: bool)
        ensures
            (*final(self), r) == old(self).spec_clock(),
    {
        let result = self.enabled && self.divider == 0 && self.shift > 0 && !self.should_mute;

        if self.divider == 0 || self.reload_flag {
            self.divider = self.period;
            self.reload_flag = false;
        } else {
            self.divider -= 1;
        }

        result
    }

    /// The target period: the timer plus or minus `timer >> shift` (one less for the
    /// one's-complement negate of pulse 1), clamped at the ends; muted below 8 or above 0x7FF.
    pub open spec fn spec_target(self, timer: u16) -> Sweep {
        let change_amount = shr16(timer, self.shift);
        let extra: int = if self.is_twos_complement_negate { 0 } else { 1 };
        let result: u16 = if self.negate {
            if timer - (change_amount + extra) < 0 { 0 } else { (timer - (change_amount + extra)) as u16 }
        } else {
            if timer + change_amount > 0xFFFF { 0xFFFF } else { (timer + change_amount) as u16 }
        };
        Sweep { new_timer: result, should_mute: timer < 8 || result > 0x7FF, ..self }
    }

    pub fn set_target_period(&mut self, timer: u16)
        ensures
            *final(self) == old(self).spec_target(timer),
    {
        let change_amount: u16 = if self.shift < 16 { timer >> (self.shift as u16) } else { 0 };
        let extra: u16 = if self.is_twos_complement_negate { 0 } else { 1 };
        let result = if self.negate {
            if (timer as u32) < (change_amount as u32) + (extra as u32) {
                0
            } else {
                timer - change_amount - extra
            }
        } else {
            timer.saturating_add(change_amount)
        };

        self.new_timer = result;
        self.should_mute = timer < 8 || self.new_timer > 0x7FF;
    }
}

//
// Pulse channels
//
#[derive(Debug, Default, Clone, Copy)]
pub struct Pulse {
    pub enabled: bool,
    // Duty for current APU frame
    pub duty: u8,
    pub waveform_counter: usize,
    // Volume for current APU frame
    pub constant_volume: bool,
    pub volume: u8,
    pub envelope: Envelope,
    pub sweep: Sweep,
    // Timer is 11-bit (bits 11-15 are disregarded)
    pub timer: u16,
    pub timer_counter: u16,
    pub lc_halt_env_loop: bool,
    pub length_counter: u8,
    pub is_muted: bool,
}

impl Pulse {
    pub open spec fn spec_new(is_sweep_twos_complement_negate: bool) -> Pulse {
        Pulse {
            enabled: false,
            duty: 0,
            waveform_counter: 0,
            constant_volume: false,
            volume: 0,
            envelope: Envelope { start: false, period: 0, decay: 0 },
            sweep: Sweep {
                enabled: false,
                period: 0,
                negate: false,
                is_twos_complement_negate: is_sweep_twos_complement_negate,
                shift: 0,
                divider: 0,
                reload_flag: false,
                should_mute: false,
                new_timer: 0,
            },
            timer: 0,
            timer_counter: 0,
            lc_halt_env_loop: false,
            length_counter: 0,
            is_muted: false,
        }
    }

    pub fn new(is_sweep_twos_complement_negate: bool) -> (r: Pulse)
        ensures
            r == Pulse::spec_new(is_sweep_twos_complement_negate),
    {
        Pulse {
            enabled: false,
            duty: 0,
            waveform_counter: 0,
            constant_volume: false,
            volume: 0,
            envelope: Envelope { start: false, period: 0, decay: 0 },
            sweep: Sweep {
                enabled: false,
                period: 0,
                negate: false,
                is_twos_complement_negate: is_sweep_twos_complement_negate,
                shift: 0,
                divider: 0,
                reload_flag: false,
                should_mute: false,
                new_timer: 0,
            },
            timer: 0,
            timer_counter: 0,
            lc_halt_env_loop: false,
            length_counter: 0,
            is_muted: false,
        }
    }

    /// Register writes: 0 = DDLC VVVV, 1 = EPPP NSSS, 2 = timer low, 3 = LLLL LTTT.
    pub open spec fn spec_write_reg(self, reg_index: usize, byte: u8) -> Pulse {
        if reg_index == 0 {
            Pulse {
                duty: byte / 64,
                constant_volume: bit(byte, 4),
                volume: byte % 16,
                lc_halt_env_loop: bit(byte, 5),
                ..self
            }
        } else if reg_index == 1 {
            let sweep = Sweep {
                enabled: bit(byte, 7),
                period: (byte / 16) % 8,
                negate: bit(byte, 3),
                shift: byte % 8,
                reload_flag: true,
                ..self.sweep
            };
            Pulse { sweep: sweep.spec_target(self.timer), ..self }
        } else if reg_index == 2 {
            let timer = ((self.timer / 256) * 256 + byte) as u16;
            Pulse { timer, sweep: self.sweep.spec_target(timer), ..self }
        } else if reg_index == 3 {
            let timer = ((byte % 8) * 256 + self.timer % 256) as u16;
            Pulse {
                timer,
                sweep: self.sweep.spec_target(timer),
                timer_counter: timer,
                waveform_counter: 0,
                length_counter: if self.enabled { lc_lookup(byte / 8) } else { 0 },
                envelope: Envelope { start: true, ..self.envelope },
                ..self
            }
        } else {
            self
        }
    }

    pub fn write_reg(&mut self, reg_index: usize, byte: u8)
        ensures
            *final(self) == old(self).spec_write_reg(reg_index, byte),
    {
        if reg_index == 0 {
            self.write_ddlcvvvv(byte);
        } else if reg_index == 1 {
            self.write_epppnsss(byte);
        } else if reg_index == 2 {
            self.write_tttttttt(byte);
        } else if reg_index == 3 {
            self.write_lllllttt(byte);
        }
    }

    fn write_ddlcvvvv(&mut self, byte: u8)
        ensures
            *final(self) == old(self).spec_write_reg(0, byte),
    {
        self.duty = byte >> 6;
        proof { crate::bits::lemma_byte_ops(byte); }

        self.constant_volume = crate::bits::get_bit(byte, 4);
        self.volume = byte & 0b1111;
        proof { crate::bits::lemma_byte_ops(byte); }

        self.lc_halt_env_loop = crate::bits::get_bit(byte, 5);
    }

    fn write_epppnsss(&mut self, byte: u8)
        ensures
            *final(self) == old(self).spec_write_reg(1, byte),
    {
        self.sweep.enabled = crate::bits::get_bit(byte, 7);
        self.sweep.period = (byte >> 4) & 0b111;
        proof { crate::bits::lemma_byte_ops(byte); }
        self.sweep.negate = crate::bits::get_bit(byte, 3);
        self.sweep.shift = byte & 0b111;
        proof { crate::bits::lemma_byte_ops(byte); }
        self.sweep.reload_flag = true;
        let timer = self.timer;
        self.sweep.set_target_period(timer);
    }

    fn write_tttttttt(&mut self, byte: u8)
        ensures
            *final(self) == old(self).spec_write_reg(2, byte),
    {
        let timer_high = self.timer >> 8;
        let timer_low = byte as u16;
        let t = self.timer;
        proof { crate::bits::lemma_timer_ops(t, byte); }
        self.timer = (timer_high << 8) | timer_low;
        let timer = self.timer;
        self.sweep.set_target_period(timer);
    }

    fn write_lllllttt(&mut self, byte: u8)
        ensures
            *final(self) == old(self).spec_write_reg(3, byte),
    {
        let timer_high = (byte & 0b111) as u16;
        let timer_low = self.timer & 0xFF;
        let t = self.timer;
        assert(((byte & 0b111) as u16) << 8 | (t & 0xFF) == (byte % 8) * 256 + t % 256) by (bit_vector);
        self.timer = (timer_high << 8) | timer_low;
        let timer = self.timer;
        self.sweep.set_target_period(timer);

        self.timer_counter = self.timer;
        self.waveform_counter = 0;

        let length_counter_index = byte >> 3;
        proof { crate::bits::lemma_byte_ops(byte); }
        self.length_counter = if self.enabled {
            lc_lookup_table(length_counter_index)
        } else {
            0
        };

        self.envelope.start = true;
    }

    pub open spec fn spec_is_enabled(self) -> bool {
        self.enabled && self.length_counter > 0
    }

    pub fn is_enabled(&self) -> (r: bool)
        ensures
            r == self.spec_is_enabled(),
    {
        self.enabled && self.length_counter > 0
    }

    pub open spec fn spec_toggle_enabled(self, enabled: bool) -> Pulse {
        Pulse { enabled, length_counter: if enabled { self.length_counter } else { 0 }, ..self }
    }

    pub fn toggle_enabled(&mut self, enabled: bool)
        ensures
            *final(self) == old(self).spec_toggle_enabled(enabled),
    {
        self.enabled = enabled;
        if !enabled {
            self.length_counter = 0;
        }
    }

    pub open spec fn spec_is_audible(self) -> bool {
        self.enabled && self.length_counter > 0 && !self.sweep.should_mute && !self.is_muted
    }

    pub fn is_audible(&self) -> (r: bool)
        ensures
            r == self.spec_is_audible(),
    {
        self.enabled && self.length_counter > 0 && !self.sweep.should_mute && !self.is_muted
    }

    /// The timer counts down; when it expires it reloads and the sequencer steps back by one (mod 8).
    pub open spec fn spec_clock_timer(self) -> Pulse {
        if self.timer_counter == 0 {
            Pulse {
                timer_counter: self.timer,
                waveform_counter: if self.waveform_counter == 0 { 7 } else { (self.waveform_counter - 1) as usize },
                ..self
            }
        } else {
            Pulse { timer_counter: (self.timer_counter - 1) as u16, ..self }
        }
    }

    pub fn clock_timer(&mut self)
        ensures
            *final(self) == old(self).spec_clock_timer(),
    {
        if self.timer_counter == 0 {
            self.timer_counter = self.timer;

            if self.waveform_counter == 0 {
                self.waveform_counter = 7;
            } else {
                self.waveform_counter -= 1;
            }
        } else {
            self.timer_counter -= 1;
        }
    }

    pub open spec fn spec_clock_length_counter(self) -> Pulse {
        if self.enabled && self.length_counter > 0 && !self.lc_halt_env_loop {
            Pulse { length_counter: (self.length_counter - 1) as u8, ..self }
        } else {
            self
        }
    }

    pub fn clock_length_counter(&mut self)
        ensures
            *final(self) == old(self).spec_clock_length_counter(),
    {
        if !self.enabled {
            return;
        }
        if self.length_counter > 0 && !self.lc_halt_env_loop {
            self.length_counter -= 1;
        }
    }

    pub open spec fn spec_clock_envelope(self) -> Pulse {
        Pulse { envelope: self.envelope.spec_clock(self.volume, self.lc_halt_env_loop), ..self }
    }

    pub fn clock_envelope(&mut self)
        ensures
            *final(self) == old(self).spec_clock_envelope(),
    {
        let volume = self.volume;
        let env_loop = self.lc_halt_env_loop;
        self.envelope.clock(volume, env_loop);
    }

    pub open spec fn spec_clock_sweep(self) -> Pulse {
        let (sweep, set) = self.sweep.spec_clock();
        if set {
            Pulse { timer: sweep.new_timer, sweep: sweep.spec_target(sweep.new_timer), ..self }
        } else {
            Pulse { sweep, ..self }
        }
    }

    pub fn clock_sweep(&mut self)
        ensures
            *final(self) == old(self).spec_clock_sweep(),
    {
        let should_set_timer = self.sweep.clock();

        if should_set_timer {
            self.timer = self.sweep.new_timer;
            let timer = self.timer;
            self.sweep.set_target_period(timer);
        }
    }

    pub fn set_muted(&mut self, is_muted: bool)
        ensures
            *final(self) == (Pulse { is_muted, ..*old(self) }),
    {
        self.is_muted = is_muted
    }

    /// The duty step times the volume (constant volume or envelope decay), 0 when silent.
    pub open spec fn spec_output(self) -> u8 {
        if self.spec_is_audible() {
            let volume = if self.constant_volume { self.volume } else { self.envelope.decay };
            (pulse_duty(self.duty, self.waveform_counter) * volume) as u8
        } else {
            0
        }
    }

    pub fn output(&self) -> (r: u8)
        ensures
            r == self.spec_output(),
    {
        if self.is_audible() {
            let waveform = pulse_duty_table(self.duty, self.waveform_counter);
            let volume = if self.constant_volume { self.volume } else { self.envelope.decay };
            waveform * volume
        } else {
            0
        }
    }
}

//
// Triangle channel
//
#[derive(Debug, Default, Clone, Copy)]
pub struct Triangle {
    pub enabled: bool,
    pub waveform_counter: usize,
    pub lengthc_halt_linearc_control: bool,
    pub linear_counter_load: u8,
    pub should_load_linear_counter: bool,
    pub linear_counter: u8,
    pub timer: u16,
    pub timer_counter: u16,
    pub length_counter: u8,
    pub is_muted: bool,
}

impl Triangle {
    pub open spec fn spec_new() -> Triangle {
        Triangle {
            enabled: false,
            waveform_counter: 0,
            lengthc_halt_linearc_control: false,
            linear_counter_load: 0,
            should_load_linear_counter: false,
            linear_counter: 0,
            timer: 0,
            timer_counter: 0,
            length_counter: 0,
            is_muted: false,
        }
    }

    pub fn new() -> (r: Triangle)
        ensures
            r == Triangle::spec_new(),
    {
        Triangle {
            enabled: false,
            waveform_counter: 0,
            lengthc_halt_linearc_control: false,
            linear_counter_load: 0,
            should_load_linear_counter: false,
            linear_counter: 0,
            timer: 0,
            timer_counter: 0,
            length_counter: 0,
            is_muted: false,
        }
    }

    /// Register writes: 0 = CRRR RRRR, 1 = unused, 2 = timer low, 3 = LLLL LTTT.
    pub open spec fn spec_write_reg(self, reg_index: usize, byte: u8) -> Triangle {
        if reg_index == 0 {
            Triangle { lengthc_halt_linearc_control: bit(byte, 7), linear_counter_load: byte % 128, ..self }
        } else if reg_index == 2 {
            Triangle { timer: ((self.timer / 256) * 256 + byte) as u16, ..self }
        } else if reg_index == 3 {
            Triangle {
                timer: ((byte % 8) * 256 + self.timer % 256) as u16,
                length_counter: if self.enabled { lc_lookup(byte / 8) } else { 0 },
                should_load_linear_counter: true,
                ..self
            }
        } else {
            self
        }
    }

    pub fn write_reg(&mut self, reg_index: usize, byte: u8)
        ensures
            *final(self) == old(self).spec_write_reg(reg_index, byte),
    {
        if reg_index == 0 {
            self.write_crrrrrrr(byte);
        } else if reg_index == 1 {
            self.write_uuuuuuuu(byte);
        } else if reg_index == 2 {
            self.write_tttttttt(byte);
        } else if reg_index == 3 {
            self.write_lllllttt(byte);
        }
    }

    fn write_crrrrrrr(&mut self, byte: u8)
        ensures
            *final(self) == old(self).spec_write_reg(0, byte),
    {
        self.lengthc_halt_linearc_control = crate::bits::get_bit(byte, 7);
        self.linear_counter_load = byte & 0b0111_1111;
        proof { crate::bits::lemma_byte_ops(byte); }
    }

    fn write_uuuuuuuu(&mut self, _byte: u8)
        ensures
            *final(self) == *old(self),
    {
    }

    fn write_tttttttt(&mut self, byte: u8)
        ensures
            *final(self) == old(self).spec_write_reg(2, byte),
    {
        let timer_high = self.timer >> 8;
        let timer_low = byte as u16;
        let t = self.timer;
        proof { crate::bits::lemma_timer_ops(t, byte); }
        self.timer = (timer_high << 8) | timer_low;
    }

    fn write_lllllttt(&mut self, byte: u8)
        ensures
            *final(self) == old(self).spec_write_reg(3, byte),
    {
        let timer_high = byte & 0b111;
        let timer_low = self.timer & 0xFF;
        let t = self.timer;
        assert(((byte & 0b111) as u16) << 8 | (t & 0xFF) == (byte % 8) * 256 + t % 256) by (bit_vector);
        self.timer = ((timer_high as u16) << 8) | timer_low;

        let length_counter_index = byte >> 3;
        proof { crate::bits::lemma_byte_ops(byte); }
        self.length_counter = if self.enabled {
            lc_lookup_table(length_counter_index)
        } else {
            0
        };
        self.should_load_linear_counter = true;
    }

    pub open spec fn spec_is_enabled(self) -> bool {
        self.enabled && self.length_counter > 0
    }

    pub fn is_enabled(&self) -> (r: bool)
        ensures
            r == self.spec_is_enabled(),
    {
        self.enabled && self.length_counter > 0
    }

    pub open spec fn spec_toggle_enabled(self, enabled: bool) -> Triangle {
        Triangle { enabled, length_counter: if enabled { self.length_counter } else { 0 }, ..self }
    }

    pub fn toggle_enabled(&mut self, enabled: bool)
        ensures
            *final(self) == old(self).spec_toggle_enabled(enabled),
    {
        self.enabled = enabled;

        if !enabled {
            self.length_counter = 0;
        }
    }

    pub open spec fn spec_is_audible(self) -> bool {
        self.spec_is_enabled() && self.linear_counter > 0 && !self.is_muted
    }

    pub fn is_audible(&self) -> (r: bool)
        ensures
            r == self.spec_is_audible(),
    {
        self.is_enabled() && self.linear_counter > 0 && !self.is_muted
    }

    /// The timer counts down; when it expires it reloads and the sequencer steps back by one (mod 32).
    pub open spec fn spec_clock_timer(self) -> Triangle {
        if self.timer_counter == 0 {
            Triangle {
                timer_counter: self.timer,
                waveform_counter: if self.waveform_counter == 0 { 31 } else { (self.waveform_counter - 1) as usize },
                ..self
            }
        } else {
            Triangle { timer_counter: (self.timer_counter - 1) as u16, ..self }
        }
    }

    pub fn clock_timer(&mut self)
        ensures
            *final(self) == old(self).spec_clock_timer(),
    {
        if self.timer_counter == 0 {
            self.timer_counter = self.timer;

            if self.waveform_counter == 0 {
                self.waveform_counter = 31;
            } else {
                self.waveform_counter -= 1;
            }
        } else {
            self.timer_counter -= 1;
        }
    }

    /// Linear counter: reloaded while the reload flag is set (kept when the control flag is set),
    /// else counted down by 2 to 0; the length counter counts down unless halted.
    pub open spec fn spec_clock_length_counter(self) -> Triangle {
        if !self.enabled {
            self
        } else {
            let t = if self.should_load_linear_counter {
                Triangle {
                    linear_counter: self.linear_counter_load,
                    should_load_linear_counter: self.lengthc_halt_linearc_control,
                    ..self
                }
            } else {
                Triangle {
                    linear_counter: if self.linear_counter >= 2 { (self.linear_counter - 2) as u8 } else { 0 },
                    ..self
                }
            };
            if t.length_counter > 0 && !t.lengthc_halt_linearc_control {
                Triangle { length_counter: (t.length_counter - 1) as u8, ..t }
            } else {
                t
            }
        }
    }

    pub fn clock_length_counter(&mut self)
        ensures
            *final(self) == old(self).spec_clock_length_counter(),
    {
        if !self.enabled {
            return;
        }
        if self.should_load_linear_counter {
            self.linear_counter = self.linear_counter_load;
            if !self.lengthc_halt_linearc_control {
                self.should_load_linear_counter = false;
            }
        } else {
            if self.linear_counter >= 2 {
                self.linear_counter -= 2;
            } else {
                self.linear_counter = 0;
            }
        }
        if self.length_counter > 0 && !self.lengthc_halt_linearc_control {
            self.length_counter -= 1;
        }
    }

    pub fn set_muted(&mut self, is_muted: bool)
        ensures
            *final(self) == (Triangle { is_muted, ..*old(self) }),
    {
        self.is_muted = is_muted
    }

    pub open spec fn spec_output(self) -> u8 {
        if self.spec_is_audible() {
            triangle_waveform(self.waveform_counter)
        } else {
            0
        }
    }

    pub fn output(&self) -> (r: u8)
        ensures
            r == self.spec_output(),
    {
        if self.is_audible() {
            triangle_waveform_table(self.waveform_counter)
        } else {
            0
        }
    }
}

//
// Noise channel
//
#[derive(Debug, Default, Clone, Copy)]
pub struct Noise {
    pub enabled: bool,
    pub volume: u8,
    pub lc_halt_env_loop: bool,
    pub constant_volume: bool,
    pub envelope: Envelope,
    pub looping: bool,
    pub period: u16,
    pub period_counter: u16,
    pub shift_register: u16,
    pub length_counter: u8,
    pub is_muted: bool,
}

impl Noise {
    pub open spec fn spec_new() -> Noise {
        Noise {
            enabled: false,
            volume: 0,
            lc_halt_env_loop: false,
            constant_volume: false,
            envelope: Envelope { start: false, period: 0, decay: 0 },
            looping: false,
            period: 0,
            period_counter: 0,
            shift_register: 1,
            length_counter: 0,
            is_muted: false,
        }
    }

    /// A noise channel with its shift register at 1, as at power-on.
    pub fn new() -> (r: Noise)
        ensures
            r == Noise::spec_new(),
    {
        Noise {
            enabled: false,
            volume: 0,
            lc_halt_env_loop: false,
            constant_volume: false,
            envelope: Envelope { start: false, period: 0, decay: 0 },
            looping: false,
            period: 0,
            period_counter: 0,
            shift_register: 1,
            length_counter: 0,
            is_muted: false,
        }
    }

    /// Register writes: 0 = --LC VVVV, 1 = unused, 2 = L--- PPPP, 3 = LLLL L---.
    pub open spec fn spec_write_reg(self, reg_index: usize, byte: u8) -> Noise {
        if reg_index == 0 {
            Noise { lc_halt_env_loop: bit(byte, 5), constant_volume: bit(byte, 4), volume: byte % 16, ..self }
        } else if reg_index == 2 {
            Noise { looping: bit(byte, 7), period: noise_period(byte % 16), ..self }
        } else if reg_index == 3 {
            Noise {
                length_counter: if self.enabled { lc_lookup(byte / 8) } else { 0 },
                envelope: Envelope { start: true, ..self.envelope },
                ..self
            }
        } else {
            self
        }
    }

    pub fn write_reg(&mut self, reg_index: usize, byte: u8)
        ensures
            *final(self) == old(self).spec_write_reg(reg_index, byte),
    {
        if reg_index == 0 {
            self.write_uulcvvvv(byte);
        } else if reg_index == 1 {
            self.write_uuuuuuuu(byte);
        } else if reg_index == 2 {
            self.write_luuupppp(byte);
        } else if reg_index == 3 {
            self.write_llllluuu(byte);
        }
    }

    fn write_uulcvvvv(&mut self, byte: u8)
        ensures
            *final(self) == old(self).spec_write_reg(0, byte),
    {
        self.lc_halt_env_loop = crate::bits::get_bit(byte, 5);
        self.constant_volume = crate::bits::get_bit(byte, 4);
        self.volume = byte & 0b1111;
        proof { crate::bits::lemma_byte_ops(byte); }
    }

    fn write_uuuuuuuu(&mut self, _byte: u8)
        ensures
            *final(self) == *old(self),
    {
    }

    fn write_luuupppp(&mut self, byte: u8)
        ensures
            *final(self) == old(self).spec_write_reg(2, byte),
    {
        self.looping = crate::bits::get_bit(byte, 7);
        let period_index = byte & 0b1111;
        proof { crate::bits::lemma_byte_ops(byte); }
        self.period = noise_period_table(period_index);
    }

    fn write_llllluuu(&mut self, byte: u8)
        ensures
            *final(self) == old(self).spec_write_reg(3, byte),
    {
        let length_counter_index = byte >> 3;
        proof { crate::bits::lemma_byte_ops(byte); }
        self.length_counter = if self.enabled {
            lc_lookup_table(length_counter_index)
        } else {
            0
        };
        self.envelope.start = true;
    }

    /// The linear feedback shift register steps: shift right by one, feedback (bit 0 XOR
    /// bit 6 in loop mode, bit 0 XOR bit 1 otherwise) into bit 14.
    pub open spec fn spec_shift(reg: u16, looping: bool) -> u16 {
        let bit0 = reg & 1;
        let feedback = if looping { bit0 ^ ((reg >> 6u16) & 1) } else { bit0 ^ ((reg >> 1u16) & 1) };
        (reg >> 1u16) | (feedback << 14u16)
    }

    fn clock_shift_register(&mut self)
        ensures
            *final(self) == (Noise { shift_register: Noise::spec_shift(old(self).shift_register, old(self).looping), ..*old(self) }),
    {
        let shift_register = self.shift_register;
        let bit0 = shift_register & 0b1;
        let feedback = if self.looping {
            bit0 ^ ((shift_register >> 6) & 0b1)
        } else {
            bit0 ^ ((shift_register >> 1) & 0b1)
        };
        self.shift_register = (shift_register >> 1) | (feedback << 14);
    }

    pub open spec fn spec_is_enabled(self) -> bool {
        self.enabled && self.length_counter > 0
    }

    pub fn is_enabled(&self) -> (r: bool)
        ensures
            r == self.spec_is_enabled(),
    {
        self.enabled && self.length_counter > 0
    }

    pub open spec fn spec_toggle_enabled(self, enabled: bool) -> Noise {
        Noise { enabled, length_counter: if enabled { self.length_counter } else { 0 }, ..self }
    }

    pub fn toggle_enabled(&mut self, enabled: bool)
        ensures
            *final(self) == old(self).spec_toggle_enabled(enabled),
    {
        self.enabled = enabled;

        if !enabled {
            self.length_counter = 0;
        }
    }

    pub open spec fn spec_is_audible(self) -> bool {
        self.enabled && self.length_counter > 0 && self.shift_register % 2 == 0 && !self.is_muted
    }

    pub fn is_audible(&self) -> (r: bool)
        ensures
            r == self.spec_is_audible(),
    {
        self.enabled && self.length_counter > 0 && self.shift_register % 2 == 0 && !self.is_muted
    }

    /// When the period counter expires the shift register steps and the counter reloads;
    /// otherwise the counter goes down by two.
    pub open spec fn spec_clock_timer(self) -> Noise {
        if self.period_counter == 0 {
            Noise { shift_register: Noise::spec_shift(self.shift_register, self.looping), period_counter: self.period, ..self }
        } else {
            Noise { period_counter: if self.period_counter >= 2 { (self.period_counter - 2) as u16 } else { 0 }, ..self }
        }
    }

    pub fn clock_timer(&mut self)
        ensures
            *final(self) == old(self).spec_clock_timer(),
    {
        if self.period_counter == 0 {
            self.clock_shift_register();
            self.period_counter = self.period;
        } else {
            self.period_counter = self.period_counter.saturating_sub(2);
        }
    }

    pub open spec fn spec_clock_length_counter(self) -> Noise {
        if self.enabled && self.length_counter > 0 && !self.lc_halt_env_loop {
            Noise { length_counter: (self.length_counter - 1) as u8, ..self }
        } else {
            self
        }
    }

    pub fn clock_length_counter(&mut self)
        ensures
            *final(self) == old(self).spec_clock_length_counter(),
    {
        if !self.enabled {
            return;
        }
        if self.length_counter > 0 && !self.lc_halt_env_loop {
            self.length_counter -= 1;
        }
    }

    pub open spec fn spec_clock_envelope(self) -> Noise {
        if self.enabled {
            Noise { envelope: self.envelope.spec_clock(self.volume, self.lc_halt_env_loop), ..self }
        } else {
            self
        }
    }

    pub fn clock_envelope(&mut self)
        ensures
            *final(self) == old(self).spec_clock_envelope(),
    {
        if !self.enabled {
            return;
        }
        let volume = self.volume;
        let env_loop = self.lc_halt_env_loop;
        self.envelope.clock(volume, env_loop);
    }

    pub fn set_muted(&mut self, is_muted: bool)
        ensures
            *final(self) == (Noise { is_muted, ..*old(self) }),
    {
        self.is_muted = is_muted
    }

    pub open spec fn spec_output(self) -> u8 {
        if self.spec_is_audible() {
            if self.constant_volume { self.volume } else { self.envelope.decay }
        } else {
            0
        }
    }

    pub fn output(&self) -> (r: u8)
        ensures
            r == self.spec_output(),
    {
        if self.is_audible() {
            if self.constant_volume {
                self.volume
            } else {
                self.envelope.decay
            }
        } else {
            0
        }
    }
}

//
// Delta-Modulation Channel (DMC)
//
#[derive(Debug, Default, Clone, Copy)]
pub struct DMC {
    pub enabled: bool,
    pub irq_enable: bool,
    pub looping: bool,
    pub frequency: u8,
    pub load_counter: u8,
    pub sample_address: u8,
    pub sample_length: u8,
    pub is_muted: bool,
}

impl DMC {
    pub open spec fn spec_new() -> DMC {
        DMC {
            enabled: false,
            irq_enable: false,
            looping: false,
            frequency: 0,
            load_counter: 0,
            sample_address: 0,
            sample_length: 0,
            is_muted: false,
        }
    }

    pub fn new() -> (r: DMC)
        ensures
            r == DMC::spec_new(),
    {
        DMC {
            enabled: false,
            irq_enable: false,
            looping: false,
            frequency: 0,
            load_counter: 0,
            sample_address: 0,
            sample_length: 0,
            is_muted: false,
        }
    }

    /// Register writes: 0 = IL-- RRRR, 1 = -DDD DDDD, 2 = sample address, 3 = sample length.
    pub open spec fn spec_write_reg(self, reg_index: usize, byte: u8) -> DMC {
        if reg_index == 0 {
            DMC { irq_enable: bit(byte, 7), looping: bit(byte, 6), frequency: byte % 16, ..self }
        } else if reg_index == 1 {
            DMC { load_counter: byte % 128, ..self }
        } else if reg_index == 2 {
            DMC { sample_address: byte, ..self }
        } else if reg_index == 3 {
            DMC { sample_length: byte, ..self }
        } else {
            self
        }
    }

    pub fn write_reg(&mut self, reg_index: usize, byte: u8)
        ensures
            *final(self) == old(self).spec_write_reg(reg_index, byte),
    {
        if reg_index == 0 {
            self.irq_enable = crate::bits::get_bit(byte, 7);
            self.looping = crate::bits::get_bit(byte, 6);
            self.frequency = byte & 0b1111;
            proof { crate::bits::lemma_byte_ops(byte); }
        } else if reg_index == 1 {
            self.load_counter = byte & 0b0111_1111;
            proof { crate::bits::lemma_byte_ops(byte); }
        } else if reg_index == 2 {
            self.sample_address = byte;
        } else if reg_index == 3 {
            self.sample_length = byte;
        }
    }

    pub fn is_enabled(&self) -> (r: bool)
        ensures
            r == self.enabled,
    {
        self.enabled
    }

    pub fn toggle_enabled(&mut self, enabled: bool)
        ensures
            *final(self) == (DMC { enabled, ..*old(self) }),
    {
        self.enabled = enabled;
    }

    pub fn set_muted(&mut self, is_muted: bool)
        ensures
            *final(self) == (DMC { is_muted, ..*old(self) }),
    {
        self.is_muted = is_muted
    }

    /// Sample playback is not emulated: the channel is silent.
    pub fn output(&self) -> (r: u8)
        ensures
            r == 0,
    {
        0
    }
}

} // verus!

verus! {

//
// APU and Frame Counter implementation
//

#[derive(Clone, Copy, Debug)]
pub enum FrameCounterMode {
    Mode4Step,
    Mode5Step,
}

#[derive(Clone, Copy)]
pub struct FrameCounter {
    pub mode: FrameCounterMode,
    pub cycle_table: [u64; 4],
    pub cycles: u64,
    pub delayed_reset: bool,
    pub reset_after_cycles: u64,
}

/// The frame counter step table of a mode (NTSC).
pub open spec fn fc_table(mode: FrameCounterMode) -> Seq<u64> {
    match mode {
        FrameCounterMode::Mode4Step => seq![7457u64, 14913, 22371, 29829],
        FrameCounterMode::Mode5Step => seq![7457u64, 14913, 22371, 37281],
    }
}

impl FrameCounter {
    pub open spec fn spec_set_mode(self, mode: FrameCounterMode) -> FrameCounter {
        FrameCounter { mode, cycle_table: vstd::array::spec_array_update(
            vstd::array::spec_array_update(
                vstd::array::spec_array_update(
                    vstd::array::spec_array_update(self.cycle_table, 0, fc_table(mode)[0]),
                    1, fc_table(mode)[1]),
                2, fc_table(mode)[2]),
            3, fc_table(mode)[3]), ..self }
    }

    /// A frame counter in 4-step mode, two cycles in.
    pub fn new() -> (r: FrameCounter)
        ensures
            r.mode is Mode4Step,
            r.cycle_table@ == fc_table(FrameCounterMode::Mode4Step),
            r.cycles == 2,
            !r.delayed_reset,
            r.reset_after_cycles == 0,
    {
        let mut frame_counter = FrameCounter {
            mode: FrameCounterMode::Mode4Step,
            cycle_table: [0u64; 4],
            cycles: 0,
            delayed_reset: false,
            reset_after_cycles: 0,
        };
        frame_counter.set_mode(FrameCounterMode::Mode4Step);
        frame_counter.cycles = 2;
        frame_counter
    }

    pub fn reset(&mut self)
        ensures
            *final(self) == (FrameCounter { cycles: 0, ..*old(self) }),
    {
        self.cycles = 0;
    }

    /// Selects the mode and its step table.
    pub fn set_mode(&mut self, mode: FrameCounterMode)
        ensures
            final(self).mode == mode,
            final(self).cycle_table@ == fc_table(mode),
            final(self).cycles == old(self).cycles,
            final(self).delayed_reset == old(self).delayed_reset,
            final(self).reset_after_cycles == old(self).reset_after_cycles,
    {
        self.mode = mode;
        match mode {
            FrameCounterMode::Mode4Step => {
                self.cycle_table[0] = 7457;
                self.cycle_table[1] = 14913;
                self.cycle_table[2] = 22371;
                self.cycle_table[3] = 29829;
            },
            FrameCounterMode::Mode5Step => {
                self.cycle_table[0] = 7457;
                self.cycle_table[1] = 14913;
                self.cycle_table[2] = 22371;
                self.cycle_table[3] = 37281;
            },
        }
        assert(self.cycle_table@ =~= fc_table(mode));
    }

    pub open spec fn spec_quarter_frame(self) -> bool {
        self.cycles == self.cycle_table[0] || self.cycles == self.cycle_table[1]
            || self.cycles == self.cycle_table[2] || self.cycles == self.cycle_table[3]
    }

    pub fn quarter_frame(&self) -> (r: bool)
        ensures
            r == self.spec_quarter_frame(),
    {
        self.cycles == self.cycle_table[0] || self.cycles == self.cycle_table[1]
            || self.cycles == self.cycle_table[2] || self.cycles == self.cycle_table[3]
    }

    pub open spec fn spec_half_frame(self) -> bool {
        self.cycles == self.cycle_table[1] || self.cycles == self.cycle_table[3]
    }

    pub fn half_frame(&self) -> (r: bool)
        ensures
            r == self.spec_half_frame(),
    {
        self.cycles == self.cycle_table[1] || self.cycles == self.cycle_table[3]
    }

    /// The frame interrupt is raised at the last step of 4-step mode, the cycle before it, and cycle 0.
    pub open spec fn spec_irq(self) -> bool {
        (self.mode is Mode4Step && self.cycles == self.cycle_table[3])
            || (self.cycle_table[3] >= 1 && self.cycles == self.cycle_table[3] - 1)
            || self.cycles == 0
    }

    pub fn irq(&self) -> (r: bool)
        ensures
            r == self.spec_irq(),
    {
        let is_4step = match self.mode {
            FrameCounterMode::Mode4Step => true,
            FrameCounterMode::Mode5Step => false,
        };
        (is_4step && self.cycles == self.cycle_table[3])
            || (self.cycle_table[3] >= 1 && self.cycles == self.cycle_table[3] - 1)
            || self.cycles == 0
    }
}

/// The channel outputs of one CPU cycle, as indices into the mixer's lookup tables:
/// pulse 1 + pulse 2, and 3 * triangle + 2 * noise + DMC.
#[derive(Clone, Copy, Debug)]
pub struct MixerInput {
    pub pulse: u16,
    pub tnd: u16,
}

/// The audio processing unit: five channels, the frame counter and the mixer inputs produced
/// so far (one per CPU cycle).
pub struct Apu {
    pub pulse_1: Pulse,
    pub pulse_2: Pulse,
    pub triangle: Triangle,
    pub noise: Noise,
    pub dmc: DMC,
    pub frame_counter: FrameCounter,
    pub irq_inhibit: bool,
    pub frame_irq: bool,
    pub dmc_irq: bool,
    pub cpu_cycles: u64,
    pub next_irq_cycles: u64,
    pub mixer_inputs: Vec<MixerInput>,
}

/// The state of an `Apu` as a mathematical value.
pub struct ApuView {
    pub pulse_1: Pulse,
    pub pulse_2: Pulse,
    pub triangle: Triangle,
    pub noise: Noise,
    pub dmc: DMC,
    pub frame_counter: FrameCounter,
    pub irq_inhibit: bool,
    pub frame_irq: bool,
    pub dmc_irq: bool,
    pub cpu_cycles: u64,
    pub next_irq_cycles: u64,
    pub mixer_inputs: Seq<MixerInput>,
}

impl View for Apu {
    type V = ApuView;

    open spec fn view(&self) -> ApuView {
        ApuView {
            pulse_1: self.pulse_1,
            pulse_2: self.pulse_2,
            triangle: self.triangle,
            noise: self.noise,
            dmc: self.dmc,
            frame_counter: self.frame_counter,
            irq_inhibit: self.irq_inhibit,
            frame_irq: self.frame_irq,
            dmc_irq: self.dmc_irq,
            cpu_cycles: self.cpu_cycles,
            next_irq_cycles: self.next_irq_cycles,
            mixer_inputs: self.mixer_inputs@,
        }
    }
}

impl ApuView {
    /// The status byte ($4015): DMC IRQ, frame IRQ, -, DMC, noise, triangle, pulse 2, pulse 1.
    pub open spec fn spec_status(self) -> u8 {
        (crate::bits::b2u(self.pulse_1.spec_is_enabled()) + 2 * crate::bits::b2u(self.pulse_2.spec_is_enabled())
            + 4 * crate::bits::b2u(self.triangle.spec_is_enabled()) + 8 * crate::bits::b2u(self.noise.spec_is_enabled())
            + 16 * crate::bits::b2u(self.dmc.enabled) + 64 * crate::bits::b2u(self.frame_irq)
            + 128 * crate::bits::b2u(self.dmc_irq)) as u8
    }

    /// Writing $4015 enables (bit set) or silences (bit clear) each channel.
    pub open spec fn spec_write_status(self, byte: u8) -> ApuView {
        ApuView {
            pulse_1: self.pulse_1.spec_toggle_enabled(bit(byte, 0)),
            pulse_2: self.pulse_2.spec_toggle_enabled(bit(byte, 1)),
            triangle: self.triangle.spec_toggle_enabled(bit(byte, 2)),
            noise: self.noise.spec_toggle_enabled(bit(byte, 3)),
            dmc: DMC { enabled: bit(byte, 4), ..self.dmc },
            ..self
        }
    }

    /// Writing $4017: mode from bit 7, IRQ inhibit from bit 6 (clearing the frame IRQ when set),
    /// the interrupt delayed, and a reset of the frame counter scheduled.
    pub open spec fn spec_write_frame_counter(self, byte: u8) -> ApuView {
        let mode = if bit(byte, 7) { FrameCounterMode::Mode5Step } else { FrameCounterMode::Mode4Step };
        let inhibit = bit(byte, 6);
        ApuView {
            irq_inhibit: inhibit,
            frame_irq: if inhibit { false } else { self.frame_irq },
            next_irq_cycles: if self.cpu_cycles + DELAY_CYCLES_PER_IRQ_WRITE > u64::MAX { u64::MAX } else {
                (self.cpu_cycles + DELAY_CYCLES_PER_IRQ_WRITE) as u64 },
            frame_counter: FrameCounter { delayed_reset: true, ..self.frame_counter.spec_set_mode(mode) },
            ..self
        }
    }

    pub open spec fn spec_clock_frame_counter(self) -> ApuView {
        let fc = self.frame_counter;
        let cycles_per_frame = fc.cycle_table[3];
        let c = if fc.cycles < u64::MAX { (fc.cycles + 1) as u64 } else { fc.cycles };
        let c2 = if cycles_per_frame < u64::MAX && c == cycles_per_frame + 1 { 0 } else { c };
        let fc2 = FrameCounter { cycles: c2, ..fc };
        ApuView {
            frame_counter: fc2,
            frame_irq: if fc2.spec_irq() && !self.irq_inhibit { true } else { self.frame_irq },
            ..self
        }
    }

    /// Envelopes (and the triangle's linear counter) on quarter frames; length counters and
    /// sweeps on half frames; all of them when `forced`.
    pub open spec fn spec_clock_length_counters(self, forced: bool) -> ApuView {
        let q = self.frame_counter.spec_quarter_frame() || forced;
        let h = self.frame_counter.spec_half_frame() || forced;
        let p1 = if q { self.pulse_1.spec_clock_envelope() } else { self.pulse_1 };
        let p1 = if h { p1.spec_clock_length_counter().spec_clock_sweep() } else { p1 };
        let p2 = if q { self.pulse_2.spec_clock_envelope() } else { self.pulse_2 };
        let p2 = if h { p2.spec_clock_length_counter().spec_clock_sweep() } else { p2 };
        let t = if h { self.triangle.spec_clock_length_counter() } else { self.triangle };
        let n = if q { self.noise.spec_clock_envelope() } else { self.noise };
        let n = if h { n.spec_clock_length_counter() } else { n };
        ApuView { pulse_1: p1, pulse_2: p2, triangle: t, noise: n, ..self }
    }

    /// The triangle timer runs every CPU cycle; the others on even cycles.
    pub open spec fn spec_clock_timers(self) -> ApuView {
        let even = self.cpu_cycles % 2 == 0;
        ApuView {
            triangle: self.triangle.spec_clock_timer(),
            pulse_1: if even { self.pulse_1.spec_clock_timer() } else { self.pulse_1 },
            pulse_2: if even { self.pulse_2.spec_clock_timer() } else { self.pulse_2 },
            noise: if even { self.noise.spec_clock_timer() } else { self.noise },
            ..self
        }
    }

    pub open spec fn spec_mixer_input(self) -> MixerInput {
        MixerInput {
            pulse: (self.pulse_1.spec_output() + self.pulse_2.spec_output()) as u16,
            tnd: (3 * self.triangle.spec_output() + 2 * self.noise.spec_output()) as u16,
        }
    }

    /// One CPU cycle of the APU.
    pub open spec fn spec_tick(self) -> ApuView {
        let a1 = ApuView { cpu_cycles: (self.cpu_cycles + 1) as u64, ..self }.spec_clock_frame_counter();
        let fc = a1.frame_counter;
        let a2 = if fc.reset_after_cycles > 0 {
            let remaining = (fc.reset_after_cycles - 1) as u64;
            if remaining == 0 {
                let a = ApuView { frame_counter: FrameCounter { reset_after_cycles: 0, cycles: 0, ..fc }, ..a1 };
                if fc.mode is Mode5Step { a.spec_clock_length_counters(true) } else { a }
            } else {
                ApuView { frame_counter: FrameCounter { reset_after_cycles: remaining, ..fc }, ..a1 }
            }
        } else {
            a1
        };
        let a3 = a2.spec_clock_length_counters(false).spec_clock_timers();
        ApuView { mixer_inputs: a3.mixer_inputs.push(a3.spec_mixer_input()), ..a3 }
    }

    /// `n` CPU cycles of the APU.
    pub open spec fn spec_run(self, n: nat) -> ApuView
        decreases n,
    {
        if n == 0 {
            self
        } else {
            self.spec_run((n - 1) as nat).spec_tick()
        }
    }

    /// The APU before its cycles run: a pending frame counter reset is scheduled 3 or 4 cycles out.
    pub open spec fn spec_prepare_step(self, cpu_cycles: u64) -> ApuView {
        if self.frame_counter.delayed_reset {
            ApuView {
                frame_counter: FrameCounter {
                    reset_after_cycles: if cpu_cycles % 2 == 0 { 3 } else { 4 },
                    delayed_reset: false,
                    ..self.frame_counter
                },
                ..self
            }
        } else {
            self
        }
    }
}

impl Apu {
    pub fn new() -> (r: Apu)
        ensures
            r.pulse_1 == Pulse::spec_new(false),
            r.pulse_2 == Pulse::spec_new(true),
            r.triangle == Triangle::spec_new(),
            r.noise == Noise::spec_new(),
            r.dmc == DMC::spec_new(),
            r.frame_counter.mode is Mode4Step,
            r.frame_counter.cycles == 2,
            !r.irq_inhibit && !r.frame_irq && !r.dmc_irq,
            r.cpu_cycles == 0,
            r.next_irq_cycles == 0,
            r.mixer_inputs@.len() == 0,
    {
        Apu {
            pulse_1: Pulse::new(false),
            pulse_2: Pulse::new(true),
            triangle: Triangle::new(),
            noise: Noise::new(),
            dmc: DMC::new(),
            frame_counter: FrameCounter::new(),
            irq_inhibit: false,
            frame_irq: false,
            dmc_irq: false,
            cpu_cycles: 0,
            next_irq_cycles: 0,
            mixer_inputs: Vec::new(),
        }
    }

    /// Hands out the mixer inputs produced so far and forgets them.
    pub fn take_mixer_inputs(&mut self) -> (r: Vec<MixerInput>)
        ensures
            r@ == old(self)@.mixer_inputs,
            final(self)@ == (ApuView { mixer_inputs: Seq::empty(), ..old(self)@ }),
    {
        let mut inputs = Vec::new();
        std::mem::swap(&mut inputs, &mut self.mixer_inputs);
        inputs
    }

    fn read_status(&mut self) -> (r: u8)
        ensures
            r == old(self)@.spec_status(),
            final(self)@ == (ApuView { frame_irq: false, ..old(self)@ }),
    {
        let pulse1_enabled: u8 = if self.pulse_1.is_enabled() { 1 } else { 0 };
        let pulse2_enabled: u8 = if self.pulse_2.is_enabled() { 1 } else { 0 };
        let triangle_enabled: u8 = if self.triangle.is_enabled() { 1 } else { 0 };
        let noise_enabled: u8 = if self.noise.is_enabled() { 1 } else { 0 };
        let dmc_enabled: u8 = if self.dmc.is_enabled() { 1 } else { 0 };

        let frame_irq: u8 = if self.frame_irq { 1 } else { 0 };
        let dmc_irq: u8 = if self.dmc_irq { 1 } else { 0 };

        self.frame_irq = false;

        // TODO DMC bytes remaining
        pulse1_enabled + 2 * pulse2_enabled + 4 * triangle_enabled + 8 * noise_enabled + 16 * dmc_enabled
            + 64 * frame_irq + 128 * dmc_irq
    }

    fn write_status(&mut self, byte: u8)
        ensures
            final(self)@ == old(self)@.spec_write_status(byte),
    {
        let dmc_enabled = crate::bits::get_bit(byte, 4);
        let noise_enabled = crate::bits::get_bit(byte, 3);
        let triangle_enabled = crate::bits::get_bit(byte, 2);
        let pulse2_enabled = crate::bits::get_bit(byte, 1);
        let pulse1_enabled = crate::bits::get_bit(byte, 0);

        self.pulse_1.toggle_enabled(pulse1_enabled);
        self.pulse_2.toggle_enabled(pulse2_enabled);
        self.triangle.toggle_enabled(triangle_enabled);
        self.noise.toggle_enabled(noise_enabled);
        self.dmc.toggle_enabled(dmc_enabled);
    }

    fn write_frame_counter(&mut self, byte: u8)
        ensures
            final(self)@ == old(self)@.spec_write_frame_counter(byte),
    {
        let frame_counter_mode = if crate::bits::get_bit(byte, 7) {
            FrameCounterMode::Mode5Step
        } else {
            FrameCounterMode::Mode4Step
        };

        let irq_inhibit = crate::bits::get_bit(byte, 6);
        self.irq_inhibit = irq_inhibit;

        if irq_inhibit {
            self.frame_irq = false;
        }
        self.next_irq_cycles = self.cpu_cycles.saturating_add(DELAY_CYCLES_PER_IRQ_WRITE);

        self.frame_counter.set_mode(frame_counter_mode);
        self.frame_counter.delayed_reset = true;
        assert(self.frame_counter.cycle_table =~= old(self).frame_counter.spec_set_mode(frame_counter_mode).cycle_table);
    }

    fn clock_channel_output(&mut self)
        ensures
            final(self)@ == (ApuView { mixer_inputs: old(self)@.mixer_inputs.push(old(self)@.spec_mixer_input()), ..old(self)@ }),
    {
        // We add outputs of pulse1 and pulse 2 channels
        // and use that value as an index into the pulse output lookup table
        let pulse_output_index: u16 = self.pulse_1.output() as u16 + self.pulse_2.output() as u16;

        // We use outputs of triangle, noise and DMC channels
        // as an index into the tnd output lookup table
        let tnd_output_index: u16 = 3 * self.triangle.output() as u16 + 2 * self.noise.output() as u16
            + self.dmc.output() as u16;

        self.mixer_inputs.push(MixerInput { pulse: pulse_output_index, tnd: tnd_output_index });
    }

    fn clock_frame_counter(&mut self)
        ensures
            final(self)@ == old(self)@.spec_clock_frame_counter(),
    {
        let cycles_per_frame = self.frame_counter.cycle_table[3];

        if self.frame_counter.cycles < u64::MAX {
            self.frame_counter.cycles += 1;
        }

        if cycles_per_frame < u64::MAX && self.frame_counter.cycles == cycles_per_frame + 1 {
            self.frame_counter.reset();
        }

        if self.frame_counter.irq() && !self.irq_inhibit {
            self.frame_irq = true;
        }
    }

    fn clock_length_counters(&mut self, forced: bool)
        ensures
            final(self)@ == old(self)@.spec_clock_length_counters(forced),
    {
        let quarter = self.frame_counter.quarter_frame() || forced;
        let half = self.frame_counter.half_frame() || forced;

        if quarter {
            // Envelope / Triangle Linear counter
            self.pulse_1.clock_envelope();
        }
        if half {
            self.pulse_1.clock_length_counter();
            // Sweep
            self.pulse_1.clock_sweep();
        }
        if quarter {
            self.pulse_2.clock_envelope();
        }
        if half {
            self.pulse_2.clock_length_counter();
            self.pulse_2.clock_sweep();
        }
        if half {
            self.triangle.clock_length_counter();
        }
        if quarter {
            self.noise.clock_envelope();
        }
        if half {
            self.noise.clock_length_counter();
        }
    }

    fn clock_timers(&mut self)
        ensures
            final(self)@ == old(self)@.spec_clock_timers(),
    {
        // Triangle's timer is clocked on every CPU clock, the rest of the channels' timers
        // are clocked on every other CPU clock
        self.triangle.clock_timer();

        if self.cpu_cycles % 2 == 0 {
            self.pulse_1.clock_timer();
            self.pulse_2.clock_timer();
            self.noise.clock_timer();
        }
    }

    fn tick(&mut self)
        requires
            old(self).cpu_cycles < u64::MAX,
        ensures
            final(self)@ == old(self)@.spec_tick(),
    {
        self.cpu_cycles += 1;

        self.clock_frame_counter();

        if self.frame_counter.reset_after_cycles > 0 {
            self.frame_counter.reset_after_cycles -= 1;
            if self.frame_counter.reset_after_cycles == 0 {
                self.frame_counter.reset();
                let is_5step = match self.frame_counter.mode {
                    FrameCounterMode::Mode4Step => false,
                    FrameCounterMode::Mode5Step => true,
                };
                if is_5step {
                    self.clock_length_counters(true);
                }
            }
        }

        self.clock_length_counters(false);
        self.clock_timers();
        self.clock_channel_output();
    }

    /// Runs the APU up to the given CPU cycle; one mixer input is produced per cycle.
    /// Returns whether the frame interrupt fires (and then it is not delayed again).
    pub fn step(&mut self, cpu_cycles: u64) -> (r: bool)
        requires
            cpu_cycles >= old(self).cpu_cycles,
        ensures
            ({
                let a = old(self)@.spec_prepare_step(cpu_cycles).spec_run((cpu_cycles - old(self).cpu_cycles) as nat);
                let irq = a.frame_irq && !a.irq_inhibit && a.cpu_cycles > a.next_irq_cycles;
                &&& r == irq
                &&& final(self)@ == (if irq { ApuView { next_irq_cycles: 0, ..a } } else { a })
                &&& final(self).cpu_cycles == cpu_cycles
            }),
    {
        let cycles_to_run = cpu_cycles - self.cpu_cycles;
        let even_cycle = cpu_cycles % 2 == 0;

        // Delayed reset of the frame counter after a write occurs to $4017
        if self.frame_counter.delayed_reset {
            self.frame_counter.reset_after_cycles = if even_cycle { 3 } else { 4 };
            self.frame_counter.delayed_reset = false;
        }

        let ghost start = self@;
        let ghost start_cycles = self.cpu_cycles;
        let mut i: u64 = 0;
        while i < cycles_to_run
            invariant
                i <= cycles_to_run,
                cycles_to_run == cpu_cycles - start_cycles,
                self.cpu_cycles == start_cycles + i,
                self@ == start.spec_run(i as nat),
                start.cpu_cycles == start_cycles,
            decreases cycles_to_run - i,
        {
            self.tick();
            i += 1;
        }

        let irq = self.frame_irq && !self.irq_inhibit && self.cpu_cycles > self.next_irq_cycles;
        if irq {
            self.next_irq_cycles = 0;
        }
        irq
    }
}

impl MemMapped for Apu {
    /// Only the status register ($4015) can be read; the rest read as 0.
    open spec fn peek(v: ApuView, addr: u16) -> u8 {
        if addr == 0x4015 { v.spec_status() } else { 0 }
    }

    /// Reading the status clears the frame interrupt flag.
    open spec fn after_read(v: ApuView, addr: u16) -> ApuView {
        if addr == 0x4015 { ApuView { frame_irq: false, ..v } } else { v }
    }

    /// Channel registers $4000-$4013 (four per channel), status $4015, frame counter $4017. The
    /// CPU's bus sends the APU no other address; a write to one leaves the APU as it was.
    open spec fn after_write(v: ApuView, addr: u16, byte: u8) -> ApuView {
        if 0x4000 <= addr <= 0x4003 {
            ApuView { pulse_1: v.pulse_1.spec_write_reg((addr - 0x4000) as usize, byte), ..v }
        } else if 0x4004 <= addr <= 0x4007 {
            ApuView { pulse_2: v.pulse_2.spec_write_reg((addr - 0x4004) as usize, byte), ..v }
        } else if 0x4008 <= addr <= 0x400B {
            ApuView { triangle: v.triangle.spec_write_reg((addr - 0x4008) as usize, byte), ..v }
        } else if 0x400C <= addr <= 0x400F {
            ApuView { noise: v.noise.spec_write_reg((addr - 0x400C) as usize, byte), ..v }
        } else if 0x4010 <= addr <= 0x4013 {
            ApuView { dmc: v.dmc.spec_write_reg((addr - 0x4010) as usize, byte), ..v }
        } else if addr == 0x4015 {
            v.spec_write_status(byte)
        } else if addr == 0x4017 {
            v.spec_write_frame_counter(byte)
        } else {
            v
        }
    }

    fn read(&mut self, addr: u16) -> (r: u8) {
        match addr {
            // Status register
            0x4015 => {
                let status = self.read_status();
                // Clear frame_irq on read
                self.frame_irq = false;
                status
            },
            // The rest of the registers cannot be read from
            _ => 0,
        }
    }

    fn write(&mut self, addr: u16, byte: u8) {
        match addr {
            // Pulse 1: duty (DD), envelope loop / length counter halt (L), constant volume (C), volume/envelope (VVVV)
            0x4000 => {
                self.pulse_1.write_reg(0, byte);
            },
            // Pulse 1 sweep unit: enabled (E), period (P), negate (N), shift (S)
            0x4001 => {
                self.pulse_1.write_reg(1, byte);
            },
            // Pulse 1 timer low (T)
            0x4002 => {
                self.pulse_1.write_reg(2, byte);
            },
            // Pulse 1 length counter load (L), timer high (T)
            0x4003 => {
                self.pulse_1.write_reg(3, byte);
            },
            // Pulse 2: duty, envelope loop / length counter halt, constant volume, volume/envelope
            0x4004 => {
                self.pulse_2.write_reg(0, byte);
            },
            // Pulse 2 sweep unit
            0x4005 => {
                self.pulse_2.write_reg(1, byte);
            },
            // Pulse 2 timer low
            0x4006 => {
                self.pulse_2.write_reg(2, byte);
            },
            // Pulse 2 length counter load, timer high
            0x4007 => {
                self.pulse_2.write_reg(3, byte);
            },
            // Triangle: length counter halt / linear counter control (C), linear counter load (R)
            0x4008 => {
                self.triangle.write_reg(0, byte);
            },
            // Triangle: unused
            0x4009 => {
                self.triangle.write_reg(1, byte);
            },
            // Triangle timer low
            0x400A => {
                self.triangle.write_reg(2, byte);
            },
            // Triangle length counter load, timer high, linear counter reload flag
            0x400B => {
                self.triangle.write_reg(3, byte);
            },
            // Noise: envelope loop / length counter halt, constant volume, volume/envelope
            0x400C => {
                self.noise.write_reg(0, byte);
            },
            // Noise: unused
            0x400D => {
                self.noise.write_reg(1, byte);
            },
            // Noise: loop noise (L), noise period (P)
            0x400E => {
                self.noise.write_reg(2, byte);
            },
            // Noise length counter load
            0x400F => {
                self.noise.write_reg(3, byte);
            },
            // DMC: IRQ enable (I), loop (L), frequency (R)
            0x4010 => {
                self.dmc.write_reg(0, byte);
            },
            // DMC: load counter (D)
            0x4011 => {
                self.dmc.write_reg(1, byte);
            },
            // DMC sample address
            0x4012 => {
                self.dmc.write_reg(2, byte);
            },
            // DMC sample length
            0x4013 => {
                self.dmc.write_reg(3, byte);
            },
            //
            // 0x4014 is skipped, it's not part of the APU,
            // but rather the OAM DMA register
            //
            // Status register
            0x4015 => {
                self.write_status(byte);
            },
            // Frame counter
            // This register is used for both APU and I/O manipulation
            // The APU only uses bits 6 and 7
            0x4017 => {
                self.write_frame_counter(byte);
            },
            _ => {},
        }
    }
}

/// The APU has registers at $4000-$4013, $4015 and $4017 only: a write anywhere else leaves
/// it unchanged, and a read of anything but $4015 gives 0 and changes nothing.
pub proof fn law_apu_ignores_other_addresses(v: ApuView, addr: u16, byte: u8)
    requires
        !(0x4000 <= addr <= 0x4013 || addr == 0x4015 || addr == 0x4017),
    ensures
        Apu::after_write(v, addr, byte) == v,
        Apu::peek(v, addr) == 0,
        Apu::after_read(v, addr) == v,
{
}

/// Reading $4015 reports, bit by bit: pulse 1 (bit 0), pulse 2 (bit 1), triangle (bit 2) and
/// noise (bit 3) each when enabled with a length counter above 0, DMC enabled (bit 4), bit 5
/// clear, the frame interrupt (bit 6) and the DMC interrupt (bit 7). The read clears the frame
/// interrupt and nothing else.
#[verifier::spinoff_prover]
pub proof fn law_status_read(v: ApuView)
    ensures
        ({
            let s = Apu::peek(v, 0x4015);
            &&& (s % 2 == 1) == (v.pulse_1.enabled && v.pulse_1.length_counter > 0)
            &&& ((s / 2) % 2 == 1) == (v.pulse_2.enabled && v.pulse_2.length_counter > 0)
            &&& ((s / 4) % 2 == 1) == (v.triangle.enabled && v.triangle.length_counter > 0)
            &&& ((s / 8) % 2 == 1) == (v.noise.enabled && v.noise.length_counter > 0)
            &&& ((s / 16) % 2 == 1) == v.dmc.enabled
            &&& (s / 32) % 2 == 0
            &&& ((s / 64) % 2 == 1) == v.frame_irq
            &&& ((s / 128) % 2 == 1) == v.dmc_irq
            &&& Apu::after_read(v, 0x4015) == ApuView { frame_irq: false, ..v }
        }),
{
    let a = crate::bits::b2u(v.pulse_1.spec_is_enabled()) as int;
    let b = crate::bits::b2u(v.pulse_2.spec_is_enabled()) as int;
    let c = crate::bits::b2u(v.triangle.spec_is_enabled()) as int;
    let d = crate::bits::b2u(v.noise.spec_is_enabled()) as int;
    let e = crate::bits::b2u(v.dmc.enabled) as int;
    let f = crate::bits::b2u(v.frame_irq) as int;
    let g = crate::bits::b2u(v.dmc_irq) as int;
    let sum = a + 2 * b + 4 * c + 8 * d + 16 * e + 64 * f + 128 * g;
    assert(0 <= sum < 256);
    assert(sum % 2 == a && (sum / 2) % 2 == b && (sum / 4) % 2 == c && (sum / 8) % 2 == d
        && (sum / 16) % 2 == e && (sum / 32) % 2 == 0 && (sum / 64) % 2 == f && (sum / 128) % 2 == g) by (nonlinear_arith)
        requires
            0 <= a <= 1, 0 <= b <= 1, 0 <= c <= 1, 0 <= d <= 1, 0 <= e <= 1, 0 <= f <= 1, 0 <= g <= 1,
            sum == a + 2 * b + 4 * c + 8 * d + 16 * e + 64 * f + 128 * g;
}

/// Writing $4015 enables each of pulse 1, pulse 2, triangle and noise whose bit (0-3) is set
/// and silences the others, clearing their length counters; bit 4 enables the DMC. A pulse
/// channel that is enabled takes its length from the table entry that bits 3-7 of a write to
/// its fourth register ($4003 for pulse 1, $4007 for pulse 2) select, and $4015 then reports
/// it in its bit (0 or 1) exactly when that length is above 0; a disabled one keeps length 0.
#[verifier::spinoff_prover]
pub proof fn law_enable_then_load(v: ApuView, e: u8, b: u8)
    ensures
        ({
            let w = Apu::after_write(v, 0x4015, e);
            &&& w.pulse_1.enabled == (e & 0x01 != 0) && w.pulse_2.enabled == (e & 0x02 != 0)
            &&& w.triangle.enabled == (e & 0x04 != 0) && w.noise.enabled == (e & 0x08 != 0)
            &&& w.dmc.enabled == (e & 0x10 != 0)
            &&& e & 0x01 == 0 ==> w.pulse_1.length_counter == 0
            &&& e & 0x02 == 0 ==> w.pulse_2.length_counter == 0
            &&& e & 0x04 == 0 ==> w.triangle.length_counter == 0
            &&& e & 0x08 == 0 ==> w.noise.length_counter == 0
            &&& ({
                let w1 = Apu::after_write(w, 0x4003, b);
                &&& w1.pulse_1.length_counter == (if e & 0x01 != 0 { lc_lookup(b >> 3u8) } else { 0 })
                &&& (Apu::peek(w1, 0x4015) % 2 == 1) == (e & 0x01 != 0 && lc_lookup(b >> 3u8) > 0)
            })
            &&& ({
                let w2 = Apu::after_write(w, 0x4007, b);
                &&& w2.pulse_2.length_counter == (if e & 0x02 != 0 { lc_lookup(b >> 3u8) } else { 0 })
                &&& ((Apu::peek(w2, 0x4015) / 2) % 2 == 1) == (e & 0x02 != 0 && lc_lookup(b >> 3u8) > 0)
            })
        }),
{
    crate::bits::lemma_byte_ops(b);
    crate::bits::lemma_bit(e, 0);
    crate::bits::lemma_bit(e, 1);
    crate::bits::lemma_bit(e, 2);
    crate::bits::lemma_bit(e, 3);
    crate::bits::lemma_bit(e, 4);
    assert((e & 0x01 != 0) == ((e >> 0u8) & 1 == 1) && (e & 0x02 != 0) == ((e >> 1u8) & 1 == 1)
        && (e & 0x04 != 0) == ((e >> 2u8) & 1 == 1) && (e & 0x08 != 0) == ((e >> 3u8) & 1 == 1)
        && (e & 0x10 != 0) == ((e >> 4u8) & 1 == 1)) by (bit_vector);
    let w = Apu::after_write(v, 0x4015, e);
    law_status_read(Apu::after_write(w, 0x4003, b));
    law_status_read(Apu::after_write(w, 0x4007, b));
}

/// Writing $4017: bit 7 picks the five-step mode (clear: four steps), bit 6 inhibits the frame
/// interrupt and, when set, clears a pending one; the frame counter is set to reset, and the
/// channels stay as they were.
#[verifier::spinoff_prover]
pub proof fn law_frame_counter_write(v: ApuView, b: u8)
    ensures
        ({
            let w = Apu::after_write(v, 0x4017, b);
            &&& w.frame_counter.mode == (if b & 0x80 != 0 { FrameCounterMode::Mode5Step } else { FrameCounterMode::Mode4Step })
            &&& w.irq_inhibit == (b & 0x40 != 0)
            &&& b & 0x40 != 0 ==> !w.frame_irq
            &&& b & 0x40 == 0 ==> w.frame_irq == v.frame_irq
            &&& w.frame_counter.delayed_reset
            &&& w.pulse_1 == v.pulse_1 && w.pulse_2 == v.pulse_2 && w.triangle == v.triangle
            &&& w.noise == v.noise && w.dmc == v.dmc && w.dmc_irq == v.dmc_irq
        }),
{
    crate::bits::lemma_bit(b, 6);
    crate::bits::lemma_bit(b, 7);
    assert((b & 0x40 != 0) == ((b >> 6u8) & 1 == 1) && (b & 0x80 != 0) == ((b >> 7u8) & 1 == 1)) by (bit_vector);
}

} // verus!
