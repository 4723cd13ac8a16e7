//! The sound generator: four channels, their registers, and the mixer that
//! turns master ticks into samples.

pub mod effect;
pub mod noise;
pub mod square;
pub mod wave;

use crate::apu::noise::NoiseChannel;
use crate::apu::square::SquareChannel;
use crate::apu::wave::WaveChannel;
use crate::bitflags::{bit_of, BitFlags8};
use std::ops::RangeInclusive;
use vstd::prelude::*;
use vstd::std_specs::convert::FromSpecImpl;

verus! {

/// Master clock for all hardware, in ticks per second.
pub const MASTER_CLOCK: u32 = 4 * 1024 * 1024;

/// Sample rate of all sound.
pub const SAMPLE_RATE: u32 = 44100;

/// The largest period a channel can be given: eleven bits.
pub const MAX_PERIOD: u16 = 2047;

/// Master ticks that one sample stands for.
pub const TICKS_IN_SAMPLE_RATE: u32 = MASTER_CLOCK / SAMPLE_RATE;

/// The last register of the sound generator, counted from its first.
pub const LAST_REGISTER: usize = 0x2F;

/// The master control byte: bit 7 switches all sound, the four low bits tell
/// which channels are on.
#[derive(Clone, Copy, Debug, PartialEq, Eq, Structural)]
pub struct MasterVolume(pub BitFlags8);

impl MasterVolume {
    pub fn is_audio_on(&self) -> (r: bool)
        ensures
            r == bit_of(self.0.0, 7),
    {
        self.0.get(7)
    }

    pub fn is_ch4_on(&self) -> (r: bool)
        ensures
            r == bit_of(self.0.0, 3),
    {
        self.0.get(3)
    }

    pub fn is_ch3_on(&self) -> (r: bool)
        ensures
            r == bit_of(self.0.0, 2),
    {
        self.0.get(2)
    }

    pub fn is_ch2_on(&self) -> (r: bool)
        ensures
            r == bit_of(self.0.0, 1),
    {
        self.0.get(1)
    }

    pub fn is_ch1_on(&self) -> (r: bool)
        ensures
            r == bit_of(self.0.0, 0),
    {
        self.0.get(0)
    }
}

pub struct Apu {
    /// Whether sound is switched on at all.
    pub audio_on: bool,
    /// The volume of the two outputs, as software wrote it.
    pub output_volume: u8,
    /// The outputs that each channel goes to, as software wrote it.
    pub panning: u8,
    pub ch1: SquareChannel,
    pub ch2: SquareChannel,
    pub ch3: WaveChannel,
    pub ch4: NoiseChannel,
    /// Master ticks that have passed and that no sample stands for yet.
    pub ticks: u32,
}

impl Apu {
    pub open spec fn wf(self) -> bool {
        &&& self.ch1.wf()
        &&& self.ch2.wf()
        &&& self.ch3.wf()
        &&& self.ch4.wf()
        &&& self.ticks <= TICKS_IN_SAMPLE_RATE
    }

    /// The master control byte as software reads it.
    pub open spec fn master(self) -> int {
        (if self.audio_on { 128 } else { 0int }) + (if self.ch4.enabled { 8 } else { 0int }) + (
        if self.ch3.enabled { 4 } else { 0int }) + (if self.ch2.enabled { 2 } else { 0int }) + (
        if self.ch1.enabled { 1 } else { 0int })
    }

    /// What software reads at register `idx`, counted from 0xFF10. A
    /// register that is not there, or that can only be written, reads as
    /// all ones.
    pub open spec fn register(self, idx: int) -> int {
        if idx == 0x00 {
            self.ch1.sweep.register()
        } else if idx == 0x01 {
            self.ch1.duty_cycle_pattern * 64
        } else if idx == 0x02 {
            self.ch1.volume.register()
        } else if idx == 0x03 {
            self.ch1.raw_period as int % 256
        } else if idx == 0x04 {
            self.ch1.control()
        } else if idx == 0x06 {
            self.ch2.duty_cycle_pattern * 64
        } else if idx == 0x07 {
            self.ch2.volume.register()
        } else if idx == 0x08 {
            self.ch2.raw_period as int % 256
        } else if idx == 0x09 {
            self.ch2.control()
        } else if idx == 0x0A {
            if self.ch3.enabled { 128 } else { 0 }
        } else if idx == 0x0C {
            self.ch3.volume.code_spec() * 32
        } else if idx == 0x0D {
            self.ch3.raw_period as int % 256
        } else if idx == 0x0E {
            self.ch3.control()
        } else if idx == 0x11 {
            self.ch4.volume.register()
        } else if idx == 0x12 {
            self.ch4.clock()
        } else if idx == 0x13 {
            if self.ch4.length.enabled { 64 } else { 0 }
        } else if idx == 0x14 {
            self.output_volume as int
        } else if idx == 0x15 {
            self.panning as int
        } else if idx == 0x16 {
            self.master()
        } else if 0x20 <= idx <= 0x2F {
            self.ch3.wave_ram[idx - 0x20] as int
        } else {
            0xFF
        }
    }

    /// The generator after software wrote `val` to register `idx`.
    pub open spec fn written(self, idx: int, val: u8) -> Apu {
        if idx == 0x00 {
            Apu { ch1: SquareChannel { sweep: self.ch1.sweep.of_register(val), ..self.ch1 }, ..self }
        } else if idx == 0x01 {
            Apu { ch1: self.ch1.with_duty_length(val), ..self }
        } else if idx == 0x02 {
            Apu { ch1: SquareChannel { volume: self.ch1.volume.of_register(val), ..self.ch1 }, ..self }
        } else if idx == 0x03 {
            Apu { ch1: self.ch1.with_period_low(val), ..self }
        } else if idx == 0x04 {
            Apu { ch1: self.ch1.with_control(val), ..self }
        } else if idx == 0x06 {
            Apu { ch2: self.ch2.with_duty_length(val), ..self }
        } else if idx == 0x07 {
            Apu { ch2: SquareChannel { volume: self.ch2.volume.of_register(val), ..self.ch2 }, ..self }
        } else if idx == 0x08 {
            Apu { ch2: self.ch2.with_period_low(val), ..self }
        } else if idx == 0x09 {
            Apu { ch2: self.ch2.with_control(val), ..self }
        } else if idx == 0x0A {
            Apu { ch3: WaveChannel { enabled: bit_of(val, 7), ..self.ch3 }, ..self }
        } else if idx == 0x0B {
            Apu { ch3: self.ch3.with_length(val), ..self }
        } else if idx == 0x0C {
            Apu {
                ch3: WaveChannel { volume: wave::Volume::of_code((val / 32) as int), ..self.ch3 },
                ..self
            }
        } else if idx == 0x0D {
            Apu { ch3: self.ch3.with_period_low(val), ..self }
        } else if idx == 0x0E {
            Apu { ch3: self.ch3.with_control(val), ..self }
        } else if idx == 0x10 {
            Apu { ch4: self.ch4.with_length(val), ..self }
        } else if idx == 0x11 {
            Apu { ch4: NoiseChannel { volume: self.ch4.volume.of_register(val), ..self.ch4 }, ..self }
        } else if idx == 0x12 {
            Apu { ch4: self.ch4.with_clock(val), ..self }
        } else if idx == 0x13 {
            Apu { ch4: self.ch4.with_control(val), ..self }
        } else if idx == 0x14 {
            Apu { output_volume: val, ..self }
        } else if idx == 0x15 {
            Apu { panning: val, ..self }
        } else if idx == 0x16 {
            Apu { audio_on: bit_of(val, 7), ..self }
        } else if 0x20 <= idx <= 0x2F {
            Apu {
                ch3: WaveChannel {
                    wave_ram: vstd::array::spec_array_update(self.ch3.wave_ram, idx - 0x20, val),
                    ..self.ch3
                },
                ..self
            }
        } else {
            self
        }
    }

    /// The generator one sample later, and the sample: for each output the
    /// sum of what the four channels put out.
    pub open spec fn sampled(self) -> (Apu, (u8, u8)) {
        let (ch1, out1) = self.ch1.sampled();
        let (ch2, out2) = self.ch2.sampled();
        let (ch3, out3) = self.ch3.sampled();
        let (ch4, out4) = self.ch4.sampled();
        let sum = (out1 + out2 + out3 + out4) as u8;
        (Apu { ch1, ch2, ch3, ch4, ..self }, (sum, sum))
    }

    /// The generator once `pending` master ticks have been turned into
    /// samples, as long as they exceed the ticks of one, and `made` with the
    /// samples behind it, in the order in which they were made.
    pub open spec fn drained(self, pending: int, made: Seq<(u8, u8)>) -> (Apu, Seq<(u8, u8)>)
        decreases pending,
    {
        if pending > TICKS_IN_SAMPLE_RATE {
            let (apu, sample) = self.sampled();
            apu.drained(pending - TICKS_IN_SAMPLE_RATE, made.push(sample))
        } else {
            (Apu { ticks: pending as u32, ..self }, made)
        }
    }

    /// The generator `ticks` master ticks later, and the samples that came
    /// out. With the sound switched off nothing moves.
    pub open spec fn advanced(self, ticks: int) -> (Apu, Seq<(u8, u8)>) {
        if !self.audio_on {
            (self, Seq::empty())
        } else {
            self.drained(self.ticks + ticks, Seq::empty())
        }
    }

    /// Whether the generator is as it is at power-on: the sound off, every
    /// channel off and at its first state.
    pub open spec fn is_initial(self) -> bool {
        &&& !self.audio_on
        &&& self.output_volume == 0
        &&& self.panning == 0
        &&& self.ticks == 0
        &&& self.ch1 == SquareChannel::initial()
        &&& self.ch2 == SquareChannel::initial()
        &&& self.ch3.is_initial()
        &&& self.ch4 == NoiseChannel::initial()
    }

    pub fn new() -> (r: Self)
        ensures
            r.wf(),
            r.is_initial(),
    {
        Apu {
            audio_on: false,
            output_volume: 0,
            panning: 0,
            ch1: SquareChannel::new(),
            ch2: SquareChannel::new(),
            ch3: WaveChannel::new(),
            ch4: NoiseChannel::new(),
            ticks: 0,
        }
    }

    /// Makes one sample out of the four channels.
    pub fn mix(&mut self) -> (r: (u8, u8))
        requires
            old(self).wf(),
        ensures
            final(self).wf(),
            (*final(self), r) == old(self).sampled(),
            r.0 <= 60,
            r.1 <= 60,
    {
        let s1 = self.ch1.sample();
        let s2 = self.ch2.sample();
        let s3 = self.ch3.sample();
        let s4 = self.ch4.sample();
        (s1.0 + s2.0 + s3.0 + s4.0, s1.1 + s2.1 + s3.1 + s4.1)
    }

    /// Advances the generator by the ticks of one instruction. The samples
    /// that become due are appended to `buffer`.
    #[verifier::rlimit(30)]
    pub fn tick(&mut self, ticks: u8, buffer: &mut Vec<(u8, u8)>)
        requires
            old(self).wf(),
        ensures
            final(self).wf(),
            (*final(self), final(buffer)@) == ({
                let (apu, made) = old(self).advanced(ticks as int);
                (apu, old(buffer)@ + made)
            }),
    {
        if !self.audio_on {
            assert(buffer@ =~= old(buffer)@ + Seq::<(u8, u8)>::empty());
            return ;
        }
        let mut pending: u32 = self.ticks + ticks as u32;
        let ghost mut made: Seq<(u8, u8)> = Seq::empty();
        assert(buffer@ =~= old(buffer)@ + made);
        while pending > TICKS_IN_SAMPLE_RATE
            invariant
                self.wf(),
                pending <= TICKS_IN_SAMPLE_RATE + 255,
                self.drained(pending as int, made) == old(self).drained(
                    old(self).ticks + ticks,
                    Seq::empty(),
                ),
                buffer@ == old(buffer)@ + made,
            decreases pending,
        {
            let sample = self.mix();
            buffer.push(sample);
            proof {
                assert(buffer@ =~= old(buffer)@ + made.push(sample));
                made = made.push(sample);
            }
            pending = pending - TICKS_IN_SAMPLE_RATE;
        }
        self.ticks = pending;
    }

    #[verifier::rlimit(30)]
    pub fn read_register(&self, idx: usize) -> (r: u8)
        requires
            idx <= LAST_REGISTER,
            self.wf(),
        ensures
            r == self.register(idx as int),
    {
        match idx {
            0x00 => self.ch1.sweep.as_register(),
            0x01 => self.ch1.duty_cycle_pattern * 64,
            0x02 => self.ch1.volume.as_register(),
            0x03 => (self.ch1.raw_period % 256) as u8,
            0x04 => self.ch1.read_control(),
            0x06 => self.ch2.duty_cycle_pattern * 64,
            0x07 => self.ch2.volume.as_register(),
            0x08 => (self.ch2.raw_period % 256) as u8,
            0x09 => self.ch2.read_control(),
            0x0A => if self.ch3.enabled {
                128
            } else {
                0
            },
            0x0C => self.ch3.volume.code() * 32,
            0x0D => (self.ch3.raw_period % 256) as u8,
            0x0E => self.ch3.read_control(),
            0x11 => self.ch4.volume.as_register(),
            0x12 => self.ch4.read_clock(),
            0x13 => if self.ch4.length.enabled {
                64
            } else {
                0
            },
            0x14 => self.output_volume,
            0x15 => self.panning,
            0x16 => self.master_volume().0.0,
            _ => if 0x20 <= idx {
                self.ch3.wave_ram[idx - 0x20]
            } else {
                0xFF
            },
        }
    }

    /// The master control byte: whether sound is on, and which channels are.
    pub fn master_volume(&self) -> (r: MasterVolume)
        ensures
            r.0.0 == self.master(),
    {
        let audio: u8 = if self.audio_on { 128 } else { 0 };
        let ch4: u8 = if self.ch4.enabled { 8 } else { 0 };
        let ch3: u8 = if self.ch3.enabled { 4 } else { 0 };
        let ch2: u8 = if self.ch2.enabled { 2 } else { 0 };
        let ch1: u8 = if self.ch1.enabled { 1 } else { 0 };
        MasterVolume(BitFlags8(audio + ch4 + ch3 + ch2 + ch1))
    }

    #[verifier::rlimit(30)]
    pub fn write_register(&mut self, idx: usize, val: u8)
        requires
            idx <= LAST_REGISTER,
            old(self).wf(),
        ensures
            final(self).wf(),
            *final(self) == old(self).written(idx as int, val),
    {
        match idx {
            0x00 => self.ch1.sweep.set_from_register(val),
            0x01 => self.ch1.write_duty_length(val),
            0x02 => self.ch1.volume.set_from_register(val),
            0x03 => self.ch1.write_period_low(val),
            0x04 => self.ch1.write_control(val),
            0x06 => self.ch2.write_duty_length(val),
            0x07 => self.ch2.volume.set_from_register(val),
            0x08 => self.ch2.write_period_low(val),
            0x09 => self.ch2.write_control(val),
            0x0A => self.ch3.enabled = BitFlags8(val).get(7),
            0x0B => self.ch3.length.set_timer(val),
            0x0C => self.ch3.volume = wave::Volume::from_code(
                BitFlags8(val).get_range(RangeInclusive::new(5, 6)),
            ),
            0x0D => self.ch3.write_period_low(val),
            0x0E => self.ch3.write_control(val),
            0x10 => self.ch4.length.set_timer(BitFlags8(val).get_range(RangeInclusive::new(0, 5))),
            0x11 => self.ch4.volume.set_from_register(val),
            0x12 => self.ch4.write_clock(val),
            0x13 => self.ch4.write_control(val),
            0x14 => self.output_volume = val,
            0x15 => self.panning = val,
            0x16 => self.audio_on = MasterVolume(BitFlags8(val)).is_audio_on(),
            _ => if 0x20 <= idx {
                self.ch3.wave_ram[idx - 0x20] = val;
            },
        }
    }
}

/// What a register of the sound generator reads as after `val` was written
/// to it, where it only stores: the envelopes, the low bytes of the periods,
/// the clock of the noise, the two volume bytes and wave RAM in full, the
/// sweep without its high bit, and of the switch and the volume of the wave
/// channel the bits that they have.
pub open spec fn read_back(idx: int, val: u8) -> Option<int> {
    if idx == 0x00 {
        Some(val as int % 128)
    } else if idx == 0x02 || idx == 0x07 || idx == 0x11 {
        Some(val as int)
    } else if idx == 0x03 || idx == 0x08 || idx == 0x0D {
        Some(val as int)
    } else if idx == 0x0A {
        Some((val as int / 128) * 128)
    } else if idx == 0x0C {
        Some(((val as int / 32) % 4) * 32)
    } else if idx == 0x12 || idx == 0x14 || idx == 0x15 {
        Some(val as int)
    } else if 0x20 <= idx <= 0x2F {
        Some(val as int)
    } else {
        None
    }
}

/// A register of the sound generator that only stores reads back as
/// written, but for the bits that it does not have.
#[verifier::rlimit(40)]
pub proof fn lemma_registers_read_back(apu: Apu, idx: int, val: u8)
    requires
        apu.wf(),
        0 <= idx <= LAST_REGISTER,
    ensures
        read_back(idx, val) matches Some(value) ==> apu.written(idx, val).register(idx) == value,
{
    if idx == 0x00 {
        assert(((val / 16) % 8) * 16 + (if (val / 8) % 2 == 0 { 0u8 } else { 8u8 }) + val % 8 == val
            % 128) by (bit_vector);
    } else if idx == 0x02 || idx == 0x07 || idx == 0x11 {
        assert((val / 16) * 16 + (if (val / 8) % 2 == 1 { 8u8 } else { 0u8 }) + val % 8 == val)
            by (bit_vector);
    } else if idx == 0x12 {
        assert((val / 16) * 16 + (if bit_of(val, 3) { 8u8 } else { 0u8 }) + val % 8 == val)
            by (bit_vector);
    } else if idx == 0x0A {
        assert(bit_of(val, 7) == (val / 128 == 1));
    }
}

/// Whether a channel is on, and what its length timer holds.
pub open spec fn channel_state(apu: Apu, idx: int) -> (bool, int) {
    if idx == 0x04 {
        (apu.ch1.enabled, apu.ch1.length.timer as int)
    } else if idx == 0x09 {
        (apu.ch2.enabled, apu.ch2.length.timer as int)
    } else if idx == 0x0E {
        (apu.ch3.enabled, apu.ch3.length.timer as int)
    } else {
        (apu.ch4.enabled, apu.ch4.length.timer as int)
    }
}

/// What the length timer of a channel starts from: the largest length of
/// the channel less what its length register holds.
pub open spec fn channel_length(apu: Apu, idx: int) -> int {
    if idx == 0x04 {
        64 - apu.ch1.length.initial
    } else if idx == 0x09 {
        64 - apu.ch2.length.initial
    } else if idx == 0x0E {
        256 - apu.ch3.length.initial
    } else {
        64 - apu.ch4.length.initial
    }
}

/// A write to the control register of a channel is a trigger if and only if
/// its high bit is set. A trigger switches the channel on, whatever it was,
/// and starts a length timer that had run out again from what the length
/// register holds; a timer that still runs is left alone. A write that is
/// no trigger leaves both as they are.
#[verifier::rlimit(40)]
pub proof fn lemma_trigger_enables_and_rearms(apu: Apu, idx: int, val: u8)
    requires
        apu.wf(),
        idx == 0x04 || idx == 0x09 || idx == 0x0E || idx == 0x13,
    ensures
        bit_of(val, 7) ==> channel_state(apu.written(idx, val), idx) == (
            true,
            if channel_state(apu, idx).1 == 0 {
                channel_length(apu, idx)
            } else {
                channel_state(apu, idx).1
            },
        ),
        !bit_of(val, 7) ==> channel_state(apu.written(idx, val), idx) == channel_state(apu, idx),
{
}

impl From<u8> for MasterVolume {
    fn from(value: u8) -> (r: Self) {
        MasterVolume(BitFlags8(value))
    }
}

impl FromSpecImpl<u8> for MasterVolume {
    open spec fn obeys_from_spec() -> bool {
        true
    }

    open spec fn from_spec(v: u8) -> Self {
        MasterVolume(BitFlags8(v))
    }
}


} // verus!
