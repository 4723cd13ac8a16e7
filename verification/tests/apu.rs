use playful_youngster::apu::effect::{ChannelSweeped, Direction, Length, Sweep, Volume};
use playful_youngster::apu::noise::NoiseChannel;
use playful_youngster::apu::square::{Controls, SquareChannel};
use playful_youngster::apu::wave::{Volume as WaveVolume, WaveChannel};
use playful_youngster::apu::{
    Apu, MasterVolume, MASTER_CLOCK, MAX_PERIOD, SAMPLE_RATE, TICKS_IN_SAMPLE_RATE,
};
use playful_youngster::bitflags::BitFlags8;

/// Master ticks between two ticks of the envelope, the sweep, the length.
const ENVELOPE: u32 = MASTER_CLOCK / 64;
const SWEEP: u32 = MASTER_CLOCK / 128;
const LENGTH: u32 = MASTER_CLOCK / 256;

#[test]
fn clocks() {
    assert_eq!(MASTER_CLOCK, 4_194_304);
    assert_eq!(SAMPLE_RATE, 44100);
    assert_eq!(TICKS_IN_SAMPLE_RATE, 95);
    assert_eq!(MAX_PERIOD, 2047);
}

#[test]
fn envelope_register_round_trip() {
    let mut volume = Volume::new();
    assert_eq!(volume.as_register(), 0x70);
    for register in [0x00, 0xF3, 0x8B, 0x5F, 0xFF] {
        volume.set_from_register(register);
        assert_eq!(volume.as_register(), register);
    }
    volume.set_from_register(0xA9);
    assert_eq!(volume.volume, 0xA);
    assert_eq!(volume.direction, Direction::Increase);
    assert_eq!(volume.pace, 1);
    volume.set_from_register(0x37);
    assert_eq!(volume.direction, Direction::Decrease);
    assert_eq!(volume.pace, 7);
}

#[test]
fn envelope_steps_every_pace_ticks_of_its_clock() {
    let mut volume = Volume::default();
    volume.set_from_register(0xD2);
    assert_eq!(volume.tick(ENVELOPE), 0xD);
    assert_eq!(volume.tick(ENVELOPE - 1), 0xD);
    assert_eq!(volume.tick(1), 0xC);
    assert_eq!(volume.tick(4 * ENVELOPE), 0xA);
}

#[test]
fn envelope_saturates_at_both_ends() {
    let mut volume = Volume::new();
    volume.set_from_register(0x21);
    assert_eq!(volume.tick(ENVELOPE), 1);
    assert_eq!(volume.tick(ENVELOPE), 0);
    assert_eq!(volume.tick(5 * ENVELOPE), 0);
    volume.set_from_register(0xE9);
    assert_eq!(volume.tick(ENVELOPE), 0xF);
    assert_eq!(volume.tick(3 * ENVELOPE), 0xF);
}

#[test]
fn envelope_with_pace_zero_is_constant() {
    let mut volume = Volume::new();
    volume.set_from_register(0x98);
    assert_eq!(volume.tick(100 * ENVELOPE), 9);
}

#[test]
fn sweep_register_round_trip() {
    let mut sweep = Sweep::new_disabled();
    assert_eq!(sweep.as_register(), 0);
    for register in [0x00u8, 0x7F, 0x15, 0x2A, 0xFF] {
        sweep.set_from_register(register);
        assert_eq!(sweep.as_register(), register & 0x7F);
    }
    sweep.set_from_register(0x2B);
    assert_eq!(sweep.pace, 2);
    assert_eq!(sweep.direction, Direction::Decrease);
    assert_eq!(sweep.step, 3);
    sweep.set_from_register(0x71);
    assert_eq!(sweep.direction, Direction::Increase);
}

#[test]
fn sweep_moves_the_period_by_its_shifted_self() {
    let mut sweep = Sweep::default();
    sweep.set_from_register(0x12);
    assert_eq!(sweep.compute_new_period(0x400), ChannelSweeped::NewPeriod(0x500));
    assert_eq!(sweep.tick(SWEEP - 1, 0x400), ChannelSweeped::NewPeriod(0x400));
    assert_eq!(sweep.tick(1, 0x400), ChannelSweeped::NewPeriod(0x500));
    sweep.set_from_register(0x1A);
    assert_eq!(sweep.compute_new_period(0x400), ChannelSweeped::NewPeriod(0x300));
    assert_eq!(sweep.tick(2 * SWEEP, 0x400), ChannelSweeped::NewPeriod(0x240));
}

#[test]
fn sweep_disables_the_channel_beyond_the_largest_period() {
    let mut sweep = Sweep::new_disabled();
    sweep.set_from_register(0x11);
    // 0x600 + 0x300 is beyond 2047.
    assert_eq!(sweep.compute_new_period(0x600), ChannelSweeped::Disabled);
    // 0x500 + 0x280 fits, but one step more from there would not.
    assert_eq!(sweep.compute_new_period(0x500), ChannelSweeped::Disabled);
    // 0x300 + 0x180 = 0x480 fits, and so does 0x480 + 0x240.
    assert_eq!(sweep.compute_new_period(0x300), ChannelSweeped::NewPeriod(0x480));
    assert_eq!(sweep.tick(SWEEP, 0x600), ChannelSweeped::Disabled);
    // A decreasing sweep never goes beyond.
    sweep.set_from_register(0x19);
    assert_eq!(sweep.compute_new_period(2047), ChannelSweeped::NewPeriod(1024));
}

#[test]
fn sweep_with_pace_or_step_zero_changes_nothing() {
    let mut sweep = Sweep::new_disabled();
    sweep.set_from_register(0x03);
    assert_eq!(sweep.tick(10 * SWEEP, 0x7FF), ChannelSweeped::NewPeriod(0x7FF));
    sweep.set_from_register(0x30);
    assert_eq!(sweep.tick(10 * SWEEP, 0x7FF), ChannelSweeped::NewPeriod(0x7FF));
}

#[test]
fn length_counts_down_and_turns_the_channel_off() {
    let mut length: Length<64> = Length::new();
    length.set_timer(61);
    assert_eq!(length.timer, 3);
    // A timer that is not enabled does not run.
    assert!(length.tick(10 * LENGTH));
    assert_eq!(length.timer, 3);
    length.enabled = true;
    assert!(length.tick(LENGTH - 1));
    assert!(length.tick(1));
    assert_eq!(length.timer, 2);
    assert!(length.tick(LENGTH));
    assert!(!length.tick(LENGTH));
    assert_eq!(length.timer, 0);
    assert!(!length.tick(5 * LENGTH));
    length.rearm();
    assert_eq!(length.timer, 3);
    length.rearm();
    assert_eq!(length.timer, 3);

    let mut length: Length<256> = Length::new();
    length.set_timer(0);
    assert_eq!(length.timer, 256);
    length.set_timer(255);
    assert_eq!(length.timer, 1);
}

#[test]
fn square_frequency() {
    let mut channel = SquareChannel::new();
    assert_eq!(channel.frequency(), 64);
    channel.write_period_low(0x00);
    channel.write_control(0x04);
    assert_eq!(channel.raw_period, 1024);
    assert_eq!(channel.frequency(), 128);
    channel.write_period_low(0xFF);
    channel.write_control(0x07);
    assert_eq!(channel.raw_period, 2047);
    assert_eq!(channel.frequency(), 131072);
}

#[test]
fn square_duty_cycles() {
    let patterns: [[u8; 8]; 4] = [
        [0, 0, 0, 0, 0, 0, 0, 1],
        [0, 0, 0, 0, 0, 0, 1, 1],
        [0, 0, 0, 0, 1, 1, 1, 1],
        [1, 1, 1, 1, 1, 1, 0, 0],
    ];
    for pattern in 0..4 {
        for position in 0..8 {
            let mut channel = SquareChannel::new();
            channel.duty_cycle_pattern = pattern as u8;
            channel.duty_cycle_position = position as u8;
            assert_eq!(channel.wave_amplitude(), patterns[pattern][position]);
        }
    }
}

#[test]
fn square_wave_steps_every_four_times_the_period_left() {
    let mut channel = SquareChannel::new();
    // Period 2040: a step of the pattern takes 4 * 8 = 32 ticks.
    channel.write_period_low(0xF8);
    channel.write_control(0x07);
    channel.follow_wave();
    // 95 ticks are two steps and 31 ticks.
    assert_eq!(channel.duty_cycle_position, 2);
    assert_eq!(channel.subtick, 31);
    channel.follow_wave();
    // 126 ticks are three steps and 30 ticks.
    assert_eq!(channel.duty_cycle_position, 5);
    assert_eq!(channel.subtick, 30);
    channel.follow_wave();
    assert_eq!(channel.duty_cycle_position, 0);
    assert_eq!(channel.subtick, 29);
}

#[test]
fn square_sample_is_the_volume_while_the_wave_is_high() {
    let mut channel = SquareChannel::new();
    channel.write_duty_length(0xC0);
    channel.volume.set_from_register(0xB0);
    channel.write_period_low(0xF8);
    // Not triggered yet: silent.
    assert_eq!(channel.sample(), (0, 0));
    channel.write_control(0x87);
    assert!(channel.enabled);
    // Positions 2, 5 and 0 of the last pattern are high, 7 is low.
    assert_eq!(channel.sample(), (0xB, 0xB));
    assert_eq!(channel.sample(), (0xB, 0xB));
    assert_eq!(channel.sample(), (0xB, 0xB));
    assert_eq!(channel.duty_cycle_position, 0);
    channel.duty_cycle_position = 4;
    assert_eq!(channel.sample(), (0, 0));
    assert_eq!(channel.duty_cycle_position, 7);
}

#[test]
fn trigger_enables_the_channel_and_rearms_a_length_that_ran_out() {
    let mut channel = SquareChannel::new();
    channel.write_duty_length(0x3D);
    assert_eq!(channel.length.timer, 3);
    channel.write_control(0xC0);
    assert!(channel.enabled);
    assert!(channel.length.enabled);
    // The timer had not run out: the trigger leaves it.
    assert_eq!(channel.length.timer, 3);
    channel.length.tick(3 * LENGTH);
    assert_eq!(channel.length.timer, 0);
    channel.enabled = false;
    channel.trigger();
    assert!(channel.enabled);
    assert_eq!(channel.length.timer, 3);

    let mut noise = NoiseChannel::new();
    noise.trigger();
    assert!(noise.enabled);
    assert_eq!(noise.length.timer, 64);
    let mut wave = WaveChannel::new();
    wave.trigger();
    assert!(wave.enabled);
    assert_eq!(wave.length.timer, 256);
}

#[test]
fn length_turns_a_sounding_channel_off() {
    let mut channel = SquareChannel::new();
    channel.write_duty_length(0x3F);
    channel.write_control(0xC7);
    assert_eq!(channel.length.timer, 1);
    let mut samples = 0;
    while channel.enabled {
        channel.sample();
        samples += 1;
    }
    // 16384 ticks, 95 at a time.
    assert_eq!(samples, 16384 / 95 + 1);
    assert_eq!(channel.sample(), (0, 0));
}

#[test]
fn controls_bits() {
    assert!(Controls(BitFlags8(0x80)).is_triggered());
    assert!(!Controls(BitFlags8(0x80)).is_length_timer_enabled());
    assert!(Controls(BitFlags8(0x40)).is_length_timer_enabled());
    assert!(!Controls(BitFlags8(0x7F)).is_triggered());
}

#[test]
fn wave_volume_codes() {
    assert_eq!(WaveVolume::Pattern0.shift_amount(), 4);
    assert_eq!(WaveVolume::Pattern1.shift_amount(), 0);
    assert_eq!(WaveVolume::Pattern2.shift_amount(), 1);
    assert_eq!(WaveVolume::Pattern3.shift_amount(), 2);
    for code in 0..4 {
        assert_eq!(WaveVolume::from_code(code).code(), code);
    }
}

#[test]
fn wave_plays_its_samples_high_half_first() {
    let mut apu = Apu::new();
    apu.write_register(0x20, 0xA7);
    apu.write_register(0x21, 0x3C);
    // Period 2047: a sample lasts 2 ticks.
    apu.write_register(0x0D, 0xFF);
    apu.write_register(0x0C, 0x20);
    apu.write_register(0x0E, 0x87);
    assert_eq!(apu.ch3.frequency(), 65536);
    // 95 ticks: 47 samples on, at sample 15, and one tick into it.
    apu.ch3.sample();
    assert_eq!(apu.ch3.position, 47 % 32);
    assert_eq!(apu.ch3.subtick, 1);
    apu.ch3.position = 0;
    apu.ch3.subtick = 0;
    // Period 0: a sample lasts 4096 ticks, the position stays.
    apu.write_register(0x0D, 0x00);
    apu.write_register(0x0E, 0x00);
    assert_eq!(apu.ch3.frequency(), 32);
    assert_eq!(apu.ch3.sample(), (0xA, 0xA));
    apu.ch3.position = 1;
    assert_eq!(apu.ch3.sample(), (0x7, 0x7));
    apu.ch3.position = 2;
    assert_eq!(apu.ch3.sample(), (0x3, 0x3));
    apu.ch3.position = 3;
    apu.write_register(0x0C, 0x40);
    assert_eq!(apu.ch3.sample(), (0x6, 0x6));
    apu.write_register(0x0C, 0x60);
    assert_eq!(apu.ch3.sample(), (0x3, 0x3));
    apu.write_register(0x0C, 0x00);
    assert_eq!(apu.ch3.sample(), (0, 0));
}

#[test]
fn noise_frequency() {
    let mut noise = NoiseChannel::new();
    noise.write_clock(0x01);
    assert_eq!(noise.frequency(), 262144);
    noise.write_clock(0x12);
    assert_eq!(noise.frequency(), 262144 / (2 * 2));
    noise.write_clock(0xF7);
    assert_eq!(noise.frequency(), 262144 / (7 * 32768));
    // A divider of zero counts as a half.
    noise.write_clock(0x00);
    assert_eq!(noise.frequency(), 524288);
    assert_eq!(noise.read_clock(), 0x00);
    noise.write_clock(0x5B);
    assert_eq!(noise.clock_shift, 5);
    assert!(noise.short_mode);
    assert_eq!(noise.clock_divider, 3);
    assert_eq!(noise.read_clock(), 0x5B);
}

#[test]
fn noise_shift_register_steps() {
    let mut noise = NoiseChannel::new();
    // Both low bits clear: they are equal, a one comes in at bit 14.
    noise.move_lfsr();
    assert_eq!(noise.lfsr, 0x4000);
    noise.move_lfsr();
    assert_eq!(noise.lfsr, 0x6000);
    noise.lfsr = 0b01;
    noise.move_lfsr();
    assert_eq!(noise.lfsr, 0);
    noise.lfsr = 0b11;
    noise.move_lfsr();
    assert_eq!(noise.lfsr, 0x4001);
    // In short mode the bit goes to bit 6 as well.
    noise.short_mode = true;
    noise.lfsr = 0;
    noise.move_lfsr();
    assert_eq!(noise.lfsr, 0x4040);
    noise.lfsr = 0x00FE;
    noise.move_lfsr();
    assert_eq!(noise.lfsr, 0x003F);
}

#[test]
fn noise_sample_is_the_volume_while_the_low_bit_is_set() {
    let mut noise = NoiseChannel::new();
    noise.volume.set_from_register(0xC0);
    // The shift register steps every 16 * 6 = 96 ticks.
    noise.write_clock(0x06);
    noise.write_control(0x80);
    assert_eq!(noise.sample(), (0, 0));
    assert_eq!(noise.lfsr, 0);
    assert_eq!(noise.ticks, 95);
    assert_eq!(noise.sample(), (0, 0));
    assert_eq!(noise.lfsr, 0x4000);
    assert_eq!(noise.ticks, 94);
    noise.lfsr = 0x0003;
    assert_eq!(noise.sample(), (0xC, 0xC));
    assert_eq!(noise.lfsr, 0x4001);
    assert_eq!(noise.sample(), (0, 0));
    assert_eq!(noise.lfsr, 0x2000);
}

#[test]
fn master_volume_bits() {
    let master = MasterVolume(BitFlags8(0b1000_0101));
    assert!(master.is_audio_on());
    assert!(!master.is_ch4_on());
    assert!(master.is_ch3_on());
    assert!(!master.is_ch2_on());
    assert!(master.is_ch1_on());
}

#[test]
fn apu_registers_read_back_what_they_store() {
    let mut apu = Apu::new();
    let stored: [(usize, u8, u8); 16] = [
        (0x00, 0xFF, 0x7F),
        (0x01, 0xBF, 0x80),
        (0x02, 0xF3, 0xF3),
        (0x03, 0xC1, 0xC1),
        (0x04, 0x45, 0x45),
        (0x06, 0x7F, 0x40),
        (0x07, 0x8A, 0x8A),
        (0x08, 0x12, 0x12),
        (0x09, 0x07, 0x07),
        (0x0A, 0xFF, 0x80),
        (0x0C, 0xFF, 0x60),
        (0x0D, 0x34, 0x34),
        (0x11, 0x5C, 0x5C),
        (0x12, 0x9D, 0x9D),
        (0x14, 0x77, 0x77),
        (0x15, 0xF3, 0xF3),
    ];
    for (idx, written, read) in stored {
        apu.write_register(idx, written);
        assert_eq!(apu.read_register(idx), read);
    }
    for idx in 0x20..=0x2F {
        apu.write_register(idx, 0xA0 + idx as u8);
        assert_eq!(apu.read_register(idx), 0xA0 + idx as u8);
    }
    // What is not there, or only written, reads as all ones.
    for idx in [0x05, 0x0B, 0x0F, 0x10, 0x17, 0x1F] {
        apu.write_register(idx, 0x12);
        assert_eq!(apu.read_register(idx), 0xFF);
    }
}

#[test]
fn apu_master_register_shows_the_channels_that_are_on() {
    let mut apu = Apu::new();
    assert_eq!(apu.read_register(0x16), 0x00);
    apu.write_register(0x16, 0xFF);
    assert_eq!(apu.read_register(0x16), 0x80);
    apu.write_register(0x04, 0x80);
    apu.write_register(0x13, 0x80);
    assert_eq!(apu.read_register(0x16), 0x89);
    apu.write_register(0x09, 0x80);
    apu.write_register(0x0E, 0x80);
    assert_eq!(apu.read_register(0x16), 0x8F);
    assert_eq!(apu.master_volume(), MasterVolume(BitFlags8(0x8F)));
    apu.write_register(0x16, 0x00);
    assert_eq!(apu.read_register(0x16), 0x0F);
}

#[test]
fn apu_makes_a_sample_when_the_ticks_exceed_those_of_one() {
    let mut apu = Apu::new();
    let mut samples = Vec::new();
    // Switched off, nothing moves.
    apu.tick(255, &mut samples);
    assert_eq!(apu.ticks, 0);
    assert!(samples.is_empty());
    apu.write_register(0x16, 0x80);
    apu.tick(95, &mut samples);
    assert_eq!(apu.ticks, 95);
    assert!(samples.is_empty());
    apu.tick(1, &mut samples);
    assert_eq!(apu.ticks, 1);
    assert_eq!(samples, vec![(0, 0)]);
    apu.tick(94, &mut samples);
    assert_eq!(samples.len(), 1);
    apu.tick(24, &mut samples);
    assert_eq!(apu.ticks, 24);
    assert_eq!(samples.len(), 2);
}

#[test]
fn apu_makes_every_sample_that_is_due() {
    let mut apu = Apu::new();
    let mut samples = vec![(7, 7)];
    apu.write_register(0x16, 0x80);
    // 255 ticks are two samples and 65 ticks.
    apu.tick(255, &mut samples);
    assert_eq!(samples, vec![(7, 7), (0, 0), (0, 0)]);
    assert_eq!(apu.ticks, 65);
    // 65 + 126 ticks are two samples and one tick.
    apu.tick(126, &mut samples);
    assert_eq!(samples.len(), 5);
    assert_eq!(apu.ticks, 1);
    // 1 + 190 ticks are twice the ticks of a sample and one more.
    apu.tick(190, &mut samples);
    assert_eq!(samples.len(), 7);
    assert_eq!(apu.ticks, 1);
    // 1 + 189 ticks do not exceed the ticks of a sample twice.
    apu.tick(189, &mut samples);
    assert_eq!(samples.len(), 8);
    assert_eq!(apu.ticks, 95);
}

#[test]
fn apu_sample_sums_the_channels() {
    let mut apu = Apu::new();
    apu.write_register(0x16, 0x80);
    // First channel: three quarters high, volume 9, slow wave.
    apu.write_register(0x01, 0xC0);
    apu.write_register(0x02, 0x90);
    apu.write_register(0x04, 0x80);
    // Second channel: the same with volume 5.
    apu.write_register(0x06, 0xC0);
    apu.write_register(0x07, 0x50);
    apu.write_register(0x09, 0x80);
    // Wave channel: first sample 0xE, at full volume.
    apu.write_register(0x20, 0xE0);
    apu.write_register(0x0C, 0x20);
    apu.write_register(0x0E, 0x80);
    // Noise channel: not triggered, silent.
    apu.write_register(0x11, 0xF0);
    let mut samples = Vec::new();
    apu.tick(96, &mut samples);
    assert_eq!(samples, vec![(9 + 5 + 0xE, 9 + 5 + 0xE)]);
    assert_eq!(apu.mix(), (9 + 5 + 0xE, 9 + 5 + 0xE));
}
