use playful_youngster::bitflags::BitFlags8;
use std::ops::RangeInclusive;

#[test]
fn get_within_limit() {
    let tests: Vec<(u8, usize, bool)> = vec![
        (0, 0, false),
        (1, 0, true),
        (2, 0, false),
        (3, 0, true),
        (0b00010000, 4, true),
        (0b10000000, 7, true),
    ];
    for (flag, index, expected) in tests {
        assert_eq!(BitFlags8::from(flag).get(index), expected);
    }
}

#[test]
fn get_range_within_limit() {
    let tests: Vec<(u8, RangeInclusive<usize>, u8)> = vec![
        (0b00000001, 0..=0, 0b1),
        (0b00000111, 0..=2, 0b111),
        (0b11101111, 3..=5, 0b101),
        (0b00111111, 6..=7, 0b00),
        (0b10101010, 0..=7, 0b10101010),
    ];
    for (flag, range, expected) in tests {
        assert_eq!(BitFlags8::from(flag).get_range(range), expected);
    }
}

#[test]
fn set_range_within_limit() {
    let tests: Vec<(u8, RangeInclusive<usize>, u8, u8)> = vec![
        (0b00000001, 0..=0, 0b0, 0b00000000),
        (0b00000001, 0..=1, 0b11, 0b00000011),
        (0b00011000, 3..=4, 0b00, 0b00000000),
        (0b11111111, 2..=5, 0b0000, 0b11000011),
        (0b10101010, 0..=7, 0b11111111, 0b11111111),
    ];
    for (flag, range, value, expected) in tests {
        let mut flags = BitFlags8::from(flag);
        flags.set_range(range, value);
        assert_eq!(Into::<u8>::into(flags), expected);
    }
}

#[test]
fn set_range_masks_extra_high_bits() {
    let mut flags = BitFlags8::from(0b0000_0000);
    flags.set_range(1..=2, 0b1111_1111);
    assert_eq!(u8::from(flags), 0b0000_0110);
}

#[test]
fn get_reads_every_bit_of_a_byte() {
    let flags = BitFlags8::from(0b1010_0101);
    let expected = [true, false, true, false, false, true, false, true];
    for index in 0..8 {
        assert_eq!(flags.get(index), expected[index]);
    }
}

#[test]
fn default_is_all_clear() {
    assert_eq!(u8::from(BitFlags8::default()), 0);
}
