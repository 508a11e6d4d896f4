use rchip16::input::latch;
use rchip16::input::Button;
use rchip16::util::bitflag;
use rchip16::util::crc32;
use rchip16::util::deserialize;
use rchip16::util::half_bytes;
use rchip16::util::serialize;
use rchip16::util::set_bitflag;
use rchip16::util::signed;
use rchip16::util::unsigned;
use rchip16::util::word;
use rchip16::util::word_bytes;

#[test]
fn bitflag_works() {
    let mut flag = 0;
    set_bitflag(&mut flag, 2, true);
    assert_eq!(bitflag(flag, 2), true);
    assert_eq!(bitflag(flag, 4), false);
    set_bitflag(&mut flag, 4, true);
    assert_eq!(bitflag(flag, 2), true);
    assert_eq!(bitflag(flag, 4), true);
    set_bitflag(&mut flag, 2, false);
    assert_eq!(bitflag(flag, 2), false);
    assert_eq!(bitflag(flag, 4), true);
}

#[test]
fn half_bytes_works() {
    assert_eq!(half_bytes(0xAB), (0xA, 0xB));
}

#[test]
fn serialize_works() {
    assert_eq!(serialize(&0x1A2Bi16), [0x2B, 0x1A]);
    assert_eq!(deserialize(&[0x2B, 0x1A]), 0x1A2Bi16);
}

#[test]
fn crc32_works() {
    assert_eq!(crc32(b"The quick brown fox jumps over the lazy dog"), 0x414FA339);
}

#[test]
fn crc32_of_nothing_is_zero() {
    assert_eq!(crc32(b""), 0);
}

#[test]
fn crc32_of_the_check_string() {
    assert_eq!(crc32(b"123456789"), 0xCBF43926);
}

#[test]
fn crc32_of_one_zero_byte() {
    assert_eq!(crc32(&[0]), 0xD202EF8D);
}

#[test]
fn set_bitflag_keeps_the_other_bits() {
    let mut flag = 0b1010_0101;
    set_bitflag(&mut flag, 0, false);
    assert_eq!(flag, 0b1010_0100);
    set_bitflag(&mut flag, 7, true);
    assert_eq!(flag, 0b1010_0100);
    set_bitflag(&mut flag, 6, true);
    assert_eq!(flag, 0b1110_0100);
    set_bitflag(&mut flag, 7, false);
    assert_eq!(flag, 0b0110_0100);
}

#[test]
fn bitflag_reads_every_bit() {
    for index in 0..8u8 {
        assert_eq!(bitflag(0b0100_0110, index), index == 1 || index == 2 || index == 6);
    }
}

#[test]
fn half_bytes_of_the_extremes() {
    assert_eq!(half_bytes(0x00), (0x0, 0x0));
    assert_eq!(half_bytes(0xFF), (0xF, 0xF));
    assert_eq!(half_bytes(0x0F), (0x0, 0xF));
    assert_eq!(half_bytes(0xF0), (0xF, 0x0));
}

#[test]
fn signed_and_unsigned_are_two_complement() {
    assert_eq!(unsigned(-1), 0xFFFF);
    assert_eq!(unsigned(i16::MIN), 0x8000);
    assert_eq!(unsigned(0x1234), 0x1234);
    assert_eq!(signed(0xFFFF), -1);
    assert_eq!(signed(0x8000), i16::MIN);
    assert_eq!(signed(0x7FFF), i16::MAX);
}

#[test]
fn words_are_little_endian() {
    assert_eq!(word(0x34, 0x12), 0x1234);
    assert_eq!(word_bytes(0x1234), (0x34, 0x12));
    assert_eq!(serialize(&-2), [0xFE, 0xFF]);
    assert_eq!(deserialize(&[0xFE, 0xFF, 0x55]), -2);
}

#[test]
fn buttons_are_latched_bit_by_bit() {
    assert_eq!(latch(&[false; 8]), 0);
    assert_eq!(latch(&[true; 8]), 0xFF);
    assert_eq!(latch(&[true, false, false, false, false, false, false, false]), 0b0000_0001);
    assert_eq!(latch(&[false, true, false, true, false, false, true, false]), 0b0100_1010);
    let order = [
        Button::Up,
        Button::Down,
        Button::Left,
        Button::Right,
        Button::Select,
        Button::Start,
        Button::A,
        Button::B,
    ];
    for (i, button) in order.iter().enumerate() {
        assert_eq!(button.bit(), i as u8);
        let mut down = [false; 8];
        down[button.bit() as usize] = true;
        assert_eq!(latch(&down), 1 << i);
    }
}
