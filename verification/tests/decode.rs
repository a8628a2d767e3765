//! Tests of the little-endian word decoders.

use bsp_map::bytes::{read_i32, read_u32, to_i32};

#[test]
fn little_endian_word() {
    let b = vec![0x78u8, 0x56, 0x34, 0x12];
    assert_eq!(read_u32(&b, 0), 0x1234_5678);
}

#[test]
fn little_endian_word_at_offset() {
    let b = vec![0u8, 0, 1, 0, 0, 0];
    assert_eq!(read_u32(&b, 2), 1);
}

#[test]
fn signed_word_two_complement() {
    let b = vec![0xffu8, 0xff, 0xff, 0xff];
    assert_eq!(read_i32(&b, 0), -1);
    assert_eq!(to_i32(0x8000_0000), i32::MIN);
    assert_eq!(to_i32(0x7fff_ffff), i32::MAX);
    assert_eq!(to_i32(5), 5);
}
