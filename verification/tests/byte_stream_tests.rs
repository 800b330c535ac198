use rw_parser::{ByteStream, DecodeError};

#[test]
fn little_endian_primitives_read_in_order() {
    let data = [0x01u8, 0x02, 0x03, 0x04, 0xFF, 0xFF, 0x80, 0x00];
    let mut s = ByteStream::new(&data);
    assert_eq!(s.read_u32(), Ok(0x04030201));
    assert_eq!(s.read_i16(), Ok(-1));
    assert_eq!(s.read_u16(), Ok(0x0080));
    assert_eq!(s.get_position(), 8);
}

#[test]
fn signed_reads_are_twos_complement() {
    let data = [0xFEu8, 0xFF, 0xFF, 0xFF, 0x00, 0x80];
    let mut s = ByteStream::new(&data);
    assert_eq!(s.read_i32(), Ok(-2));
    assert_eq!(s.read_i16(), Ok(i16::MIN));
}

#[test]
fn reads_past_the_end_fail_with_truncated() {
    let data = [1u8, 2, 3];
    let mut s = ByteStream::new(&data);
    assert_eq!(s.read_u32(), Err(DecodeError::Truncated));
    // A failed read does not move the cursor.
    assert_eq!(s.get_position(), 0);
    assert_eq!(s.read_u16(), Ok(0x0201));
    assert_eq!(s.read_u16(), Err(DecodeError::Truncated));
}

#[test]
fn read_string_truncates_at_the_first_nul() {
    let data = [b'a', b'b', b'c', 0, b'z', b'z'];
    let mut s = ByteStream::new(&data);
    assert_eq!(s.read_string(6), Ok("abc".to_string()));
    assert_eq!(s.get_position(), 6);
}

#[test]
fn read_string_replaces_invalid_utf8() {
    let data = [0xFFu8, b'A'];
    let mut s = ByteStream::new(&data);
    assert_eq!(s.read_string(2), Ok("\u{FFFD}A".to_string()));
}

#[test]
fn read_returns_the_exact_bytes() {
    let data = [9u8, 8, 7, 6];
    let mut s = ByteStream::new(&data);
    assert_eq!(s.read(3), Ok(vec![9, 8, 7]));
    assert_eq!(s.read(2), Err(DecodeError::Truncated));
    assert_eq!(s.read(1), Ok(vec![6]));
}

#[test]
fn positions_beyond_the_end_only_make_reads_fail() {
    let data = [1u8, 2, 3, 4];
    let mut s = ByteStream::new(&data);
    s.set_position(100);
    assert_eq!(s.read_u8(), Err(DecodeError::Truncated));
    s.set_position(3);
    assert_eq!(s.read_u8(), Ok(4));
    s.skip(usize::MAX);
    assert_eq!(s.read_u8(), Err(DecodeError::Truncated));
    assert_eq!(s.get_size(), 4);
}
