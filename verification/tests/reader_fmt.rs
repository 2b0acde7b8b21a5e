use ctviewer::fmt::{push_bool, push_decimal, push_hex, push_padded_decimal, push_signed_decimal, string_from};
use ctviewer::reader::ByteReader;

#[test]
fn reader_reads_little_and_big_endian() {
    let mut r = ByteReader::new(vec![0x34, 0x12, 0x78, 0x56, 0x34, 0x12, 0x12, 0x34, 0x56, 0x78, 0xFF]);
    assert_eq!(r.read_u16_le(), 0x1234);
    assert_eq!(r.read_u32_le(), 0x12345678);
    assert_eq!(r.read_u32_be(), 0x12345678);
    assert_eq!(r.read_i8(), -1);
    assert!(!r.has(1));
    r.seek(1);
    assert_eq!(r.read_bytes(2), vec![0x12, 0x78]);
    assert_eq!(r.len(), 11);
}

#[test]
fn numbers_are_written_in_decimal_and_hex() {
    let mut s = string_from("n=");
    push_decimal(&mut s, 0);
    s.push(' ');
    push_decimal(&mut s, 1234567);
    s.push(' ');
    push_signed_decimal(&mut s, -42);
    s.push(' ');
    push_signed_decimal(&mut s, i64::MIN);
    s.push(' ');
    push_hex(&mut s, 0xAB, 4, true);
    s.push(' ');
    push_hex(&mut s, 0x1ABCD, 2, false);
    s.push(' ');
    push_padded_decimal(&mut s, 7, 3);
    s.push(' ');
    push_bool(&mut s, true);
    assert_eq!(s, "n=0 1234567 -42 -9223372036854775808 00AB 1abcd 007 true");
}
