use rusty_boy::leb128::parse_leb128;

#[test]
fn test_leb128_decoding() {
    let data = &[0xE5, 0x8E, 0x26, 123, 34, 53];
    let (value, rest) = parse_leb128(data);

    assert_eq!(value, 624485);
    assert_eq!(rest, &data[3..]);
}

#[test]
fn leb128_single_byte_and_empty() {
    let (value, rest) = parse_leb128(&[0x7f, 0x01]);
    assert_eq!(value, 0x7f);
    assert_eq!(rest, &[0x01]);

    let (value, rest) = parse_leb128(&[]);
    assert_eq!(value, 0);
    assert!(rest.is_empty());
}

#[test]
fn leb128_unterminated_takes_all_bytes() {
    let (value, rest) = parse_leb128(&[0x80, 0x81]);
    assert_eq!(value, 0x80);
    assert!(rest.is_empty());
}
