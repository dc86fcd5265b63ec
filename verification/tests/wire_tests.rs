use nitrogen::wire::{encode_varint, read_string, read_varint, write_bool, write_string, WireError};

#[test]
fn varint_known_encodings() {
    let cases: Vec<(i32, Vec<u8>)> = vec![
        (0, vec![0x00]),
        (1, vec![0x01]),
        (127, vec![0x7f]),
        (128, vec![0x80, 0x01]),
        (255, vec![0xff, 0x01]),
        (25565, vec![0xdd, 0xc7, 0x01]),
        (2097151, vec![0xff, 0xff, 0x7f]),
        (2147483647, vec![0xff, 0xff, 0xff, 0xff, 0x07]),
        (-1, vec![0xff, 0xff, 0xff, 0xff, 0x0f]),
        (-2147483648, vec![0x80, 0x80, 0x80, 0x80, 0x08]),
    ];
    for (value, bytes) in cases {
        assert_eq!(encode_varint(value), bytes);
        assert_eq!(read_varint(&bytes, 0), Ok((value, bytes.len())));
    }
}

#[test]
fn varint_roundtrip_with_trailing_bytes() {
    for value in [0, 5, 300, -300, 1 << 20, i32::MAX, i32::MIN] {
        let mut bytes = encode_varint(value);
        let n = bytes.len();
        bytes.extend_from_slice(&[0x80, 0x12, 0x34]);
        assert_eq!(read_varint(&bytes, 0), Ok((value, n)));
    }
}

#[test]
fn varint_read_at_offset() {
    let bytes = vec![0x99, 0x80, 0x01];
    assert_eq!(read_varint(&bytes, 1), Ok((128, 2)));
}

#[test]
fn varint_errors() {
    assert_eq!(read_varint(&[0x80, 0x80, 0x80, 0x80, 0x80], 0), Err(WireError::VarIntTooLong));
    assert_eq!(read_varint(&[0x80, 0x80, 0x80, 0x80, 0x80, 0x01], 0), Err(WireError::VarIntTooLong));
    assert_eq!(read_varint(&[0x80, 0x80], 0), Err(WireError::UnexpectedEnd));
    assert_eq!(read_varint(&[], 0), Err(WireError::UnexpectedEnd));
}

#[test]
fn varint_non_minimal_and_wide_fifth_byte() {
    assert_eq!(read_varint(&[0x80, 0x00], 0), Ok((0, 2)));
    // bits past the 32nd are dropped
    assert_eq!(read_varint(&[0xff, 0xff, 0xff, 0xff, 0x7f], 0), Ok((-1, 5)));
}

#[test]
fn string_write_and_read() {
    let mut out = Vec::new();
    assert_eq!(write_string(&mut out, "hello", 16), Ok(()));
    assert_eq!(out, vec![5, b'h', b'e', b'l', b'l', b'o']);
    assert_eq!(read_string(&out, 0, 16), Ok(("hello".to_string(), 6)));
}

#[test]
fn string_multibyte_roundtrip() {
    let text = "h\u{e9}\u{1f600}";
    let mut out = vec![0xaa];
    assert_eq!(write_string(&mut out, text, 3), Ok(()));
    assert_eq!(out[1], 7);
    assert_eq!(read_string(&out, 1, 3), Ok((text.to_string(), 8)));
}

#[test]
fn string_too_long_leaves_output_alone() {
    let mut out = vec![1, 2];
    assert_eq!(write_string(&mut out, "abcdefghijklmnopq", 16), Err(WireError::StringTooLong));
    assert_eq!(out, vec![1, 2]);
}

#[test]
fn string_read_errors() {
    assert_eq!(read_string(&[0xff, 0xff, 0xff, 0xff, 0x0f], 0, 16), Err(WireError::NegativeLength));
    assert_eq!(read_string(&[65, b'a'], 0, 16), Err(WireError::StringTooLong));
    assert_eq!(read_string(&[3, b'a'], 0, 16), Err(WireError::UnexpectedEnd));
    assert_eq!(read_string(&[2, 0xff, 0xfe], 0, 16), Err(WireError::InvalidUtf8));
    assert_eq!(read_string(&[3, b'a', b'b', b'c'], 0, 2), Err(WireError::StringTooLong));
    assert_eq!(read_string(&[0x80], 0, 2), Err(WireError::UnexpectedEnd));
}

#[test]
fn bool_bytes() {
    let mut out = Vec::new();
    write_bool(&mut out, true);
    write_bool(&mut out, false);
    assert_eq!(out, vec![1, 0]);
}
