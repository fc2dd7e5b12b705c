use writebuf_core::WriteBuf;

#[test]
fn test_write() {
    let buf = WriteBuf::<10>::from_str("1000");
    assert_eq!(buf.to_str().unwrap(), "1000");
}

#[test]
fn test_full() {
    let mut buf = WriteBuf::<10>::from_str("123456789");
    buf.write_str("abc").err();
    assert_eq!(buf.to_str().unwrap(), "123456789");
}

#[test]
fn test_into_ascii_lossy() {
    let mut buf = WriteBuf::<10>::from_str("123456789");
    buf.resize_default(10).ok();
    buf.set_byte(9, 0x80u8).ok();
    assert_eq!(buf.into_ascii_lossy().as_str(), "123456789~");
}

#[test]
fn round_trip_when_source_fits() {
    let source: &[u8] = b"hello";
    let buf = WriteBuf::<10>::from_slice(source);
    assert_eq!(buf.as_bytes(), source);
    assert_eq!(buf.to_str().unwrap(), "hello");
}

#[test]
fn round_trip_multibyte_text() {
    let source = "caf\u{00e9}";
    let buf = WriteBuf::<10>::from_str(source);
    assert_eq!(buf.as_bytes(), source.as_bytes());
    assert_eq!(buf.to_str().unwrap(), source);
}

#[test]
fn construction_truncates_silently() {
    let source: &[u8] = b"0123456789abc";
    let buf = WriteBuf::<10>::from_slice(source);
    assert_eq!(buf.len(), 10);
    assert_eq!(buf.as_bytes(), b"0123456789");
}

#[test]
fn construction_from_empty_source() {
    let buf = WriteBuf::<10>::from_slice(b"");
    assert!(buf.is_empty());
    assert_eq!(buf.to_str().unwrap(), "");
}

#[test]
fn append_that_fits_succeeds() {
    let mut buf = WriteBuf::<10>::from_slice(b"abcd");
    assert!(buf.extend_from_slice(b"efgh").is_ok());
    assert_eq!(buf.len(), 8);
    assert_eq!(buf.as_bytes(), b"abcdefgh");
}

#[test]
fn append_overflow_leaves_buffer_unchanged() {
    let mut buf = WriteBuf::<10>::from_slice(b"abcdefgh");
    assert!(buf.extend_from_slice(b"xyz").is_err());
    assert_eq!(buf.len(), 8);
    assert_eq!(buf.as_bytes(), b"abcdefgh");
}

#[test]
fn append_exactly_filling_succeeds() {
    let mut buf = WriteBuf::<10>::from_slice(b"abcde");
    assert!(buf.extend_from_slice(b"fghij").is_ok());
    assert!(buf.is_full());
    assert_eq!(buf.as_bytes(), b"abcdefghij");
}

#[test]
fn sequential_appends_keep_earlier_fragments() {
    let mut buf = WriteBuf::<10>::new();
    assert!(buf.write_str("1234").is_ok());
    assert!(buf.write_str("5678").is_ok());
    assert!(buf.write_str("9abc").is_err());
    assert_eq!(buf.to_str().unwrap(), "12345678");
}

#[test]
fn capacity_ten_write_scenario() {
    let mut buf = WriteBuf::<10>::from_str("123");
    assert!(buf.write_str("456").is_ok());
    assert_eq!(buf.to_str().unwrap(), "123456");
    assert!(buf.write_str("789").is_ok());
    assert_eq!(buf.to_str().unwrap(), "123456789");
    assert!(buf.write_str("0").is_ok());
    assert_eq!(buf.to_str().unwrap(), "1234567890");
    assert!(buf.is_full());
    assert!(buf.write_str("E").is_err());
    assert_eq!(buf.to_str().unwrap(), "1234567890");
}

#[test]
fn push_appends_one_byte() {
    let mut buf = WriteBuf::<2>::new();
    assert!(buf.push(b'a').is_ok());
    assert!(buf.push(b'b').is_ok());
    assert!(buf.push(b'c').is_err());
    assert_eq!(buf.as_bytes(), b"ab");
}

#[test]
fn strict_decode_rejects_invalid_utf8() {
    let mut buf = WriteBuf::<10>::from_slice(b"ab");
    buf.push(0xffu8).ok();
    assert!(buf.to_str().is_err());
}

#[test]
fn strict_decode_twice_agrees_and_preserves_buffer() {
    let buf = WriteBuf::<10>::from_str("twice");
    let first = buf.to_str().map(|s| s.to_string());
    let second = buf.to_str().map(|s| s.to_string());
    assert_eq!(first, second);
    assert_eq!(buf.as_bytes(), b"twice");
}

#[test]
fn lossy_conversion_is_total_on_invalid_utf8() {
    let source = "caf\u{00e9}!";
    let buf = WriteBuf::<10>::from_str(source);
    assert_eq!(buf.len(), 6);
    assert!(buf.to_str().is_ok());
    // The two bytes encoding the accented letter each become `~`.
    assert_eq!(buf.into_ascii_lossy().as_str(), "caf~~!");
}

#[test]
fn lossy_conversion_preserves_ascii_and_length() {
    let buf = WriteBuf::<10>::from_slice(b"plain");
    let out = buf.into_ascii_lossy();
    assert_eq!(out.as_str(), "plain");
    assert_eq!(out.as_str().len(), 5);
}

#[test]
fn lossy_conversion_of_empty_buffer() {
    let buf = WriteBuf::<10>::new();
    assert_eq!(buf.into_ascii_lossy().as_str(), "");
}

#[test]
fn lossy_conversion_boundary_bytes() {
    let mut buf = WriteBuf::<4>::new();
    buf.push(0x7fu8).ok();
    buf.push(0x80u8).ok();
    buf.push(0x00u8).ok();
    let out = buf.into_ascii_lossy();
    assert_eq!(out.as_str(), "\u{7f}~\u{0}");
}

#[test]
fn resize_grows_with_zero_bytes_and_shrinks() {
    let mut buf = WriteBuf::<10>::from_slice(b"ab");
    assert!(buf.resize_default(4).is_ok());
    assert_eq!(buf.as_bytes(), b"ab\0\0");
    assert!(buf.resize_default(1).is_ok());
    assert_eq!(buf.as_bytes(), b"a");
}

#[test]
fn resize_beyond_capacity_fails_unchanged() {
    let mut buf = WriteBuf::<10>::from_slice(b"ab");
    assert!(buf.resize_default(11).is_err());
    assert_eq!(buf.as_bytes(), b"ab");
}

#[test]
fn set_byte_out_of_range_fails_unchanged() {
    let mut buf = WriteBuf::<10>::from_slice(b"ab");
    assert!(buf.set_byte(2, b'x').is_err());
    assert_eq!(buf.as_bytes(), b"ab");
    assert!(buf.set_byte(1, b'x').is_ok());
    assert_eq!(buf.as_bytes(), b"ax");
}

#[test]
fn new_and_default_are_empty() {
    let buf = WriteBuf::<10>::new();
    assert!(buf.is_empty());
    assert_eq!(buf.len(), 0);
    assert_eq!(buf.capacity(), 10);
    let dft: WriteBuf<10> = Default::default();
    assert!(dft.is_empty());
}

#[test]
fn clone_keeps_the_bytes() {
    let buf = WriteBuf::<10>::from_slice(b"abc");
    let copy = buf.clone();
    assert_eq!(copy.as_bytes(), buf.as_bytes());
}
