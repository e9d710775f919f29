use farce_sandbox::abi::{read_u32_le, resolve_string, DecodeError};

fn memory_with(record_at: usize, text_at: usize, text: &[u8], len: u32) -> Vec<u8> {
    let mut m = vec![0u8; 64];
    m[record_at..record_at + 4].copy_from_slice(&(text_at as u32).to_le_bytes());
    m[record_at + 4..record_at + 8].copy_from_slice(&len.to_le_bytes());
    m[text_at..text_at + text.len()].copy_from_slice(text);
    m
}

#[test]
fn reads_little_endian() {
    let m = [0x78u8, 0x56, 0x34, 0x12, 0xff];
    assert_eq!(read_u32_le(&m, 0), 0x1234_5678);
    assert_eq!(read_u32_le(&m, 1), 0xff12_3456);
}

#[test]
fn resolves_record() {
    let m = memory_with(8, 32, b"{\"a\":2}", 7);
    assert_eq!(resolve_string(&m, 8), Ok(String::from("{\"a\":2}")));
}

#[test]
fn resolves_empty_text() {
    let m = memory_with(0, 20, b"", 0);
    assert_eq!(resolve_string(&m, 0), Ok(String::new()));
}

#[test]
fn record_past_end() {
    let m = vec![0u8; 10];
    assert_eq!(resolve_string(&m, 3), Err(DecodeError::RecordOutOfBounds));
    assert_eq!(resolve_string(&m, usize::MAX), Err(DecodeError::RecordOutOfBounds));
    assert_eq!(resolve_string(&m, 2).is_ok(), true);
}

#[test]
fn text_past_end() {
    let m = memory_with(0, 60, b"abcd", 5);
    assert_eq!(resolve_string(&m, 0), Err(DecodeError::TextOutOfBounds));
}

#[test]
fn invalid_utf8_text() {
    let m = memory_with(0, 40, &[0xc3, 0x28], 2);
    assert_eq!(resolve_string(&m, 0), Err(DecodeError::InvalidUtf8));
}

#[test]
fn multibyte_text() {
    let m = memory_with(0, 40, "é!".as_bytes(), 3);
    assert_eq!(resolve_string(&m, 0), Ok(String::from("é!")));
}

#[test]
fn decode_error_messages() {
    assert_eq!(DecodeError::InvalidUtf8.message(), "result text is not valid UTF-8");
    assert_eq!(DecodeError::TextOutOfBounds.message(), "result text out of memory bounds");
}
