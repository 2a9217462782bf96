use scroll_text::storage::{decode_message, encode_message, StorageError, MAX_STORED_BYTES};

#[test]
fn short_text_is_length_then_bytes() {
    assert_eq!(encode_message("hello").unwrap(), vec![5, b'h', b'e', b'l', b'l', b'o']);
}

#[test]
fn long_length_takes_two_varint_bytes() {
    let text = "x".repeat(200);
    let bytes = encode_message(&text).unwrap();
    assert_eq!(&bytes[..2], &[0xc8, 0x01]);
    assert_eq!(bytes.len(), 202);
}

#[test]
fn largest_storable_text() {
    let fits = "x".repeat(MAX_STORED_BYTES - 2);
    assert_eq!(encode_message(&fits).unwrap().len(), MAX_STORED_BYTES);
    let too_long = "x".repeat(MAX_STORED_BYTES - 1);
    assert_eq!(encode_message(&too_long), Err(StorageError::TooLarge));
}

#[test]
fn stored_text_reads_back() {
    let bytes = encode_message("BYE").unwrap();
    assert_eq!(decode_message(&bytes), Ok(String::from("BYE")));
}

#[test]
fn trailing_bytes_are_not_read() {
    assert_eq!(decode_message(&[2, b'o', b'k', 0xff, 0xff]), Ok(String::from("ok")));
}

#[test]
fn malformed_bytes_are_refused() {
    assert_eq!(decode_message(&[5, b'a']), Err(StorageError::Malformed));
    assert_eq!(decode_message(&[1, 0xff]), Err(StorageError::Malformed));
    assert_eq!(decode_message(&[]), Err(StorageError::Malformed));
}
