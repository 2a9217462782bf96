use scroll_text::message::{handle_access, ingest_write, AccessOp, IngestError, MessageCell, MAX_MESSAGE_BYTES};

fn fresh() -> MessageCell {
    MessageCell::new(String::from("Hello World"))
}

#[test]
fn new_cell_has_nothing_pending() {
    let mut cell = fresh();
    assert_eq!(cell.read_and_clear(), None);
}

#[test]
fn ingested_text_is_drained_exactly() {
    let mut cell = fresh();
    assert_eq!(ingest_write(&mut cell, "héllo wörld".as_bytes()), Ok(()));
    assert_eq!(cell.read_and_clear(), Some(String::from("héllo wörld")));
}

#[test]
fn last_of_several_writes_wins() {
    let mut cell = fresh();
    for text in ["one", "two", "three"] {
        assert_eq!(ingest_write(&mut cell, text.as_bytes()), Ok(()));
    }
    assert_eq!(cell.read_and_clear(), Some(String::from("three")));
    assert_eq!(cell.read_and_clear(), None);
}

#[test]
fn drain_twice_gives_value_then_nothing() {
    let mut cell = fresh();
    cell.write(String::from("BYE"));
    assert_eq!(cell.read_and_clear(), Some(String::from("BYE")));
    assert_eq!(cell.read_and_clear(), None);
}

#[test]
fn invalid_utf8_leaves_cell_untouched() {
    let mut cell = fresh();
    assert_eq!(ingest_write(&mut cell, &[0x66, 0xff, 0xfe]), Err(IngestError::InvalidUtf8));
    assert_eq!(cell.read_and_clear(), None);

    cell.write(String::from("kept"));
    assert_eq!(ingest_write(&mut cell, &[0xc3]), Err(IngestError::InvalidUtf8));
    assert_eq!(cell.read_and_clear(), Some(String::from("kept")));
}

#[test]
fn payload_at_limit_is_accepted() {
    let mut cell = fresh();
    let text = "a".repeat(MAX_MESSAGE_BYTES);
    assert_eq!(ingest_write(&mut cell, text.as_bytes()), Ok(()));
    assert_eq!(cell.read_and_clear(), Some(text));
}

#[test]
fn payload_over_limit_is_rejected() {
    let mut cell = fresh();
    cell.write(String::from("before"));
    let text = "a".repeat(MAX_MESSAGE_BYTES + 1);
    assert_eq!(ingest_write(&mut cell, text.as_bytes()), Err(IngestError::TooLong));
    assert_eq!(cell.read_and_clear(), Some(String::from("before")));
}

#[test]
fn empty_payload_is_an_empty_message() {
    let mut cell = fresh();
    assert_eq!(ingest_write(&mut cell, &[]), Ok(()));
    assert_eq!(cell.read_and_clear(), Some(String::new()));
}

#[test]
fn only_writes_reach_the_cell() {
    let mut cell = fresh();
    assert_eq!(handle_access(&mut cell, AccessOp::ReadCharacteristic, b"nope"), Ok(()));
    assert_eq!(handle_access(&mut cell, AccessOp::Other, b"nope"), Ok(()));
    assert_eq!(cell.read_and_clear(), None);
    assert_eq!(handle_access(&mut cell, AccessOp::WriteCharacteristic, b"yes"), Ok(()));
    assert_eq!(cell.read_and_clear(), Some(String::from("yes")));
}
