use scroll_text::message::{ingest_write, MessageCell};
use scroll_text::render::{boot_message, pixel_colour, Colour, FrameSource, RenderLoop, DEFAULT_MESSAGE};
use scroll_text::storage::{decode_message, encode_message};

#[test]
fn boot_uses_persisted_text() {
    assert_eq!(boot_message(Some(String::from("stored"))), "stored");
    assert_eq!(boot_message(None), "hello world");
    assert_eq!(DEFAULT_MESSAGE, "hello world");
}

#[test]
fn alert_overrides_message() {
    let r = RenderLoop::new();
    assert_eq!(r.frame_source(true), FrameSource::Alert);
    assert_eq!(r.frame_source(false), FrameSource::Message { hue_offset: 0 });
}

#[test]
fn frame_counter_wraps() {
    let mut r = RenderLoop::new();
    let mut cell = MessageCell::new(String::new());
    for _ in 0..257 {
        assert_eq!(r.end_frame(false, &mut cell), None);
    }
    assert_eq!(r.frame_source(false), FrameSource::Message { hue_offset: 1 });
}

#[test]
fn pending_message_waits_for_cycle_end() {
    let mut r = RenderLoop::new();
    let mut cell = MessageCell::new(String::from("hello world"));
    cell.write(String::from("new"));
    assert_eq!(r.end_frame(false, &mut cell), None);
    assert_eq!(r.end_frame(true, &mut cell), Some(String::from("new")));
    assert_eq!(r.end_frame(true, &mut cell), None);
}

#[test]
fn message_swap_end_to_end() {
    let mut persisted = encode_message("hello world").unwrap();
    let mut showing = boot_message(decode_message(&persisted).ok());
    assert_eq!(showing, "hello world");

    let mut cell = MessageCell::new(showing.clone());
    let mut r = RenderLoop::new();
    assert_eq!(r.end_frame(false, &mut cell), None);

    assert_eq!(ingest_write(&mut cell, b"BYE"), Ok(()));
    assert_eq!(r.end_frame(false, &mut cell), None);
    assert_eq!(decode_message(&persisted), Ok(String::from("hello world")));

    if let Some(text) = r.end_frame(true, &mut cell) {
        persisted = encode_message(&text).unwrap();
        showing = text;
    }
    assert_eq!(decode_message(&persisted), Ok(String::from("BYE")));
    assert_eq!(showing, "BYE");
}

#[test]
fn pixel_colour_follows_rainbow() {
    for (x, y, offs) in [(0u8, 0u8, 0u8), (3, 4, 7), (4, 4, 250)] {
        let hue = (y / 4).wrapping_add(x * 10).wrapping_add(offs);
        let c = cichlid::HSV { h: hue, s: 200, v: 130 }.to_rgb_rainbow();
        assert_eq!(pixel_colour(x, y, offs), Colour { r: c.r, g: c.g, b: c.b });
    }
}

#[test]
fn pixel_colour_is_not_the_raw_components() {
    let c = pixel_colour(0, 0, 0);
    assert_ne!(c, Colour { r: 0, g: 200, b: 130 });
    assert_ne!(pixel_colour(1, 0, 0), pixel_colour(0, 0, 0));
}
