//! Decisions of the scrolling renderer: which text to start with, what each
//! frame shows, when a pending message is taken over, and pixel colours.

use vstd::prelude::*;
use crate::message::{drained, opt_text, MessageCell};

verus! {

/// The text shown when nothing was persisted.
pub const DEFAULT_MESSAGE: &'static str = "hello world";

/// Saturation of the scrolling text's colours.
pub const TEXT_SATURATION: u8 = 200;

/// Brightness of the scrolling text's colours.
pub const TEXT_VALUE: u8 = 130;

/// A pixel colour.
#[derive(Debug, Clone, Copy, PartialEq, Eq, Structural)]
pub struct Colour {
    pub r: u8,
    pub g: u8,
    pub b: u8,
}

/// What a frame shows.
#[derive(Debug, Clone, Copy, PartialEq, Eq, Structural)]
pub enum FrameSource {
    /// The fixed alert glyph.
    Alert,
    /// The scrolling message, its colours shifted by `hue_offset`.
    Message { hue_offset: u8 },
}

/// The text the renderer starts with: the persisted one if any, else the default.
pub fn boot_message(stored: Option<String>) -> (m: String)
    ensures
        stored matches Some(t) ==> m == t,
        stored is None ==> m@ == DEFAULT_MESSAGE@,
{
    match stored {
        Some(t) => t,
        None => DEFAULT_MESSAGE.to_owned(),
    }
}

/// The hue of the pixel at column `x`, row `y`, in the frame with offset `offs`.
pub open spec fn pixel_hue(x: u8, y: u8, offs: u8) -> u8 {
    (((y / 4) as int + x as int * 10 + offs as int) % 256) as u8
}

/// The colour that cichlid's visually balanced rainbow gives to a hue,
/// saturation and value.
pub uninterp spec fn rainbow_of(h: u8, s: u8, v: u8) -> (u8, u8, u8);

/// Relies on cichlid's `HSV::to_rgb_rainbow`: a colour that depends on the
/// three components alone; no saturation gives white, and otherwise no
/// brightness gives black.
#[verifier::external_body]
fn rainbow(h: u8, s: u8, v: u8) -> (c: Colour)
    ensures
        (c.r, c.g, c.b) == rainbow_of(h, s, v),
        s == 0 ==> c == (Colour { r: 255, g: 255, b: 255 }),
        s != 0 && v == 0 ==> c == (Colour { r: 0, g: 0, b: 0 }),
{
    let c = cichlid::HSV { h, s, v }.to_rgb_rainbow();
    Colour { r: c.r, g: c.g, b: c.b }
}

/// Colour of the text pixel at column `x`, row `y`: a rainbow that shifts
/// along the columns and with the frame's hue offset.
pub fn pixel_colour(x: u8, y: u8, hue_offset: u8) -> (c: Colour)
    ensures
        (c.r, c.g, c.b) == rainbow_of(pixel_hue(x, y, hue_offset), TEXT_SATURATION, TEXT_VALUE),
{
    let h: u32 = ((y / 4) as u32 + x as u32 * 10 + hue_offset as u32) % 256;
    rainbow(h as u8, TEXT_SATURATION, TEXT_VALUE)
}

/// The frame counter after one more frame, wrapping at 256.
pub open spec fn next_frame(frame: u8) -> u8 {
    ((frame as int + 1) % 256) as u8
}

/// The renderer's frame counter; it drives the colour animation.
pub struct RenderLoop {
    frame: u8,
}

impl RenderLoop {
    pub closed spec fn frame_count(&self) -> u8 {
        self.frame
    }

    /// A renderer at its first frame.
    pub fn new() -> (r: RenderLoop)
        ensures
            r.frame_count() == 0,
    {
        RenderLoop { frame: 0 }
    }

    /// What this frame shows: the alert glyph while the alert signal is up,
    /// otherwise the message, coloured for this frame.
    pub fn frame_source(&self, alert: bool) -> (f: FrameSource)
        ensures
            f == (if alert {
                FrameSource::Alert
            } else {
                FrameSource::Message { hue_offset: self.frame_count() }
            }),
    {
        if alert {
            FrameSource::Alert
        } else {
            FrameSource::Message { hue_offset: self.frame }
        }
    }

    /// Ends a frame. Only when the message has fully scrolled by
    /// (`cycle_done`) is the cell drained; the text returned, if any, is to
    /// be persisted and scrolled from now on.
    pub fn end_frame(&mut self, cycle_done: bool, cell: &mut MessageCell) -> (r: Option<String>)
        ensures
            final(self).frame_count() == next_frame(old(self).frame_count()),
            cycle_done ==> (final(cell)@, opt_text(r)) == drained(old(cell)@),
            !cycle_done ==> final(cell)@ == old(cell)@ && r is None,
    {
        self.frame = if self.frame == 255 { 0 } else { self.frame + 1 };
        if cycle_done {
            cell.read_and_clear()
        } else {
            None
        }
    }
}

} // verus!
