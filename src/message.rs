//! The shared message cell: the one hand-off channel between the write
//! handler of the radio stack and the renderer.

use vstd::prelude::*;
use vstd::utf8::{decode_utf8, valid_utf8};

verus! {

/// Largest payload, in bytes, that the ingest characteristic accepts.
pub const MAX_MESSAGE_BYTES: usize = 256;

/// Abstract state of a cell: the current text and the dirty flag.
pub ghost struct CellState {
    pub text: Seq<char>,
    pub dirty: bool,
}

/// Why a write to the ingest characteristic left the cell untouched.
#[derive(Debug, Clone, Copy, PartialEq, Eq, Structural)]
pub enum IngestError {
    /// The payload is longer than `MAX_MESSAGE_BYTES`.
    TooLong,
    /// The payload is not well-formed UTF-8.
    InvalidUtf8,
}

/// The state after `text` is written: it replaces the text and marks it dirty.
pub open spec fn written(s: CellState, text: Seq<char>) -> CellState {
    CellState { text, dirty: true }
}

/// A drain: the dirty flag is cleared, and the text is handed out only if it was set.
pub open spec fn drained(s: CellState) -> (CellState, Option<Seq<char>>) {
    (CellState { text: s.text, dirty: false }, if s.dirty { Some(s.text) } else { None })
}

/// What a write of raw `payload` bytes does to a cell in state `s`.
pub open spec fn ingested(s: CellState, payload: Seq<u8>) -> (CellState, Result<(), IngestError>) {
    if payload.len() > MAX_MESSAGE_BYTES {
        (s, Err(IngestError::TooLong))
    } else if !valid_utf8(payload) {
        (s, Err(IngestError::InvalidUtf8))
    } else {
        (written(s, decode_utf8(payload)), Ok(()))
    }
}

/// The state after each text of `texts` is written in turn.
pub open spec fn written_all(s: CellState, texts: Seq<Seq<char>>) -> CellState
    decreases texts.len(),
{
    if texts.len() == 0 {
        s
    } else {
        written(written_all(s, texts.drop_last()), texts.last())
    }
}

pub open spec fn opt_text(o: Option<String>) -> Option<Seq<char>> {
    match o {
        Some(t) => Some(t@),
        None => None,
    }
}

/// Current message plus dirty flag. The flag is true exactly when the text
/// was written after the last drain.
pub struct MessageCell {
    text: String,
    dirty: bool,
}

impl View for MessageCell {
    type V = CellState;

    closed spec fn view(&self) -> CellState {
        CellState { text: self.text@, dirty: self.dirty }
    }
}

impl MessageCell {
    /// A cell that holds `initial` with nothing pending.
    pub fn new(initial: String) -> (c: MessageCell)
        ensures
            c@ == (CellState { text: initial@, dirty: false }),
    {
        MessageCell { text: initial, dirty: false }
    }

    /// Replaces the text and marks it pending for the renderer.
    pub fn write(&mut self, text: String)
        ensures
            final(self)@ == written(old(self)@, text@),
    {
        self.text = text;
        self.dirty = true;
    }

    /// Clears the dirty flag and, if it was set, returns a copy of the text.
    pub fn read_and_clear(&mut self) -> (r: Option<String>)
        ensures
            (final(self)@, opt_text(r)) == drained(old(self)@),
    {
        if self.dirty {
            self.dirty = false;
            Some(self.text.clone())
        } else {
            None
        }
    }
}

/// Relies on std::str::from_utf8: it accepts exactly the well-formed UTF-8
/// byte strings and yields the characters they encode.
#[verifier::external_body]
fn decode_text(bytes: &[u8]) -> (r: Option<String>)
    ensures
        r is Some <==> valid_utf8(bytes@),
        r matches Some(t) ==> t@ == decode_utf8(bytes@),
{
    match std::str::from_utf8(bytes) {
        Ok(t) => Some(t.to_owned()),
        Err(_) => None,
    }
}

/// Handles a write to the ingest characteristic: a payload of at most
/// `MAX_MESSAGE_BYTES` bytes of UTF-8 replaces the message; anything else is
/// rejected and leaves the cell as it was.
pub fn ingest_write(cell: &mut MessageCell, payload: &[u8]) -> (r: Result<(), IngestError>)
    ensures
        (final(cell)@, r) == ingested(old(cell)@, payload@),
{
    if payload.len() > MAX_MESSAGE_BYTES {
        return Err(IngestError::TooLong);
    }
    match decode_text(payload) {
        Some(text) => {
            cell.write(text);
            Ok(())
        },
        None => Err(IngestError::InvalidUtf8),
    }
}

/// The operation of an access to one of the service's characteristics.
#[derive(Debug, Clone, Copy, PartialEq, Eq, Structural)]
pub enum AccessOp {
    /// A read of the egress characteristic; it has no side effect.
    ReadCharacteristic,
    /// A write to the ingest characteristic.
    WriteCharacteristic,
    /// Any other access.
    Other,
}

/// Handles an access to the service: only a write reaches the cell, with the
/// same outcome as `ingest_write`; any other access changes nothing.
pub fn handle_access(cell: &mut MessageCell, op: AccessOp, payload: &[u8]) -> (r: Result<(), IngestError>)
    ensures
        op == AccessOp::WriteCharacteristic ==> (final(cell)@, r) == ingested(old(cell)@, payload@),
        op != AccessOp::WriteCharacteristic ==> final(cell)@ == old(cell)@ && r is Ok,
{
    match op {
        AccessOp::WriteCharacteristic => ingest_write(cell, payload),
        _ => Ok(()),
    }
}

/// A well-formed payload within the size limit is exactly what the next drain
/// hands out.
pub proof fn lemma_ingest_then_drain(s: CellState, payload: Seq<u8>)
    requires
        payload.len() <= MAX_MESSAGE_BYTES,
        valid_utf8(payload),
    ensures
        ingested(s, payload).1 is Ok,
        drained(ingested(s, payload).0).1 == Some(decode_utf8(payload)),
{
}

/// After any non-empty run of writes, one drain returns the last text written
/// and leaves the dirty flag clear.
pub proof fn lemma_last_write_wins(s: CellState, texts: Seq<Seq<char>>)
    requires
        texts.len() > 0,
    ensures
        drained(written_all(s, texts)).1 == Some(texts.last()),
        !drained(written_all(s, texts)).0.dirty,
{
}

/// Two drains in a row: the first returns what was pending, the second nothing.
pub proof fn lemma_drain_twice(s: CellState)
    ensures
        drained(s).1 == (if s.dirty { Some(s.text) } else { None::<Seq<char>> }),
        drained(drained(s).0).1 is None,
        drained(drained(s).0).0 == drained(s).0,
{
}

/// Bytes that are not UTF-8 never reach the cell: text and flag stay as they were.
pub proof fn lemma_invalid_utf8_rejected(s: CellState, payload: Seq<u8>)
    requires
        !valid_utf8(payload),
    ensures
        ingested(s, payload).0 == s,
        ingested(s, payload).1 is Err,
{
}

/// The size limit is inclusive: a well-formed payload of exactly
/// `MAX_MESSAGE_BYTES` bytes is taken, and any longer payload is refused
/// without a change.
pub proof fn lemma_size_boundary(s: CellState, payload: Seq<u8>)
    ensures
        payload.len() == MAX_MESSAGE_BYTES && valid_utf8(payload) ==> ingested(s, payload).1 is Ok,
        payload.len() == MAX_MESSAGE_BYTES + 1 ==> ingested(s, payload) == (s, Err::<(), IngestError>(IngestError::TooLong)),
{
}

} // verus!
