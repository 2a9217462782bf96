//! Encoding of the persisted message: postcard's format for a string, in a
//! value of bounded size.

use vstd::prelude::*;
use vstd::utf8::encode_utf8;
use crate::message::opt_text;

verus! {

/// Largest encoded value, in bytes, that the store holds.
pub const MAX_STORED_BYTES: usize = 256;

/// Key under which the message is persisted.
pub const MESSAGE_KEY: &'static str = "message";

/// Why the message could not be encoded or decoded.
#[derive(Debug, Clone, Copy, PartialEq, Eq, Structural)]
pub enum StorageError {
    /// The encoded message is longer than `MAX_STORED_BYTES`.
    TooLarge,
    /// The stored bytes are not an encoded string.
    Malformed,
}

/// Unsigned LEB128: seven bits per byte, least significant group first, the
/// high bit set on every byte but the last.
pub open spec fn varint(n: nat) -> Seq<u8>
    decreases n,
{
    if n < 128 {
        seq![n as u8]
    } else {
        seq![(n % 128 + 128) as u8] + varint(n / 128)
    }
}

/// postcard's encoding of a string: its UTF-8 length as a varint, then its bytes.
pub open spec fn postcard_text(text: Seq<char>) -> Seq<u8> {
    varint(encode_utf8(text).len()) + encode_utf8(text)
}

/// Relies on postcard::to_slice for a `str` into a buffer of
/// `MAX_STORED_BYTES`: it writes the length as a varint and then the bytes,
/// and fails exactly when that does not fit.
#[verifier::external_body]
fn postcard_encode_str(text: &str) -> (r: Option<Vec<u8>>)
    ensures
        r is Some <==> postcard_text(text@).len() <= MAX_STORED_BYTES,
        r matches Some(b) ==> b@ == postcard_text(text@),
{
    let mut buf = [0u8; MAX_STORED_BYTES];
    match postcard::to_slice(text, &mut buf) {
        Ok(used) => Some(used.to_vec()),
        Err(_) => None,
    }
}

/// Relies on postcard::from_bytes for a `String`: bytes that start with a
/// string's encoding decode to that string; what follows is not read.
#[verifier::external_body]
fn postcard_decode_string(bytes: &[u8]) -> (r: Option<String>)
    ensures
        forall|t: Seq<char>| #[trigger] postcard_text(t).is_prefix_of(bytes@) ==> opt_text(r) == Some(t),
{
    postcard::from_bytes::<String>(bytes).ok()
}

/// The bytes to persist for `text`; refused when the encoding exceeds
/// `MAX_STORED_BYTES`.
pub fn encode_message(text: &str) -> (r: Result<Vec<u8>, StorageError>)
    ensures
        postcard_text(text@).len() <= MAX_STORED_BYTES ==> (r matches Ok(b) && b@ == postcard_text(text@)),
        postcard_text(text@).len() > MAX_STORED_BYTES ==> r == Err::<Vec<u8>, StorageError>(StorageError::TooLarge),
{
    match postcard_encode_str(text) {
        Some(b) => Ok(b),
        None => Err(StorageError::TooLarge),
    }
}

/// The message held in persisted bytes. Bytes that start with the encoding
/// of a text give that text.
pub fn decode_message(bytes: &[u8]) -> (r: Result<String, StorageError>)
    ensures
        forall|t: Seq<char>| #[trigger] postcard_text(t).is_prefix_of(bytes@) ==> (r matches Ok(s) && s@ == t),
        r is Err ==> r == Err::<String, StorageError>(StorageError::Malformed),
{
    match postcard_decode_string(bytes) {
        Some(s) => Ok(s),
        None => Err(StorageError::Malformed),
    }
}

} // verus!
