//! 128-bit UUIDs of the service and its characteristics, in the byte order
//! the radio stack keeps them: least significant byte first.

use vstd::prelude::*;

verus! {

/// The message service.
pub const SERVICE_UUID: &'static str = "6e400001-b5a3-f393-e0a9-e50e24dcca9e";

/// The write-only characteristic that takes new messages.
pub const INGEST_CHAR_UUID: &'static str = "6e400002-b5a3-f393-e0a9-e50e24dcca9e";

/// The read and notify characteristic used for notifications.
pub const EGRESS_CHAR_UUID: &'static str = "6e400003-b5a3-f393-e0a9-e50e24dcca9e";

/// The 16 bytes, most significant first, of the UUID written in `text`, if
/// it is one.
pub uninterp spec fn uuid_bytes_of(text: Seq<char>) -> Option<[u8; 16]>;

/// Relies on uuid::Uuid::parse_str and Uuid::as_bytes: the UUID's bytes in
/// big-endian order, or an error; the outcome depends on the text alone.
#[verifier::external_body]
fn parse_uuid(text: &str) -> (r: Option<[u8; 16]>)
    ensures
        r == uuid_bytes_of(text@),
{
    match uuid::Uuid::parse_str(text) {
        Ok(u) => Some(*u.as_bytes()),
        Err(_) => None,
    }
}

/// The bytes of `b` in reverse order.
pub open spec fn reversed(b: [u8; 16]) -> Seq<u8> {
    Seq::new(16, |i: int| b@[15 - i])
}

/// Turns the big-endian bytes of a UUID into the little-endian order of the
/// radio stack.
pub fn inv(b: [u8; 16]) -> (r: [u8; 16])
    ensures
        r@ == reversed(b),
{
    let mut r: [u8; 16] = [0u8; 16];
    let mut i: usize = 0;
    while i < 16
        invariant
            i <= 16,
            r@.len() == 16,
            forall|k: int| 0 <= k < i ==> r@[k] == b@[15 - k],
        decreases 16 - i,
    {
        r.set(i, b[15 - i]);
        i = i + 1;
    }
    assert(r@ =~= reversed(b));
    r
}

/// The radio stack's form of the UUID written in `text`, or `None` when the
/// text is no UUID.
pub fn nimble_uuid128(text: &str) -> (r: Option<[u8; 16]>)
    ensures
        uuid_bytes_of(text@) is None ==> r is None,
        uuid_bytes_of(text@) matches Some(b) ==> (r matches Some(a) && a@ == reversed(b)),
{
    match parse_uuid(text) {
        Some(b) => Some(inv(b)),
        None => None,
    }
}

} // verus!
