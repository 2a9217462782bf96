//! The notification bridge: turns a UART event into one notification for
//! each connection recorded in the connection table.

use vstd::prelude::*;
use crate::connections::{active_of, ConnectionTable};

verus! {

/// The one byte sent in every notification; its value carries no meaning.
pub const NOTIFY_PAYLOAD: u8 = 90;

/// The class of an event from the UART driver.
#[derive(Debug, Clone, Copy, PartialEq, Eq, Structural)]
pub enum UartEventKind {
    /// Data was received.
    Data,
    /// Anything else (overflow, break, pattern match, ...).
    Other,
}

/// An event delivered by the UART driver's queue.
#[derive(Debug, Clone, Copy, PartialEq, Eq, Structural)]
pub struct UartEvent {
    pub kind: UartEventKind,
    pub size: usize,
}

/// A notification to send: `payload` on attribute `attr_handle` of connection `conn_handle`.
#[derive(Debug, Clone, Copy, PartialEq, Eq, Structural)]
pub struct Notification {
    pub conn_handle: u16,
    pub attr_handle: u16,
    pub payload: u8,
}

/// Only received data of positive length triggers notifications.
pub open spec fn triggers(e: UartEvent) -> bool {
    e.kind == UartEventKind::Data && e.size > 0
}

/// One notification on `attr_handle` for each of `ids`, in order.
pub open spec fn notifications_to(ids: Seq<u16>, attr_handle: u16) -> Seq<Notification> {
    ids.map_values(|id: u16| Notification { conn_handle: id, attr_handle, payload: NOTIFY_PAYLOAD })
}

/// Whether an event from the UART driver calls for a fan-out.
pub fn is_trigger(event: UartEvent) -> (r: bool)
    ensures
        r == triggers(event),
{
    match event.kind {
        UartEventKind::Data => event.size > 0,
        UartEventKind::Other => false,
    }
}

/// The notifications that `event` calls for: on a trigger, one on the egress
/// attribute for each active connection of `table`, otherwise none.
pub fn notifications_for(table: &ConnectionTable, event: UartEvent, attr_handle: u16) -> (r: Vec<Notification>)
    ensures
        r@ == (if triggers(event) {
            notifications_to(active_of(table@), attr_handle)
        } else {
            Seq::empty()
        }),
{
    let mut out: Vec<Notification> = Vec::new();
    if !is_trigger(event) {
        return out;
    }
    let ids = table.active_ids();
    let mut i: usize = 0;
    while i < ids.len()
        invariant
            i <= ids@.len(),
            ids@ == active_of(table@),
            out@ == notifications_to(ids@.subrange(0, i as int), attr_handle),
        decreases ids@.len() - i,
    {
        out.push(Notification { conn_handle: ids[i], attr_handle, payload: NOTIFY_PAYLOAD });
        i = i + 1;
        assert(out@ =~= notifications_to(ids@.subrange(0, i as int), attr_handle));
    }
    assert(ids@.subrange(0, ids@.len() as int) =~= ids@);
    out
}

} // verus!
