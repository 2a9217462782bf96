//! The peripheral's event policy: a transition function from state and GAP
//! event to the next state and the actions the radio adapter must perform.

use vstd::prelude::*;
use crate::connections::{recorded, ConnectionTable};

verus! {

/// An event reported by the radio stack's GAP layer.
#[derive(Debug, Clone, Copy, PartialEq, Eq, Structural)]
pub enum GapEvent {
    /// The host and controller are in sync; `addr_rc` is the status of
    /// resolving the own address type, `own_addr_type` the type resolved.
    Synced { addr_rc: i32, own_addr_type: u8 },
    /// A connection attempt ended; status 0 means it was established.
    Connect { status: i32, conn_handle: u16 },
    /// A connection was closed.
    Disconnect { reason: i32 },
    /// The parameters of a connection were updated.
    ConnUpdate { status: i32, conn_handle: u16 },
    /// The advertising window expired without a connection.
    AdvComplete { reason: i32 },
    /// An MTU was negotiated.
    Mtu { conn_handle: u16, channel_id: u16, value: u16 },
    /// Any other event.
    Other,
}

/// Work that the radio adapter performs on the policy's behalf.
#[derive(Debug, Clone, Copy, PartialEq, Eq, Structural)]
pub enum GapAction {
    /// (Re)start connectable, discoverable advertising.
    Advertise { own_addr_type: u8 },
    /// Look up the connection's descriptor; a failure here means the link to
    /// the radio stack is corrupted and is unrecoverable.
    LookUpConnection { conn_handle: u16 },
}

/// Abstract state of the peripheral.
pub ghost struct PeripheralState {
    pub slots: Seq<u16>,
    pub advertising: bool,
    pub connections: nat,
    pub own_addr_type: u8,
    pub multi_connection: bool,
}

/// The connection count after one more connection, saturating at `u32::MAX`.
pub open spec fn count_up(n: nat) -> nat {
    if n < u32::MAX { n + 1 } else { n }
}

/// The connection count after one connection closed, saturating at zero.
pub open spec fn count_down(n: nat) -> nat {
    if n > 0 { (n - 1) as nat } else { 0 }
}

/// The state with advertising (re)started, and the action that starts it.
pub open spec fn restart_advertising(s: PeripheralState) -> (PeripheralState, Seq<GapAction>) {
    (
        PeripheralState { advertising: true, ..s },
        seq![GapAction::Advertise { own_addr_type: s.own_addr_type }],
    )
}

/// The transition of the peripheral on one event.
pub open spec fn gap_step(s: PeripheralState, e: GapEvent) -> (PeripheralState, Seq<GapAction>) {
    match e {
        GapEvent::Synced { addr_rc, own_addr_type } => {
            if addr_rc != 0 {
                (s, Seq::empty())
            } else {
                restart_advertising(PeripheralState { own_addr_type, ..s })
            }
        },
        GapEvent::Connect { status, conn_handle } => {
            if status != 0 {
                restart_advertising(s)
            } else {
                let connected = PeripheralState {
                    slots: recorded(s.slots, conn_handle),
                    connections: count_up(s.connections),
                    advertising: false,
                    ..s
                };
                let look_up = seq![GapAction::LookUpConnection { conn_handle }];
                if s.multi_connection {
                    (restart_advertising(connected).0, look_up + restart_advertising(connected).1)
                } else {
                    (connected, look_up)
                }
            }
        },
        GapEvent::Disconnect { .. } => {
            restart_advertising(PeripheralState { connections: count_down(s.connections), ..s })
        },
        GapEvent::ConnUpdate { conn_handle, .. } => {
            (s, seq![GapAction::LookUpConnection { conn_handle }])
        },
        GapEvent::AdvComplete { .. } => restart_advertising(s),
        GapEvent::Mtu { .. } => (s, Seq::empty()),
        GapEvent::Other => (s, Seq::empty()),
    }
}

pub struct Peripheral {
    table: ConnectionTable,
    advertising: bool,
    connections: u32,
    own_addr_type: u8,
    multi_connection: bool,
}

impl View for Peripheral {
    type V = PeripheralState;

    closed spec fn view(&self) -> PeripheralState {
        PeripheralState {
            slots: self.table@,
            advertising: self.advertising,
            connections: self.connections as nat,
            own_addr_type: self.own_addr_type,
            multi_connection: self.multi_connection,
        }
    }
}

impl Peripheral {
    pub closed spec fn wf(&self) -> bool {
        self.table.wf()
    }

    /// An idle peripheral that accepts up to `max_connections` concurrent
    /// connections; with more than one it keeps advertising while connected.
    pub fn new(max_connections: usize) -> (p: Peripheral)
        requires
            max_connections > 0,
        ensures
            p.wf(),
            p@.slots.len() == max_connections,
            forall|i: int| 0 <= i < max_connections ==> p@.slots[i] == 0,
            !p@.advertising,
            p@.connections == 0,
            p@.own_addr_type == 0,
            p@.multi_connection == (max_connections > 1),
    {
        Peripheral {
            table: ConnectionTable::new(max_connections),
            advertising: false,
            connections: 0,
            own_addr_type: 0,
            multi_connection: max_connections > 1,
        }
    }

    /// Whether advertising is (re)started and not yet ended by a connection.
    pub fn is_advertising(&self) -> (r: bool)
        ensures
            r == self@.advertising,
    {
        self.advertising
    }

    /// The number of connections open.
    pub fn connection_count(&self) -> (n: u32)
        ensures
            n == self@.connections,
    {
        self.connections
    }

    /// The table of recorded connections.
    pub fn connection_table(&self) -> (t: &ConnectionTable)
        requires
            self.wf(),
        ensures
            t.wf(),
            t@ == self@.slots,
    {
        &self.table
    }

    fn start_advertising(&mut self, actions: &mut Vec<GapAction>)
        ensures
            final(self)@ == restart_advertising(old(self)@).0,
            final(actions)@ == old(actions)@ + restart_advertising(old(self)@).1,
            final(self).wf() == old(self).wf(),
    {
        self.advertising = true;
        actions.push(GapAction::Advertise { own_addr_type: self.own_addr_type });
    }

    /// Applies one GAP event and returns the actions to perform, in order.
    pub fn handle_gap_event(&mut self, event: GapEvent) -> (actions: Vec<GapAction>)
        requires
            old(self).wf(),
        ensures
            final(self).wf(),
            (final(self)@, actions@) == gap_step(old(self)@, event),
    {
        let mut actions: Vec<GapAction> = Vec::new();
        match event {
            GapEvent::Synced { addr_rc, own_addr_type } => {
                if addr_rc == 0 {
                    self.own_addr_type = own_addr_type;
                    self.start_advertising(&mut actions);
                }
            },
            GapEvent::Connect { status, conn_handle } => {
                if status != 0 {
                    self.start_advertising(&mut actions);
                } else {
                    actions.push(GapAction::LookUpConnection { conn_handle });
                    self.table.record_connected(conn_handle);
                    if self.connections < u32::MAX {
                        self.connections = self.connections + 1;
                    }
                    self.advertising = false;
                    if self.multi_connection {
                        self.start_advertising(&mut actions);
                    }
                }
            },
            GapEvent::Disconnect { .. } => {
                if self.connections > 0 {
                    self.connections = self.connections - 1;
                }
                self.start_advertising(&mut actions);
            },
            GapEvent::ConnUpdate { conn_handle, .. } => {
                actions.push(GapAction::LookUpConnection { conn_handle });
            },
            GapEvent::AdvComplete { .. } => {
                self.start_advertising(&mut actions);
            },
            GapEvent::Mtu { .. } => {},
            GapEvent::Other => {},
        }
        assert(actions@ =~= gap_step(old(self)@, event).1);
        actions
    }
}

/// A disconnect always restarts advertising, with the own address type
/// resolved at synchronisation, and asks for nothing else.
pub proof fn lemma_disconnect_restarts_advertising(s: PeripheralState, reason: i32)
    ensures
        gap_step(s, GapEvent::Disconnect { reason }).0.advertising,
        gap_step(s, GapEvent::Disconnect { reason }).1 == seq![
            GapAction::Advertise { own_addr_type: s.own_addr_type },
        ],
        gap_step(s, GapEvent::Disconnect { reason }).0.slots == s.slots,
{
}

} // verus!
