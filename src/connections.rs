//! The connection table: one slot per possible concurrent connection, each
//! holding the identifier last recorded there, 0 marking an unused slot.

use vstd::prelude::*;

verus! {

/// Identifier that marks an unused slot.
pub const NO_CONNECTION: u16 = 0;

/// The identifiers held in `slots` other than the sentinel, in slot order.
pub open spec fn active_of(slots: Seq<u16>) -> Seq<u16>
    decreases slots.len(),
{
    if slots.len() == 0 {
        Seq::empty()
    } else if slots.last() != NO_CONNECTION {
        active_of(slots.drop_last()).push(slots.last())
    } else {
        active_of(slots.drop_last())
    }
}

/// The slots after `id` is recorded: it goes to the slot `id` modulo the capacity.
pub open spec fn recorded(slots: Seq<u16>, id: u16) -> Seq<u16>
    recommends
        slots.len() > 0,
{
    slots.update(id as int % slots.len() as int, id)
}

/// Slots of a fresh table of `capacity` entries: all unused.
pub open spec fn empty_slots(capacity: nat) -> Seq<u16> {
    Seq::new(capacity, |i: int| NO_CONNECTION)
}

pub struct ConnectionTable {
    slots: Vec<u16>,
}

impl View for ConnectionTable {
    type V = Seq<u16>;

    closed spec fn view(&self) -> Seq<u16> {
        self.slots@
    }
}

impl ConnectionTable {
    /// A table has at least one slot.
    pub open spec fn wf(&self) -> bool {
        self@.len() > 0
    }

    /// A table of `capacity` unused slots.
    pub fn new(capacity: usize) -> (t: ConnectionTable)
        requires
            capacity > 0,
        ensures
            t.wf(),
            t@ == empty_slots(capacity as nat),
    {
        let mut slots: Vec<u16> = Vec::new();
        let mut i: usize = 0;
        while i < capacity
            invariant
                i <= capacity,
                slots@ == empty_slots(i as nat),
            decreases capacity - i,
        {
            slots.push(NO_CONNECTION);
            i = i + 1;
            assert(slots@ =~= empty_slots(i as nat));
        }
        ConnectionTable { slots }
    }

    /// Number of slots.
    pub fn capacity(&self) -> (n: usize)
        ensures
            n == self@.len(),
    {
        self.slots.len()
    }

    /// Records a new connection in the slot addressed by `id` modulo the capacity.
    pub fn record_connected(&mut self, id: u16)
        requires
            old(self).wf(),
        ensures
            final(self).wf(),
            final(self)@ == recorded(old(self)@, id),
    {
        let idx: usize = (id as usize) % self.slots.len();
        self.slots.set(idx, id);
    }

    /// Every identifier in the table other than the sentinel, in slot order.
    pub fn active_ids(&self) -> (ids: Vec<u16>)
        ensures
            ids@ == active_of(self@),
    {
        let mut ids: Vec<u16> = Vec::new();
        let mut i: usize = 0;
        while i < self.slots.len()
            invariant
                i <= self.slots@.len(),
                ids@ == active_of(self.slots@.subrange(0, i as int)),
            decreases self.slots@.len() - i,
        {
            let id = self.slots[i];
            proof {
                let pre = self.slots@.subrange(0, i as int);
                let next = self.slots@.subrange(0, i as int + 1);
                assert(next.drop_last() =~= pre);
            }
            if id != NO_CONNECTION {
                ids.push(id);
            }
            i = i + 1;
        }
        assert(self.slots@.subrange(0, self.slots@.len() as int) =~= self.slots@);
        ids
    }
}

/// An identifier is listed as active exactly when it is not the sentinel and
/// some slot holds it.
pub proof fn lemma_active_contains(slots: Seq<u16>, id: u16)
    ensures
        active_of(slots).contains(id) <==> (id != NO_CONNECTION && slots.contains(id)),
    decreases slots.len(),
{
    if slots.len() > 0 {
        let init = slots.drop_last();
        let last = slots.last();
        lemma_active_contains(init, id);
        assert(slots =~= init.push(last));
        assert(slots.contains(id) <==> (init.contains(id) || last == id)) by {
            if slots.contains(id) {
                let k = choose|k: int| 0 <= k < slots.len() && slots[k] == id;
                if k < slots.len() - 1 {
                    assert(init[k] == id);
                }
            }
            if init.contains(id) {
                let k = choose|k: int| 0 <= k < init.len() && init[k] == id;
                assert(slots[k] == id);
            }
            if last == id {
                assert(slots[slots.len() - 1] == id);
            }
        }
        if last != NO_CONNECTION {
            let ai = active_of(init);
            assert(active_of(slots) == ai.push(last));
            assert(ai.push(last).contains(id) <==> (ai.contains(id) || last == id)) by {
                if ai.push(last).contains(id) {
                    let k = choose|k: int| 0 <= k < ai.len() + 1 && ai.push(last)[k] == id;
                    if k < ai.len() {
                        assert(ai[k] == id);
                    }
                }
                if ai.contains(id) {
                    let k = choose|k: int| 0 <= k < ai.len() && ai[k] == id;
                    assert(ai.push(last)[k] == id);
                }
                if last == id {
                    assert(ai.push(last)[ai.len() as int] == id);
                }
            }
        }
    }
}

/// Recording two connections whose slots differ, in a fresh table, leaves
/// exactly those two identifiers active.
pub proof fn lemma_two_connections_active(capacity: nat, a: u16, b: u16)
    requires
        capacity > 0,
        a != NO_CONNECTION,
        b != NO_CONNECTION,
        a as int % capacity as int != b as int % capacity as int,
    ensures
        active_of(recorded(recorded(empty_slots(capacity), a), b)).to_set() == set![a, b],
{
    let slots = recorded(recorded(empty_slots(capacity), a), b);
    let ia = a as int % capacity as int;
    let ib = b as int % capacity as int;
    assert(slots[ia] == a);
    assert(slots[ib] == b);
    assert forall|x: u16| active_of(slots).to_set().contains(x) <==> set![a, b].contains(x) by {
        lemma_active_contains(slots, x);
        if x != a && x != b && slots.contains(x) {
            let k = choose|k: int| 0 <= k < slots.len() && slots[k] == x;
            assert(slots[k] == NO_CONNECTION);
        }
    }
    assert(active_of(slots).to_set() =~= set![a, b]);
}

} // verus!
