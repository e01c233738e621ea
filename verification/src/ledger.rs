//! The order ledger: a map from order identifier to order record.
//!
//! The records sit in a vector in which no identifier occurs twice; the
//! ledger is viewed as the map that the vector spells out.

use vstd::prelude::*;

use crate::error::Error;
use crate::order::{Order, OrderId, OrderView};

verus! {

/// What a ledger stands for.
pub type LedgerView = Map<Seq<char>, OrderView>;

/// One record under its key.
struct Slot {
    key: OrderId,
    order: Order,
}

/// The single source of truth for the state of every order.
pub struct Ledger {
    slots: Vec<Slot>,
}

/// No key occurs twice.
spec fn keys_distinct(slots: Seq<Slot>) -> bool {
    forall|i: int, j: int| 0 <= i < j < slots.len() ==> slots[i].key@ != slots[j].key@
}

/// `i` is a place at which `key` is stored.
spec fn stored_at(slots: Seq<Slot>, key: Seq<char>, i: int) -> bool {
    0 <= i < slots.len() && slots[i].key@ == key
}

/// Some place stores `key`.
spec fn stored(slots: Seq<Slot>, key: Seq<char>) -> bool {
    exists|i: int| stored_at(slots, key, i)
}

/// A place that stores `key`, where there is one.
spec fn place_of(slots: Seq<Slot>, key: Seq<char>) -> int {
    choose|i: int| stored_at(slots, key, i)
}

/// The map spelled out by the slots.
spec fn as_map(slots: Seq<Slot>) -> LedgerView {
    Map::new(|key: Seq<char>| stored(slots, key), |key: Seq<char>| slots[place_of(slots, key)].order@)
}

/// Among distinct keys the place of a key is the one place that stores it.
proof fn lemma_place_is_unique(slots: Seq<Slot>, key: Seq<char>, i: int)
    requires
        keys_distinct(slots),
        stored_at(slots, key, i),
    ensures
        stored(slots, key),
        place_of(slots, key) == i,
{
    let p = place_of(slots, key);
    assert(stored_at(slots, key, p));
    if p < i {
        assert(slots[p].key@ != slots[i].key@);
    } else if i < p {
        assert(slots[i].key@ != slots[p].key@);
    }
}

/// Appending a record under a key that is not stored yet inserts it.
proof fn lemma_push_inserts(before: Seq<Slot>, slot: Slot)
    requires
        keys_distinct(before),
        !stored(before, slot.key@),
    ensures
        keys_distinct(before.push(slot)),
        as_map(before.push(slot)) == as_map(before).insert(slot.key@, slot.order@),
{
    let after = before.push(slot);
    assert forall|i: int, j: int| 0 <= i < j < after.len() implies after[i].key@
        != after[j].key@ by {
        if j == before.len() {
            assert(!stored_at(before, slot.key@, i));
        }
    }
    assert forall|key: Seq<char>| #[trigger]
        as_map(after).dom().contains(key) == as_map(before).insert(
            slot.key@,
            slot.order@,
        ).dom().contains(key) by {
        if stored(after, key) {
            let p = place_of(after, key);
            if p < before.len() {
                assert(stored_at(before, key, p));
            }
        }
        if stored(before, key) {
            assert(stored_at(after, key, place_of(before, key)));
        }
        if key == slot.key@ {
            assert(stored_at(after, key, before.len() as int));
        }
    }
    assert forall|key: Seq<char>| #[trigger]
        as_map(after).dom().contains(key) implies as_map(after)[key] == as_map(before).insert(
        slot.key@,
        slot.order@,
    )[key] by {
        if key == slot.key@ {
            lemma_place_is_unique(after, key, before.len() as int);
        } else {
            let p = place_of(after, key);
            assert(stored_at(after, key, p));
            assert(stored_at(before, key, p));
            lemma_place_is_unique(before, key, p);
        }
    }
    assert(as_map(after) =~= as_map(before).insert(slot.key@, slot.order@));
}

/// Replacing the record at the place of its key overwrites it.
proof fn lemma_update_overwrites(before: Seq<Slot>, at: int, slot: Slot)
    requires
        keys_distinct(before),
        stored_at(before, slot.key@, at),
    ensures
        keys_distinct(before.update(at, slot)),
        as_map(before.update(at, slot)) == as_map(before).insert(slot.key@, slot.order@),
{
    let after = before.update(at, slot);
    assert forall|i: int, j: int| 0 <= i < j < after.len() implies after[i].key@
        != after[j].key@ by {
        assert(before[i].key@ != before[j].key@);
    }
    assert forall|key: Seq<char>| #[trigger]
        as_map(after).dom().contains(key) == as_map(before).insert(
            slot.key@,
            slot.order@,
        ).dom().contains(key) by {
        if stored(after, key) {
            assert(stored_at(before, key, place_of(after, key)));
        }
        if stored(before, key) {
            assert(stored_at(after, key, place_of(before, key)));
        }
        if key == slot.key@ {
            assert(stored_at(after, key, at));
        }
    }
    assert forall|key: Seq<char>| #[trigger]
        as_map(after).dom().contains(key) implies as_map(after)[key] == as_map(before).insert(
        slot.key@,
        slot.order@,
    )[key] by {
        let p = place_of(after, key);
        assert(stored_at(after, key, p));
        if key == slot.key@ {
            lemma_place_is_unique(after, key, at);
        } else {
            assert(stored_at(before, key, p));
            lemma_place_is_unique(before, key, p);
        }
    }
    assert(as_map(after) =~= as_map(before).insert(slot.key@, slot.order@));
}

impl View for Ledger {
    type V = LedgerView;

    closed spec fn view(&self) -> LedgerView {
        as_map(self.slots@)
    }
}

impl Ledger {
    #[verifier::type_invariant]
    spec fn keys_occur_once(&self) -> bool {
        keys_distinct(self.slots@)
    }

    /// A ledger without orders.
    pub fn new() -> (ledger: Ledger)
        ensures
            ledger@ == Map::<Seq<char>, OrderView>::empty(),
    {
        let ledger = Ledger { slots: Vec::new() };
        proof {
            assert forall|key: Seq<char>| !stored(ledger.slots@, key) by {
                if stored(ledger.slots@, key) {
                    assert(stored_at(ledger.slots@, key, place_of(ledger.slots@, key)));
                }
            }
            assert(ledger@ =~= Map::<Seq<char>, OrderView>::empty());
        }
        ledger
    }

    /// The place at which `order_id` is stored, if it is stored.
    fn find(&self, order_id: &OrderId) -> (place: Option<usize>)
        ensures
            match place {
                Some(i) => stored_at(self.slots@, order_id@, i as int),
                None => !stored(self.slots@, order_id@),
            },
    {
        let mut i: usize = 0;
        while i < self.slots.len()
            invariant
                i <= self.slots.len(),
                forall|j: int| 0 <= j < i ==> !stored_at(self.slots@, order_id@, j),
            decreases self.slots.len() - i,
        {
            if self.slots[i].key == *order_id {
                return Some(i);
            }
            i += 1;
        }
        proof {
            if stored(self.slots@, order_id@) {
                assert(stored_at(self.slots@, order_id@, place_of(self.slots@, order_id@)));
            }
        }
        None
    }

    /// The record under `order_id`, borrowed.
    pub fn peek(&self, order_id: &OrderId) -> (found: Option<&Order>)
        ensures
            found.is_some() == self@.contains_key(order_id@),
            found matches Some(order) ==> order@ == self@[order_id@],
    {
        match self.find(order_id) {
            Some(i) => {
                proof {
                    use_type_invariant(self);
                    lemma_place_is_unique(self.slots@, order_id@, i as int);
                }
                Some(&self.slots[i].order)
            },
            None => None,
        }
    }

    /// The record under `order_id`; `NotFound` where there is none.
    pub fn get(&self, order_id: &OrderId) -> (found: Result<Order, Error>)
        ensures
            found.is_ok() == self@.contains_key(order_id@),
            found matches Ok(order) ==> order@ == self@[order_id@],
            found matches Err(error) ==> error == Error::NotFound,
    {
        match self.peek(order_id) {
            Some(order) => Ok(order.clone()),
            None => Err(Error::NotFound),
        }
    }

    /// Writes `order` under `order_id`, over whatever was recorded there.
    pub fn upsert(&mut self, order_id: OrderId, order: Order)
        ensures
            final(self)@ == old(self)@.insert(order_id@, order@),
    {
        proof {
            use_type_invariant(&*self);
        }
        let place = self.find(&order_id);
        let slot = Slot { key: order_id, order };
        let mut slots: Vec<Slot> = Vec::new();
        core::mem::swap(&mut self.slots, &mut slots);
        match place {
            Some(i) => {
                proof {
                    lemma_update_overwrites(slots@, i as int, slot);
                }
                slots.set(i, slot);
            },
            None => {
                proof {
                    lemma_push_inserts(slots@, slot);
                }
                slots.push(slot);
            },
        }
        core::mem::swap(&mut self.slots, &mut slots);
    }
}

} // verus!
