//! Per-asset order maps and the read-only bridge over them: point lookup
//! and cursor-style iteration for a caller that shares none of the
//! runtime's memory-safety guarantees.
//!
//! The bridge never mutates order state; a cursor owns only its iteration
//! position, and the runtime guarantees no map mutation completes while a
//! cursor over that map is outstanding.

use vstd::prelude::*;

use crate::types::Order;

verus! {

/// Mapping from exchange-assigned order id to the order's stored state,
/// one map per asset.
///
/// Entries keep insertion order. The well-formedness invariant is that no
/// two entries share an order id, so point lookup is unambiguous and a full
/// iteration yields each order exactly once.
pub struct OrderMap {
    pub orders: Vec<Order>,
}

/// Whether some order of the sequence carries this id.
pub open spec fn seq_contains_id(s: Seq<Order>, order_id: i64) -> bool {
    exists|i: int| 0 <= i < s.len() && s[i].order_id == order_id
}

/// Position of the order with this id, when one is present.
pub open spec fn seq_index_of(s: Seq<Order>, order_id: i64) -> int {
    choose|i: int| 0 <= i < s.len() && s[i].order_id == order_id
}

/// The entry sequence after applying an authoritative snapshot: overwrite
/// in place when the id is present, append otherwise.
pub open spec fn upsert_seq(s: Seq<Order>, o: Order) -> Seq<Order> {
    if seq_contains_id(s, o.order_id) {
        s.update(seq_index_of(s, o.order_id), o)
    } else {
        s.push(o)
    }
}

impl OrderMap {
    /// No two stored orders share an id.
    pub open spec fn wf(self) -> bool {
        forall|i: int, j: int|
            0 <= i < j < self.orders@.len() ==> self.orders@[i].order_id
                != self.orders@[j].order_id
    }

    pub open spec fn spec_len(self) -> nat {
        self.orders@.len()
    }

    /// Whether some stored order carries this id.
    pub open spec fn spec_contains_id(self, order_id: i64) -> bool {
        seq_contains_id(self.orders@, order_id)
    }

    /// Position of the order with this id, when one is stored.
    pub open spec fn spec_index_of(self, order_id: i64) -> int {
        seq_index_of(self.orders@, order_id)
    }

    pub fn new() -> (r: OrderMap)
        ensures
            r.wf(),
            r.spec_len() == 0,
    {
        OrderMap { orders: Vec::new() }
    }

    pub fn len(&self) -> (r: usize)
        ensures
            r == self.spec_len(),
    {
        self.orders.len()
    }

    /// Point lookup: a read-only reference to the order with the given id,
    /// or the not-found sentinel if no such order is stored. No allocation;
    /// the reference lives as long as the borrow of the map.
    pub fn lookup(&self, order_id: i64) -> (r: Option<&Order>)
        requires
            self.wf(),
        ensures
            self.spec_contains_id(order_id) ==> (r matches Some(o)
                && o.order_id == order_id
                && *o == self.orders@[self.spec_index_of(order_id)]),
            !self.spec_contains_id(order_id) ==> r matches None,
    {
        let n = self.orders.len();
        let mut i: usize = 0;
        while i < n
            invariant
                n == self.orders@.len(),
                0 <= i <= n,
                self.wf(),
                forall|j: int| 0 <= j < i ==> self.orders@[j].order_id != order_id,
            decreases n - i,
        {
            if self.orders[i].order_id == order_id {
                proof {
                    let k = self.spec_index_of(order_id);
                    assert(0 <= k < self.orders@.len() && self.orders@[k].order_id == order_id);
                    assert(k == i as int);
                }
                return Some(&self.orders[i]);
            }
            i = i + 1;
        }
        None
    }

    /// Applies an authoritative order snapshot: overwrites the entry that
    /// carries the same id, or appends a new entry. No partial-field merge.
    pub fn upsert(&mut self, order: Order)
        requires
            old(self).wf(),
        ensures
            final(self).wf(),
            final(self).orders@ == upsert_seq(old(self).orders@, order),
            final(self).spec_contains_id(order.order_id),
    {
        let n = self.orders.len();
        let mut i: usize = 0;
        while i < n
            invariant
                n == self.orders@.len(),
                0 <= i <= n,
                self.wf(),
                *self == *old(self),
                forall|j: int| 0 <= j < i ==> self.orders@[j].order_id != order.order_id,
            decreases n - i,
        {
            if self.orders[i].order_id == order.order_id {
                proof {
                    let k = self.spec_index_of(order.order_id);
                    assert(0 <= k < self.orders@.len() && self.orders@[k].order_id
                        == order.order_id);
                    assert(k == i as int);
                }
                self.orders.set(i, order);
                proof {
                    assert(final(self).orders@[i as int].order_id == order.order_id);
                }
                return ;
            }
            i = i + 1;
        }
        self.orders.push(order);
        proof {
            assert(self.orders@[self.orders@.len() - 1].order_id == order.order_id);
        }
    }
}

/// An iteration handle over one order map.
///
/// It owns nothing but its position, so exhausting or dropping it releases
/// no shared state. The foreign-function layer wraps it in a heap-owned
/// handle whose deallocation-on-exhaustion contract is documented there.
pub struct OrderCursor {
    pub pos: usize,
}

/// Begins an iteration over the map: returns a cursor positioned before the
/// first entry.
pub fn begin_iteration(_map: &OrderMap) -> (r: OrderCursor)
    ensures
        r.pos == 0,
{
    OrderCursor { pos: 0 }
}

/// Advances the cursor: yields a read-only reference to the next order, or
/// the not-found sentinel once every entry has been yielded. The map must
/// not have been mutated since the cursor was created.
pub fn advance<'a>(map: &'a OrderMap, cursor: &mut OrderCursor) -> (r: Option<&'a Order>)
    ensures
        old(cursor).pos < map.spec_len() ==> (r matches Some(o)
            && *o == map.orders@[old(cursor).pos as int]
            && final(cursor).pos == old(cursor).pos + 1),
        old(cursor).pos >= map.spec_len() ==> (r matches None && *final(cursor) == *old(cursor)),
{
    if cursor.pos < map.orders.len() {
        let o = &map.orders[cursor.pos];
        cursor.pos = cursor.pos + 1;
        Some(o)
    } else {
        None
    }
}

/// Law: a full iteration yields every order in the map exactly once.
///
/// By the contract of [`advance`], the k-th advance after
/// [`begin_iteration`] yields exactly the k-th stored entry, so the yielded
/// sequence is the map's entry sequence itself; this lemma states that, in
/// a well-formed map, those entries carry pairwise distinct ids and each
/// stored id is yielded at exactly one position.
pub proof fn lemma_iteration_yields_each_order_once(map: OrderMap)
    requires
        map.wf(),
    ensures
        forall|i: int, j: int|
            0 <= i < j < map.spec_len() ==> map.orders@[i].order_id != map.orders@[j].order_id,
        forall|id: i64| #[trigger]
            map.spec_contains_id(id) ==> 0 <= map.spec_index_of(id) < map.spec_len()
                && map.orders@[map.spec_index_of(id)].order_id == id && (forall|j: int|
                0 <= j < map.spec_len() && map.orders@[j].order_id == id ==> j
                    == map.spec_index_of(id)),
{
    assert forall|id: i64| #[trigger] map.spec_contains_id(id) implies 0 <= map.spec_index_of(id)
        < map.spec_len() && map.orders@[map.spec_index_of(id)].order_id == id && (forall|j: int|
        0 <= j < map.spec_len() && map.orders@[j].order_id == id ==> j == map.spec_index_of(
            id,
        )) by {
        let k = map.spec_index_of(id);
        assert(0 <= k < map.orders@.len() && map.orders@[k].order_id == id);
        assert forall|j: int|
            0 <= j < map.spec_len() && map.orders@[j].order_id == id implies j == k by {
            if j < k {
                assert(map.orders@[j].order_id != map.orders@[k].order_id);
            } else if j > k {
                assert(map.orders@[k].order_id != map.orders@[j].order_id);
            }
        }
    }
}

} // verus!
