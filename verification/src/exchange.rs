//! The paper exchange: fills every order immediately at the requested
//! price and keeps the resulting updates in memory, keyed by client id.
use std::collections::HashMap;
use vstd::prelude::*;
use vstd::std_specs::hash::spec_hash_map_iter;
use vstd::std_specs::iter::IteratorSpec;
use crate::domain::{is_live, OrderIntent, OrderStatus, OrderUpdate};
use crate::ids::{hyphenated_text_is_unique, uuid_hyphenated, uuid_hyphenated_text, Timestamp};
use crate::storage::{store, terminal_update_leaves_active_table, OrderTables};
use crate::text::chars_equal;

verus! {

/// The exchange id the paper exchange gives an order: `paper-<client id>`.
pub open spec fn paper_exchange_id(client_id: u128) -> Seq<char> {
    "paper-"@ + uuid_hyphenated_text(client_id)
}

/// The fill the paper exchange reports for an intent: filled in full at
/// the intent's price (none for a market order).
pub open spec fn paper_fill(intent: OrderIntent, at: Timestamp, res: OrderUpdate) -> bool {
    &&& res.exchange_id@ == paper_exchange_id(intent.client_id)
    &&& res.client_id == intent.client_id
    &&& res.pair@ == intent.pair@
    &&& res.status == OrderStatus::Filled
    &&& res.filled_quantity_bits == intent.quantity_bits
    &&& res.average_price_bits == intent.price_bits
    &&& res.updated_at == at
}

/// An order after a cancellation at `at`.
pub open spec fn cancelled(order: OrderUpdate, at: Timestamp) -> OrderUpdate {
    OrderUpdate { status: OrderStatus::Cancelled, updated_at: at, ..order }
}

/// The in-memory order book of the paper exchange, keyed by client id.
pub struct PaperExchange {
    orders: HashMap<u128, OrderUpdate>,
}

impl View for PaperExchange {
    type V = Map<u128, OrderUpdate>;

    closed spec fn view(&self) -> Map<u128, OrderUpdate> {
        self.orders@
    }
}

impl PaperExchange {
    /// Every order is stored under its own client id, is terminal, and
    /// carries the paper exchange id of that client id.
    pub closed spec fn wf(&self) -> bool {
        forall|k: u128|
            #[trigger] self.orders@.dom().contains(k) ==> self.orders@[k].client_id == k && !is_live(
                self.orders@[k].status,
            ) && self.orders@[k].exchange_id@ == paper_exchange_id(k)
    }

    /// An empty book.
    pub fn new() -> (res: Self)
        ensures
            res.wf(),
            res@ == Map::<u128, OrderUpdate>::empty(),
    {
        broadcast use vstd::std_specs::hash::group_hash_axioms;

        PaperExchange { orders: HashMap::new() }
    }

    /// Fills an order at once: the update reports the full quantity filled
    /// at the intent's price, is stored under the client id (replacing any
    /// earlier order with that id) and is returned for broadcast.
    pub fn place_order(&mut self, intent: &OrderIntent, at: Timestamp) -> (res: OrderUpdate)
        requires
            old(self).wf(),
        ensures
            paper_fill(*intent, at, res),
            final(self).wf(),
            final(self)@ == old(self)@.insert(intent.client_id, res),
    {
        broadcast use vstd::std_specs::hash::group_hash_axioms;

        let mut exchange_id = String::from_str("paper-");
        let id = uuid_hyphenated(intent.client_id);
        exchange_id.append(id.as_str());
        let update = OrderUpdate {
            exchange_id,
            client_id: intent.client_id,
            pair: intent.pair.clone(),
            status: OrderStatus::Filled,
            filled_quantity_bits: intent.quantity_bits,
            average_price_bits: intent.price_bits,
            updated_at: at,
        };
        self.orders.insert(intent.client_id, update.clone());
        update
    }

    /// Cancels the order with this exchange id, if there is one: its status
    /// becomes cancelled and its update time `at`; the changed order is
    /// returned for broadcast. At most one order has a given exchange id
    /// (`paper_exchange_ids_identify_orders`). Without a match nothing
    /// changes.
    pub fn cancel_order(&mut self, pair: &str, exchange_id: &str, at: Timestamp) -> (res: Option<
        OrderUpdate,
    >)
        requires
            old(self).wf(),
        ensures
            final(self).wf(),
            (exists|k: u128| #[trigger] old(self)@.dom().contains(k) && old(self)@[k].exchange_id@
                == exchange_id@) ==> (res matches Some(c) && old(self)@.dom().contains(c.client_id)
                && old(self)@[c.client_id].exchange_id@ == exchange_id@ && c == cancelled(
                old(self)@[c.client_id],
                at,
            ) && final(self)@ == old(self)@.insert(c.client_id, c)),
            res matches Some(c) ==> old(self)@.dom().contains(c.client_id) && c.status
                == OrderStatus::Cancelled && c.updated_at == at && c.exchange_id@ == exchange_id@
                && c.exchange_id == old(self)@[c.client_id].exchange_id && c.pair == old(
                self,
            )@[c.client_id].pair && c.filled_quantity_bits == old(
                self,
            )@[c.client_id].filled_quantity_bits && c.average_price_bits == old(
                self,
            )@[c.client_id].average_price_bits && final(self)@[c.client_id] == c,
            !(exists|k: u128| #[trigger] old(self)@.dom().contains(k) && old(self)@[k].exchange_id@
                == exchange_id@) ==> (res is None && final(self)@ == old(self)@),
    {
        broadcast use vstd::std_specs::hash::group_hash_axioms;

        let mut found: Option<OrderUpdate> = None;
        for entry in it: self.orders.iter()
            invariant
                self.wf(),
                it.seq() == spec_hash_map_iter(&self.orders).remaining(),
                found is None ==> forall|j: int|
                    0 <= j < it.index() ==> (#[trigger] it.seq()[j]).1.exchange_id@
                        != exchange_id@,
                found matches Some(o) ==> self@.dom().contains(o.client_id) && self@[o.client_id]
                    == o && o.exchange_id@ == exchange_id@,
        {
            proof {
                let j: int = it.index() as int;
                assert(self@.contains_key(*it.seq()[j].0));
            }
            if found.is_none() && chars_equal(entry.1.exchange_id.as_str(), exchange_id) {
                found = Some(entry.1.clone());
            }
        }
        match found {
            Some(order) => {
                let mut changed = order;
                changed.status = OrderStatus::Cancelled;
                changed.updated_at = at;
                self.orders.insert(changed.client_id, changed.clone());
                Some(changed)
            },
            None => {
                proof {
                    assert forall|k: u128| #[trigger] self@.dom().contains(k) implies self@[k].exchange_id@
                        != exchange_id@ by {
                        let pairs = spec_hash_map_iter(&self.orders).remaining();
                        assert(pairs.contains((&k, &self@[k])));
                        let j: int = choose|j: int| 0 <= j < pairs.len() && pairs[j] == (&k, &self@[k]);
                    }
                }
                None
            },
        }
    }

    /// The orders still live on the exchange: those pending, open or
    /// partially filled, each once. The paper exchange holds none, so the
    /// list is empty.
    pub fn active_orders(&self) -> (res: Vec<OrderUpdate>)
        requires
            self.wf(),
        ensures
            forall|i: int, j: int|
                0 <= i < j < res@.len() ==> (#[trigger] res@[i]).client_id
                    != (#[trigger] res@[j]).client_id,
            res@.len() == 0,
            forall|i: int| 0 <= i < res@.len() ==> is_live((#[trigger] res@[i]).status)
                && self@.dom().contains(res@[i].client_id) && self@[res@[i].client_id] == res@[i],
            forall|k: u128| #[trigger] self@.dom().contains(k) && is_live(self@[k].status) ==> exists|
                i: int,
            | 0 <= i < res@.len() && (#[trigger] res@[i]).client_id == k,
    {
        broadcast use vstd::std_specs::hash::group_hash_axioms;

        let mut out: Vec<OrderUpdate> = Vec::new();
        for entry in it: self.orders.iter()
            invariant
                self.wf(),
                it.seq() == spec_hash_map_iter(&self.orders).remaining(),
                out@.len() == 0,
                forall|j: int| 0 <= j < out@.len() ==> is_live((#[trigger] out@[j]).status)
                    && self@.dom().contains(out@[j].client_id) && self@[out@[j].client_id]
                    == out@[j],
        {
            proof {
                let j: int = it.index() as int;
                assert(self@.contains_key(*it.seq()[j].0));
            }
            if crate::storage::is_active(entry.1.status) {
                out.push(entry.1.clone());
            }
        }
        proof {
            assert forall|k: u128| #[trigger] self@.dom().contains(k) && is_live(
                self@[k].status,
            ) implies exists|m: int| 0 <= m < out@.len() && (#[trigger] out@[m]).client_id == k by {
            }
        }
        out
    }
}

/// Every order the paper exchange holds has traded to completion or been
/// cancelled, so reconciliation against it never finds a live order.
pub proof fn paper_orders_are_terminal(exchange: &PaperExchange, k: u128)
    requires
        exchange.wf(),
        exchange@.dom().contains(k),
    ensures
        !is_live(exchange@[k].status),
{
}

/// The paper exchange ids tell orders apart: two held orders with the same
/// exchange id are the same order, so a cancellation by exchange id reaches
/// exactly the order it names.
pub proof fn paper_exchange_ids_identify_orders(exchange: &PaperExchange, a: u128, b: u128)
    requires
        exchange.wf(),
        exchange@.dom().contains(a),
        exchange@.dom().contains(b),
        exchange@[a].exchange_id@ == exchange@[b].exchange_id@,
    ensures
        a == b,
{
    let prefix = "paper-"@;
    assert((prefix + uuid_hyphenated_text(a)).skip(prefix.len() as int) =~= uuid_hyphenated_text(a));
    assert((prefix + uuid_hyphenated_text(b)).skip(prefix.len() as int) =~= uuid_hyphenated_text(b));
    hyphenated_text_is_unique(a, b);
}

/// Cancellation changes only the status and the update time: the order
/// keeps its ids, pair, filled quantity and average price, becomes
/// cancelled, and is stamped with the cancellation time.
pub proof fn cancellation_keeps_the_fill(order: OrderUpdate, at: Timestamp)
    ensures
        cancelled(order, at).exchange_id == order.exchange_id,
        cancelled(order, at).client_id == order.client_id,
        cancelled(order, at).pair == order.pair,
        cancelled(order, at).filled_quantity_bits == order.filled_quantity_bits,
        cancelled(order, at).average_price_bits == order.average_price_bits,
        cancelled(order, at).status == OrderStatus::Cancelled,
        cancelled(order, at).updated_at == at,
{
}

/// A risk exit filled on the paper exchange is terminal, so storing its
/// update leaves no row for it in the active table: the update goes to
/// history only.
pub proof fn paper_fill_leaves_active_table(
    tables: OrderTables,
    intent: OrderIntent,
    at: Timestamp,
    update: OrderUpdate,
)
    requires
        paper_fill(intent, at, update),
    ensures
        !store(tables, update).active.dom().contains(intent.client_id),
        store(tables, update).history[intent.client_id] == update,
{
    terminal_update_leaves_active_table(tables, update);
}

/// A read after a fill gives the fill back: after placing an intent, the
/// book maps its client id to the reported update, and every other order is
/// unchanged.
pub proof fn placed_order_is_recorded(
    before: Map<u128, OrderUpdate>,
    after: Map<u128, OrderUpdate>,
    intent: OrderIntent,
    at: Timestamp,
    res: OrderUpdate,
)
    requires
        paper_fill(intent, at, res),
        after == before.insert(intent.client_id, res),
    ensures
        after.dom().contains(intent.client_id),
        after[intent.client_id] == res,
        after[intent.client_id].status == OrderStatus::Filled,
        forall|k: u128| k != intent.client_id && before.dom().contains(k) ==> after.dom().contains(k)
            && #[trigger] after[k] == before[k],
{
}

} // verus!
