//! The order vocabulary shared by every part of the engine.
use vstd::prelude::*;
use crate::ids::{new_client_id, now, Timestamp};

verus! {

/// Direction of a position.
#[derive(Debug, Clone, Copy, PartialEq, Eq, Structural)]
pub enum Side {
    Long,
    Short,
}

/// The opposite direction.
pub open spec fn opposite(side: Side) -> Side {
    match side {
        Side::Long => Side::Short,
        Side::Short => Side::Long,
    }
}

/// An order buys when it opens a long or closes (reduces) a short.
pub open spec fn buys(side: Side, reduce_only: bool) -> bool {
    (side == Side::Long) != reduce_only
}

impl Side {
    /// The exchange order side that opens (or, with `reduce_only`, closes) a
    /// position in this direction.
    pub fn order_side(self, reduce_only: bool) -> (res: &'static str)
        ensures
            res@ == (if buys(self, reduce_only) { "BUY"@ } else { "SELL"@ }),
    {
        match (self, reduce_only) {
            (Side::Long, false) | (Side::Short, true) => "BUY",
            (Side::Short, false) | (Side::Long, true) => "SELL",
        }
    }
}

/// A reduce-only order trades against its position: closing a position
/// uses the side that opens the opposite one, and opening and closing the
/// same direction never use the same side.
pub proof fn reduce_only_trades_the_other_way(side: Side)
    ensures
        buys(side, true) == buys(opposite(side), false),
        buys(side, true) != buys(side, false),
{
}

/// Life-cycle state of an order.
#[derive(Debug, Clone, Copy, PartialEq, Eq, Structural)]
pub enum OrderStatus {
    Pending,
    Open,
    PartiallyFilled,
    Filled,
    Cancelled,
    Rejected,
}

/// An order is still live (may yet trade) while pending, open or partially
/// filled; filled, cancelled and rejected orders are terminal.
pub open spec fn is_live(status: OrderStatus) -> bool {
    status == OrderStatus::Pending || status == OrderStatus::Open || status
        == OrderStatus::PartiallyFilled
}

/// IEEE-754 bit pattern of `1.0f64`.
pub const ONE_BITS: u64 = 0x3FF0_0000_0000_0000;

/// An order the engine wants placed. Quantities, prices and leverage are
/// carried as the IEEE-754 bit patterns of their `f64` values: the engine
/// passes them through unchanged and never computes with them.
#[derive(Debug)]
pub struct OrderIntent {
    pub client_id: u128,
    pub pair: String,
    pub side: Side,
    pub quantity_bits: u64,
    pub price_bits: Option<u64>,
    pub reduce_only: bool,
    pub leverage_bits: u64,
    pub tag: String,
    pub created_at: Timestamp,
}

impl Clone for OrderIntent {
    fn clone(&self) -> (res: Self)
        ensures
            res == *self,
    {
        OrderIntent {
            client_id: self.client_id,
            pair: self.pair.clone(),
            side: self.side,
            quantity_bits: self.quantity_bits,
            price_bits: self.price_bits,
            reduce_only: self.reduce_only,
            leverage_bits: self.leverage_bits,
            tag: self.tag.clone(),
            created_at: self.created_at,
        }
    }
}

impl OrderIntent {
    /// A market order opening a position: a fresh random version-4 UUID as
    /// client id, no limit price, not reduce-only, leverage 1.0, stamped with
    /// the current time. It panics if the operating system's random source
    /// fails or the system clock reads before 1970, as `uuid` and `chrono`
    /// do.
    pub fn market(pair: String, side: Side, quantity_bits: u64, tag: String) -> (res: Self)
        ensures
            res.pair@ == pair@,
            res.side == side,
            res.quantity_bits == quantity_bits,
            res.price_bits is None,
            !res.reduce_only,
            res.leverage_bits == ONE_BITS,
            res.tag@ == tag@,
            (res.client_id as int / vstd::arithmetic::power2::pow2(76) as int) % 16 == 4,
            (res.client_id as int / vstd::arithmetic::power2::pow2(62) as int) % 4 == 2,
            res.created_at.well_formed(),
            0 <= res.created_at.secs < 10_000_000_000_000,
    {
        OrderIntent {
            client_id: new_client_id(),
            pair,
            side,
            quantity_bits,
            price_bits: None,
            reduce_only: false,
            leverage_bits: ONE_BITS,
            tag,
            created_at: now(),
        }
    }
}

/// What an exchange reports about one order.
#[derive(Debug)]
pub struct OrderUpdate {
    pub exchange_id: String,
    pub client_id: u128,
    pub pair: String,
    pub status: OrderStatus,
    pub filled_quantity_bits: u64,
    pub average_price_bits: Option<u64>,
    pub updated_at: Timestamp,
}

impl Clone for OrderUpdate {
    fn clone(&self) -> (res: Self)
        ensures
            res == *self,
    {
        OrderUpdate {
            exchange_id: self.exchange_id.clone(),
            client_id: self.client_id,
            pair: self.pair.clone(),
            status: self.status,
            filled_quantity_bits: self.filled_quantity_bits,
            average_price_bits: self.average_price_bits,
            updated_at: self.updated_at,
        }
    }
}

/// Work items that flow through the engine's lanes.
#[derive(Debug, Clone)]
pub enum EngineEvent {
    RiskExit(OrderIntent),
    StrategyOrder(OrderIntent),
    OrderUpdate(OrderUpdate),
    Reconcile,
    Shutdown,
}

} // verus!
