use vstd::prelude::*;

pub mod client;
pub mod clock;
pub mod encoding;
pub mod json;
pub mod primitives;
pub mod text;

pub use client::api::APIError;
pub use client::types::{Book, Market, MarketError, OrderType, Side, TokenIndex, api};
pub use client::{PolymarketClient, PolymarketClientError};
pub use clock::{get_current_unix_time_secs, timestamp_of_tomorrow_at_12am_utc};

use primitives::{F64, U256};

verus! {

/// An order for a market's token.
#[derive(Debug, Clone, Copy)]
pub enum PolymarketOrder {
    /// Buys tokens.
    Bid { token_id: U256, price: F64, size: F64 },
    /// Sells tokens.
    Ask { token_id: U256, price: F64, size: F64 },
}

impl PolymarketOrder {
    /// The token, the side, the price and the size of the order.
    pub open spec fn parts(self) -> (U256, Side, F64, F64) {
        match self {
            PolymarketOrder::Bid { token_id, price, size } => (token_id, Side::BUY, price, size),
            PolymarketOrder::Ask { token_id, price, size } => (token_id, Side::SELL, price, size),
        }
    }

    /// The token, the side, the price and the size of the order.
    pub fn into_parts(self) -> (parts: (U256, Side, F64, F64))
        ensures
            parts == self.parts(),
    {
        match self {
            PolymarketOrder::Bid { token_id, price, size } => (token_id, Side::BUY, price, size),
            PolymarketOrder::Ask { token_id, price, size } => (token_id, Side::SELL, price, size),
        }
    }
}

/// Which way a price that falls between two ticks is moved.
#[derive(Debug, Clone, Copy, PartialEq, Eq, Structural)]
pub enum Rounding {
    Up,
    Down,
}

/// A bid buys and an ask sells; the token, the price and the size are the
/// order's own.
pub proof fn bids_buy_and_asks_sell(order: PolymarketOrder, parts: (U256, Side, F64, F64))
    requires
        call_ensures(PolymarketOrder::into_parts, (order,), parts),
    ensures
        parts.1 == Side::BUY <==> order is Bid,
        parts.1 == Side::SELL <==> order is Ask,
        order matches PolymarketOrder::Bid { token_id, price, size } ==> parts.0 == token_id
            && parts.2 == price && parts.3 == size,
        order matches PolymarketOrder::Ask { token_id, price, size } ==> parts.0 == token_id
            && parts.2 == price && parts.3 == size,
{
}

} // verus!
