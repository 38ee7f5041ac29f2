//! The exchange's messages, as plain values.

use crate::json;
use crate::primitives::{B256, F64, U256};
use crate::text;
use vstd::prelude::*;
use vstd::string::StringExecFns;

verus! {

/// The metadata of a market, as the exchange writes it.
#[derive(Debug, Clone)]
pub struct MarketResponse {
    pub id: String,
    pub closed: bool,
    pub condition_id: String,
    pub neg_risk: bool,
    pub clob_token_ids: Vec<String>,
    pub question: String,
    pub end_date: Option<String>,
    pub start_date: String,
    pub liquidity_clob: F64,
    pub volume_clob: F64,
    pub rewards_max_spread: F64,
    pub rewards_min_size: F64,
    pub clob_rewards: Option<Vec<ClobRewards>>,
    pub order_price_min_tick_size: F64,
    pub order_min_size: u64,
}

/// What a market pays out to those who provide liquidity.
#[derive(Debug, Clone, Copy, PartialEq, Eq, Structural)]
pub struct ClobRewards {
    pub rewards_daily_rate: u64,
}

/// A price level of an order book.
#[derive(Debug, Clone, Copy, PartialEq, Eq, Structural)]
pub struct BookEntry {
    pub price: F64,
    pub size: F64,
}

/// An order book at some time.
#[derive(Debug, Clone)]
pub struct BookResponse {
    /// The time of the book in milliseconds since the start of 1970 in UTC.
    pub timestamp: u64,
    pub bids: Vec<BookEntry>,
    pub asks: Vec<BookEntry>,
}

/// A signed order to be submitted to the exchange.
#[derive(Debug, Clone)]
pub struct SignedOrder {
    /// A random number that prevents replays.
    pub salt: u32,
    /// The address of the order's maker.
    pub maker: String,
    /// The address of the order's signer.
    pub signer: String,
    /// The address of the order's taker.
    pub taker: String,
    /// The token that is traded.
    pub token_id: String,
    /// The maker's amount, in millionths.
    pub maker_amount: String,
    /// The taker's amount, in millionths.
    pub taker_amount: String,
    /// When the order expires, in seconds since the start of 1970 in UTC.
    pub expiration: String,
    /// A number that prevents replays.
    pub nonce: String,
    /// The fee in basis points.
    pub fee_rate_bps: String,
    /// The side of the order.
    pub side: String,
    /// How the signature was made.
    pub signature_type: u8,
    /// The signature of the order.
    pub signature: String,
}

/// How long an order stays in the book.
#[derive(Debug, Clone, Copy, PartialEq, Eq, Hash, Structural)]
pub enum OrderType {
    /// Until it is cancelled.
    GTC,
    /// Not at all: it is filled whole or dropped.
    FOK,
    /// Until a date.
    GTD,
}

impl OrderType {
    /// The exchange's name of the order type.
    pub open spec fn name(&self) -> Seq<char> {
        match self {
            OrderType::GTC => "GTC"@,
            OrderType::FOK => "FOK"@,
            OrderType::GTD => "GTD"@,
        }
    }

    /// The exchange's name of the order type.
    pub fn as_str(&self) -> (s: &'static str)
        ensures
            s@ == self.name(),
    {
        match self {
            OrderType::GTC => "GTC",
            OrderType::FOK => "FOK",
            OrderType::GTD => "GTD",
        }
    }
}

/// The order types have different names.
pub proof fn order_type_names_differ(a: OrderType, b: OrderType)
    requires
        a.name() == b.name(),
    ensures
        a == b,
{
    reveal_strlit("GTC");
    reveal_strlit("FOK");
    reveal_strlit("GTD");
    assert("GTC"@[0] == 'G' && "FOK"@[0] == 'F' && "GTD"@[0] == 'G');
    assert("GTC"@[2] == 'C' && "GTD"@[2] == 'D');
}

/// The name of an order type in a JSON string stands between the quotes as it
/// is.
pub proof fn order_type_in_json(order_type: OrderType)
    ensures
        json::json_string(order_type.name()) == order_type.name().push('"'),
{
    reveal_strlit("GTC");
    reveal_strlit("FOK");
    reveal_strlit("GTD");
    json::plain_text_in_json(order_type.name());
}

/// Whether an order buys or sells tokens.
#[derive(Debug, Clone, Copy, PartialEq, Eq, Hash, Structural)]
pub enum Side {
    BUY,
    SELL,
}

impl Side {
    /// The other side.
    pub open spec fn other(&self) -> Side {
        match self {
            Side::BUY => Side::SELL,
            Side::SELL => Side::BUY,
        }
    }

    /// The exchange's name of the side.
    pub open spec fn name(&self) -> Seq<char> {
        match self {
            Side::BUY => "BUY"@,
            Side::SELL => "SELL"@,
        }
    }

    /// The exchange's number of the side.
    pub open spec fn number(&self) -> u8 {
        match self {
            Side::BUY => 0,
            Side::SELL => 1,
        }
    }

    /// The other side.
    pub fn opposite(&self) -> (side: Side)
        ensures
            side == self.other(),
            side != *self,
    {
        match self {
            Side::BUY => Side::SELL,
            Side::SELL => Side::BUY,
        }
    }

    /// The exchange's name of the side.
    pub fn as_str(&self) -> (s: &'static str)
        ensures
            s@ == self.name(),
    {
        match self {
            Side::BUY => "BUY",
            Side::SELL => "SELL",
        }
    }

    /// The exchange's number of the side.
    pub fn as_u8(&self) -> (n: u8)
        ensures
            n == self.number(),
    {
        match self {
            Side::BUY => 0,
            Side::SELL => 1,
        }
    }
}

/// The opposite of the opposite is the side itself.
pub proof fn opposite_twice(side: Side)
    ensures
        side.other().other() == side,
        side.other() != side,
{
}

/// The sides have different names and different numbers.
pub proof fn side_names_differ(a: Side, b: Side)
    requires
        a.name() == b.name() || a.number() == b.number(),
    ensures
        a == b,
{
    reveal_strlit("BUY");
    reveal_strlit("SELL");
    assert("BUY"@.len() == 3 && "SELL"@.len() == 4);
}

/// The name of a side in a JSON string stands between the quotes as it is.
pub proof fn side_in_json(side: Side)
    ensures
        json::json_string(side.name()) == side.name().push('"'),
{
    reveal_strlit("BUY");
    reveal_strlit("SELL");
    json::plain_text_in_json(side.name());
}

/// The book of an asset at some time.
#[derive(Debug, Clone)]
pub struct MarketUpdate {
    pub timestamp: String,
    pub asset_id: U256,
    pub bids: Vec<BookEntry>,
    pub asks: Vec<BookEntry>,
}

/// The price at which an asset was last traded.
#[derive(Debug, Clone)]
pub struct LastTradePrice {
    pub asset_id: U256,
    pub event_type: String,
    pub fee_rate_bps: String,
    pub market: B256,
    pub price: F64,
    pub size: F64,
    pub side: Side,
}

/// The new cumulative size at a price of an asset.
#[derive(Debug, Clone)]
pub struct PriceChange {
    pub asset_id: U256,
    pub price: F64,
    pub size: F64,
    pub side: Side,
    pub hash: String,
    pub best_bid: F64,
    pub best_ask: F64,
}

/// Emitted when an order in the book changes or a new trade is made.
#[derive(Debug, Clone)]
pub struct PriceChangeResponse {
    pub market: B256,
    pub price_changes: Vec<PriceChange>,
    /// The time of the change in milliseconds since the start of 1970 in UTC.
    pub timestamp: u64,
    pub event_type: String,
}

impl PriceChangeResponse {
    /// Whether a change of the asset is among the changes.
    pub open spec fn mentions(&self, asset_id: U256) -> bool {
        exists|i: int|
            0 <= i < self.price_changes@.len() && (#[trigger] self.price_changes@[i]).asset_id
                == asset_id
    }

    /// Whether the change at `i` is the first one of the asset.
    pub open spec fn first_of(&self, asset_id: U256, i: int) -> bool {
        &&& 0 <= i < self.price_changes@.len()
        &&& self.price_changes@[i].asset_id == asset_id
        &&& forall|j: int| 0 <= j < i ==> (#[trigger] self.price_changes@[j]).asset_id != asset_id
    }

    /// The first change of the asset.
    pub fn for_asset(&self, asset_id: U256) -> (change: Option<&PriceChange>)
        ensures
            change is Some <==> self.mentions(asset_id),
            change matches Some(c) ==> exists|i: int| #[trigger]
                self.first_of(asset_id, i) && *c == self.price_changes@[i],
    {
        let mut i: usize = 0;
        while i < self.price_changes.len()
            invariant
                i <= self.price_changes@.len(),
                forall|j: int|
                    0 <= j < i ==> (#[trigger] self.price_changes@[j]).asset_id != asset_id,
            decreases self.price_changes@.len() - i,
        {
            let change = &self.price_changes[i];
            if change.asset_id == asset_id {
                assert(self.first_of(asset_id, i as int));
                return Some(change);
            }
            i += 1;
        }
        None
    }
}

/// How far the settlement of a trade has come.
#[derive(Debug, Clone, Copy, PartialEq, Eq, Structural)]
pub enum OrderStatus {
    MATCHED,
    MINED,
    CONFIRMED,
    RETRYING,
    FAILED,
}

/// A user's trade has been updated.
#[derive(Debug, Clone)]
pub struct TradeStreamItem {
    pub asset_id: U256,
    /// The trade's UUID, as a number.
    pub id: u128,
    pub last_update: String,
    pub maker_orders: Vec<TradeMakerOrder>,
    pub market: B256,
    pub matchtime: Option<String>,
    pub outcome: String,
    pub owner: String,
    pub price: F64,
    pub side: Side,
    pub size: F64,
    pub status: OrderStatus,
    pub taker_order_id: B256,
    pub timestamp: String,
    pub trade_owner: String,
}

/// A maker's order that a trade has affected.
#[derive(Debug, Clone)]
pub struct TradeMakerOrder {
    pub asset_id: U256,
    pub matched_amount: F64,
    pub order_id: B256,
    pub outcome: String,
    pub owner: String,
    pub price: F64,
}

/// Emitted when the tick size of an asset changes.
#[derive(Debug, Clone)]
pub struct TickSizeChange {
    pub event_type: String,
    pub asset_id: U256,
    pub market: B256,
    pub old_tick_size: F64,
    pub new_tick_size: F64,
}

/// The answer to a posted order.
#[derive(Debug, Clone)]
pub struct PostOrderResponse {
    pub success: bool,
    /// What went wrong, if the order was not accepted.
    pub error_msg: Option<String>,
    /// The identifier of the order.
    pub order_id: Option<B256>,
    /// The marketable orders that have already been filled.
    pub order_hash: Vec<String>,
}

/// The texts of a list of strings, each as it is shown for debugging.
pub open spec fn debug_items(v: Seq<String>) -> Seq<Seq<char>> {
    v.map_values(|s: String| text::debug_written(s@))
}

impl PostOrderResponse {
    /// The answer as it is shown for debugging.
    pub open spec fn shown(&self) -> Seq<char> {
        "PostOrderResponse { success: "@ + (if self.success {
            "true"@
        } else {
            "false"@
        }) + ", error_msg: "@ + text::option_written(
            match self.error_msg {
                Some(e) => Some(text::debug_written(e@)),
                None => None,
            },
        ) + ", order_id: "@ + text::option_written(
            match self.order_id {
                Some(id) => Some(seq!['0', 'x'] + text::hex(id@)),
                None => None,
            },
        ) + ", order_hash: ["@ + text::listed(debug_items(self.order_hash@)) + "] }"@
    }

    /// The answer as it is shown for debugging.
    pub fn show(&self) -> (s: String)
        ensures
            s@ == self.shown(),
    {
        let error_msg = text::option_text(
            match &self.error_msg {
                Some(e) => Some(text::debug_text(e)),
                None => None,
            },
        );
        let order_id = text::option_text(
            match &self.order_id {
                Some(id) => Some(id.to_hex()),
                None => None,
            },
        );
        let mut hashes: Vec<String> = Vec::new();
        let mut i: usize = 0;
        while i < self.order_hash.len()
            invariant
                i <= self.order_hash@.len(),
                hashes@.len() == i,
                forall|j: int|
                    0 <= j < i ==> (#[trigger] hashes@[j])@ == text::debug_written(
                        self.order_hash@[j]@,
                    ),
            decreases self.order_hash@.len() - i,
        {
            hashes.push(text::debug_text(&self.order_hash[i]));
            i += 1;
        }
        assert(text::texts(hashes@) =~= debug_items(self.order_hash@));
        let success = if self.success {
            "true"
        } else {
            "false"
        };
        let mut s = text::join3("PostOrderResponse { success: ", success, ", error_msg: ");
        s.append(&error_msg);
        s.append(", order_id: ");
        s.append(&order_id);
        s.append(", order_hash: [");
        s.append(&text::listed_text(&hashes));
        s.append("] }");
        s
    }
}

/// A span of a price history.
#[derive(Debug, Clone, Copy, PartialEq, Eq, Structural)]
pub enum HistoricalInterval {
    Minute,
    Hour,
    SixHour,
    Day,
    Week,
    Max,
    /// The start and end times, in seconds since the start of 1970 in UTC.
    Custom { start_ts: u64, end_ts: u64 },
}

impl HistoricalInterval {
    /// The query parameters that name the span.
    pub open spec fn query(&self) -> Seq<(Seq<char>, Seq<char>)> {
        match self {
            HistoricalInterval::Minute => seq![("interval"@, "1m"@)],
            HistoricalInterval::Hour => seq![("interval"@, "1h"@)],
            HistoricalInterval::SixHour => seq![("interval"@, "6h"@)],
            HistoricalInterval::Day => seq![("interval"@, "1d"@)],
            HistoricalInterval::Week => seq![("interval"@, "1w"@)],
            HistoricalInterval::Max => seq![("interval"@, "max"@)],
            HistoricalInterval::Custom { start_ts, end_ts } => seq![
                ("startTs"@, text::decimal(*start_ts as nat)),
                ("endTs"@, text::decimal(*end_ts as nat)),
            ],
        }
    }

    /// The query parameters that name the span.
    pub fn as_query_param(&self) -> (params: Vec<(String, String)>)
        ensures
            text::pairs(params@) == self.query(),
    {
        let mut params: Vec<(String, String)> = Vec::new();
        match self {
            HistoricalInterval::Minute => text::push_pair(&mut params, "interval", "1m".to_owned()),
            HistoricalInterval::Hour => text::push_pair(&mut params, "interval", "1h".to_owned()),
            HistoricalInterval::SixHour => text::push_pair(
                &mut params,
                "interval",
                "6h".to_owned(),
            ),
            HistoricalInterval::Day => text::push_pair(&mut params, "interval", "1d".to_owned()),
            HistoricalInterval::Week => text::push_pair(&mut params, "interval", "1w".to_owned()),
            HistoricalInterval::Max => text::push_pair(&mut params, "interval", "max".to_owned()),
            HistoricalInterval::Custom { start_ts, end_ts } => {
                text::push_pair(&mut params, "startTs", text::decimal_text(*start_ts));
                text::push_pair(&mut params, "endTs", text::decimal_text(*end_ts));
            },
        }
        assert(text::pairs(params@) =~= self.query());
        params
    }
}

/// The query parameters tell the spans apart.
pub proof fn intervals_differ(a: HistoricalInterval, b: HistoricalInterval)
    requires
        a.query() == b.query(),
    ensures
        a == b,
{
    reveal_strlit("1m");
    reveal_strlit("1h");
    reveal_strlit("6h");
    reveal_strlit("1d");
    reveal_strlit("1w");
    reveal_strlit("max");
    assert("1m"@[1] == 'm' && "1h"@[1] == 'h' && "1d"@[1] == 'd' && "1w"@[1] == 'w');
    assert("1m"@[0] == '1' && "1h"@[0] == '1' && "1d"@[0] == '1' && "1w"@[0] == '1');
    assert("6h"@[0] == '6' && "max"@[0] == 'm');
    assert(a.query().len() == (if a is Custom { 2nat } else { 1 }));
    assert(b.query().len() == (if b is Custom { 2nat } else { 1 }));
    assert(a.query()[0].1 == b.query()[0].1);
    if a is Custom {
        assert(a.query()[1].1 == b.query()[1].1);
        text::decimal_injective(a->start_ts as nat, b->start_ts as nat);
        text::decimal_injective(a->end_ts as nat, b->end_ts as nat);
    }
}

/// The order types by the names that the exchange gives them.
pub proof fn order_types_by_name(order_type: OrderType, s: &'static str)
    requires
        call_ensures(OrderType::as_str, (&order_type,), s),
    ensures
        order_type == OrderType::GTC ==> s@ == "GTC"@,
        order_type == OrderType::FOK ==> s@ == "FOK"@,
        order_type == OrderType::GTD ==> s@ == "GTD"@,
{
}

/// The sides by the names and the numbers that the exchange gives them: who
/// buys is zero, and who sells is one.
pub proof fn sides_by_name_and_number(side: Side, s: &'static str, n: u8, other: Side)
    requires
        call_ensures(Side::as_str, (&side,), s),
        call_ensures(Side::as_u8, (&side,), n),
        call_ensures(Side::opposite, (&side,), other),
    ensures
        side == Side::BUY ==> s@ == "BUY"@ && n == 0 && other == Side::SELL,
        side == Side::SELL ==> s@ == "SELL"@ && n == 1 && other == Side::BUY,
{
}

/// The change of an asset that is found is the first one that tells of it, and
/// one is found where there is any.
pub proof fn first_change_is_found(
    response: PriceChangeResponse,
    asset_id: U256,
    change: Option<&PriceChange>,
)
    requires
        call_ensures(PriceChangeResponse::for_asset, (&response, asset_id), change),
    ensures
        change is None <==> forall|i: int|
            0 <= i < response.price_changes@.len() ==> (
            #[trigger] response.price_changes@[i]).asset_id != asset_id,
        forall|i: int|
            0 <= i < response.price_changes@.len() && (
            #[trigger] response.price_changes@[i]).asset_id == asset_id && (forall|j: int|
                0 <= j < i ==> (#[trigger] response.price_changes@[j]).asset_id != asset_id)
                ==> change == Some(&response.price_changes@[i]),
{
    assert forall|i: int|
        0 <= i < response.price_changes@.len() && (#[trigger] response.price_changes@[i]).asset_id
            == asset_id && (forall|j: int|
            0 <= j < i ==> (#[trigger] response.price_changes@[j]).asset_id != asset_id) implies
        change == Some(&response.price_changes@[i]) by {
        let k = choose|k: int| #[trigger]
            response.first_of(asset_id, k) && *change->0 == response.price_changes@[k];
        if k < i {
            assert(response.price_changes@[k].asset_id != asset_id);
        }
    }
}

/// The spans by the parameters that name them.
pub proof fn spans_by_parameter(interval: HistoricalInterval, params: Vec<(String, String)>)
    requires
        call_ensures(HistoricalInterval::as_query_param, (&interval,), params),
    ensures
        ({
            let pairs = text::pairs(params@);
            match interval {
                HistoricalInterval::Minute => pairs == seq![("interval"@, "1m"@)],
                HistoricalInterval::Hour => pairs == seq![("interval"@, "1h"@)],
                HistoricalInterval::SixHour => pairs == seq![("interval"@, "6h"@)],
                HistoricalInterval::Day => pairs == seq![("interval"@, "1d"@)],
                HistoricalInterval::Week => pairs == seq![("interval"@, "1w"@)],
                HistoricalInterval::Max => pairs == seq![("interval"@, "max"@)],
                HistoricalInterval::Custom { start_ts, end_ts } => {
                    &&& pairs.len() == 2
                    &&& pairs[0].0 == "startTs"@ && text::u64_denoted(pairs[0].1) == Some(start_ts)
                    &&& pairs[1].0 == "endTs"@ && text::u64_denoted(pairs[1].1) == Some(end_ts)
                },
            }
        }),
{
    if let HistoricalInterval::Custom { start_ts, end_ts } = interval {
        text::u64_reads_back(start_ts);
        text::u64_reads_back(end_ts);
    }
}

/// An answer that is shown for debugging shows all of its fields: whether it
/// succeeded, the error and the identifier, if there are any, and each of the
/// orders that were filled.
pub proof fn answers_show_all_fields(answer: PostOrderResponse, s: String)
    requires
        call_ensures(PostOrderResponse::show, (&answer,), s),
    ensures
        exists|hashes: Seq<Seq<char>>|
            {
                let success = if answer.success {
                    "true"@
                } else {
                    "false"@
                };
                let error = match answer.error_msg {
                    Some(e) => "Some("@ + text::debug_written(e@) + ")"@,
                    None => "None"@,
                };
                let id = match answer.order_id {
                    Some(id) => "Some("@ + (seq!['0', 'x'] + text::hex(id@)) + ")"@,
                    None => "None"@,
                };
                &&& hashes.len() == answer.order_hash@.len()
                &&& forall|i: int|
                    0 <= i < hashes.len() ==> #[trigger] hashes[i] == text::debug_written(
                        answer.order_hash@[i]@,
                    )
                &&& s@ == "PostOrderResponse { success: "@ + success + ", error_msg: "@ + error
                    + ", order_id: "@ + id + ", order_hash: ["@ + #[trigger] text::listed(hashes)
                    + "] }"@
            },
{
    let hashes = debug_items(answer.order_hash@);
    assert(hashes.len() == answer.order_hash@.len());
    assert(s@ == answer.shown());
    assert(text::listed(hashes) == text::listed(debug_items(answer.order_hash@)));
}

} // verus!
