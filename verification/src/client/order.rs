//! Orders: what they are worth, what is signed for them and how they are
//! submitted.

use super::api::APIError;
use super::contract::{self, ContractConfig, Order, TypedData};
use super::types::api::{OrderType, Side, SignedOrder as APISignedOrder};
use crate::clock;
use crate::primitives::{self, Address, F64, U256};
use crate::text;
use vstd::arithmetic::power2::{
    lemma2_to64, lemma2_to64_rest, lemma_pow2_strictly_increases, lemma_pow2_unfold, pow2,
};
use vstd::prelude::*;

verus! {

/// To how many decimals prices, sizes and amounts are rounded.
#[derive(Debug, Clone, Copy, PartialEq, Eq, Structural)]
pub struct RoundConfig {
    pub price: u8,
    pub size: u8,
    pub amount: u8,
}

/// An order with its signature, and how it is to be handled.
#[derive(Debug, Clone)]
pub struct SignedOrder {
    pub order: APISignedOrder,
    pub owner: String,
    pub order_type: OrderType,
    pub defer_exec: bool,
}

/// What an order is about: two amounts, or a size and a price.
#[derive(Debug, Clone, Copy)]
pub enum OrderParams {
    Amounts { maker_amount: U256, taker_amount: U256, side: Side },
    Price { size: U256, price: F64, side: Side },
}

/// The bits of the double-precision number nearest to a tenth.
pub const TENTH: u64 = 0x3FB9_9999_9999_999A;

/// The bits of the double-precision number nearest to a hundredth.
pub const HUNDREDTH: u64 = 0x3F84_7AE1_47AE_147B;

/// The bits of the double-precision number nearest to a thousandth.
pub const THOUSANDTH: u64 = 0x3F50_624D_D2F1_A9FC;

/// The bits of the double-precision number nearest to a ten-thousandth.
pub const TEN_THOUSANDTH: u64 = 0x3F1A_36E2_EB1C_432D;

/// How many decimals a tick has. The exchange knows ticks of one to four.
pub open spec fn tick_decimals(tick_size: F64) -> Option<u8> {
    if tick_size.bits == TENTH {
        Some(1)
    } else if tick_size.bits == HUNDREDTH {
        Some(2)
    } else if tick_size.bits == THOUSANDTH {
        Some(3)
    } else if tick_size.bits == TEN_THOUSANDTH {
        Some(4)
    } else {
        None
    }
}

/// Prices have the decimals of the tick, sizes have two, and amounts, which
/// are products of the two, have both together.
pub open spec fn rounding_of(tick_size: F64) -> Option<RoundConfig> {
    match tick_decimals(tick_size) {
        Some(d) => Some(RoundConfig { price: d, size: 2, amount: (d + 2) as u8 }),
        None => None,
    }
}

/// To how many decimals the exchange rounds in a market with this tick; `None`
/// for a tick that it does not know.
pub fn round_config(tick_size: F64) -> (config: Option<RoundConfig>)
    ensures
        config == rounding_of(tick_size),
{
    if tick_size.bits == TENTH {
        Some(RoundConfig { price: 1, size: 2, amount: 3 })
    } else if tick_size.bits == HUNDREDTH {
        Some(RoundConfig { price: 2, size: 2, amount: 4 })
    } else if tick_size.bits == THOUSANDTH {
        Some(RoundConfig { price: 3, size: 2, amount: 5 })
    } else if tick_size.bits == TEN_THOUSANDTH {
        Some(RoundConfig { price: 4, size: 2, amount: 6 })
    } else {
        None
    }
}

/// What an amount is calculated from.
#[derive(Debug, Clone, Copy, PartialEq, Eq, Structural)]
pub enum Basis {
    /// The order's size.
    Size,
    /// The order's size times the rounded price.
    SizeTimesPrice,
    /// The rounded size times the rounded price.
    RoundedSizeTimesPrice,
}

/// Which way an amount is rounded.
#[derive(Debug, Clone, Copy, PartialEq, Eq, Structural)]
pub enum Direction {
    Nearest,
    Up,
    Down,
}

/// How an amount is calculated.
#[derive(Debug, Clone, Copy, PartialEq, Eq, Structural)]
pub struct AmountRule {
    pub basis: Basis,
    pub direction: Direction,
    pub decimals: u8,
}

/// How both amounts of an order are calculated: what the maker gives, and what
/// the maker asks for it.
#[derive(Debug, Clone, Copy, PartialEq, Eq, Structural)]
pub struct AmountPlan {
    pub price_decimals: u8,
    pub maker: AmountRule,
    pub taker: AmountRule,
}

/// How many tokens an order is about.
pub open spec fn token_rule(market_order: bool, side: Side, config: RoundConfig) -> AmountRule {
    AmountRule {
        basis: Basis::Size,
        direction: Direction::Nearest,
        decimals: if market_order && side == Side::BUY {
            config.amount
        } else {
            config.size
        },
    }
}

/// How much collateral an order is about. A market order takes the size as it
/// is. One that buys rounds up to the decimals of sizes; all others round down
/// to those of amounts.
pub open spec fn collateral_rule(
    market_order: bool,
    side: Side,
    config: RoundConfig,
) -> AmountRule {
    AmountRule {
        basis: if market_order {
            Basis::SizeTimesPrice
        } else {
            Basis::RoundedSizeTimesPrice
        },
        direction: if market_order && side == Side::BUY {
            Direction::Up
        } else {
            Direction::Down
        },
        decimals: if market_order && side == Side::BUY {
            config.size
        } else {
            config.amount
        },
    }
}

/// How the amounts of an order are calculated. One that buys gives collateral
/// and asks for tokens, and one that sells does the reverse.
pub open spec fn plan_of(market_order: bool, side: Side, config: RoundConfig) -> AmountPlan {
    let tokens = token_rule(market_order, side, config);
    let collateral = collateral_rule(market_order, side, config);
    match side {
        Side::BUY => AmountPlan {
            price_decimals: config.price,
            maker: collateral,
            taker: tokens,
        },
        Side::SELL => AmountPlan {
            price_decimals: config.price,
            maker: tokens,
            taker: collateral,
        },
    }
}

/// How the amounts of an order with a limit are calculated.
pub fn get_maker_taker_amounts(side: Side, config: RoundConfig) -> (plan: AmountPlan)
    ensures
        plan == plan_of(false, side, config),
        plan.price_decimals == config.price,
{
    let tokens = AmountRule {
        basis: Basis::Size,
        direction: Direction::Nearest,
        decimals: config.size,
    };
    let collateral = AmountRule {
        basis: Basis::RoundedSizeTimesPrice,
        direction: Direction::Down,
        decimals: config.amount,
    };
    match side {
        Side::BUY => AmountPlan {
            price_decimals: config.price,
            maker: collateral,
            taker: tokens,
        },
        Side::SELL => AmountPlan {
            price_decimals: config.price,
            maker: tokens,
            taker: collateral,
        },
    }
}

/// How the amounts of a market order are calculated.
pub fn get_market_order_maker_taker_amounts(side: Side, config: RoundConfig) -> (plan: AmountPlan)
    ensures
        plan == plan_of(true, side, config),
        plan.price_decimals == config.price,
{
    match side {
        Side::BUY => AmountPlan {
            price_decimals: config.price,
            maker: AmountRule {
                basis: Basis::SizeTimesPrice,
                direction: Direction::Up,
                decimals: config.size,
            },
            taker: AmountRule {
                basis: Basis::Size,
                direction: Direction::Nearest,
                decimals: config.amount,
            },
        },
        Side::SELL => AmountPlan {
            price_decimals: config.price,
            maker: AmountRule {
                basis: Basis::Size,
                direction: Direction::Nearest,
                decimals: config.size,
            },
            taker: AmountRule {
                basis: Basis::SizeTimesPrice,
                direction: Direction::Down,
                decimals: config.amount,
            },
        },
    }
}

/// How the amounts of an order are calculated; `None` for a tick that the
/// exchange does not know. An order that is filled whole or dropped is a
/// market order.
pub fn amount_plan(order_type: OrderType, side: Side, tick_size: F64) -> (plan: Option<AmountPlan>)
    ensures
        plan == (match rounding_of(tick_size) {
            Some(config) => Some(plan_of(order_type == OrderType::FOK, side, config)),
            None => None,
        }),
{
    match round_config(tick_size) {
        Some(config) => if order_type == OrderType::FOK {
            Some(get_market_order_maker_taker_amounts(side, config))
        } else {
            Some(get_maker_taker_amounts(side, config))
        },
        None => None,
    }
}

/// Who sells gives what who buys asks for: for orders with a limit, the amounts
/// of the two sides are each other's.
pub proof fn limit_plans_mirror(side: Side, config: RoundConfig)
    ensures
        plan_of(false, side, config).maker == plan_of(false, side.other(), config).taker,
        plan_of(false, side, config).taker == plan_of(false, side.other(), config).maker,
{
}

/// What the maker asks for is never rounded up, but for the tokens of a size,
/// which are rounded to the nearest; and what is calculated from a price is
/// rounded up only in a market order that buys.
pub proof fn asked_amounts_not_rounded_up(market_order: bool, side: Side, config: RoundConfig)
    ensures
        plan_of(market_order, side, config).taker.direction != Direction::Up,
        plan_of(market_order, side, config).maker.direction == Direction::Up <==> market_order
            && side == Side::BUY,
{
}

/// What is wanted of an order, before its amounts are calculated.
#[derive(Debug, Clone, Copy)]
pub struct OrderTicket {
    pub order_type: OrderType,
    pub token_id: U256,
    pub neg_risk: bool,
    pub side: Side,
    pub price: F64,
    pub size: F64,
    /// How the amounts are calculated.
    pub plan: AmountPlan,
}

/// What is wanted of an order for a token; `None` for a tick that the exchange
/// does not know.
pub fn order_ticket(
    order_type: OrderType,
    token_id: U256,
    neg_risk: bool,
    price: F64,
    side: Side,
    size: F64,
    tick_size: F64,
) -> (ticket: Option<OrderTicket>)
    ensures
        ticket == (match rounding_of(tick_size) {
            Some(config) => Some(
                OrderTicket {
                    order_type,
                    token_id,
                    neg_risk,
                    side,
                    price,
                    size,
                    plan: plan_of(order_type == OrderType::FOK, side, config),
                },
            ),
            None => None,
        }),
{
    match amount_plan(order_type, side, tick_size) {
        Some(plan) => Some(OrderTicket { order_type, token_id, neg_risk, side, price, size, plan }),
        None => None,
    }
}

/// An order before it is signed.
#[derive(Debug, Clone, Copy)]
pub struct OrderDraft {
    pub salt: u32,
    pub maker: Address,
    pub token_id: U256,
    pub maker_amount: U256,
    pub taker_amount: U256,
    pub expiration: u64,
    pub side: Side,
}

/// When an order expires that is made at `now`: `offset` seconds later, or
/// never, which is written as zero, where `offset` is zero.
pub fn expiration_of(now: u64, offset: u64) -> (expiration: u64)
    requires
        now + offset <= u64::MAX,
    ensures
        expiration == (if offset > 0 {
            (now + offset) as u64
        } else {
            0
        }),
{
    if offset > 0 {
        now + offset
    } else {
        0
    }
}

/// An order of `maker`, under a salt that is drawn at random. It expires
/// `expiration_offset_seconds` from now, or never, where that is zero. `None`
/// where the time at which it would expire cannot be told.
pub fn draft_order(
    maker: Address,
    token_id: U256,
    side: Side,
    maker_amount: U256,
    taker_amount: U256,
    expiration_offset_seconds: u64,
) -> (draft: Option<OrderDraft>)
    ensures
        expiration_offset_seconds == 0 ==> draft is Some,
        expiration_offset_seconds > 0 ==> exists|now: Option<u64>| #[trigger]
            clock::is_clock_reading(now) && (if now is Some && now->0 + expiration_offset_seconds
                <= u64::MAX {
                draft is Some && draft->0.expiration == now->0 + expiration_offset_seconds
            } else {
                draft is None
            }),
        draft matches Some(d) ==> {
            &&& d.maker == maker
            &&& d.token_id == token_id
            &&& d.side == side
            &&& d.maker_amount == maker_amount
            &&& d.taker_amount == taker_amount
            &&& expiration_offset_seconds == 0 ==> d.expiration == 0
            &&& d.expiration >= expiration_offset_seconds
            &&& clock::is_draw(d.salt)
        },
{
    let expiration: u64 = if expiration_offset_seconds > 0 {
        match clock::get_current_unix_time_secs() {
            Some(now) => if now <= u64::MAX - expiration_offset_seconds {
                expiration_of(now, expiration_offset_seconds)
            } else {
                return None;
            },
            None => return None,
        }
    } else {
        0
    };
    let salt: u32 = clock::draw();
    Some(OrderDraft { salt, maker, token_id, maker_amount, taker_amount, expiration, side })
}

impl OrderDraft {
    /// Whether this is the order as the exchange's contract reads it. The
    /// maker signs for themselves, anyone may take the order, and there is no
    /// nonce and no fee.
    pub open spec fn is_order(&self, order: Order) -> bool {
        &&& order.salt@ == self.salt
        &&& order.maker == self.maker
        &&& order.signer == self.maker
        &&& contract::is_zero(order.taker@)
        &&& order.token_id == self.token_id
        &&& order.maker_amount == self.maker_amount
        &&& order.taker_amount == self.taker_amount
        &&& order.expiration@ == self.expiration
        &&& order.nonce@ == 0
        &&& order.fee_rate_bps@ == 0
        &&& order.side == self.side.number()
        &&& order.signature_type == 0
    }

    /// The order as the exchange's contract reads it.
    pub fn order(&self) -> (order: Order)
        ensures
            self.is_order(order),
            order.maker_amount@ == self.maker_amount@,
            order.taker_amount@ == self.taker_amount@,
            order.token_id@ == self.token_id@,
            order.maker == self.maker,
            order.signer == self.maker,
            order.salt@ == self.salt,
            order.expiration@ == self.expiration,
            order.side == (if self.side == Side::BUY {
                0u8
            } else {
                1
            }),
    {
        Order {
            salt: U256::from_u64(self.salt as u64),
            maker: self.maker,
            signer: self.maker,
            taker: Address::zero(),
            token_id: self.token_id,
            maker_amount: self.maker_amount,
            taker_amount: self.taker_amount,
            expiration: U256::from_u64(self.expiration),
            nonce: U256::from_u64(0),
            fee_rate_bps: U256::from_u64(0),
            side: self.side.as_u8(),
            signature_type: 0,
        }
    }

    /// What the maker signs, for the exchange of a chain. A chain on which
    /// there is none is an error.
    pub fn to_sign(&self, chain_id: u64, neg_risk: bool) -> (data: Result<
        TypedData<Order>,
        APIError,
    >)
        ensures
            match data {
                Ok(data) => {
                    &&& contract::supported_chain(chain_id)
                    &&& self.is_order(data.message)
                    &&& data.message.maker_amount@ == self.maker_amount@
                    &&& data.message.taker_amount@ == self.taker_amount@
                    &&& data.domain.name@ == "Polymarket CTF Exchange"@
                    &&& data.domain.version@ == "1"@
                    &&& data.domain.chain_id == chain_id
                    &&& exists|config: ContractConfig| #[trigger]
                        config.of_chain(chain_id) && data.domain.verifying_contract == Some(
                            config.exchange_for(neg_risk),
                        )
                },
                Err(e) => !contract::supported_chain(chain_id) && e == APIError::InvalidChain(
                    chain_id,
                ),
            },
    {
        match ContractConfig::from_chain_id(chain_id) {
            Some(config) => {
                let exchange = config.get_exchange(neg_risk);
                Ok(contract::order_message(self.order(), chain_id, exchange))
            },
            None => Err(APIError::InvalidChain(chain_id)),
        }
    }

    /// Whether this is the order as it is submitted, with the addresses of the
    /// maker and of nobody as texts, and a signature.
    pub open spec fn is_framed_order(
        &self,
        order: APISignedOrder,
        maker: Seq<char>,
        nobody: Seq<char>,
        signature: Seq<u8>,
    ) -> bool {
        &&& order.salt == self.salt
        &&& order.maker@ == maker
        &&& order.signer@ == maker
        &&& order.taker@ == nobody
        &&& order.token_id@ == text::decimal(self.token_id@)
        &&& order.maker_amount@ == text::decimal(self.maker_amount@)
        &&& order.taker_amount@ == text::decimal(self.taker_amount@)
        &&& order.expiration@ == text::decimal(self.expiration as nat)
        &&& order.nonce@ == text::decimal(0)
        &&& order.fee_rate_bps@ == text::decimal(0)
        &&& order.side@ == self.side.name()
        &&& order.signature_type == 0
        &&& order.signature@ == seq!['0', 'x'] + text::hex(signature)
    }

    /// Whether this is the order as it is submitted, with a signature.
    pub open spec fn is_signed_order(&self, order: APISignedOrder, signature: Seq<u8>) -> bool {
        let maker = primitives::checksummed(self.maker@);
        let nobody = primitives::checksummed(Seq::new(20, |i: int| 0u8));
        &&& self.is_framed_order(order, maker, nobody, signature)
        &&& primitives::is_address_text(maker, self.maker@)
        &&& primitives::is_address_text(nobody, Seq::new(20, |i: int| 0u8))
        &&& text::hex_denoted(maker, 20) == Some(self.maker@)
        &&& text::hex_denoted(nobody, 20) == Some(Seq::new(20, |i: int| 0u8))
    }
}

/// The order as it is submitted, with the addresses of the maker and of nobody
/// as texts, and the maker's signature.
pub fn frame_order(
    draft: &OrderDraft,
    maker: String,
    nobody: String,
    signature: &[u8; 65],
) -> (order: APISignedOrder)
    ensures
        draft.is_framed_order(order, maker@, nobody@, signature@),
        order.maker_amount@ == text::decimal(draft.maker_amount@),
        order.taker_amount@ == text::decimal(draft.taker_amount@),
        order.token_id@ == text::decimal(draft.token_id@),
{
    proof {
        reveal_strlit("0x");
        assert("0x"@ =~= seq!['0', 'x']);
    }
    APISignedOrder {
        salt: draft.salt,
        maker: maker.clone(),
        signer: maker,
        taker: nobody,
        token_id: draft.token_id.to_decimal(),
        maker_amount: draft.maker_amount.to_decimal(),
        taker_amount: draft.taker_amount.to_decimal(),
        expiration: text::decimal_text(draft.expiration),
        nonce: text::decimal_text(0),
        fee_rate_bps: text::decimal_text(0),
        side: draft.side.as_str().to_owned(),
        signature_type: 0,
        signature: text::join2("0x", &primitives::hex_digits(signature)),
    }
}

/// The order as it is submitted, with the maker's signature of what
/// [`OrderDraft::to_sign`] gives.
pub fn create_signed_order(draft: &OrderDraft, signature: &[u8; 65]) -> (order: APISignedOrder)
    ensures
        draft.is_signed_order(order, signature@),
        order.maker_amount@ == text::decimal(draft.maker_amount@),
        order.taker_amount@ == text::decimal(draft.taker_amount@),
        order.token_id@ == text::decimal(draft.token_id@),
        primitives::u256_denoted(order.maker_amount@) == Some(draft.maker_amount@),
        primitives::u256_denoted(order.taker_amount@) == Some(draft.taker_amount@),
        primitives::u256_denoted(order.token_id@) == Some(draft.token_id@),
{
    proof {
        primitives::u256_reads_back(draft.maker_amount);
        primitives::u256_reads_back(draft.taker_amount);
        primitives::u256_reads_back(draft.token_id);
    }
    let maker = draft.maker.to_checksum();
    let nobody = Address::zero().to_checksum();
    frame_order(draft, maker, nobody, signature)
}

/// What is submitted says what was signed: each number and each address of the
/// signed order, and the signature, is read back from the order that is
/// submitted, and both name the same side.
pub proof fn submitted_is_signed(
    draft: OrderDraft,
    order: Order,
    submitted: APISignedOrder,
    signature: Seq<u8>,
)
    requires
        draft.is_order(order),
        draft.is_signed_order(submitted, signature),
    ensures
        submitted.salt == order.salt@,
        primitives::u256_denoted(submitted.token_id@) == Some(order.token_id@),
        primitives::u256_denoted(submitted.maker_amount@) == Some(order.maker_amount@),
        primitives::u256_denoted(submitted.taker_amount@) == Some(order.taker_amount@),
        primitives::u256_denoted(submitted.expiration@) == Some(order.expiration@),
        primitives::u256_denoted(submitted.nonce@) == Some(order.nonce@),
        primitives::u256_denoted(submitted.fee_rate_bps@) == Some(order.fee_rate_bps@),
        text::hex_denoted(submitted.maker@, 20) == Some(order.maker@),
        text::hex_denoted(submitted.signer@, 20) == Some(order.signer@),
        text::hex_denoted(submitted.taker@, 20) == Some(order.taker@),
        submitted.side@ == draft.side.name(),
        order.side == draft.side.number(),
        submitted.signature_type == order.signature_type,
        text::hex_denoted(submitted.signature@, signature.len()) == Some(signature),
{
    primitives::u256_reads_back(order.token_id);
    primitives::u256_reads_back(order.maker_amount);
    primitives::u256_reads_back(order.taker_amount);
    primitives::u256_reads_back(order.expiration);
    primitives::u256_reads_back(order.nonce);
    primitives::u256_reads_back(order.fee_rate_bps);
    assert(order.taker@ =~= Seq::new(20, |i: int| 0u8));
    text::hex_reads_back(signature);
}

/// Whether these are the bits of the double-precision number that is nearest to
/// ten to the power of minus `d`. A positive double is a number `m` of 53 bits
/// times two to the power of minus some `s`; the nearest one is less than half
/// a unit of `m` away.
pub open spec fn nearest_to_power(bits: u64, d: nat) -> bool {
    let m = 0x10_0000_0000_0000 + bits % 0x10_0000_0000_0000;
    let s = 1075 - bits / 0x10_0000_0000_0000;
    let distance = m * text::power_of_ten(d) - pow2(s as nat);
    &&& 0 < bits / 0x10_0000_0000_0000 <= 1075
    &&& -text::power_of_ten(d) < 2 * distance < text::power_of_ten(d)
}

/// Some powers of ten and of two.
proof fn powers()
    ensures
        text::power_of_ten(0) == 1,
        text::power_of_ten(1) == 10,
        text::power_of_ten(2) == 100,
        text::power_of_ten(3) == 1000,
        text::power_of_ten(4) == 10_000,
        text::power_of_ten(5) == 100_000,
        text::power_of_ten(6) == 1_000_000,
        pow2(55) == 0x80_0000_0000_0000,
        pow2(56) == 0x100_0000_0000_0000,
        pow2(57) == 0x200_0000_0000_0000,
        pow2(58) == 0x400_0000_0000_0000,
        pow2(59) == 0x800_0000_0000_0000,
        pow2(60) == 0x1000_0000_0000_0000,
        pow2(61) == 0x2000_0000_0000_0000,
        pow2(62) == 0x4000_0000_0000_0000,
        pow2(63) == 0x8000_0000_0000_0000,
        pow2(65) == 0x2_0000_0000_0000_0000,
        pow2(66) == 0x4_0000_0000_0000_0000,
        pow2(67) == 0x8_0000_0000_0000_0000,
{
    reveal_with_fuel(text::power_of_ten, 7);
    lemma2_to64();
    lemma2_to64_rest();
    lemma_pow2_unfold(65);
    lemma_pow2_unfold(66);
    lemma_pow2_unfold(67);
}

/// The constants are the doubles that they are named after.
proof fn constants_are_nearest()
    ensures
        nearest_to_power(TENTH, 1),
        nearest_to_power(HUNDREDTH, 2),
        nearest_to_power(THOUSANDTH, 3),
        nearest_to_power(TEN_THOUSANDTH, 4),
{
    powers();
    assert(TENTH / 0x10_0000_0000_0000 == 0x3FB);
    assert(TENTH % 0x10_0000_0000_0000 == 0x9_9999_9999_999A);
    assert(HUNDREDTH / 0x10_0000_0000_0000 == 0x3F8);
    assert(HUNDREDTH % 0x10_0000_0000_0000 == 0x4_7AE1_47AE_147B);
    assert(THOUSANDTH / 0x10_0000_0000_0000 == 0x3F5);
    assert(THOUSANDTH % 0x10_0000_0000_0000 == 0x0_624D_D2F1_A9FC);
    assert(TEN_THOUSANDTH / 0x10_0000_0000_0000 == 0x3F1);
    assert(TEN_THOUSANDTH % 0x10_0000_0000_0000 == 0xA_36E2_EB1C_432D);
}

/// Of the doubles, one alone is nearest to ten to the power of minus `d`.
proof fn nearest_is_unique(bits: u64, d: nat)
    requires
        nearest_to_power(bits, d),
        1 <= d <= 4,
    ensures
        d == 1 ==> bits == TENTH,
        d == 2 ==> bits == HUNDREDTH,
        d == 3 ==> bits == THOUSANDTH,
        d == 4 ==> bits == TEN_THOUSANDTH,
{
    powers();
    let m: int = 0x10_0000_0000_0000 + bits % 0x10_0000_0000_0000;
    let s = (1075 - bits / 0x10_0000_0000_0000) as nat;
    assert(0x10_0000_0000_0000 <= m < 0x20_0000_0000_0000);
    assert(bits == (1075 - s) * 0x10_0000_0000_0000 + (m - 0x10_0000_0000_0000));
    let (shift, ten): (nat, int) = if d == 1 {
        (56, 10)
    } else if d == 2 {
        (59, 100)
    } else if d == 3 {
        (62, 1000)
    } else {
        (66, 10_000)
    };
    let power = text::power_of_ten(d) as int;
    let product = m * power;
    if d == 1 {
        assert(product == 10 * m) by (nonlinear_arith)
            requires
                product == m * power,
                power == 10,
        ;
    } else if d == 2 {
        assert(product == 100 * m) by (nonlinear_arith)
            requires
                product == m * power,
                power == 100,
        ;
    } else if d == 3 {
        assert(product == 1000 * m) by (nonlinear_arith)
            requires
                product == m * power,
                power == 1000,
        ;
    } else {
        assert(product == 10_000 * m) by (nonlinear_arith)
            requires
                product == m * power,
                power == 10_000,
        ;
    }
    let distance = product - pow2(s);
    assert(-ten < 2 * distance < ten);
    if s + 1 < shift {
        lemma_pow2_strictly_increases(s, (shift - 1) as nat);
    }
    if s > shift + 1 {
        lemma_pow2_strictly_increases(shift + 1, s);
    }
    assert(s == shift);
}

/// The exchange knows the ticks of a tenth, a hundredth, a thousandth and a
/// ten-thousandth. Prices are rounded to as many decimals as the tick has,
/// sizes to two, and amounts to as many as prices and sizes have together.
pub proof fn known_ticks(tick_size: F64, config: Option<RoundConfig>)
    requires
        call_ensures(round_config, (tick_size,), config),
    ensures
        config is Some <==> exists|d: nat|
            1 <= d <= 4 && #[trigger] nearest_to_power(tick_size.bits, d),
        config matches Some(c) ==> nearest_to_power(tick_size.bits, c.price as nat) && c.size == 2
            && c.amount == c.price + c.size,
{
    constants_are_nearest();
    if let Some(c) = config {
        assert(nearest_to_power(tick_size.bits, c.price as nat));
    }
    assert forall|d: nat| 1 <= d <= 4 && #[trigger] nearest_to_power(tick_size.bits, d) implies
        config is Some by {
        nearest_is_unique(tick_size.bits, d);
    }
}

/// A known tick has one number of decimals.
proof fn decimals_are_unique(bits: u64, d: nat, e: nat)
    requires
        1 <= d <= 4,
        1 <= e <= 4,
        nearest_to_power(bits, d),
        nearest_to_power(bits, e),
    ensures
        d == e,
{
    nearest_is_unique(bits, d);
    nearest_is_unique(bits, e);
}

/// The price of an order is rounded to exactly as many decimals as the tick
/// has, whatever the order's type and side, and for no other ticks is there a
/// way to calculate the amounts.
pub proof fn price_has_the_decimals_of_the_tick(
    order_type: OrderType,
    side: Side,
    tick_size: F64,
    plan: Option<AmountPlan>,
)
    requires
        call_ensures(amount_plan, (order_type, side, tick_size), plan),
    ensures
        plan is Some <==> exists|d: nat|
            1 <= d <= 4 && #[trigger] nearest_to_power(tick_size.bits, d),
        forall|d: nat|
            1 <= d <= 4 && #[trigger] nearest_to_power(tick_size.bits, d) ==> plan is Some
                && plan->0.price_decimals == d,
{
    constants_are_nearest();
    if let Some(p) = plan {
        assert(nearest_to_power(tick_size.bits, p.price_decimals as nat));
    }
    assert forall|d: nat| 1 <= d <= 4 && #[trigger] nearest_to_power(tick_size.bits, d) implies plan
        is Some && plan->0.price_decimals == d by {
        nearest_is_unique(tick_size.bits, d);
        decimals_are_unique(tick_size.bits, d, plan->0.price_decimals as nat);
    }
}

/// The ticks for which amounts can be calculated are those that the exchange
/// knows.
pub(crate) proof fn ticks_with_a_rounding(tick_size: F64)
    ensures
        rounding_of(tick_size) is Some <==> exists|d: nat|
            1 <= d <= 4 && #[trigger] nearest_to_power(tick_size.bits, d),
{
    constants_are_nearest();
    assert forall|d: nat| 1 <= d <= 4 && #[trigger] nearest_to_power(tick_size.bits, d) implies
        rounding_of(tick_size) is Some by {
        nearest_is_unique(tick_size.bits, d);
    }
}

/// Orders with a limit and market orders round prices alike.
pub proof fn prices_are_rounded_alike(
    a: Side,
    b: Side,
    config: RoundConfig,
    limit: AmountPlan,
    market: AmountPlan,
)
    requires
        call_ensures(get_maker_taker_amounts, (a, config), limit),
        call_ensures(get_market_order_maker_taker_amounts, (b, config), market),
    ensures
        limit.price_decimals == config.price,
        market.price_decimals == config.price,
{
}

/// `n` units of ten to the power of minus `from`, as a whole number of units of
/// ten to the power of minus `to`, rounded where it must be.
pub open spec fn rounded(n: nat, from: nat, direction: Direction, to: nat) -> nat {
    if from <= to {
        n * text::power_of_ten((to - from) as nat)
    } else {
        let unit = text::power_of_ten((from - to) as nat);
        match direction {
            Direction::Down => n / unit,
            Direction::Up => (n + unit - 1) as nat / unit,
            Direction::Nearest => (2 * n + unit) / (2 * unit),
        }
    }
}

/// The collateral that the order is about: what it gives where it buys, and
/// what it asks for where it sells.
pub open spec fn collateral_of(plan: AmountPlan, side: Side) -> AmountRule {
    if side == Side::BUY {
        plan.maker
    } else {
        plan.taker
    }
}

/// The tokens that the order is about: what it asks for where it buys, and what
/// it gives where it sells.
pub open spec fn tokens_of(plan: AmountPlan, side: Side) -> AmountRule {
    if side == Side::BUY {
        plan.taker
    } else {
        plan.maker
    }
}

/// What an order for `size` hundredths of a token, at `price` ticks of `d`
/// decimals, is about: exactly so many tokens, at exactly that price, and
/// exactly the product of the two in collateral. A market order that buys
/// offers whole cents alone: the fewest that the product does not exceed.
pub proof fn amounts_are_price_times_size(
    order_type: OrderType,
    side: Side,
    tick_size: F64,
    plan: AmountPlan,
    d: nat,
    price: nat,
    size: nat,
)
    requires
        call_ensures(amount_plan, (order_type, side, tick_size), Some(plan)),
        1 <= d <= 4,
        nearest_to_power(tick_size.bits, d),
    ensures
        ({
            let tokens = tokens_of(plan, side);
            let collateral = collateral_of(plan, side);
            let paid = rounded(
                price * size,
                d + 2,
                collateral.direction,
                collateral.decimals as nat,
            );
            let product = price * size;
            &&& rounded(price, d, Direction::Nearest, plan.price_decimals as nat) == price
            &&& tokens.basis == Basis::Size
            &&& rounded(size, 2, tokens.direction, tokens.decimals as nat) * text::power_of_ten(2)
                == size * text::power_of_ten(tokens.decimals as nat)
            &&& collateral.basis != Basis::Size
            &&& order_type == OrderType::FOK && side == Side::BUY ==> {
                &&& collateral.decimals == 2
                &&& paid * text::power_of_ten(d) >= product
                &&& (paid - 1) * text::power_of_ten(d) < product
            }
            &&& !(order_type == OrderType::FOK && side == Side::BUY) ==> paid
                * text::power_of_ten(d + 2) == product * text::power_of_ten(
                collateral.decimals as nat,
            )
        }),
{
    powers();
    price_has_the_decimals_of_the_tick(order_type, side, tick_size, Some(plan));
    let collateral = collateral_of(plan, side);
    let product = price * size;
    assert(tokens_of(plan, side).decimals == 2 || tokens_of(plan, side).decimals == d + 2);
    assert(d == 1 || d == 2 || d == 3 || d == 4);
    if order_type == OrderType::FOK && side == Side::BUY {
        let unit = text::power_of_ten(d) as int;
        assert(rounded(size, 2, Direction::Nearest, d + 2) == size * unit);
        assert(size * unit * 100 == size * (100 * unit)) by (nonlinear_arith);
        assert(text::power_of_ten(d + 2) == 100 * unit);
        let n = product + unit - 1;
        let paid = n / unit;
        assert(unit == 10 || unit == 100 || unit == 1000 || unit == 10_000);
        assert(paid * unit <= n < (paid + 1) * unit) by {
            vstd::arithmetic::div_mod::lemma_fundamental_div_mod(n, unit);
            assert(paid * unit == unit * paid) by (nonlinear_arith);
            assert((paid + 1) * unit == unit * paid + unit) by (nonlinear_arith);
        }
        assert((paid - 1) * unit == paid * unit - unit) by (nonlinear_arith);
        assert((paid + 1) * unit == paid * unit + unit) by (nonlinear_arith);
    } else {
        assert(size * 1 * 100 == size * 100);
        assert(product * 1 == product);
    }
    assert(price * 1 == price);
}

/// What becomes of a size with more decimals than two. Orders with a limit
/// round it to the nearest hundredth first and multiply then; market orders
/// multiply it as it is. Tokens are rounded to the nearest. The product is
/// rounded down, except where a market order buys: there it is rounded up, so
/// that enough is offered.
pub proof fn how_amounts_are_rounded(
    order_type: OrderType,
    side: Side,
    tick_size: F64,
    plan: AmountPlan,
)
    requires
        call_ensures(amount_plan, (order_type, side, tick_size), Some(plan)),
    ensures
        ({
            let tokens = tokens_of(plan, side);
            let collateral = collateral_of(plan, side);
            let buys_now = order_type == OrderType::FOK && side == Side::BUY;
            &&& tokens.basis == Basis::Size
            &&& tokens.direction == Direction::Nearest
            &&& collateral.basis == Basis::RoundedSizeTimesPrice <==> order_type != OrderType::FOK
            &&& collateral.basis == Basis::SizeTimesPrice <==> order_type == OrderType::FOK
            &&& collateral.direction == Direction::Up <==> buys_now
            &&& collateral.direction == Direction::Down <==> !buys_now
            &&& tokens.decimals == 2 <==> !buys_now
            &&& collateral.decimals == 2 <==> buys_now
            &&& tokens.decimals + collateral.decimals == plan.price_decimals + 4
        }),
{
}

/// An order's ticket wants what was asked for, and has its amounts calculated
/// as for any order of that type, side and tick.
pub proof fn ticket_wants_what_was_asked(
    order_type: OrderType,
    token_id: U256,
    neg_risk: bool,
    price: F64,
    side: Side,
    size: F64,
    tick_size: F64,
    ticket: Option<OrderTicket>,
    plan: Option<AmountPlan>,
)
    requires
        call_ensures(
            order_ticket,
            (order_type, token_id, neg_risk, price, side, size, tick_size),
            ticket,
        ),
        call_ensures(amount_plan, (order_type, side, tick_size), plan),
    ensures
        ticket is Some <==> plan is Some,
        ticket matches Some(t) ==> {
            &&& t.order_type == order_type
            &&& t.token_id@ == token_id@
            &&& t.neg_risk == neg_risk
            &&& t.price == price
            &&& t.side == side
            &&& t.size == size
            &&& plan == Some(t.plan)
            &&& nearest_to_power(tick_size.bits, t.plan.price_decimals as nat)
        },
{
    constants_are_nearest();
}

/// The order that is signed says what was drafted, whatever the side: the
/// amounts, the token, the maker, the salt and the time at which it expires.
/// The maker signs, anyone may take it, and there is no nonce and no fee.
pub proof fn signed_order_says_what_was_drafted(draft: OrderDraft, order: Order)
    requires
        call_ensures(OrderDraft::order, (&draft,), order),
    ensures
        order.maker_amount@ == draft.maker_amount@,
        order.taker_amount@ == draft.taker_amount@,
        order.token_id@ == draft.token_id@,
        order.maker@ == draft.maker@,
        order.signer@ == draft.maker@,
        order.taker@ == Seq::new(20, |i: int| 0u8),
        order.salt@ == draft.salt,
        order.expiration@ == draft.expiration,
        order.nonce@ == 0,
        order.fee_rate_bps@ == 0,
        order.side == 0 <==> draft.side == Side::BUY,
        order.side == 1 <==> draft.side == Side::SELL,
        order.signature_type == 0,
{
    assert(order.taker@ =~= Seq::new(20, |i: int| 0u8));
}

/// What the maker signs is the order, for the exchange of the chain and of the
/// kind of market; there is something to sign on Polygon and on Amoy alone.
pub proof fn order_is_signed_for_its_exchange(
    draft: OrderDraft,
    order: Order,
    chain_id: u64,
    neg_risk: bool,
    data: Result<TypedData<Order>, APIError>,
)
    requires
        call_ensures(OrderDraft::order, (&draft,), order),
        call_ensures(OrderDraft::to_sign, (&draft, chain_id, neg_risk), data),
    ensures
        data is Ok <==> chain_id == 137 || chain_id == 80002,
        data matches Err(e) ==> e == APIError::InvalidChain(chain_id),
        data matches Ok(data) ==> {
            &&& data.message == order
            &&& data.domain.name@ == "Polymarket CTF Exchange"@
            &&& data.domain.version@ == "1"@
            &&& data.domain.chain_id == chain_id
            &&& data.domain.verifying_contract matches Some(exchange) && text::hex(exchange@)
                == (if neg_risk {
                "c5d563a36ae78145c45a50134d48a1215220f80a"@
            } else if chain_id == 137 {
                "4bfb41d5b3570defd03c39a9a4d8de6bd8b8982e"@
            } else {
                "dfe02eb6733538f8ea35d585af8de5958ad99e40"@
            })
        },
{
    if let Ok(data) = data {
        let signed = data.message;
        primitives::u256_value_determines(signed.salt, order.salt);
        primitives::u256_value_determines(signed.expiration, order.expiration);
        primitives::u256_value_determines(signed.nonce, order.nonce);
        primitives::u256_value_determines(signed.fee_rate_bps, order.fee_rate_bps);
        assert(signed.taker@ =~= order.taker@);
        primitives::address_bytes_determine(signed.taker, order.taker);
    }
}

/// The order that is submitted says what was drafted, whatever the side: the
/// numbers and the maker are read back from it, and it carries the signature.
pub proof fn submitted_order_says_what_was_drafted(
    draft: OrderDraft,
    signature: [u8; 65],
    order: APISignedOrder,
)
    requires
        call_ensures(create_signed_order, (&draft, &signature), order),
    ensures
        primitives::u256_denoted(order.maker_amount@) == Some(draft.maker_amount@),
        primitives::u256_denoted(order.taker_amount@) == Some(draft.taker_amount@),
        primitives::u256_denoted(order.token_id@) == Some(draft.token_id@),
        primitives::u256_denoted(order.expiration@) == Some(draft.expiration as nat),
        primitives::u256_denoted(order.nonce@) == Some(0nat),
        primitives::u256_denoted(order.fee_rate_bps@) == Some(0nat),
        order.maker_amount@ == text::decimal(draft.maker_amount@),
        order.taker_amount@ == text::decimal(draft.taker_amount@),
        order.token_id@ == text::decimal(draft.token_id@),
        text::hex_denoted(order.maker@, 20) == Some(draft.maker@),
        text::hex_denoted(order.signer@, 20) == Some(draft.maker@),
        text::hex_denoted(order.taker@, 20) == Some(Seq::new(20, |i: int| 0u8)),
        order.salt == draft.salt,
        order.side@ == "BUY"@ <==> draft.side == Side::BUY,
        order.side@ == "SELL"@ <==> draft.side == Side::SELL,
        order.signature_type == 0,
        order.signature@ == seq!['0', 'x'] + text::hex(signature@),
        text::hex_denoted(order.signature@, 65) == Some(signature@),
{
    primitives::u256_reads_back(draft.maker_amount);
    primitives::u256_reads_back(draft.taker_amount);
    primitives::u256_reads_back(draft.token_id);
    number_reads_back(draft.expiration);
    number_reads_back(0);
    text::hex_reads_back(signature@);
    reveal_strlit("BUY");
    reveal_strlit("SELL");
    assert("BUY"@.len() == 3 && "SELL"@.len() == 4);
}

/// A `u64` is read back from its decimal notation as a 256-bit number.
proof fn number_reads_back(n: u64)
    ensures
        primitives::u256_denoted(text::decimal(n as nat)) == Some(n as nat),
{
    text::decimal_denotes(n as nat, true);
    let s = text::decimal(n as nat);
    if s.len() >= 2 {
        assert('0' <= s[1] <= '9');
    }
}

/// The texts of addresses, and nothing else, are taken over into the order that
/// is submitted; the numbers are those of the draft.
pub proof fn framed_order_says_what_was_drafted(
    draft: OrderDraft,
    maker: String,
    nobody: String,
    signature: [u8; 65],
    order: APISignedOrder,
)
    requires
        call_ensures(frame_order, (&draft, maker, nobody, &signature), order),
    ensures
        order.maker@ == maker@,
        order.signer@ == maker@,
        order.taker@ == nobody@,
        order.maker_amount@ == text::decimal(draft.maker_amount@),
        order.taker_amount@ == text::decimal(draft.taker_amount@),
        order.token_id@ == text::decimal(draft.token_id@),
        order.expiration@ == text::decimal(draft.expiration as nat),
        order.nonce@ == text::decimal(0),
        order.fee_rate_bps@ == text::decimal(0),
        order.salt == draft.salt,
        order.side@ == (if draft.side == Side::BUY {
            "BUY"@
        } else {
            "SELL"@
        }),
        order.signature_type == 0,
        order.signature@ == seq!['0', 'x'] + text::hex(signature@),
{
}

/// An order is drafted with what it was asked to be about. One without an offset
/// never expires; any other expires that many seconds after a reading of the
/// clock.
pub proof fn drafts_say_what_was_asked(
    maker: Address,
    token_id: U256,
    side: Side,
    maker_amount: U256,
    taker_amount: U256,
    offset: u64,
    draft: Option<OrderDraft>,
)
    requires
        call_ensures(
            draft_order,
            (maker, token_id, side, maker_amount, taker_amount, offset),
            draft,
        ),
    ensures
        offset == 0 ==> draft is Some && draft->0.expiration == 0,
        draft matches Some(d) ==> {
            &&& d.maker@ == maker@
            &&& d.token_id@ == token_id@
            &&& d.side == side
            &&& d.maker_amount@ == maker_amount@
            &&& d.taker_amount@ == taker_amount@
            &&& offset > 0 ==> exists|now: u64| #[trigger]
                clock::is_clock_reading(Some(now)) && d.expiration == now + offset
        },
{
    if offset > 0 && draft is Some {
        let now = choose|now: Option<u64>| #[trigger]
            clock::is_clock_reading(now) && (if now is Some && now->0 + offset <= u64::MAX {
                draft is Some && draft->0.expiration == now->0 + offset
            } else {
                draft is None
            });
        assert(clock::is_clock_reading(Some(now->0)));
    }
}

/// An order with an offset expires later than it is made, by the offset; one
/// without never does.
pub proof fn orders_expire_after_their_offset(now: u64, offset: u64, expiration: u64)
    requires
        now + offset <= u64::MAX,
        call_ensures(expiration_of, (now, offset), expiration),
    ensures
        offset > 0 ==> expiration - now == offset,
        offset == 0 ==> expiration == 0,
{
}

} // verus!
