//! Markets.

use crate::clock;
use crate::primitives::{self, B256, F64, Instant, U256};
use crate::text;
use vstd::prelude::*;

pub mod api;
pub mod deser_hacks;

pub use api::BookResponse as Book;
pub use api::{OrderType, Side};

verus! {

/// Which of a market's two tokens is meant.
#[derive(Debug, Clone, Copy, PartialEq, Eq, Structural)]
pub enum TokenIndex {
    Zero,
    One,
}

/// The metadata of a market.
#[derive(Debug, Clone)]
pub struct Market {
    pub market_id: u64,
    pub question: String,
    pub condition_id: B256,
    pub clob_token_ids: [U256; 2],
    pub start_date: Instant,
    pub end_date: Option<Instant>,
    /// Half the spread, in dollars.
    pub rewards_max_spread: F64,
    pub rewards_min_size: F64,
    pub reward_usdc: Option<u64>,
    pub tick_size: F64,
    pub order_min_size: u64,
    pub neg_risk: bool,
}

/// What is wrong with the metadata that the exchange has sent.
#[derive(Debug, Clone, Copy, PartialEq, Eq, Structural)]
pub enum MarketError {
    /// The market's identifier is no number.
    MarketId,
    /// The condition's identifier is not made of thirty-two bytes.
    ConditionId,
    /// The identifier of a token is no number.
    ClobTokenId,
    /// There are not exactly two tokens.
    ClobTokenCount,
    /// The start date is no date.
    StartDate,
    /// The end date is no date.
    EndDate,
}

/// The first defect of the metadata, in the order in which it is read, where
/// the dates in it name these points in time.
pub open spec fn defect_with_dates(
    response: api::MarketResponse,
    start_date: Option<Instant>,
    end_date: Option<Instant>,
) -> Option<MarketError> {
    if text::u64_denoted(response.id@) is None {
        Some(MarketError::MarketId)
    } else if text::hex_denoted(response.condition_id@, 32) is None {
        Some(MarketError::ConditionId)
    } else if exists|i: int|
        0 <= i < response.clob_token_ids@.len() && primitives::u256_denoted(
            (#[trigger] response.clob_token_ids@[i])@,
        ) is None {
        Some(MarketError::ClobTokenId)
    } else if response.clob_token_ids@.len() != 2 {
        Some(MarketError::ClobTokenCount)
    } else if start_date is None {
        Some(MarketError::StartDate)
    } else if response.end_date is Some && end_date is None {
        Some(MarketError::EndDate)
    } else {
        None
    }
}

/// The point in time that a date names, if there is a date.
pub open spec fn date_denoted(date: Option<String>) -> Option<Instant> {
    match date {
        Some(date) => clock::instant_denoted(date@),
        None => None,
    }
}

/// The first defect of the metadata, in the order in which it is read.
pub open spec fn market_defect(response: api::MarketResponse) -> Option<MarketError> {
    defect_with_dates(
        response,
        clock::instant_denoted(response.start_date@),
        date_denoted(response.end_date),
    )
}

impl Market {
    /// Whether this is the market that the metadata describes, where the dates
    /// in it name these points in time.
    pub open spec fn describes_with_dates(
        &self,
        response: api::MarketResponse,
        start_date: Option<Instant>,
        end_date: Option<Instant>,
    ) -> bool {
        &&& text::u64_denoted(response.id@) == Some(self.market_id)
        &&& self.question == response.question
        &&& text::hex_denoted(response.condition_id@, 32) == Some(self.condition_id@)
        &&& primitives::u256_denoted(response.clob_token_ids@[0]@) == Some(
            self.clob_token_ids[0]@,
        )
        &&& primitives::u256_denoted(response.clob_token_ids@[1]@) == Some(
            self.clob_token_ids[1]@,
        )
        &&& Some(self.start_date) == start_date
        &&& self.end_date == (if response.end_date is Some {
            end_date
        } else {
            None
        })
        &&& self.rewards_max_spread == response.rewards_max_spread
        &&& self.rewards_min_size == response.rewards_min_size
        &&& self.reward_usdc == (match response.clob_rewards {
            Some(rewards) => if rewards@.len() > 0 {
                Some(rewards@[0].rewards_daily_rate)
            } else {
                None
            },
            None => None,
        })
        &&& self.tick_size == response.order_price_min_tick_size
        &&& self.order_min_size == response.order_min_size
        &&& self.neg_risk == response.neg_risk
    }

    /// Whether this is the market that the metadata describes.
    pub open spec fn describes(&self, response: api::MarketResponse) -> bool {
        self.describes_with_dates(
            response,
            clock::instant_denoted(response.start_date@),
            date_denoted(response.end_date),
        )
    }

    /// The market that the metadata describes, or the first defect of the
    /// metadata.
    pub fn from_response(response: api::MarketResponse) -> (market: Result<Market, MarketError>)
        ensures
            match market {
                Ok(market) => {
                    &&& market_defect(response) is None
                    &&& market.describes(response)
                    &&& market.question == response.question
                    &&& market.rewards_max_spread == response.rewards_max_spread
                    &&& market.rewards_min_size == response.rewards_min_size
                    &&& market.tick_size == response.order_price_min_tick_size
                    &&& market.order_min_size == response.order_min_size
                    &&& market.neg_risk == response.neg_risk
                },
                Err(e) => market_defect(response) == Some(e),
            },
    {
        let start_date = clock::instant_of(&response.start_date);
        let end_date = match &response.end_date {
            Some(date) => clock::instant_of(date),
            None => None,
        };
        Self::with_dates(response, start_date, end_date)
    }

    /// The market that the metadata describes, where the dates in it name these
    /// points in time, or the first defect of the metadata.
    pub fn with_dates(
        response: api::MarketResponse,
        start_date: Option<Instant>,
        end_date: Option<Instant>,
    ) -> (market: Result<Market, MarketError>)
        ensures
            match market {
                Ok(market) => {
                    &&& defect_with_dates(response, start_date, end_date) is None
                    &&& market.describes_with_dates(response, start_date, end_date)
                    &&& market.question == response.question
                    &&& market.rewards_max_spread == response.rewards_max_spread
                    &&& market.rewards_min_size == response.rewards_min_size
                    &&& market.tick_size == response.order_price_min_tick_size
                    &&& market.order_min_size == response.order_min_size
                    &&& market.neg_risk == response.neg_risk
                },
                Err(e) => defect_with_dates(response, start_date, end_date) == Some(e),
            },
    {
        let market_id: u64 = match text::u64_of_text(&response.id) {
            Ok(id) => id,
            Err(_) => return Err(MarketError::MarketId),
        };
        let condition_id = match B256::from_text(&response.condition_id) {
            Ok(id) => id,
            Err(_) => return Err(MarketError::ConditionId),
        };
        let ids = &response.clob_token_ids;
        let mut tokens: Vec<U256> = Vec::new();
        let mut i: usize = 0;
        while i < ids.len()
            invariant
                i <= ids@.len(),
                tokens@.len() == i,
                *ids == response.clob_token_ids,
                text::u64_denoted(response.id@) is Some,
                text::hex_denoted(response.condition_id@, 32) is Some,
                forall|j: int|
                    0 <= j < i ==> primitives::u256_denoted((#[trigger] ids@[j])@) == Some(
                        tokens@[j]@,
                    ),
            decreases ids@.len() - i,
        {
            match U256::from_text(&ids[i]) {
                Some(token) => tokens.push(token),
                None => {
                    assert(primitives::u256_denoted(response.clob_token_ids@[i as int]@) is None);
                    return Err(MarketError::ClobTokenId);
                },
            }
            i += 1;
        }
        if tokens.len() != 2 {
            return Err(MarketError::ClobTokenCount);
        }
        let clob_token_ids = [tokens[0], tokens[1]];
        let start_date = match start_date {
            Some(at) => at,
            None => return Err(MarketError::StartDate),
        };
        let end_date = match (&response.end_date, end_date) {
            (Some(_), None) => return Err(MarketError::EndDate),
            (Some(_), at) => at,
            (None, _) => None,
        };
        let reward_usdc: Option<u64> = match &response.clob_rewards {
            Some(rewards) => if rewards.len() > 0 {
                Some(rewards[0].rewards_daily_rate)
            } else {
                None
            },
            None => None,
        };
        Ok(
            Market {
                market_id,
                question: response.question,
                condition_id,
                clob_token_ids,
                start_date,
                end_date,
                rewards_max_spread: response.rewards_max_spread,
                rewards_min_size: response.rewards_min_size,
                reward_usdc,
                tick_size: response.order_price_min_tick_size,
                order_min_size: response.order_min_size,
                neg_risk: response.neg_risk,
            },
        )
    }

    /// The token at an index.
    pub open spec fn token_at(&self, index: TokenIndex) -> U256 {
        match index {
            TokenIndex::Zero => self.clob_token_ids[0],
            TokenIndex::One => self.clob_token_ids[1],
        }
    }

    /// The index of a token; the first one, should both be the same.
    pub open spec fn index_of(&self, token_id: U256) -> Option<TokenIndex> {
        if self.clob_token_ids[0] == token_id {
            Some(TokenIndex::Zero)
        } else if self.clob_token_ids[1] == token_id {
            Some(TokenIndex::One)
        } else {
            None
        }
    }

    /// The token at an index.
    pub fn token_id(&self, token_id: TokenIndex) -> (id: U256)
        ensures
            id == self.token_at(token_id),
    {
        match token_id {
            TokenIndex::Zero => self.clob_token_ids[0],
            TokenIndex::One => self.clob_token_ids[1],
        }
    }

    /// The index of a token; the first one, should both be the same.
    pub fn token_index(&self, token_id: U256) -> (index: Option<TokenIndex>)
        ensures
            index == self.index_of(token_id),
    {
        if self.clob_token_ids[0] == token_id {
            Some(TokenIndex::Zero)
        } else if self.clob_token_ids[1] == token_id {
            Some(TokenIndex::One)
        } else {
            None
        }
    }
}

/// A token that has an index is the token at that index.
pub proof fn token_of_its_index(market: Market, token_id: U256)
    ensures
        market.index_of(token_id) matches Some(index) ==> market.token_at(index) == token_id,
        market.index_of(token_id) is None <==> forall|index: TokenIndex|
            market.token_at(index) != token_id,
{
    if market.index_of(token_id) is None {
    } else {
        assert(market.token_at(market.index_of(token_id)->0) == token_id);
    }
    assert(market.token_at(TokenIndex::Zero) == market.clob_token_ids[0]);
    assert(market.token_at(TokenIndex::One) == market.clob_token_ids[1]);
}

/// Where a market's tokens differ, the token at an index has that index.
pub proof fn index_of_its_token(market: Market, index: TokenIndex)
    requires
        market.clob_token_ids[0] != market.clob_token_ids[1],
    ensures
        market.index_of(market.token_at(index)) == Some(index),
{
}

/// What a market is read from metadata to: each field is carried over as it is,
/// or is what the text in the metadata denotes. The tokens keep their order,
/// and the reward is that of the first entry.
pub proof fn market_carries_its_metadata(
    response: api::MarketResponse,
    start_date: Option<Instant>,
    end_date: Option<Instant>,
    market: Market,
)
    requires
        call_ensures(Market::with_dates, (response, start_date, end_date), Ok(market)),
    ensures
        market.neg_risk == response.neg_risk,
        market.question@ == response.question@,
        market.rewards_max_spread.bits == response.rewards_max_spread.bits,
        market.rewards_min_size.bits == response.rewards_min_size.bits,
        market.tick_size.bits == response.order_price_min_tick_size.bits,
        market.order_min_size == response.order_min_size,
        text::u64_denoted(response.id@) == Some(market.market_id),
        text::hex_denoted(response.condition_id@, 32) == Some(market.condition_id@),
        response.clob_token_ids@.len() == 2,
        forall|i: int|
            0 <= i < 2 ==> primitives::u256_denoted((#[trigger] response.clob_token_ids@[i])@)
                == Some(market.clob_token_ids[i]@),
        start_date == Some(market.start_date),
        response.end_date is Some ==> market.end_date is Some && market.end_date == end_date,
        response.end_date is None ==> market.end_date is None,
        market.reward_usdc is Some <==> response.clob_rewards is Some
            && response.clob_rewards->0@.len() > 0,
        market.reward_usdc matches Some(rate) ==> rate
            == response.clob_rewards->0@[0].rewards_daily_rate,
{
}

/// A market that is read from metadata is the one that is read from it with the
/// points in time that its dates name, and so carries all of the metadata too.
pub proof fn dates_are_read_from_metadata(
    response: api::MarketResponse,
    read: Result<Market, MarketError>,
    dated: Result<Market, MarketError>,
)
    requires
        call_ensures(Market::from_response, (response,), read),
        call_ensures(
            Market::with_dates,
            (
                response,
                clock::instant_denoted(response.start_date@),
                match response.end_date {
                    Some(date) => clock::instant_denoted(date@),
                    None => None,
                },
            ),
            dated,
        ),
    ensures
        read is Ok <==> dated is Ok,
        read matches Err(e) ==> dated == Err::<Market, MarketError>(e),
        read matches Ok(m) ==> {
            &&& m.neg_risk == response.neg_risk
            &&& m.market_id == dated->Ok_0.market_id
            &&& m.question == dated->Ok_0.question
            &&& m.condition_id@ == dated->Ok_0.condition_id@
            &&& m.clob_token_ids[0]@ == dated->Ok_0.clob_token_ids[0]@
            &&& m.clob_token_ids[1]@ == dated->Ok_0.clob_token_ids[1]@
            &&& m.start_date == dated->Ok_0.start_date
            &&& m.end_date == dated->Ok_0.end_date
            &&& m.rewards_max_spread == dated->Ok_0.rewards_max_spread
            &&& m.rewards_min_size == dated->Ok_0.rewards_min_size
            &&& m.reward_usdc == dated->Ok_0.reward_usdc
            &&& m.tick_size == dated->Ok_0.tick_size
            &&& m.order_min_size == dated->Ok_0.order_min_size
            &&& m.neg_risk == dated->Ok_0.neg_risk
        },
{
}

/// Metadata is refused for a defect that it has, and for no other reason.
pub proof fn refused_for_its_defect(
    response: api::MarketResponse,
    start_date: Option<Instant>,
    end_date: Option<Instant>,
    market: Result<Market, MarketError>,
)
    requires
        call_ensures(Market::with_dates, (response, start_date, end_date), market),
    ensures
        ({
            let ids = response.clob_token_ids@;
            let id_fails = text::u64_denoted(response.id@) is None;
            let condition_fails = text::hex_denoted(response.condition_id@, 32) is None;
            let token_fails = exists|i: int|
                0 <= i < ids.len() && primitives::u256_denoted((#[trigger] ids[i])@) is None;
            let count_fails = ids.len() != 2;
            let end_fails = response.end_date is Some && end_date is None;
            &&& market is Ok <==> !id_fails && !condition_fails && !token_fails && !count_fails
                && start_date is Some && !end_fails
            &&& market matches Err(e) ==> match e {
                MarketError::MarketId => id_fails,
                MarketError::ConditionId => condition_fails && !id_fails,
                MarketError::ClobTokenId => token_fails && !id_fails && !condition_fails,
                MarketError::ClobTokenCount => count_fails && !id_fails && !condition_fails
                    && !token_fails,
                MarketError::StartDate => start_date is None && !id_fails && !condition_fails
                    && !token_fails && !count_fails,
                MarketError::EndDate => end_fails && !id_fails && !condition_fails && !token_fails
                    && !count_fails && start_date is Some,
            }
        }),
{
}

/// The first token of a market stands at the index zero and the second one at
/// the index one.
pub proof fn tokens_stand_at_their_indices(
    market: Market,
    index: TokenIndex,
    token: U256,
    found: Option<TokenIndex>,
)
    requires
        call_ensures(Market::token_id, (&market, index), token),
        call_ensures(Market::token_index, (&market, token), found),
    ensures
        token == market.clob_token_ids[if index == TokenIndex::Zero {
            0int
        } else {
            1
        }],
        found is Some,
        market.clob_token_ids[0] != market.clob_token_ids[1] ==> found == Some(index),
        market.clob_token_ids[0] == market.clob_token_ids[1] ==> found == Some(TokenIndex::Zero),
{
}

/// A token that is none of a market's has no index.
pub proof fn other_tokens_have_no_index(market: Market, token: U256, found: Option<TokenIndex>)
    requires
        call_ensures(Market::token_index, (&market, token), found),
    ensures
        found is None <==> token != market.clob_token_ids[0] && token != market.clob_token_ids[1],
        found == Some(TokenIndex::Zero) <==> token == market.clob_token_ids[0],
{
}

} // verus!
