//! The client: markets, orders, channels and contracts together.

use crate::PolymarketOrder;
use crate::primitives::{self, Address, B256, U256};
use crate::text;
use api::{APIError, ClobClient, ErrorDebugRequest, GammaClient};
use contract::{ContractCall, ContractConfig, ContractQuery, Order, TypedData};
use order::{AmountPlan, OrderDraft, OrderTicket};
use types::api::{
    LastTradePrice, MarketResponse, MarketUpdate, OrderType, PriceChangeResponse, TickSizeChange,
    TradeStreamItem,
};
use types::{Market, MarketError, Side};
use vstd::prelude::*;
use ws::{Subscription, WSClientError};

pub mod api;
pub mod contract;
pub mod order;
pub mod types;
pub mod ws;

pub use api::PaginatedStream;
pub use ws::{market_client, user_client};

verus! {

/// What can go wrong.
#[derive(Debug, Clone)]
pub enum PolymarketClientError {
    /// The exchange has no contracts on the chain.
    InvalidChain(u64),
    /// The chain could not be asked.
    RpcError(String),
    /// A transaction could not be sent.
    SendTransactionError(String),
    /// It is not known what became of a transaction.
    WatchTransactionError(String),
    /// The exchange could not be asked.
    ClobClientError(APIError),
    /// A channel failed.
    WSError(WSClientError),
    /// The provider cannot sign for the wallet.
    SignerNotCredentialed,
}

impl PolymarketClientError {
    /// What went wrong, in words.
    pub open spec fn words(&self) -> Seq<char> {
        match self {
            PolymarketClientError::InvalidChain(chain_id) => "Invalid chain id: "@
                + text::decimal(*chain_id as nat),
            PolymarketClientError::RpcError(e) => "Failed to get chain id: "@ + e@,
            PolymarketClientError::SendTransactionError(e) => "Failed to send transaction: "@ + e@,
            PolymarketClientError::WatchTransactionError(e) => "Failed to confirm transaction: "@
                + e@,
            PolymarketClientError::ClobClientError(e) => "API Error: "@ + e.words(),
            PolymarketClientError::WSError(e) => "WS Error: "@ + e.words(),
            PolymarketClientError::SignerNotCredentialed =>
                "Provider should be able to sign on behalf of the signer"@,
        }
    }

    /// What went wrong, in words.
    pub fn to_text(&self) -> (s: String)
        ensures
            s@ == self.words(),
    {
        match self {
            PolymarketClientError::InvalidChain(chain_id) => text::join2(
                "Invalid chain id: ",
                &text::decimal_text(*chain_id),
            ),
            PolymarketClientError::RpcError(e) => text::join2("Failed to get chain id: ", e),
            PolymarketClientError::SendTransactionError(e) => text::join2(
                "Failed to send transaction: ",
                e,
            ),
            PolymarketClientError::WatchTransactionError(e) => text::join2(
                "Failed to confirm transaction: ",
                e,
            ),
            PolymarketClientError::ClobClientError(e) => text::join2("API Error: ", &e.to_text()),
            PolymarketClientError::WSError(e) => text::join2("WS Error: ", &e.to_text()),
            PolymarketClientError::SignerNotCredentialed =>
                "Provider should be able to sign on behalf of the signer".to_owned(),
        }
    }
}

/// A client of the exchange, for the owner of a wallet.
#[derive(Debug, Clone)]
pub struct PolymarketClient {
    pub contract_config: ContractConfig,
    pub gamma_client: GammaClient,
    pub clob_client: ClobClient,
}

impl PolymarketClient {
    /// The parts can make requests.
    pub open spec fn wf(&self) -> bool {
        self.gamma_client.wf() && self.clob_client.wf()
    }

    /// Connecting needs a provider that can sign for the wallet.
    pub fn check_signer(has_signer: bool) -> (checked: Result<(), PolymarketClientError>)
        ensures
            checked == (if has_signer {
                Ok::<(), PolymarketClientError>(())
            } else {
                Err(PolymarketClientError::SignerNotCredentialed)
            }),
    {
        if has_signer {
            Ok(())
        } else {
            Err(PolymarketClientError::SignerNotCredentialed)
        }
    }

    /// Connecting needs a chain on which the exchange has contracts.
    pub fn check_chain(chain_id: u64) -> (config: Result<ContractConfig, PolymarketClientError>)
        ensures
            match config {
                Ok(config) => contract::supported_chain(chain_id) && config.of_chain(chain_id),
                Err(e) => !contract::supported_chain(chain_id) && e
                    == PolymarketClientError::InvalidChain(chain_id),
            },
    {
        match ContractConfig::from_chain_id(chain_id) {
            Some(config) => Ok(config),
            None => Err(PolymarketClientError::InvalidChain(chain_id)),
        }
    }

    /// The client of a wallet's owner, with what the provider says of the
    /// wallet and the chain, and the outcome of connecting to the order book.
    /// The provider's word counts first.
    pub fn connect_with_provider(
        has_signer: bool,
        chain_id: u64,
        clob_client: Result<ClobClient, APIError>,
    ) -> (client: Result<PolymarketClient, PolymarketClientError>)
        ensures
            match client {
                Ok(client) => {
                    &&& has_signer
                    &&& contract::supported_chain(chain_id)
                    &&& client.contract_config.of_chain(chain_id)
                    &&& clob_client == Ok::<ClobClient, APIError>(client.clob_client)
                    &&& client.gamma_client.wf()
                    &&& client.gamma_client.url.host@ == api::GAMMA_HOST@
                    &&& client.gamma_client.url.dir@.len() == 0
                },
                Err(e) => e == (if !has_signer {
                    PolymarketClientError::SignerNotCredentialed
                } else if !contract::supported_chain(chain_id) {
                    PolymarketClientError::InvalidChain(chain_id)
                } else {
                    PolymarketClientError::ClobClientError(clob_client->Err_0)
                }) && (has_signer && contract::supported_chain(chain_id) ==> clob_client is Err),
            },
    {
        if let Err(e) = Self::check_signer(has_signer) {
            return Err(e);
        }
        let contract_config = match Self::check_chain(chain_id) {
            Ok(config) => config,
            Err(e) => return Err(e),
        };
        match clob_client {
            Ok(clob_client) => Ok(
                PolymarketClient { contract_config, gamma_client: GammaClient::new(), clob_client },
            ),
            Err(e) => Err(PolymarketClientError::ClobClientError(e)),
        }
    }

    /// Listens to the prices at which a token is traded.
    pub fn last_trade_price_stream(&self, asset_id: U256) -> (subscription: Subscription)
        ensures
            subscription.channel == ws::Channel::Market(asset_id),
            subscription.event_type@ == "last_trade_price"@,
            subscription.auth is None,
    {
        proof {
            ws::market_messages();
        }
        market_client::<LastTradePrice>(asset_id)
    }

    /// Listens to the order books of a token.
    pub fn market_update_stream(&self, asset_id: U256) -> (subscription: Subscription)
        ensures
            subscription.channel == ws::Channel::Market(asset_id),
            subscription.event_type@ == "book"@,
            subscription.auth is None,
    {
        proof {
            ws::market_messages();
        }
        market_client::<MarketUpdate>(asset_id)
    }

    /// Listens to the tick sizes of a token.
    pub fn tick_size_stream(&self, asset_id: U256) -> (subscription: Subscription)
        ensures
            subscription.channel == ws::Channel::Market(asset_id),
            subscription.event_type@ == "tick_size_change"@,
            subscription.auth is None,
    {
        proof {
            ws::market_messages();
        }
        market_client::<TickSizeChange>(asset_id)
    }

    /// Listens to the price changes of a token.
    pub fn price_change_stream(&self, asset_id: U256) -> (subscription: Subscription)
        ensures
            subscription.channel == ws::Channel::Market(asset_id),
            subscription.event_type@ == "price_change"@,
            subscription.auth is None,
    {
        proof {
            ws::market_messages();
        }
        market_client::<PriceChangeResponse>(asset_id)
    }

    /// Listens to the owner's trades in a market.
    pub fn trade_stream(&self, market: B256) -> (subscription: Subscription)
        ensures
            subscription.channel == ws::Channel::User(market),
            subscription.event_type@ == "trade"@,
            subscription.auth == Some(self.clob_client.api_creds),
    {
        user_client::<TradeStreamItem>(market, self.clob_client.api_creds.clone())
    }

    /// The markets that the metadata describes, or the first defect of the
    /// first metadata that has one.
    pub fn read_markets(responses: Vec<MarketResponse>) -> (markets: Result<
        Vec<Market>,
        MarketError,
    >)
        ensures
            match markets {
                Ok(markets) => {
                    &&& markets@.len() == responses@.len()
                    &&& forall|i: int|
                        0 <= i < responses@.len() ==> types::market_defect(
                            #[trigger] responses@[i],
                        ) is None && markets@[i].describes(responses@[i])
                },
                Err(e) => exists|i: int|
                    {
                        &&& 0 <= i < responses@.len()
                        &&& types::market_defect(#[trigger] responses@[i]) == Some(e)
                        &&& forall|j: int|
                            0 <= j < i ==> types::market_defect(#[trigger] responses@[j]) is None
                    },
            },
    {
        let ghost all = responses@;
        let mut markets: Vec<Market> = Vec::new();
        for response in iter: responses
            invariant
                iter.seq() == all,
                markets@.len() == iter.index(),
                forall|j: int|
                    0 <= j < iter.index() ==> types::market_defect(#[trigger] all[j]) is None
                        && markets@[j].describes(all[j]),
        {
            let ghost i = markets@.len() as int;
            assert(response == all[i]);
            match Market::from_response(response) {
                Ok(market) => markets.push(market),
                Err(e) => {
                    assert(types::market_defect(all[i]) == Some(e));
                    return Err(e);
                },
            }
        }
        Ok(markets)
    }

    /// The request for the middle of a token's best prices.
    pub fn get_mid_price(&self, token_id: U256) -> (req: ErrorDebugRequest)
        requires
            self.wf(),
        ensures
            req@ == (api::request::RequestView {
                query: seq![("token_id"@, text::decimal(token_id@))],
                ..api::request::bare(
                    api::Method::Get,
                    self.clob_client.url_of("midpoint"@),
                )
            }),
    {
        self.clob_client.get_mid_price(&token_id.to_decimal())
    }

    /// The request for a token's order book.
    pub fn get_book(&self, token_id: U256) -> (req: ErrorDebugRequest)
        requires
            self.wf(),
        ensures
            req@ == (api::request::RequestView {
                query: seq![("token_id"@, text::decimal(token_id@))],
                ..api::request::bare(api::Method::Get, self.clob_client.url_of("book"@))
            }),
    {
        self.clob_client.get_book(&token_id.to_decimal())
    }

    /// Whether this is what is wanted of an order in a market.
    pub open spec fn is_ticket(
        ticket: OrderTicket,
        market: Market,
        order: PolymarketOrder,
        order_type: OrderType,
    ) -> bool {
        &&& ticket.order_type == order_type
        &&& (ticket.token_id, ticket.side, ticket.price, ticket.size) == order.parts()
        &&& ticket.neg_risk == market.neg_risk
        &&& order::rounding_of(market.tick_size) is Some
        &&& ticket.plan == order::plan_of(
            order_type == OrderType::FOK,
            ticket.side,
            order::rounding_of(market.tick_size)->0,
        )
    }

    /// What is wanted of orders in a market, one for each order; `None` where
    /// there are any and the exchange does not know the market's tick.
    fn tickets(market: &Market, orders: &[PolymarketOrder], order_type: OrderType) -> (tickets:
        Option<Vec<OrderTicket>>)
        ensures
            tickets is None <==> orders@.len() > 0 && order::rounding_of(market.tick_size) is None,
            tickets matches Some(tickets) ==> tickets@.len() == orders@.len() && forall|i: int|
                0 <= i < orders@.len() ==> Self::is_ticket(
                    #[trigger] tickets@[i],
                    *market,
                    orders@[i],
                    order_type,
                ),
    {
        let mut tickets: Vec<OrderTicket> = Vec::new();
        let mut i: usize = 0;
        while i < orders.len()
            invariant
                i <= orders@.len(),
                tickets@.len() == i,
                i > 0 ==> order::rounding_of(market.tick_size) is Some,
                forall|j: int|
                    0 <= j < i ==> Self::is_ticket(
                        #[trigger] tickets@[j],
                        *market,
                        orders@[j],
                        order_type,
                    ),
            decreases orders@.len() - i,
        {
            let (token_id, side, price, size) = orders[i].into_parts();
            match order::order_ticket(
                order_type,
                token_id,
                market.neg_risk,
                price,
                side,
                size,
                market.tick_size,
            ) {
                Some(ticket) => tickets.push(ticket),
                None => return None,
            }
            i += 1;
        }
        Some(tickets)
    }

    /// What is wanted of orders that stay in the book until they are
    /// cancelled, one for each order; `None` where there are any and the
    /// exchange does not know the market's tick.
    pub fn post_gtc_orders(market: &Market, orders: &[PolymarketOrder]) -> (tickets: Option<
        Vec<OrderTicket>,
    >)
        ensures
            tickets is None <==> orders@.len() > 0 && order::rounding_of(market.tick_size) is None,
            tickets matches Some(tickets) ==> tickets@.len() == orders@.len() && forall|i: int|
                0 <= i < orders@.len() ==> Self::is_ticket(
                    #[trigger] tickets@[i],
                    *market,
                    orders@[i],
                    OrderType::GTC,
                ),
    {
        Self::tickets(market, orders, OrderType::GTC)
    }

    /// What is wanted of orders that are filled whole or dropped, one for each
    /// order; `None` where there are any and the exchange does not know the
    /// market's tick.
    pub fn post_fok_orders(market: &Market, orders: &[PolymarketOrder]) -> (tickets: Option<
        Vec<OrderTicket>,
    >)
        ensures
            tickets is None <==> orders@.len() > 0 && order::rounding_of(market.tick_size) is None,
            tickets matches Some(tickets) ==> tickets@.len() == orders@.len() && forall|i: int|
                0 <= i < orders@.len() ==> Self::is_ticket(
                    #[trigger] tickets@[i],
                    *market,
                    orders@[i],
                    OrderType::FOK,
                ),
    {
        Self::tickets(market, orders, OrderType::FOK)
    }

    /// Splits `amount` of collateral into `amount` of both positions.
    pub fn split(&self, market: &Market, amount: U256) -> (call: ContractCall)
        ensures
            call.is_split(self.contract_config, market.neg_risk, market.condition_id, amount),
    {
        let (ctf, collateral) = self.contract_config.get_ctf_and_collateral(market.neg_risk);
        ContractCall::SplitPosition {
            contract: ctf,
            collateral,
            parent_collection_id: B256::zero(),
            condition_id: market.condition_id,
            partition: contract::polymarket_partition(),
            amount,
        }
    }

    /// Redeems both positions of a market.
    pub fn redeem(&self, market: &Market) -> (call: ContractCall)
        ensures
            call.is_redeem(self.contract_config, market.neg_risk, market.condition_id),
    {
        let (ctf, collateral) = self.contract_config.get_ctf_and_collateral(market.neg_risk);
        ContractCall::RedeemPositions {
            contract: ctf,
            collateral,
            parent_collection_id: B256::zero(),
            condition_id: market.condition_id,
            index_sets: contract::polymarket_partition(),
        }
    }

    /// Merges `amount` of both positions into `amount` of collateral.
    pub fn merge(&self, market: &Market, amount: U256) -> (call: ContractCall)
        ensures
            call.is_merge(self.contract_config, market.neg_risk, market.condition_id, amount),
    {
        let (ctf, collateral) = self.contract_config.get_ctf_and_collateral(market.neg_risk);
        ContractCall::MergePositions {
            contract: ctf,
            collateral,
            parent_collection_id: B256::zero(),
            condition_id: market.condition_id,
            partition: contract::polymarket_partition(),
            amount,
        }
    }

    /// Whether these are the approvals that trading needs, in the order in
    /// which they are given: all collateral for the exchange and for the
    /// contract that splits positions, and all positions for the exchange. For
    /// negative risk the positions are those of the conditional tokens
    /// themselves, and the adapter in front of them may take them too.
    pub open spec fn is_approvals(&self, neg_risk: bool, calls: Seq<ContractCall>) -> bool {
        let (ctf, collateral) = self.contract_config.ctf_and_collateral(neg_risk);
        let exchange = self.contract_config.exchange_for(neg_risk);
        let positions = self.contract_config.positions_for(neg_risk);
        &&& calls.len() == if neg_risk {
            4nat
        } else {
            3
        }
        &&& calls[0].is_approve(collateral, exchange)
        &&& calls[1].is_approve(collateral, ctf)
        &&& calls[2].is_approve_all(positions, exchange)
        &&& neg_risk ==> calls[3].is_approve_all(positions, ctf)
    }

    /// The approvals that trading needs, in the order in which they are given.
    pub fn approve_tokens(&self, neg_risk: bool) -> (calls: Vec<ContractCall>)
        ensures
            self.is_approvals(neg_risk, calls@),
    {
        let (ctf, collateral) = self.contract_config.get_ctf_and_collateral(neg_risk);
        let exchange = self.contract_config.get_exchange(neg_risk);
        let amount = U256::max_value();
        let mut calls: Vec<ContractCall> = Vec::new();
        calls.push(ContractCall::Approve { contract: collateral, spender: exchange, amount });
        calls.push(ContractCall::Approve { contract: collateral, spender: ctf, amount });
        if neg_risk {
            let contract = self.contract_config.neg_risk_conditional_tokens;
            calls.push(
                ContractCall::SetApprovalForAll { contract, operator: exchange, approved: true },
            );
            calls.push(ContractCall::SetApprovalForAll { contract, operator: ctf, approved: true });
        } else {
            calls.push(
                ContractCall::SetApprovalForAll {
                    contract: ctf,
                    operator: exchange,
                    approved: true,
                },
            );
        }
        calls
    }

    /// Asks for the collateral of this client's wallet.
    pub fn collateral_balance(&self) -> (query: ContractQuery)
        ensures
            query == (ContractQuery::Collateral {
                contract: self.contract_config.collateral,
                owner: self.clob_client.address,
            }),
    {
        // Both kinds of market have the same collateral.
        let (_, collateral) = self.contract_config.get_ctf_and_collateral(false);
        ContractQuery::Collateral { contract: collateral, owner: self.clob_client.address }
    }

    /// Asks for a position of `owner`.
    pub fn ctf_balance(&self, owner: Address, position_id: U256, neg_risk: bool) -> (query:
        ContractQuery)
        ensures
            query == (ContractQuery::Position {
                contract: self.contract_config.ctf_and_collateral(neg_risk).0,
                owner,
                position_id,
            }),
    {
        let (ctf, _) = self.contract_config.get_ctf_and_collateral(neg_risk);
        ContractQuery::Position { contract: ctf, owner, position_id }
    }
}

/// The approvals are about the collateral and the positions, and they are given
/// to the exchange and to the contract that splits positions, and to nobody
/// else.
pub proof fn approvals_name_nobody_else(
    client: PolymarketClient,
    neg_risk: bool,
    calls: Seq<ContractCall>,
    i: int,
)
    requires
        client.is_approvals(neg_risk, calls),
        0 <= i < calls.len(),
    ensures
        match calls[i] {
            ContractCall::Approve { contract, spender, amount } => {
                &&& contract == client.contract_config.ctf_and_collateral(neg_risk).1
                &&& spender == client.contract_config.exchange_for(neg_risk) || spender
                    == client.contract_config.ctf_and_collateral(neg_risk).0
            },
            ContractCall::SetApprovalForAll { contract, operator, approved } => {
                &&& contract == client.contract_config.positions_for(neg_risk)
                &&& operator == client.contract_config.exchange_for(neg_risk) || operator
                    == client.contract_config.ctf_and_collateral(neg_risk).0
            },
            _ => false,
        },
{
    assert(i == 0 || i == 1 || i == 2 || i == 3);
}

/// Merging undoes splitting: the two transactions for one amount of one market
/// go to the same contract and name the same collateral and positions.
pub proof fn merge_undoes_split(
    config: ContractConfig,
    neg_risk: bool,
    condition: B256,
    shares: U256,
    split: ContractCall,
    merge: ContractCall,
)
    requires
        split.is_split(config, neg_risk, condition, shares),
        merge.is_merge(config, neg_risk, condition, shares),
    ensures
        split->SplitPosition_contract == merge->MergePositions_contract,
        split->SplitPosition_collateral == merge->MergePositions_collateral,
        split->SplitPosition_parent_collection_id == merge->MergePositions_parent_collection_id,
        split->SplitPosition_condition_id == merge->MergePositions_condition_id,
        split->SplitPosition_partition == merge->MergePositions_partition,
        split->SplitPosition_amount == merge->MergePositions_amount,
{
    let (a, b) = (split->SplitPosition_partition, merge->MergePositions_partition);
    primitives::u256_value_determines(a[0], b[0]);
    primitives::u256_value_determines(a[1], b[1]);
    assert(a =~= b);
    let (a, b) = (
        split->SplitPosition_parent_collection_id,
        merge->MergePositions_parent_collection_id,
    );
    assert(a@ =~= b@);
    primitives::b256_bytes_determine(a, b);
}

/// A client can be had where the provider can sign, on Polygon and on Amoy
/// alone, and where the order book can be reached. Its contracts are those of
/// the provider's chain.
pub proof fn client_uses_the_contracts_of_its_chain(
    has_signer: bool,
    chain_id: u64,
    clob_client: Result<ClobClient, APIError>,
    client: Result<PolymarketClient, PolymarketClientError>,
    config: Option<ContractConfig>,
)
    requires
        call_ensures(
            PolymarketClient::connect_with_provider,
            (has_signer, chain_id, clob_client),
            client,
        ),
        call_ensures(ContractConfig::from_chain_id, (chain_id,), config),
    ensures
        client is Ok <==> has_signer && (chain_id == 137 || chain_id == 80002) && clob_client is Ok,
        client matches Ok(c) ==> config == Some(c.contract_config) && clob_client == Ok::<
            ClobClient,
            APIError,
        >(c.clob_client),
        client matches Err(e) ==> match e {
            PolymarketClientError::SignerNotCredentialed => !has_signer,
            PolymarketClientError::InvalidChain(id) => has_signer && id == chain_id && id != 137
                && id != 80002,
            PolymarketClientError::ClobClientError(e) => has_signer && clob_client == Err::<
                ClobClient,
                APIError,
            >(e),
            _ => false,
        },
{
    contract::contracts_of_each_chain(chain_id, config);
    if let (Ok(client), Some(b)) = (client, config) {
        let a = client.contract_config;
        same_address(a.exchange, b.exchange);
        same_address(a.collateral, b.collateral);
        same_address(a.conditional_tokens, b.conditional_tokens);
        same_address(a.neg_risk_conditional_tokens, b.neg_risk_conditional_tokens);
        same_address(a.neg_risk_collateral, b.neg_risk_collateral);
        same_address(a.neg_risk_exchange, b.neg_risk_exchange);
        same_address(a.neg_risk_adapter, b.neg_risk_adapter);
    }
}

/// Addresses with the same notation are the same.
proof fn same_address(a: Address, b: Address)
    ensures
        text::hex(a@) == text::hex(b@) ==> a == b,
{
    if text::hex(a@) == text::hex(b@) {
        text::hex_reads_back(a@);
        text::hex_reads_back(b@);
        primitives::address_bytes_determine(a, b);
    }
}

/// Splitting names the market's condition and the partition into its two
/// outcomes, without a parent collection, and the amount. It goes to the
/// adapter for negative risk and to the conditional tokens otherwise.
pub proof fn split_names_the_market(
    client: PolymarketClient,
    market: Market,
    shares: U256,
    call: ContractCall,
)
    requires
        call_ensures(PolymarketClient::split, (&client, &market, shares), call),
    ensures
        call matches ContractCall::SplitPosition {
            contract,
            collateral,
            parent_collection_id,
            condition_id,
            partition,
            amount,
        } && {
            &&& contract == (if market.neg_risk {
                client.contract_config.neg_risk_adapter
            } else {
                client.contract_config.conditional_tokens
            })
            &&& collateral == (if market.neg_risk {
                client.contract_config.neg_risk_collateral
            } else {
                client.contract_config.collateral
            })
            &&& parent_collection_id@ == Seq::new(32, |i: int| 0u8)
            &&& condition_id@ == market.condition_id@
            &&& partition[0]@ == 1
            &&& partition[1]@ == 2
            &&& amount@ == shares@
        },
{
    assert(call->SplitPosition_parent_collection_id@ =~= Seq::new(32, |i: int| 0u8));
}

/// Merging names what splitting names for the same market and amount.
pub proof fn merge_names_what_split_names(
    client: PolymarketClient,
    market: Market,
    shares: U256,
    split: ContractCall,
    merge: ContractCall,
)
    requires
        call_ensures(PolymarketClient::split, (&client, &market, shares), split),
        call_ensures(PolymarketClient::merge, (&client, &market, shares), merge),
    ensures
        split is SplitPosition,
        merge == (ContractCall::MergePositions {
            contract: split->SplitPosition_contract,
            collateral: split->SplitPosition_collateral,
            parent_collection_id: split->SplitPosition_parent_collection_id,
            condition_id: split->SplitPosition_condition_id,
            partition: split->SplitPosition_partition,
            amount: split->SplitPosition_amount,
        }),
        merge->MergePositions_amount@ == shares@,
        merge->MergePositions_condition_id@ == market.condition_id@,
{
    split_names_the_market(client, market, shares, split);
    let (a, b) = (split->SplitPosition_partition, merge->MergePositions_partition);
    primitives::u256_value_determines(a[0], b[0]);
    primitives::u256_value_determines(a[1], b[1]);
    assert(a =~= b);
    let (a, b) = (
        split->SplitPosition_parent_collection_id,
        merge->MergePositions_parent_collection_id,
    );
    assert(a@ =~= b@);
    primitives::b256_bytes_determine(a, b);
}

/// Redeeming names the same contract, collateral, parent collection and
/// condition as splitting does for the same market, and as index sets the
/// partition of the split.
pub proof fn redeem_names_what_split_names(
    client: PolymarketClient,
    market: Market,
    shares: U256,
    split: ContractCall,
    redeem: ContractCall,
)
    requires
        call_ensures(PolymarketClient::split, (&client, &market, shares), split),
        call_ensures(PolymarketClient::redeem, (&client, &market), redeem),
    ensures
        split is SplitPosition,
        redeem == (ContractCall::RedeemPositions {
            contract: split->SplitPosition_contract,
            collateral: split->SplitPosition_collateral,
            parent_collection_id: split->SplitPosition_parent_collection_id,
            condition_id: split->SplitPosition_condition_id,
            index_sets: split->SplitPosition_partition,
        }),
        redeem->RedeemPositions_condition_id@ == market.condition_id@,
        redeem->RedeemPositions_collateral == (if market.neg_risk {
            client.contract_config.neg_risk_collateral
        } else {
            client.contract_config.collateral
        }),
{
    split_names_the_market(client, market, shares, split);
    let (a, b) = (split->SplitPosition_partition, redeem->RedeemPositions_index_sets);
    primitives::u256_value_determines(a[0], b[0]);
    primitives::u256_value_determines(a[1], b[1]);
    assert(a =~= b);
    let (a, b) = (
        split->SplitPosition_parent_collection_id,
        redeem->RedeemPositions_parent_collection_id,
    );
    assert(a@ =~= b@);
    primitives::b256_bytes_determine(a, b);
}

/// On a supported chain, splits, merges and redemptions are all of the chain's
/// collateral, whatever the market. They go to the adapter for negative risk,
/// and to the chain's conditional tokens otherwise.
pub proof fn positions_are_of_the_chains_collateral(
    chain_id: u64,
    client: PolymarketClient,
    market: Market,
    shares: U256,
    split: ContractCall,
    merge: ContractCall,
    redeem: ContractCall,
)
    requires
        call_ensures(
            ContractConfig::from_chain_id,
            (chain_id,),
            Some(client.contract_config),
        ),
        call_ensures(PolymarketClient::split, (&client, &market, shares), split),
        call_ensures(PolymarketClient::merge, (&client, &market, shares), merge),
        call_ensures(PolymarketClient::redeem, (&client, &market), redeem),
    ensures
        ({
            let collateral = if chain_id == 137 {
                "2791bca1f2de4661ed88a30c99a7a9449aa84174"@
            } else {
                "9c4e1703476e875070ee25b56a58b008cfb8fa78"@
            };
            let contract = if market.neg_risk {
                "d91e80cf2e7be2e162c6513ced06f1dd0da35296"@
            } else if chain_id == 137 {
                "4d97dcd97ec945f40cf65f87097ace5ea0476045"@
            } else {
                "69308fb512518e39f9b16112fa8d994f4e2bf8bb"@
            };
            &&& text::hex(split->SplitPosition_collateral@) == collateral
            &&& text::hex(merge->MergePositions_collateral@) == collateral
            &&& text::hex(redeem->RedeemPositions_collateral@) == collateral
            &&& text::hex(split->SplitPosition_contract@) == contract
            &&& text::hex(merge->MergePositions_contract@) == contract
            &&& text::hex(redeem->RedeemPositions_contract@) == contract
        }),
{
    contract::contracts_of_each_chain(chain_id, Some(client.contract_config));
    split_names_the_market(client, market, shares, split);
    merge_names_what_split_names(client, market, shares, split, merge);
    redeem_names_what_split_names(client, market, shares, split, redeem);
}

/// The approvals, one by one: as much collateral as there can be for the
/// exchange and for the contract that splits, and all positions for the
/// exchange. For negative risk the adapter may take all positions too.
pub proof fn approvals_in_order(client: PolymarketClient, neg_risk: bool, calls: Vec<ContractCall>)
    requires
        call_ensures(PolymarketClient::approve_tokens, (&client, neg_risk), calls),
    ensures
        ({
            let config = client.contract_config;
            let (exchange, splitter, collateral, positions) = if neg_risk {
                (
                    config.neg_risk_exchange,
                    config.neg_risk_adapter,
                    config.neg_risk_collateral,
                    config.neg_risk_conditional_tokens,
                )
            } else {
                (
                    config.exchange,
                    config.conditional_tokens,
                    config.collateral,
                    config.conditional_tokens,
                )
            };
            &&& neg_risk ==> calls@.len() == 4
            &&& !neg_risk ==> calls@.len() == 3
            &&& calls@[0] matches ContractCall::Approve { contract, spender, amount } && contract
                == collateral && spender == exchange && forall|n: U256| n@ <= amount@
            &&& calls@[1] matches ContractCall::Approve { contract, spender, amount } && contract
                == collateral && spender == splitter && forall|n: U256| n@ <= amount@
            &&& calls@[2] == (ContractCall::SetApprovalForAll {
                contract: positions,
                operator: exchange,
                approved: true,
            })
            &&& neg_risk ==> calls@[3] == (ContractCall::SetApprovalForAll {
                contract: positions,
                operator: splitter,
                approved: true,
            })
        }),
{
    assert forall|n: U256| #[trigger] n@ < primitives::u256_limit() by {
        primitives::u256_in_range(n);
    }
}

/// What is approved is what trading needs. The contract that splits a market's
/// positions may take the collateral that it splits, and the exchange that the
/// market's orders are signed for may take that collateral and the positions.
pub proof fn approvals_suffice(
    chain_id: u64,
    client: PolymarketClient,
    market: Market,
    shares: U256,
    calls: Vec<ContractCall>,
    split: ContractCall,
    draft: OrderDraft,
    data: TypedData<Order>,
)
    requires
        call_ensures(
            ContractConfig::from_chain_id,
            (chain_id,),
            Some(client.contract_config),
        ),
        call_ensures(PolymarketClient::approve_tokens, (&client, market.neg_risk), calls),
        call_ensures(PolymarketClient::split, (&client, &market, shares), split),
        call_ensures(OrderDraft::to_sign, (&draft, chain_id, market.neg_risk), Ok(data)),
    ensures
        exists|i: int|
            0 <= i < calls@.len() && ((#[trigger] calls@[i]) matches ContractCall::Approve {
                contract,
                spender,
                amount,
            } && contract == split->SplitPosition_collateral && spender
                == split->SplitPosition_contract && amount@ >= shares@),
        exists|i: int|
            0 <= i < calls@.len() && ((#[trigger] calls@[i]) matches ContractCall::Approve {
                contract,
                spender,
                amount,
            } && contract == split->SplitPosition_collateral && Some(spender)
                == data.domain.verifying_contract),
        exists|i: int|
            0 <= i < calls@.len() && ((
            #[trigger] calls@[i]) matches ContractCall::SetApprovalForAll {
                contract,
                operator,
                approved,
            } && contract == client.contract_config.conditional_tokens && Some(operator)
                == data.domain.verifying_contract && approved),
{
    let config = client.contract_config;
    approvals_in_order(client, market.neg_risk, calls);
    split_names_the_market(client, market, shares, split);
    contract::contracts_of_each_chain(chain_id, Some(config));
    let exchange = if market.neg_risk {
        config.neg_risk_exchange
    } else {
        config.exchange
    };
    same_address(data.domain.verifying_contract->0, exchange);
    same_address(config.neg_risk_conditional_tokens, config.conditional_tokens);
    assert(calls@[0] is Approve && calls@[1] is Approve && calls@[2] is SetApprovalForAll);
}

/// A balance of collateral is asked of the chain's collateral, for the client's
/// own wallet; a position is asked of the contract that splits markets of its
/// kind, for whoever is named.
pub proof fn balances_are_asked_of(
    client: PolymarketClient,
    owner: Address,
    position_id: U256,
    neg_risk: bool,
    collateral: ContractQuery,
    position: ContractQuery,
)
    requires
        call_ensures(PolymarketClient::collateral_balance, (&client,), collateral),
        call_ensures(
            PolymarketClient::ctf_balance,
            (&client, owner, position_id, neg_risk),
            position,
        ),
    ensures
        collateral == (ContractQuery::Collateral {
            contract: client.contract_config.collateral,
            owner: client.clob_client.address,
        }),
        position == (ContractQuery::Position {
            contract: if neg_risk {
                client.contract_config.neg_risk_adapter
            } else {
                client.contract_config.conditional_tokens
            },
            owner,
            position_id,
        }),
{
}

/// Whether the ticket wants the order: a bid buys and an ask sells, the token,
/// the price and the size are the order's, the kind of market is the market's,
/// and the price keeps the decimals of the market's tick.
pub open spec fn wants(ticket: OrderTicket, market: Market, order: PolymarketOrder) -> bool {
    &&& ticket.neg_risk == market.neg_risk
    &&& order::nearest_to_power(market.tick_size.bits, ticket.plan.price_decimals as nat)
    &&& match order {
        PolymarketOrder::Bid { token_id, price, size } => ticket.side == Side::BUY
            && ticket.token_id == token_id && ticket.price == price && ticket.size == size,
        PolymarketOrder::Ask { token_id, price, size } => ticket.side == Side::SELL
            && ticket.token_id == token_id && ticket.price == price && ticket.size == size,
    }
}

/// Orders that are posted are wanted one for one and in their order, and stay
/// in the book until they are cancelled. Their amounts are calculated as for
/// any order of that type, side and tick.
pub proof fn posted_gtc_orders_are_wanted(
    market: Market,
    orders: &[PolymarketOrder],
    tickets: Vec<OrderTicket>,
    i: int,
    plan: Option<AmountPlan>,
)
    requires
        call_ensures(PolymarketClient::post_gtc_orders, (&market, orders), Some(tickets)),
        0 <= i < orders@.len(),
        call_ensures(
            order::amount_plan,
            (OrderType::GTC, tickets@[i].side, market.tick_size),
            plan,
        ),
    ensures
        tickets@.len() == orders@.len(),
        wants(tickets@[i], market, orders@[i]),
        tickets@[i].order_type == OrderType::GTC,
        plan == Some(tickets@[i].plan),
{
    assert(PolymarketClient::is_ticket(tickets@[i], market, orders@[i], OrderType::GTC));
    order::price_has_the_decimals_of_the_tick(
        OrderType::GTC,
        tickets@[i].side,
        market.tick_size,
        plan,
    );
}

/// Orders that are posted to be filled whole or dropped are wanted one for one
/// and in their order, of that type. Their amounts are calculated as for any
/// order of that type, side and tick.
pub proof fn posted_fok_orders_are_wanted(
    market: Market,
    orders: &[PolymarketOrder],
    tickets: Vec<OrderTicket>,
    i: int,
    plan: Option<AmountPlan>,
)
    requires
        call_ensures(PolymarketClient::post_fok_orders, (&market, orders), Some(tickets)),
        0 <= i < orders@.len(),
        call_ensures(
            order::amount_plan,
            (OrderType::FOK, tickets@[i].side, market.tick_size),
            plan,
        ),
    ensures
        tickets@.len() == orders@.len(),
        wants(tickets@[i], market, orders@[i]),
        tickets@[i].order_type == OrderType::FOK,
        plan == Some(tickets@[i].plan),
{
    assert(PolymarketClient::is_ticket(tickets@[i], market, orders@[i], OrderType::FOK));
    order::price_has_the_decimals_of_the_tick(
        OrderType::FOK,
        tickets@[i].side,
        market.tick_size,
        plan,
    );
}

/// Posting is refused where there are orders and the market's tick is none that
/// the exchange knows, and nowhere else.
pub proof fn posting_needs_a_known_tick(
    market: Market,
    orders: &[PolymarketOrder],
    gtc: Option<Vec<OrderTicket>>,
    fok: Option<Vec<OrderTicket>>,
)
    requires
        call_ensures(PolymarketClient::post_gtc_orders, (&market, orders), gtc),
        call_ensures(PolymarketClient::post_fok_orders, (&market, orders), fok),
    ensures
        ({
            let known = exists|d: nat|
                1 <= d <= 4 && #[trigger] order::nearest_to_power(market.tick_size.bits, d);
            &&& gtc is None <==> orders@.len() > 0 && !known
            &&& fok is None <==> orders@.len() > 0 && !known
        }),
{
    order::ticks_with_a_rounding(market.tick_size);
}

/// Each market is read from the metadata at its place, and carries over the
/// kind, the tick and the smallest size of it.
pub proof fn markets_are_read_in_order(
    responses: Vec<MarketResponse>,
    markets: Vec<Market>,
    i: int,
    market: Result<Market, MarketError>,
)
    requires
        call_ensures(PolymarketClient::read_markets, (responses,), Ok(markets)),
        0 <= i < responses@.len(),
        call_ensures(Market::from_response, (responses@[i],), market),
    ensures
        markets@.len() == responses@.len(),
        market is Ok,
        markets@[i].market_id == market->Ok_0.market_id,
        markets@[i].question == market->Ok_0.question,
        markets@[i].condition_id@ == market->Ok_0.condition_id@,
        markets@[i].clob_token_ids[0]@ == market->Ok_0.clob_token_ids[0]@,
        markets@[i].clob_token_ids[1]@ == market->Ok_0.clob_token_ids[1]@,
        markets@[i].neg_risk == responses@[i].neg_risk,
        markets@[i].tick_size == responses@[i].order_price_min_tick_size,
        markets@[i].order_min_size == responses@[i].order_min_size,
        markets@[i].rewards_max_spread == responses@[i].rewards_max_spread,
        markets@[i].rewards_min_size == responses@[i].rewards_min_size,
{
    assert(markets@[i].describes(responses@[i]));
}

/// The errors of the client in words. Those of requests and of channels are
/// told in their own words.
pub proof fn errors_by_their_words(
    error: PolymarketClientError,
    s: String,
    api_text: String,
    ws_text: String,
)
    requires
        call_ensures(PolymarketClientError::to_text, (&error,), s),
        error matches PolymarketClientError::ClobClientError(e) ==> call_ensures(
            APIError::to_text,
            (&e,),
            api_text,
        ),
        error matches PolymarketClientError::WSError(e) ==> call_ensures(
            WSClientError::to_text,
            (&e,),
            ws_text,
        ),
    ensures
        match error {
            PolymarketClientError::InvalidChain(chain_id) => s@ == "Invalid chain id: "@
                + text::decimal(chain_id as nat),
            PolymarketClientError::RpcError(e) => s@ == "Failed to get chain id: "@ + e@,
            PolymarketClientError::SendTransactionError(e) => s@ == "Failed to send transaction: "@
                + e@,
            PolymarketClientError::WatchTransactionError(e) => s@
                == "Failed to confirm transaction: "@ + e@,
            PolymarketClientError::ClobClientError(_) => s@ == "API Error: "@ + api_text@,
            PolymarketClientError::WSError(_) => s@ == "WS Error: "@ + ws_text@,
            PolymarketClientError::SignerNotCredentialed => s@
                == "Provider should be able to sign on behalf of the signer"@,
        },
{
}

/// The book and the middle of the best prices are asked for by the token's
/// number, as the order book is asked.
pub proof fn tokens_are_asked_for_by_number(
    client: PolymarketClient,
    token_id: U256,
    book: ErrorDebugRequest,
    mid: ErrorDebugRequest,
)
    requires
        client.wf(),
        api::clob::at_order_book(client.clob_client),
        call_ensures(PolymarketClient::get_book, (&client, token_id), book),
        call_ensures(PolymarketClient::get_mid_price, (&client, token_id), mid),
    ensures
        api::clob::asks(
            book,
            api::Method::Get,
            "https://clob.polymarket.com/book"@,
            seq![("token_id"@, text::decimal(token_id@))],
            None,
        ),
        api::clob::asks(
            mid,
            api::Method::Get,
            "https://clob.polymarket.com/midpoint"@,
            seq![("token_id"@, text::decimal(token_id@))],
            None,
        ),
{
    reveal_strlit("book");
    reveal_strlit("midpoint");
    reveal_strlit("https://clob.polymarket.com/");
    reveal_strlit("https://clob.polymarket.com/book");
    reveal_strlit("https://clob.polymarket.com/midpoint");
    api::clob::order_book_urls(client.clob_client, "book"@);
    api::clob::order_book_urls(client.clob_client, "midpoint"@);
    assert("https://clob.polymarket.com/book"@ =~= "https://clob.polymarket.com/"@ + "book"@);
    assert("https://clob.polymarket.com/midpoint"@ =~= "https://clob.polymarket.com/"@
        + "midpoint"@);
    assert(book@.query == text::pairs(book.query@));
    assert(mid@.query == text::pairs(mid.query@));
}

/// The streams about a token listen to that token without credentials, each for
/// its own event, and the trades of a market are listened to with the owner's.
pub proof fn streams_listen_where_they_should(
    client: PolymarketClient,
    asset_id: U256,
    market: B256,
    prices: Subscription,
    books: Subscription,
    ticks: Subscription,
    changes: Subscription,
    trades: Subscription,
)
    requires
        call_ensures(PolymarketClient::last_trade_price_stream, (&client, asset_id), prices),
        call_ensures(PolymarketClient::market_update_stream, (&client, asset_id), books),
        call_ensures(PolymarketClient::tick_size_stream, (&client, asset_id), ticks),
        call_ensures(PolymarketClient::price_change_stream, (&client, asset_id), changes),
        call_ensures(PolymarketClient::trade_stream, (&client, market), trades),
    ensures
        forall|s: Subscription|
            s == prices || s == books || s == ticks || s == changes ==> #[trigger] s.channel
                == ws::Channel::Market(asset_id) && s.auth is None,
        prices.event_type@ == "last_trade_price"@,
        books.event_type@ == "book"@,
        ticks.event_type@ == "tick_size_change"@,
        changes.event_type@ == "price_change"@,
        trades.channel == ws::Channel::User(market),
        trades.event_type@ == "trade"@,
        trades.auth == Some(client.clob_client.api_creds),
{
}

} // verus!
