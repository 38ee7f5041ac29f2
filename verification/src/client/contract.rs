//! The contracts on the chain: where they stand, what is asked of them and
//! what is signed for them.

use crate::primitives::{self, Address, B256, U256};
use crate::text;
use vstd::prelude::*;

verus! {

/// The chain id of Polygon.
pub const POLYGON: u64 = 137;

/// The chain id of Amoy, the test network of Polygon.
pub const AMOY: u64 = 80002;

/// The index sets of a market's two outcomes.
pub const POLYMARKET_PARTITION: [u64; 2] = [1, 2];

/// The exchange on Polygon.
fn polygon_exchange() -> (a: Address)
    ensures
        text::hex(a@) == "4bfb41d5b3570defd03c39a9a4d8de6bd8b8982e"@,
{
    let a = Address {
        bytes: [
            0x4b, 0xfb, 0x41, 0xd5, 0xb3, 0x57, 0x0d, 0xef, 0xd0, 0x3c,
            0x39, 0xa9, 0xa4, 0xd8, 0xde, 0x6b, 0xd8, 0xb8, 0x98, 0x2e,
        ],
    };
    proof {
        reveal_strlit("4bfb41d5b3570defd03c39a9a4d8de6bd8b8982e");
        assert(text::hex(a@) =~= "4bfb41d5b3570defd03c39a9a4d8de6bd8b8982e"@);
    }
    a
}

/// The collateral on Polygon.
fn polygon_collateral() -> (a: Address)
    ensures
        text::hex(a@) == "2791bca1f2de4661ed88a30c99a7a9449aa84174"@,
{
    let a = Address {
        bytes: [
            0x27, 0x91, 0xbc, 0xa1, 0xf2, 0xde, 0x46, 0x61, 0xed, 0x88,
            0xa3, 0x0c, 0x99, 0xa7, 0xa9, 0x44, 0x9a, 0xa8, 0x41, 0x74,
        ],
    };
    proof {
        reveal_strlit("2791bca1f2de4661ed88a30c99a7a9449aa84174");
        assert(text::hex(a@) =~= "2791bca1f2de4661ed88a30c99a7a9449aa84174"@);
    }
    a
}

/// The conditional tokens on Polygon.
fn polygon_conditional_tokens() -> (a: Address)
    ensures
        text::hex(a@) == "4d97dcd97ec945f40cf65f87097ace5ea0476045"@,
{
    let a = Address {
        bytes: [
            0x4d, 0x97, 0xdc, 0xd9, 0x7e, 0xc9, 0x45, 0xf4, 0x0c, 0xf6,
            0x5f, 0x87, 0x09, 0x7a, 0xce, 0x5e, 0xa0, 0x47, 0x60, 0x45,
        ],
    };
    proof {
        reveal_strlit("4d97dcd97ec945f40cf65f87097ace5ea0476045");
        assert(text::hex(a@) =~= "4d97dcd97ec945f40cf65f87097ace5ea0476045"@);
    }
    a
}

/// The exchange for negative-risk markets.
fn neg_risk_exchange() -> (a: Address)
    ensures
        text::hex(a@) == "c5d563a36ae78145c45a50134d48a1215220f80a"@,
{
    let a = Address {
        bytes: [
            0xc5, 0xd5, 0x63, 0xa3, 0x6a, 0xe7, 0x81, 0x45, 0xc4, 0x5a,
            0x50, 0x13, 0x4d, 0x48, 0xa1, 0x21, 0x52, 0x20, 0xf8, 0x0a,
        ],
    };
    proof {
        reveal_strlit("c5d563a36ae78145c45a50134d48a1215220f80a");
        assert(text::hex(a@) =~= "c5d563a36ae78145c45a50134d48a1215220f80a"@);
    }
    a
}

/// The adapter in front of the conditional tokens of negative-risk markets.
fn neg_risk_adapter() -> (a: Address)
    ensures
        text::hex(a@) == "d91e80cf2e7be2e162c6513ced06f1dd0da35296"@,
{
    let a = Address {
        bytes: [
            0xd9, 0x1e, 0x80, 0xcf, 0x2e, 0x7b, 0xe2, 0xe1, 0x62, 0xc6,
            0x51, 0x3c, 0xed, 0x06, 0xf1, 0xdd, 0x0d, 0xa3, 0x52, 0x96,
        ],
    };
    proof {
        reveal_strlit("d91e80cf2e7be2e162c6513ced06f1dd0da35296");
        assert(text::hex(a@) =~= "d91e80cf2e7be2e162c6513ced06f1dd0da35296"@);
    }
    a
}

/// The exchange on Amoy.
fn amoy_exchange() -> (a: Address)
    ensures
        text::hex(a@) == "dfe02eb6733538f8ea35d585af8de5958ad99e40"@,
{
    let a = Address {
        bytes: [
            0xdf, 0xe0, 0x2e, 0xb6, 0x73, 0x35, 0x38, 0xf8, 0xea, 0x35,
            0xd5, 0x85, 0xaf, 0x8d, 0xe5, 0x95, 0x8a, 0xd9, 0x9e, 0x40,
        ],
    };
    proof {
        reveal_strlit("dfe02eb6733538f8ea35d585af8de5958ad99e40");
        assert(text::hex(a@) =~= "dfe02eb6733538f8ea35d585af8de5958ad99e40"@);
    }
    a
}

/// The collateral on Amoy.
fn amoy_collateral() -> (a: Address)
    ensures
        text::hex(a@) == "9c4e1703476e875070ee25b56a58b008cfb8fa78"@,
{
    let a = Address {
        bytes: [
            0x9c, 0x4e, 0x17, 0x03, 0x47, 0x6e, 0x87, 0x50, 0x70, 0xee,
            0x25, 0xb5, 0x6a, 0x58, 0xb0, 0x08, 0xcf, 0xb8, 0xfa, 0x78,
        ],
    };
    proof {
        reveal_strlit("9c4e1703476e875070ee25b56a58b008cfb8fa78");
        assert(text::hex(a@) =~= "9c4e1703476e875070ee25b56a58b008cfb8fa78"@);
    }
    a
}

/// The conditional tokens on Amoy.
fn amoy_conditional_tokens() -> (a: Address)
    ensures
        text::hex(a@) == "69308fb512518e39f9b16112fa8d994f4e2bf8bb"@,
{
    let a = Address {
        bytes: [
            0x69, 0x30, 0x8f, 0xb5, 0x12, 0x51, 0x8e, 0x39, 0xf9, 0xb1,
            0x61, 0x12, 0xfa, 0x8d, 0x99, 0x4f, 0x4e, 0x2b, 0xf8, 0xbb,
        ],
    };
    proof {
        reveal_strlit("69308fb512518e39f9b16112fa8d994f4e2bf8bb");
        assert(text::hex(a@) =~= "69308fb512518e39f9b16112fa8d994f4e2bf8bb"@);
    }
    a
}

/// Where the contracts of a chain stand.
#[derive(Debug, Clone, Copy)]
pub struct ContractConfig {
    pub exchange: Address,
    pub collateral: Address,
    pub conditional_tokens: Address,
    pub neg_risk_conditional_tokens: Address,
    pub neg_risk_collateral: Address,
    pub neg_risk_exchange: Address,
    pub neg_risk_adapter: Address,
}

/// Whether the exchange has contracts on the chain.
pub open spec fn supported_chain(chain_id: u64) -> bool {
    chain_id == POLYGON || chain_id == AMOY
}

impl ContractConfig {
    /// The contracts on Polygon.
    pub open spec fn on_polygon(&self) -> bool {
        &&& text::hex(self.exchange@) == "4bfb41d5b3570defd03c39a9a4d8de6bd8b8982e"@
        &&& text::hex(self.collateral@) == "2791bca1f2de4661ed88a30c99a7a9449aa84174"@
        &&& text::hex(self.conditional_tokens@) == "4d97dcd97ec945f40cf65f87097ace5ea0476045"@
        &&& text::hex(self.neg_risk_exchange@) == "c5d563a36ae78145c45a50134d48a1215220f80a"@
        &&& text::hex(self.neg_risk_collateral@) == "2791bca1f2de4661ed88a30c99a7a9449aa84174"@
        &&& text::hex(self.neg_risk_conditional_tokens@) == "4d97dcd97ec945f40cf65f87097ace5ea0476045"@
        &&& text::hex(self.neg_risk_adapter@) == "d91e80cf2e7be2e162c6513ced06f1dd0da35296"@
    }

    /// The contracts on Amoy.
    pub open spec fn on_amoy(&self) -> bool {
        &&& text::hex(self.exchange@) == "dfe02eb6733538f8ea35d585af8de5958ad99e40"@
        &&& text::hex(self.collateral@) == "9c4e1703476e875070ee25b56a58b008cfb8fa78"@
        &&& text::hex(self.conditional_tokens@) == "69308fb512518e39f9b16112fa8d994f4e2bf8bb"@
        &&& text::hex(self.neg_risk_exchange@) == "c5d563a36ae78145c45a50134d48a1215220f80a"@
        &&& text::hex(self.neg_risk_collateral@) == "9c4e1703476e875070ee25b56a58b008cfb8fa78"@
        &&& text::hex(self.neg_risk_conditional_tokens@) == "69308fb512518e39f9b16112fa8d994f4e2bf8bb"@
        &&& text::hex(self.neg_risk_adapter@) == "d91e80cf2e7be2e162c6513ced06f1dd0da35296"@
    }

    /// The contracts of the chain with the id `chain_id`.
    pub open spec fn of_chain(&self, chain_id: u64) -> bool {
        if chain_id == POLYGON {
            self.on_polygon()
        } else {
            chain_id == AMOY && self.on_amoy()
        }
    }

    /// Where the contracts of a chain stand; `None` for a chain on which the
    /// exchange has none.
    pub fn from_chain_id(chain_id: u64) -> (config: Option<ContractConfig>)
        ensures
            config is Some <==> supported_chain(chain_id),
            config matches Some(config) ==> config.of_chain(chain_id),
    {
        if chain_id == POLYGON {
            return Some(
                ContractConfig {
                    exchange: polygon_exchange(),
                    collateral: polygon_collateral(),
                    conditional_tokens: polygon_conditional_tokens(),
                    neg_risk_exchange: neg_risk_exchange(),
                    neg_risk_collateral: polygon_collateral(),
                    neg_risk_conditional_tokens: polygon_conditional_tokens(),
                    neg_risk_adapter: neg_risk_adapter(),
                },
            );
        } else if chain_id == AMOY {
            return Some(
                ContractConfig {
                    exchange: amoy_exchange(),
                    collateral: amoy_collateral(),
                    conditional_tokens: amoy_conditional_tokens(),
                    neg_risk_exchange: neg_risk_exchange(),
                    neg_risk_collateral: amoy_collateral(),
                    neg_risk_conditional_tokens: amoy_conditional_tokens(),
                    neg_risk_adapter: neg_risk_adapter(),
                },
            );
        }
        None
    }

    /// The contract that splits and merges positions, and the collateral.
    pub open spec fn ctf_and_collateral(&self, neg_risk: bool) -> (Address, Address) {
        if neg_risk {
            (self.neg_risk_adapter, self.neg_risk_collateral)
        } else {
            (self.conditional_tokens, self.collateral)
        }
    }

    /// The exchange.
    pub open spec fn exchange_for(&self, neg_risk: bool) -> Address {
        if neg_risk {
            self.neg_risk_exchange
        } else {
            self.exchange
        }
    }

    /// The contract that holds the positions.
    pub open spec fn positions_for(&self, neg_risk: bool) -> Address {
        if neg_risk {
            self.neg_risk_conditional_tokens
        } else {
            self.conditional_tokens
        }
    }

    /// The contract that splits and merges positions, and the collateral.
    ///
    /// For negative risk the former is the __adapter__ in front of the
    /// conditional tokens. Approvals are given on the conditional tokens
    /// themselves.
    pub fn get_ctf_and_collateral(&self, neg_risk: bool) -> (pair: (Address, Address))
        ensures
            pair == self.ctf_and_collateral(neg_risk),
    {
        if neg_risk {
            (self.neg_risk_adapter, self.neg_risk_collateral)
        } else {
            (self.conditional_tokens, self.collateral)
        }
    }

    /// The exchange.
    pub fn get_exchange(&self, neg_risk: bool) -> (a: Address)
        ensures
            a == self.exchange_for(neg_risk),
    {
        if neg_risk {
            self.neg_risk_exchange
        } else {
            self.exchange
        }
    }
}

/// On every supported chain both kinds of market have the same collateral,
/// and their positions are held by the same contract.
pub proof fn kinds_share_collateral(chain_id: u64, config: ContractConfig)
    requires
        config.of_chain(chain_id),
    ensures
        config.ctf_and_collateral(true).1 == config.ctf_and_collateral(false).1,
        config.positions_for(true) == config.positions_for(false),
{
    text::hex_reads_back(config.collateral@);
    text::hex_reads_back(config.neg_risk_collateral@);
    text::hex_reads_back(config.conditional_tokens@);
    text::hex_reads_back(config.neg_risk_conditional_tokens@);
    primitives::address_bytes_determine(config.collateral, config.neg_risk_collateral);
    primitives::address_bytes_determine(
        config.conditional_tokens,
        config.neg_risk_conditional_tokens,
    );
}

/// A transaction that is sent to a contract.
#[derive(Debug, Clone, Copy)]
pub enum ContractCall {
    SplitPosition {
        contract: Address,
        collateral: Address,
        parent_collection_id: B256,
        condition_id: B256,
        partition: [U256; 2],
        amount: U256,
    },
    MergePositions {
        contract: Address,
        collateral: Address,
        parent_collection_id: B256,
        condition_id: B256,
        partition: [U256; 2],
        amount: U256,
    },
    RedeemPositions {
        contract: Address,
        collateral: Address,
        parent_collection_id: B256,
        condition_id: B256,
        index_sets: [U256; 2],
    },
    /// Lets `spender` take up to `amount` of the sender's tokens.
    Approve { contract: Address, spender: Address, amount: U256 },
    /// Lets `operator` take all of the sender's positions, or no longer.
    SetApprovalForAll { contract: Address, operator: Address, approved: bool },
}

/// Whether these are the index sets of a market's two outcomes: one and two.
pub open spec fn is_partition(sets: [U256; 2]) -> bool {
    sets[0]@ == 1 && sets[1]@ == 2
}

/// The index sets of a market's two outcomes.
pub fn polymarket_partition() -> (sets: [U256; 2])
    ensures
        is_partition(sets),
{
    [U256::from_u64(POLYMARKET_PARTITION[0]), U256::from_u64(POLYMARKET_PARTITION[1])]
}

/// Whether all bytes are zero.
pub open spec fn is_zero(b: Seq<u8>) -> bool {
    forall|i: int| 0 <= i < b.len() ==> #[trigger] b[i] == 0
}

impl ContractCall {
    /// Whether this splits `shares` of collateral into both positions.
    pub open spec fn is_split(
        &self,
        config: ContractConfig,
        neg_risk: bool,
        condition: B256,
        shares: U256,
    ) -> bool {
        match self {
            ContractCall::SplitPosition {
                contract,
                collateral,
                parent_collection_id,
                condition_id,
                partition,
                amount,
            } => {
                &&& (*contract, *collateral) == config.ctf_and_collateral(neg_risk)
                &&& is_zero(parent_collection_id@)
                &&& *condition_id == condition
                &&& is_partition(*partition)
                &&& *amount == shares
            },
            _ => false,
        }
    }

    /// Whether this merges `shares` of both positions into collateral.
    pub open spec fn is_merge(
        &self,
        config: ContractConfig,
        neg_risk: bool,
        condition: B256,
        shares: U256,
    ) -> bool {
        match self {
            ContractCall::MergePositions {
                contract,
                collateral,
                parent_collection_id,
                condition_id,
                partition,
                amount,
            } => {
                &&& (*contract, *collateral) == config.ctf_and_collateral(neg_risk)
                &&& is_zero(parent_collection_id@)
                &&& *condition_id == condition
                &&& is_partition(*partition)
                &&& *amount == shares
            },
            _ => false,
        }
    }

    /// Whether this redeems both positions.
    pub open spec fn is_redeem(
        &self,
        config: ContractConfig,
        neg_risk: bool,
        condition: B256,
    ) -> bool {
        match self {
            ContractCall::RedeemPositions {
                contract,
                collateral,
                parent_collection_id,
                condition_id,
                index_sets,
            } => {
                &&& (*contract, *collateral) == config.ctf_and_collateral(neg_risk)
                &&& is_zero(parent_collection_id@)
                &&& *condition_id == condition
                &&& is_partition(*index_sets)
            },
            _ => false,
        }
    }

    /// Whether this lets `taker` take tokens up to the largest number there is.
    pub open spec fn is_approve(&self, token: Address, taker: Address) -> bool {
        match self {
            ContractCall::Approve { contract, spender, amount } => {
                &&& *contract == token
                &&& *spender == taker
                &&& amount@ == primitives::u256_limit() - 1
            },
            _ => false,
        }
    }

    /// Whether this lets `taker` take all positions.
    pub open spec fn is_approve_all(&self, positions: Address, taker: Address) -> bool {
        *self == (ContractCall::SetApprovalForAll {
            contract: positions,
            operator: taker,
            approved: true,
        })
    }
}

/// A question to a contract.
#[derive(Debug, Clone, Copy)]
pub enum ContractQuery {
    /// How many tokens `owner` has.
    Collateral { contract: Address, owner: Address },
    /// How much of a position `owner` has.
    Position { contract: Address, owner: Address, position_id: U256 },
}

/// Whom a signature is meant for.
#[derive(Debug, Clone, Copy)]
pub struct SigningDomain {
    pub name: &'static str,
    pub version: &'static str,
    pub chain_id: u64,
    pub verifying_contract: Option<Address>,
}

/// A message to be signed, and whom its signature is meant for.
#[derive(Debug, Clone)]
pub struct TypedData<T> {
    pub domain: SigningDomain,
    pub message: T,
}

/// The statement by which the owner of a wallet asks for credentials.
#[derive(Debug, Clone)]
pub struct ClobAuth {
    pub address: Address,
    pub timestamp: String,
    pub nonce: U256,
    pub message: String,
}

/// An order, as the exchange's contract reads it.
#[derive(Debug, Clone, Copy)]
pub struct Order {
    pub salt: U256,
    pub maker: Address,
    pub signer: Address,
    pub taker: Address,
    pub token_id: U256,
    pub maker_amount: U256,
    pub taker_amount: U256,
    pub expiration: U256,
    pub nonce: U256,
    pub fee_rate_bps: U256,
    pub side: u8,
    pub signature_type: u8,
}

/// What is signed by the owner of a wallet who asks for credentials. It names
/// Polygon, whatever chain the orders are for.
pub fn clob_auth_message(address: Address, timestamp: String, nonce: U256) -> (data: TypedData<
    ClobAuth,
>)
    ensures
        data.message.address == address,
        data.message.timestamp == timestamp,
        data.message.nonce == nonce,
        data.message.message@ == "This message attests that I control the given wallet"@,
        data.domain.name@ == "ClobAuthDomain"@,
        data.domain.version@ == "1"@,
        data.domain.chain_id == POLYGON,
        data.domain.verifying_contract is None,
{
    TypedData {
        domain: SigningDomain {
            name: "ClobAuthDomain",
            version: "1",
            chain_id: POLYGON,
            verifying_contract: None,
        },
        message: ClobAuth {
            address,
            timestamp,
            nonce,
            message: "This message attests that I control the given wallet".to_owned(),
        },
    }
}

/// What is signed by the maker of an order.
pub fn order_message(order: Order, chain_id: u64, verifying_contract: Address) -> (data: TypedData<
    Order,
>)
    ensures
        data.message == order,
        data.domain.name@ == "Polymarket CTF Exchange"@,
        data.domain.version@ == "1"@,
        data.domain.chain_id == chain_id,
        data.domain.verifying_contract == Some(verifying_contract),
{
    TypedData {
        domain: SigningDomain {
            name: "Polymarket CTF Exchange",
            version: "1",
            chain_id,
            verifying_contract: Some(verifying_contract),
        },
        message: order,
    }
}

/// Where the contracts stand on each chain. The exchange has contracts on
/// Polygon and on Amoy, and on no other chain.
pub proof fn contracts_of_each_chain(chain_id: u64, config: Option<ContractConfig>)
    requires
        call_ensures(ContractConfig::from_chain_id, (chain_id,), config),
    ensures
        config is Some <==> chain_id == 137 || chain_id == 80002,
        config matches Some(c) ==> {
            let (exchange, collateral, tokens) = if chain_id == 137 {
                (
                    "4bfb41d5b3570defd03c39a9a4d8de6bd8b8982e"@,
                    "2791bca1f2de4661ed88a30c99a7a9449aa84174"@,
                    "4d97dcd97ec945f40cf65f87097ace5ea0476045"@,
                )
            } else {
                (
                    "dfe02eb6733538f8ea35d585af8de5958ad99e40"@,
                    "9c4e1703476e875070ee25b56a58b008cfb8fa78"@,
                    "69308fb512518e39f9b16112fa8d994f4e2bf8bb"@,
                )
            };
            &&& text::hex(c.exchange@) == exchange
            &&& text::hex(c.collateral@) == collateral
            &&& text::hex(c.neg_risk_collateral@) == collateral
            &&& text::hex(c.conditional_tokens@) == tokens
            &&& text::hex(c.neg_risk_conditional_tokens@) == tokens
            &&& text::hex(c.neg_risk_exchange@) == "c5d563a36ae78145c45a50134d48a1215220f80a"@
            &&& text::hex(c.neg_risk_adapter@) == "d91e80cf2e7be2e162c6513ced06f1dd0da35296"@
        },
{
}

/// Markets with negative risk are traded on the exchange for them and split by
/// the adapter; all others are traded on the plain exchange and split by the
/// conditional tokens.
pub proof fn contracts_of_each_kind(
    config: ContractConfig,
    neg_risk: bool,
    pair: (Address, Address),
    exchange: Address,
)
    requires
        call_ensures(ContractConfig::get_ctf_and_collateral, (&config, neg_risk), pair),
        call_ensures(ContractConfig::get_exchange, (&config, neg_risk), exchange),
    ensures
        neg_risk ==> {
            &&& pair.0 == config.neg_risk_adapter
            &&& pair.1 == config.neg_risk_collateral
            &&& exchange == config.neg_risk_exchange
        },
        !neg_risk ==> {
            &&& pair.0 == config.conditional_tokens
            &&& pair.1 == config.collateral
            &&& exchange == config.exchange
        },
{
}

/// The index sets of a market's two outcomes are the lowest bit for the first
/// outcome and the next one for the second.
pub proof fn partition_is_of_two_outcomes(sets: [U256; 2])
    requires
        call_ensures(polymarket_partition, (), sets),
    ensures
        sets[0]@ == 1,
        sets[1]@ == 2,
{
}

} // verus!
