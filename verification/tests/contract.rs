use polymarket_client::client::api::{APIError, ApiCreds, ClobClient};
use polymarket_client::client::contract::{
    AMOY, ContractCall, ContractConfig, ContractQuery, POLYGON, POLYMARKET_PARTITION,
    clob_auth_message, polymarket_partition,
};
use polymarket_client::primitives::{Address, B256, F64, Instant, U256};
use polymarket_client::{Market, PolymarketClient, PolymarketClientError};

fn creds() -> ApiCreds {
    ApiCreds {
        api_key: "key".to_owned(),
        secret: "--9zZWNyZXQga2V5".to_owned(),
        passphrase: "pass".to_owned(),
    }
}

fn client(chain_id: u64) -> PolymarketClient {
    let clob = ClobClient::new(Address::zero(), creds());
    PolymarketClient::connect_with_provider(true, chain_id, Ok(clob)).unwrap()
}

fn market(neg_risk: bool) -> Market {
    Market {
        market_id: 1,
        question: String::new(),
        condition_id: B256 { bytes: [3; 32] },
        clob_token_ids: [U256::from_u64(1), U256::from_u64(2)],
        start_date: Instant { secs: 0, nanos: 0 },
        end_date: None,
        rewards_max_spread: F64 { bits: 0 },
        rewards_min_size: F64 { bits: 0 },
        reward_usdc: None,
        tick_size: F64 { bits: 0.01f64.to_bits() },
        order_min_size: 1,
        neg_risk,
    }
}

#[test]
fn contracts_on_polygon() {
    let config = ContractConfig::from_chain_id(137).unwrap();
    assert_eq!(config.exchange.to_checksum(), "0x4bFb41d5B3570DeFd03C39a9A4D8dE6Bd8B8982E");
    assert_eq!(config.collateral.to_checksum(), "0x2791Bca1f2de4661ED88A30C99A7a9449Aa84174");
    assert_eq!(
        config.conditional_tokens.to_checksum(),
        "0x4D97DCd97eC945f40cF65F87097ACe5EA0476045"
    );
    assert_eq!(
        config.neg_risk_exchange.to_checksum(),
        "0xC5d563A36AE78145C45a50134d48A1215220f80a"
    );
    assert_eq!(
        config.neg_risk_adapter.to_checksum(),
        "0xd91E80cF2E7be2e162c6513ceD06f1dD0dA35296"
    );
    assert!(config.neg_risk_collateral == config.collateral);
    assert!(config.neg_risk_conditional_tokens == config.conditional_tokens);
}

#[test]
fn contracts_on_amoy() {
    let config = ContractConfig::from_chain_id(80002).unwrap();
    assert_eq!(config.exchange.to_hex(), "0xdfe02eb6733538f8ea35d585af8de5958ad99e40");
    assert_eq!(config.collateral.to_hex(), "0x9c4e1703476e875070ee25b56a58b008cfb8fa78");
    assert_eq!(
        config.conditional_tokens.to_hex(),
        "0x69308fb512518e39f9b16112fa8d994f4e2bf8bb"
    );
    assert_eq!(
        config.neg_risk_exchange.to_hex(),
        "0xc5d563a36ae78145c45a50134d48a1215220f80a"
    );
    assert_eq!(config.neg_risk_adapter.to_hex(), "0xd91e80cf2e7be2e162c6513ced06f1dd0da35296");
    assert!(config.neg_risk_collateral == config.collateral);
    assert!(config.neg_risk_conditional_tokens == config.conditional_tokens);
}

#[test]
fn no_contracts_elsewhere() {
    for chain_id in [0, 1, 136, 138, 80001, 80003, u64::MAX] {
        assert!(ContractConfig::from_chain_id(chain_id).is_none());
    }
}

#[test]
fn connecting_fails_for_the_first_reason() {
    let clob = || Ok(ClobClient::new(Address::zero(), creds()));
    assert!(matches!(
        PolymarketClient::connect_with_provider(false, 1, clob()),
        Err(PolymarketClientError::SignerNotCredentialed)
    ));
    assert!(matches!(
        PolymarketClient::connect_with_provider(true, 1, Err(APIError::ErrorStatusCode(500))),
        Err(PolymarketClientError::InvalidChain(1))
    ));
    assert!(matches!(
        PolymarketClient::connect_with_provider(true, 137, Err(APIError::ErrorStatusCode(500))),
        Err(PolymarketClientError::ClobClientError(APIError::ErrorStatusCode(500)))
    ));
    assert!(PolymarketClient::check_signer(true).is_ok());
    assert!(PolymarketClient::check_signer(false).is_err());
    assert!(PolymarketClient::check_chain(AMOY).is_ok());
    assert!(matches!(
        PolymarketClient::check_chain(5),
        Err(PolymarketClientError::InvalidChain(5))
    ));
}

#[test]
fn index_sets() {
    assert_eq!(POLYMARKET_PARTITION, [1, 2]);
    assert_eq!(polymarket_partition(), [U256::from_u64(1), U256::from_u64(2)]);
}

#[test]
fn splitting_and_merging() {
    let client = client(POLYGON);
    let config = client.contract_config;
    for neg_risk in [false, true] {
        let ctf = if neg_risk { config.neg_risk_adapter } else { config.conditional_tokens };
        let amount = U256::from_u64(7_000_000);
        match client.split(&market(neg_risk), amount) {
            ContractCall::SplitPosition {
                contract,
                collateral,
                parent_collection_id,
                condition_id,
                partition,
                amount: split,
            } => {
                assert_eq!(contract, ctf);
                assert_eq!(collateral, config.collateral);
                assert_eq!(parent_collection_id, B256::zero());
                assert_eq!(condition_id, B256 { bytes: [3; 32] });
                assert_eq!(partition, [U256::from_u64(1), U256::from_u64(2)]);
                assert_eq!(split, amount);
            }
            other => panic!("{other:?}"),
        }
        match client.merge(&market(neg_risk), amount) {
            ContractCall::MergePositions { contract, collateral, amount: merged, .. } => {
                assert_eq!((contract, collateral, merged), (ctf, config.collateral, amount));
            }
            other => panic!("{other:?}"),
        }
        match client.redeem(&market(neg_risk)) {
            ContractCall::RedeemPositions { contract, condition_id, index_sets, .. } => {
                assert_eq!(contract, ctf);
                assert_eq!(condition_id, B256 { bytes: [3; 32] });
                assert_eq!(index_sets, polymarket_partition());
            }
            other => panic!("{other:?}"),
        }
    }
}

fn approval(call: &ContractCall) -> (Address, Address) {
    match call {
        ContractCall::Approve { contract, spender, amount } => {
            assert_eq!(*amount, U256::max_value());
            (*contract, *spender)
        }
        ContractCall::SetApprovalForAll { contract, operator, approved } => {
            assert!(*approved);
            (*contract, *operator)
        }
        other => panic!("{other:?}"),
    }
}

#[test]
fn approvals() {
    let client = client(POLYGON);
    let c = client.contract_config;
    let calls = client.approve_tokens(false);
    assert_eq!(
        calls.iter().map(approval).collect::<Vec<_>>(),
        vec![
            (c.collateral, c.exchange),
            (c.collateral, c.conditional_tokens),
            (c.conditional_tokens, c.exchange),
        ]
    );
    assert!(matches!(calls[1], ContractCall::Approve { .. }));
    assert!(matches!(calls[2], ContractCall::SetApprovalForAll { .. }));
    let calls = client.approve_tokens(true);
    assert_eq!(
        calls.iter().map(approval).collect::<Vec<_>>(),
        vec![
            (c.neg_risk_collateral, c.neg_risk_exchange),
            (c.neg_risk_collateral, c.neg_risk_adapter),
            (c.neg_risk_conditional_tokens, c.neg_risk_exchange),
            (c.neg_risk_conditional_tokens, c.neg_risk_adapter),
        ]
    );
}

#[test]
fn balances() {
    let mut client = client(AMOY);
    let owner = Address { bytes: [9; 20] };
    client.clob_client.address = Address { bytes: [8; 20] };
    assert!(matches!(
        client.collateral_balance(),
        ContractQuery::Collateral { contract, owner: o }
            if contract == client.contract_config.collateral && o == Address { bytes: [8; 20] }
    ));
    let id = U256::from_u64(77);
    assert!(matches!(
        client.ctf_balance(owner, id, true),
        ContractQuery::Position { contract, owner: o, position_id }
            if contract == client.contract_config.neg_risk_adapter && o == owner
                && position_id == id
    ));
    assert!(matches!(
        client.ctf_balance(owner, id, false),
        ContractQuery::Position { contract, .. }
            if contract == client.contract_config.conditional_tokens
    ));
}

#[test]
fn statement_of_a_wallet() {
    let data = clob_auth_message(Address { bytes: [1; 20] }, "17".to_owned(), U256::from_u64(3));
    assert_eq!(data.message.address, Address { bytes: [1; 20] });
    assert_eq!(data.message.timestamp, "17");
    assert_eq!(data.message.nonce, U256::from_u64(3));
    assert_eq!(
        data.message.message,
        "This message attests that I control the given wallet"
    );
    assert_eq!((data.domain.name, data.domain.version), ("ClobAuthDomain", "1"));
    assert_eq!(data.domain.chain_id, 137);
    assert!(data.domain.verifying_contract.is_none());
}
