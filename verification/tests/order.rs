use polymarket_client::client::api::{APIError, ApiCreds, ClobClient};
use polymarket_client::client::contract::ContractConfig;
use polymarket_client::client::order::{
    AmountPlan, AmountRule, Basis, Direction, OrderDraft, RoundConfig, amount_plan,
    create_signed_order, draft_order, expiration_of, frame_order, order_ticket,
    round_config,
};
use polymarket_client::primitives::{Address, B256, F64, Instant, U256};
use polymarket_client::{
    Market, OrderType, PolymarketClient, PolymarketOrder, Side, get_current_unix_time_secs,
};

fn f(x: f64) -> F64 {
    F64 { bits: x.to_bits() }
}

fn market(tick: f64) -> Market {
    Market {
        market_id: 1,
        question: String::new(),
        condition_id: B256::zero(),
        clob_token_ids: [U256::from_u64(1), U256::from_u64(2)],
        start_date: Instant { secs: 0, nanos: 0 },
        end_date: None,
        rewards_max_spread: f(0.0),
        rewards_min_size: f(0.0),
        reward_usdc: None,
        tick_size: f(tick),
        order_min_size: 1,
        neg_risk: true,
    }
}

#[test]
fn rounding_by_tick() {
    for (tick, price, amount) in [(0.1, 1, 3), (0.01, 2, 4), (0.001, 3, 5), (0.0001, 4, 6)] {
        assert_eq!(round_config(f(tick)), Some(RoundConfig { price, size: 2, amount }));
    }
}

#[test]
fn unknown_ticks() {
    for tick in [0.0, -0.0, 1.0, 0.05, -0.1, 0.00001, f64::NAN, f64::INFINITY, 0.1f32 as f64] {
        assert_eq!(round_config(f(tick)), None);
        assert_eq!(amount_plan(OrderType::GTC, Side::BUY, f(tick)), None);
    }
    assert_eq!(round_config(f(0.1 + f64::EPSILON / 8.0)), None);
}

fn rule(basis: Basis, direction: Direction, decimals: u8) -> AmountRule {
    AmountRule { basis, direction, decimals }
}

#[test]
fn amounts_of_limit_orders() {
    let tokens = rule(Basis::Size, Direction::Nearest, 2);
    let collateral = rule(Basis::RoundedSizeTimesPrice, Direction::Down, 5);
    for order_type in [OrderType::GTC, OrderType::GTD] {
        assert_eq!(
            amount_plan(order_type, Side::BUY, f(0.001)),
            Some(AmountPlan { price_decimals: 3, maker: collateral, taker: tokens })
        );
        assert_eq!(
            amount_plan(order_type, Side::SELL, f(0.001)),
            Some(AmountPlan { price_decimals: 3, maker: tokens, taker: collateral })
        );
    }
}

#[test]
fn amounts_of_market_orders() {
    assert_eq!(
        amount_plan(OrderType::FOK, Side::BUY, f(0.01)),
        Some(AmountPlan {
            price_decimals: 2,
            maker: rule(Basis::SizeTimesPrice, Direction::Up, 2),
            taker: rule(Basis::Size, Direction::Nearest, 4),
        })
    );
    assert_eq!(
        amount_plan(OrderType::FOK, Side::SELL, f(0.01)),
        Some(AmountPlan {
            price_decimals: 2,
            maker: rule(Basis::Size, Direction::Nearest, 2),
            taker: rule(Basis::SizeTimesPrice, Direction::Down, 4),
        })
    );
}

#[test]
fn tickets_for_orders() {
    let orders = [
        PolymarketOrder::Bid { token_id: U256::from_u64(1), price: f(0.5), size: f(3.0) },
        PolymarketOrder::Ask { token_id: U256::from_u64(2), price: f(0.6), size: f(4.0) },
    ];
    let gtc = PolymarketClient::post_gtc_orders(&market(0.01), &orders).unwrap();
    assert_eq!(gtc.len(), 2);
    assert_eq!(gtc[0].order_type, OrderType::GTC);
    assert_eq!((gtc[0].token_id, gtc[0].side), (U256::from_u64(1), Side::BUY));
    assert_eq!((gtc[0].price, gtc[0].size, gtc[0].neg_risk), (f(0.5), f(3.0), true));
    assert_eq!(Some(gtc[0].plan), amount_plan(OrderType::GTC, Side::BUY, f(0.01)));
    assert_eq!((gtc[1].token_id, gtc[1].side), (U256::from_u64(2), Side::SELL));
    let fok = PolymarketClient::post_fok_orders(&market(0.01), &orders).unwrap();
    assert_eq!(fok[1].order_type, OrderType::FOK);
    assert_eq!(Some(fok[1].plan), amount_plan(OrderType::FOK, Side::SELL, f(0.01)));
    assert!(PolymarketClient::post_gtc_orders(&market(0.5), &orders).is_none());
    assert!(PolymarketClient::post_fok_orders(&market(0.5), &orders).is_none());
    assert!(PolymarketClient::post_fok_orders(&market(0.5), &[]).unwrap().is_empty());
}

#[test]
fn expirations() {
    assert_eq!(expiration_of(100, 0), 0);
    assert_eq!(expiration_of(100, 60), 160);
    assert_eq!(expiration_of(u64::MAX, 0), 0);
    let draft = |offset: u64| {
        draft_order(
            Address::zero(),
            U256::zero(),
            Side::BUY,
            U256::zero(),
            U256::zero(),
            offset,
        )
    };
    assert_eq!(draft(0).unwrap().expiration, 0);
    let before = get_current_unix_time_secs().unwrap();
    let expiration = draft(60).unwrap().expiration;
    let after = get_current_unix_time_secs().unwrap();
    assert!(before + 60 <= expiration && expiration <= after + 60);
    assert!(draft(u64::MAX).is_none());
}

#[test]
fn salts_are_drawn() {
    let draft = || {
        draft_order(Address::zero(), U256::zero(), Side::BUY, U256::zero(), U256::zero(), 0)
            .unwrap()
            .salt
    };
    let first = draft();
    assert!((0..10).any(|_| draft() != first));
}

fn draft() -> OrderDraft {
    OrderDraft {
        salt: 4_000_000_000,
        maker: Address {
            bytes: [
                0x5a, 0xae, 0xb6, 0x05, 0x3f, 0x3e, 0x94, 0xc9, 0xb9, 0xa0, 0x9f, 0x33, 0x66,
                0x94, 0x35, 0xe7, 0xef, 0x1b, 0xea, 0xed,
            ],
        },
        token_id: U256::max_value(),
        maker_amount: U256::from_u64(5_000_000),
        taker_amount: U256::from_u64(10_000_000),
        expiration: 1700000060,
        side: Side::SELL,
    }
}

#[test]
fn what_the_contract_reads() {
    let order = draft().order();
    assert_eq!(order.salt, U256::from_u64(4_000_000_000));
    assert_eq!(order.maker, draft().maker);
    assert_eq!(order.signer, draft().maker);
    assert_eq!(order.taker, Address::zero());
    assert_eq!(order.token_id, U256::max_value());
    assert_eq!(order.maker_amount, U256::from_u64(5_000_000));
    assert_eq!(order.taker_amount, U256::from_u64(10_000_000));
    assert_eq!(order.expiration, U256::from_u64(1700000060));
    assert_eq!(order.nonce, U256::zero());
    assert_eq!(order.fee_rate_bps, U256::zero());
    assert_eq!((order.side, order.signature_type), (1, 0));
}

#[test]
fn what_is_signed() {
    for (chain_id, neg_risk) in [(137, false), (137, true), (80002, false), (80002, true)] {
        let data = draft().to_sign(chain_id, neg_risk).unwrap();
        let config = ContractConfig::from_chain_id(chain_id).unwrap();
        assert_eq!((data.domain.name, data.domain.version), ("Polymarket CTF Exchange", "1"));
        assert_eq!(data.domain.chain_id, chain_id);
        assert_eq!(
            data.domain.verifying_contract,
            Some(if neg_risk { config.neg_risk_exchange } else { config.exchange })
        );
        assert_eq!(data.message.token_id, U256::max_value());
    }
    assert!(matches!(draft().to_sign(1, false), Err(APIError::InvalidChain(1))));
}

#[test]
fn what_is_submitted() {
    let mut signature = [0u8; 65];
    signature[0] = 0xde;
    signature[64] = 0x1b;
    let order = create_signed_order(&draft(), &signature);
    assert_eq!(order.salt, 4_000_000_000);
    assert_eq!(order.maker, "0x5aAeb6053F3E94C9b9A09f33669435E7Ef1BeAed");
    assert_eq!(order.signer, order.maker);
    assert_eq!(order.taker, "0x0000000000000000000000000000000000000000");
    assert_eq!(order.token_id, U256::max_value().to_decimal());
    assert_eq!((order.maker_amount.as_str(), order.taker_amount.as_str()), ("5000000", "10000000"));
    assert_eq!(order.expiration, "1700000060");
    assert_eq!((order.nonce.as_str(), order.fee_rate_bps.as_str()), ("0", "0"));
    assert_eq!((order.side.as_str(), order.signature_type), ("SELL", 0));
    assert_eq!(order.signature, format!("0xde{}1b", "00".repeat(63)));
}

#[test]
fn submitted_numbers_are_read_back() {
    let (order, submitted) = (draft().order(), create_signed_order(&draft(), &[1; 65]));
    assert_eq!(U256::from_text(&submitted.token_id), Some(order.token_id));
    assert_eq!(U256::from_text(&submitted.maker_amount), Some(order.maker_amount));
    assert_eq!(U256::from_text(&submitted.taker_amount), Some(order.taker_amount));
    assert_eq!(U256::from_text(&submitted.expiration), Some(order.expiration));
}

#[test]
fn orders_of_an_owner() {
    let client = ClobClient::new(
        draft().maker,
        ApiCreds {
            api_key: "key".to_owned(),
            secret: String::new(),
            passphrase: String::new(),
        },
    );
    let orders = [PolymarketOrder::Bid {
        token_id: U256::from_u64(1),
        price: f(0.5),
        size: f(3.0),
    }];
    let ticket = PolymarketClient::post_gtc_orders(&market(0.1), &orders).unwrap()[0];
    let draft = client.draft_order(&ticket, U256::from_u64(3), U256::from_u64(6));
    assert_eq!(draft.maker, client.address);
    assert_eq!((draft.token_id, draft.side), (U256::from_u64(1), Side::BUY));
    assert_eq!((draft.maker_amount, draft.taker_amount), (U256::from_u64(3), U256::from_u64(6)));
    assert_eq!(draft.expiration, 0);
    let gtc = client.create_gtc_order(&draft, &[2; 65]);
    assert_eq!((gtc.owner.as_str(), gtc.order_type, gtc.defer_exec), ("key", OrderType::GTC, false));
    assert_eq!(gtc.order.salt, draft.salt);
    assert_eq!(gtc.order.side, "BUY");
    for order_type in [OrderType::GTC, OrderType::FOK, OrderType::GTD] {
        let mut ticket = ticket;
        ticket.order_type = order_type;
        let order = client.create_order(&ticket, &draft, &[2; 65]);
        assert_eq!((order.owner.as_str(), order.order_type), ("key", order_type));
        assert_eq!((order.order.salt, order.defer_exec), (draft.salt, false));
    }
    let fok = client.create_fok_order(&draft, &[2; 65]);
    assert_eq!((fok.owner.as_str(), fok.order_type, fok.defer_exec), ("key", OrderType::FOK, false));
}

#[test]
fn orders_with_given_addresses() {
    let order = frame_order(&draft(), "m".to_owned(), "n".to_owned(), &[0; 65]);
    assert_eq!((order.maker.as_str(), order.signer.as_str()), ("m", "m"));
    assert_eq!(order.taker, "n");
    assert_eq!(order.signature, format!("0x{}", "00".repeat(65)));
}

#[test]
fn tickets_by_their_parts() {
    let ticket = |tick: f64| {
        order_ticket(OrderType::FOK, U256::from_u64(7), true, f(0.5), Side::SELL, f(3.0), f(tick))
    };
    let made = ticket(0.01).unwrap();
    assert_eq!((made.order_type, made.token_id, made.neg_risk), (OrderType::FOK, U256::from_u64(7), true));
    assert_eq!((made.side, made.price, made.size), (Side::SELL, f(0.5), f(3.0)));
    assert_eq!(Some(made.plan), amount_plan(OrderType::FOK, Side::SELL, f(0.01)));
    assert!(ticket(0.02).is_none());
}
