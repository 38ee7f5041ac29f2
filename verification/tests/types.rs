use polymarket_client::api::{
    ClobRewards, HistoricalInterval, MarketResponse, PriceChange, PriceChangeResponse,
};
use polymarket_client::client::types::deser_hacks::{
    ListField, deser_empty_string_to_none, deser_empty_to_none, deserialize_inner_vec,
    deserialize_string_to_u64,
};
use polymarket_client::primitives::{B256, F64, Instant, U256};
use polymarket_client::{
    Market, MarketError, OrderType, PolymarketClient, PolymarketOrder, Side, TokenIndex,
};

fn f(x: f64) -> F64 {
    F64 { bits: x.to_bits() }
}

fn response() -> MarketResponse {
    MarketResponse {
        id: "512".to_owned(),
        closed: false,
        condition_id: format!("0x{}", "1f".repeat(32)),
        neg_risk: true,
        clob_token_ids: vec!["11".to_owned(), "0xff".to_owned()],
        question: "Will it rain?".to_owned(),
        end_date: Some("2024-02-29T12:34:56Z".to_owned()),
        start_date: "2024-02-29T14:34:56.5+02:00".to_owned(),
        liquidity_clob: f(1.0),
        volume_clob: f(2.0),
        rewards_max_spread: f(3.5),
        rewards_min_size: f(20.0),
        clob_rewards: Some(vec![
            ClobRewards { rewards_daily_rate: 50 },
            ClobRewards { rewards_daily_rate: 60 },
        ]),
        order_price_min_tick_size: f(0.01),
        order_min_size: 5,
    }
}

fn defect(change: fn(&mut MarketResponse)) -> MarketError {
    let mut r = response();
    change(&mut r);
    Market::from_response(r).unwrap_err()
}

#[test]
fn market_from_its_metadata() {
    let market = Market::from_response(response()).unwrap();
    assert_eq!(market.market_id, 512);
    assert_eq!(market.question, "Will it rain?");
    assert_eq!(market.condition_id, B256 { bytes: [0x1f; 32] });
    assert_eq!(market.clob_token_ids, [U256::from_u64(11), U256::from_u64(255)]);
    assert_eq!(market.start_date, Instant { secs: 1709210096, nanos: 500_000_000 });
    assert_eq!(market.end_date, Some(Instant { secs: 1709210096, nanos: 0 }));
    assert_eq!(market.rewards_max_spread, f(3.5));
    assert_eq!(market.rewards_min_size, f(20.0));
    assert_eq!(market.reward_usdc, Some(50));
    assert_eq!(market.tick_size, f(0.01));
    assert_eq!(market.order_min_size, 5);
    assert!(market.neg_risk);
}

#[test]
fn market_without_end_or_rewards() {
    let mut r = response();
    r.end_date = None;
    r.clob_rewards = Some(vec![]);
    let market = Market::from_response(r).unwrap();
    assert_eq!(market.end_date, None);
    assert_eq!(market.reward_usdc, None);
    let mut r = response();
    r.clob_rewards = None;
    assert_eq!(Market::from_response(r).unwrap().reward_usdc, None);
}

#[test]
fn defects_of_metadata() {
    assert_eq!(defect(|r| r.id = "x".to_owned()), MarketError::MarketId);
    assert_eq!(defect(|r| r.condition_id = "0x12".to_owned()), MarketError::ConditionId);
    assert_eq!(defect(|r| r.clob_token_ids[1] = "z".to_owned()), MarketError::ClobTokenId);
    assert_eq!(defect(|r| r.clob_token_ids.push("1".to_owned())), MarketError::ClobTokenCount);
    assert_eq!(defect(|r| r.clob_token_ids.clear()), MarketError::ClobTokenCount);
    assert_eq!(defect(|r| r.start_date = "yesterday".to_owned()), MarketError::StartDate);
    assert_eq!(defect(|r| r.start_date = "2024-02-29".to_owned()), MarketError::StartDate);
    assert_eq!(defect(|r| r.end_date = Some(String::new())), MarketError::EndDate);
}

#[test]
fn the_first_defect_counts() {
    assert_eq!(
        defect(|r| {
            r.end_date = Some(String::new());
            r.clob_token_ids = vec!["z".to_owned()];
        }),
        MarketError::ClobTokenId
    );
    assert_eq!(
        defect(|r| {
            r.condition_id = String::new();
            r.id = String::new();
        }),
        MarketError::MarketId
    );
}

#[test]
fn many_markets() {
    let markets = PolymarketClient::read_markets(vec![response(), response()]).unwrap();
    assert_eq!(markets.len(), 2);
    let mut second = response();
    second.id = String::new();
    let mut third = response();
    third.start_date = String::new();
    assert_eq!(
        PolymarketClient::read_markets(vec![response(), second, third]).unwrap_err(),
        MarketError::MarketId
    );
    assert!(PolymarketClient::read_markets(vec![]).unwrap().is_empty());
}

#[test]
fn tokens_and_their_indices() {
    let market = Market::from_response(response()).unwrap();
    for index in [TokenIndex::Zero, TokenIndex::One] {
        assert_eq!(market.token_index(market.token_id(index)), Some(index));
    }
    assert_eq!(market.token_index(U256::from_u64(12)), None);
}

#[test]
fn equal_tokens_have_the_first_index() {
    let mut market = Market::from_response(response()).unwrap();
    market.clob_token_ids[1] = market.clob_token_ids[0];
    assert_eq!(market.token_index(market.token_id(TokenIndex::One)), Some(TokenIndex::Zero));
}

#[test]
fn sides_and_order_types() {
    assert_eq!(Side::BUY.opposite(), Side::SELL);
    assert_eq!(Side::SELL.opposite(), Side::BUY);
    assert_eq!(Side::BUY.opposite().opposite(), Side::BUY);
    assert_eq!((Side::BUY.as_str(), Side::SELL.as_str()), ("BUY", "SELL"));
    assert_eq!((Side::BUY.as_u8(), Side::SELL.as_u8()), (0, 1));
    assert_eq!(OrderType::GTC.as_str(), "GTC");
    assert_eq!(OrderType::FOK.as_str(), "FOK");
    assert_eq!(OrderType::GTD.as_str(), "GTD");
}

#[test]
fn parts_of_orders() {
    let token_id = U256::from_u64(9);
    let bid = PolymarketOrder::Bid { token_id, price: f(0.5), size: f(10.0) };
    let ask = PolymarketOrder::Ask { token_id, price: f(0.6), size: f(20.0) };
    assert_eq!(bid.into_parts(), (token_id, Side::BUY, f(0.5), f(10.0)));
    assert_eq!(ask.into_parts(), (token_id, Side::SELL, f(0.6), f(20.0)));
}

#[test]
fn query_parameters_of_spans() {
    let one = |value: &str| vec![("interval".to_owned(), value.to_owned())];
    assert_eq!(HistoricalInterval::Minute.as_query_param(), one("1m"));
    assert_eq!(HistoricalInterval::Hour.as_query_param(), one("1h"));
    assert_eq!(HistoricalInterval::SixHour.as_query_param(), one("6h"));
    assert_eq!(HistoricalInterval::Day.as_query_param(), one("1d"));
    assert_eq!(HistoricalInterval::Week.as_query_param(), one("1w"));
    assert_eq!(HistoricalInterval::Max.as_query_param(), one("max"));
    assert_eq!(
        HistoricalInterval::Custom { start_ts: 5, end_ts: 1700000000 }.as_query_param(),
        vec![
            ("startTs".to_owned(), "5".to_owned()),
            ("endTs".to_owned(), "1700000000".to_owned()),
        ]
    );
}

fn change(asset: u64, price: f64) -> PriceChange {
    PriceChange {
        asset_id: U256::from_u64(asset),
        price: f(price),
        size: f(1.0),
        side: Side::BUY,
        hash: String::new(),
        best_bid: f(0.1),
        best_ask: f(0.9),
    }
}

#[test]
fn first_change_of_an_asset() {
    let changes = PriceChangeResponse {
        market: B256::zero(),
        price_changes: vec![change(1, 0.1), change(2, 0.2), change(2, 0.3)],
        timestamp: 0,
        event_type: "price_change".to_owned(),
    };
    assert_eq!(changes.for_asset(U256::from_u64(2)).unwrap().price, f(0.2));
    assert_eq!(changes.for_asset(U256::from_u64(1)).unwrap().price, f(0.1));
    assert!(changes.for_asset(U256::from_u64(3)).is_none());
}

#[test]
fn empty_fields() {
    assert_eq!(deser_empty_string_to_none(String::new()), None);
    assert_eq!(deser_empty_string_to_none("x".to_owned()), Some("x".to_owned()));
    assert_eq!(deser_empty_to_none(""), Ok(None));
    assert_eq!(deser_empty_to_none(&"11".repeat(32)), Ok(Some(B256 { bytes: [0x11; 32] })));
    assert!(deser_empty_to_none("11").is_err());
}

#[test]
fn lists_of_texts() {
    let texts = |v: &[&str]| v.iter().map(|s| s.to_string()).collect::<Vec<_>>();
    assert_eq!(
        deserialize_inner_vec(ListField::Array(vec![
            Some("a".to_owned()),
            None,
            Some("b".to_owned()),
        ])),
        Ok(texts(&["a", "", "b"]))
    );
    assert_eq!(
        deserialize_inner_vec(ListField::Text("[\"1\", \"2\\u0033\"]".to_owned())),
        Ok(texts(&["1", "23"]))
    );
    assert_eq!(
        deserialize_inner_vec(ListField::Text("[\"11\",\"\",\"a b\"]".to_owned())),
        deserialize_inner_vec(ListField::Array(vec![
            Some("11".to_owned()),
            Some(String::new()),
            Some("a b".to_owned()),
        ]))
    );
    assert_eq!(deserialize_inner_vec(ListField::Text("[]".to_owned())), Ok(vec![]));
    assert!(deserialize_inner_vec(ListField::Text("[1]".to_owned())).is_err());
    assert!(deserialize_inner_vec(ListField::Text("nonsense".to_owned())).is_err());
    assert_eq!(
        deserialize_inner_vec(ListField::Other),
        Err("expected array or stringified array".to_owned())
    );
}

#[test]
fn numbers_in_texts() {
    assert_eq!(deserialize_string_to_u64("1709210096000"), Ok(1709210096000));
    assert_eq!(
        deserialize_string_to_u64("1.5"),
        Err("invalid digit found in string".to_owned())
    );
}

#[test]
fn market_with_given_dates() {
    let at = Instant { secs: 5, nanos: 6 };
    let market = Market::with_dates(response(), Some(at), Some(at)).unwrap();
    assert_eq!((market.start_date, market.end_date), (at, Some(at)));
    let mut r = response();
    r.end_date = None;
    assert_eq!(Market::with_dates(r, Some(at), Some(at)).unwrap().end_date, None);
    assert_eq!(
        Market::with_dates(response(), None, None).unwrap_err(),
        MarketError::StartDate
    );
    assert_eq!(
        Market::with_dates(response(), Some(at), None).unwrap_err(),
        MarketError::EndDate
    );
}

#[test]
fn lists_with_escapes() {
    let read = |s: &str| deserialize_inner_vec(ListField::Text(s.to_owned()));
    let list = |v: &[&str]| Ok(v.iter().map(|s| s.to_string()).collect::<Vec<_>>());
    assert_eq!(read(r#"["a\"b\\c\/d\n"]"#), list(&["a\"b\\c/d\n"]));
    assert_eq!(read(r#"["\u0041\u00e9\b\f\r\t"]"#), list(&["A\u{e9}\u{8}\u{c}\r\t"]));
    assert_eq!(read(r#"["\uD83D\uDE00"]"#), list(&["\u{1F600}"]));
    assert_eq!(read(" \t[ \"a\"\r\n,\n\"\" ] \n"), list(&["a", ""]));
    assert_eq!(read("[\"\u{1F600}\u{7f}\"]"), list(&["\u{1F600}\u{7f}"]));
}

#[test]
fn texts_that_are_no_lists() {
    for s in [
        "", " ", "null", "1", "\"a\"", "{}", "[", "]", "[\"a\"", "[\"a]", "[\"a\",]", "[,]",
        "[\"a\" \"b\"]", "[\"a\"]]", "[\"a\"] x", "[null]", "[[\"a\"]]", "[\"\\x\"]",
        "[\"\\u12\"]", "[\"\\uD83D\"]", "[\"\\uDE00\"]", "[\"\\uD83D\\u0041\"]", "[\"\n\"]",
        "\u{feff}[]",
    ] {
        assert!(deserialize_inner_vec(ListField::Text(s.to_owned())).is_err(), "{s:?}");
    }
}
