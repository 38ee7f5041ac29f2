use polymarket_client::api::{
    LastTradePrice, MarketUpdate, OrderStatus, PriceChange, PriceChangeResponse, TickSizeChange,
    TradeStreamItem,
};
use polymarket_client::client::api::{ApiCreds, ClobClient};
use polymarket_client::client::ws::{
    Action, Backoff, Channel, Event, Multiplexers, Phase, PolymarketWSMessage, Received, RecvStep,
    Subscription, WSClientError, is_expected, market_client, message_step, multiplexer_step,
    receive, text_step, user_client,
};
use polymarket_client::primitives::{Address, B256, F64, U256};
use polymarket_client::{PolymarketClient, Side};

fn f(x: f64) -> F64 {
    F64 { bits: x.to_bits() }
}

fn id(n: u64) -> U256 {
    U256::from_u64(n)
}

fn hash(n: u8) -> B256 {
    B256 { bytes: [n; 32] }
}

fn creds() -> ApiCreds {
    ApiCreds {
        api_key: "key".to_owned(),
        secret: "YQ==".to_owned(),
        passphrase: "pass".to_owned(),
    }
}

fn price(asset: u64) -> LastTradePrice {
    LastTradePrice {
        asset_id: id(asset),
        event_type: "last_trade_price".to_owned(),
        fee_rate_bps: "0".to_owned(),
        market: hash(1),
        price: f(0.5),
        size: f(1.0),
        side: Side::BUY,
    }
}

fn trade(market: u8) -> TradeStreamItem {
    TradeStreamItem {
        asset_id: id(1),
        id: 5,
        last_update: String::new(),
        maker_orders: vec![],
        market: hash(market),
        matchtime: None,
        outcome: String::new(),
        owner: String::new(),
        price: f(0.5),
        side: Side::SELL,
        size: f(1.0),
        status: OrderStatus::MATCHED,
        taker_order_id: hash(2),
        timestamp: String::new(),
        trade_owner: String::new(),
    }
}

#[test]
fn urls_of_channels() {
    assert_eq!(
        Channel::Market(id(1)).url(),
        "wss://ws-subscriptions-clob.polymarket.com/ws/market"
    );
    assert_eq!(
        Channel::User(hash(1)).url(),
        "wss://ws-subscriptions-clob.polymarket.com/ws/user"
    );
}

#[test]
fn first_messages() {
    let message = Channel::Market(id(77)).into_handshake_message(&None);
    assert_eq!(message.assets_ids, Some(vec!["77".to_owned()]));
    assert_eq!(message.markets, None);
    assert_eq!(message.sub_type, "market");
    assert!(message.auth.is_none());
    let message = Channel::User(hash(0xab)).into_handshake_message(&Some(creds()));
    assert_eq!(message.markets, Some(vec![format!("0x{}", "ab".repeat(32))]));
    assert_eq!(message.assets_ids, None);
    assert_eq!(message.sub_type, "user");
    assert_eq!(message.auth.unwrap().api_key, "key");
}

#[test]
fn channels_compare_by_kind_and_id() {
    assert!(Channel::Market(id(1)) == Channel::Market(id(1)));
    assert!(Channel::Market(id(1)) != Channel::Market(id(2)));
    assert!(Channel::User(hash(1)) == Channel::User(hash(1)));
    assert!(Channel::User(hash(1)) != Channel::User(hash(2)));
    assert!(Channel::Market(U256::zero()) != Channel::User(B256::zero()));
}

#[test]
fn errors_hold_their_messages() {
    let m = || "m".to_owned();
    assert!(matches!(WSClientError::connect_error(m()), WSClientError::ConnectError(e) if *e == "m"));
    assert!(matches!(WSClientError::send_error(m()), WSClientError::SendError(e) if *e == "m"));
    assert!(matches!(WSClientError::recv_error(m()), WSClientError::RecvError(e) if *e == "m"));
    assert!(
        matches!(WSClientError::serialize_error(m()), WSClientError::SerializeError(e) if *e == "m")
    );
    assert!(matches!(
        WSClientError::too_many_malformed_messages(),
        WSClientError::TooManyMalformedMessages
    ));
}

#[test]
fn names_of_events() {
    assert_eq!(LastTradePrice::event_type(), "last_trade_price");
    assert_eq!(MarketUpdate::event_type(), "book");
    assert_eq!(PriceChangeResponse::event_type(), "price_change");
    assert_eq!(TickSizeChange::event_type(), "tick_size_change");
    assert_eq!(TradeStreamItem::event_type(), "trade");
}

#[test]
fn messages_of_channels() {
    assert!(price(3).contains_id(&Channel::Market(id(3))));
    assert!(!price(3).contains_id(&Channel::Market(id(4))));
    assert!(!price(3).contains_id(&Channel::User(hash(1))));
    let book = MarketUpdate {
        timestamp: String::new(),
        asset_id: id(3),
        bids: vec![],
        asks: vec![],
    };
    assert!(book.contains_id(&Channel::Market(id(3))));
    assert!(!book.contains_id(&Channel::Market(id(4))));
    assert!(!book.contains_id(&Channel::User(hash(1))));
    let tick = TickSizeChange {
        event_type: String::new(),
        asset_id: id(3),
        market: hash(1),
        old_tick_size: f(0.1),
        new_tick_size: f(0.01),
    };
    assert!(tick.contains_id(&Channel::Market(id(3))));
    assert!(!tick.contains_id(&Channel::Market(id(4))));
    assert!(!tick.contains_id(&Channel::User(hash(1))));
    let change = |asset: u64| PriceChange {
        asset_id: id(asset),
        price: f(0.1),
        size: f(1.0),
        side: Side::BUY,
        hash: String::new(),
        best_bid: f(0.1),
        best_ask: f(0.2),
    };
    let changes = PriceChangeResponse {
        market: hash(1),
        price_changes: vec![change(3), change(5)],
        timestamp: 0,
        event_type: String::new(),
    };
    assert!(changes.contains_id(&Channel::Market(id(5))));
    assert!(!changes.contains_id(&Channel::Market(id(4))));
    assert!(!changes.contains_id(&Channel::User(hash(1))));
    assert!(trade(1).contains_id(&Channel::User(hash(1))));
    assert!(!trade(1).contains_id(&Channel::User(hash(2))));
    assert!(!trade(1).contains_id(&Channel::Market(id(1))));
}

#[test]
fn subscriptions() {
    let s = market_client::<MarketUpdate>(id(8));
    assert!(s.channel == Channel::Market(id(8)) && s.auth.is_none());
    let s = user_client::<TradeStreamItem>(hash(8), creds());
    assert!(s.channel == Channel::User(hash(8)));
    assert_eq!(s.auth.unwrap().passphrase, "pass");
    let client = PolymarketClient::connect_with_provider(
        true,
        137,
        Ok(ClobClient::new(Address::zero(), creds())),
    )
    .unwrap();
    for s in [
        client.last_trade_price_stream(id(1)),
        client.market_update_stream(id(1)),
        client.tick_size_stream(id(1)),
        client.price_change_stream(id(1)),
    ] {
        assert!(s.channel == Channel::Market(id(1)) && s.auth.is_none());
    }
    let s = client.trade_stream(hash(1));
    assert!(s.channel == Channel::User(hash(1)));
    assert_eq!(s.auth.unwrap().api_key, "key");
}

#[test]
fn subscriptions_name_their_messages() {
    assert_eq!(market_client::<MarketUpdate>(id(8)).event_type, "book");
    assert_eq!(market_client::<LastTradePrice>(id(8)).event_type, "last_trade_price");
    assert_eq!(user_client::<TradeStreamItem>(hash(8), creds()).event_type, "trade");
    let client = PolymarketClient::connect_with_provider(
        true,
        137,
        Ok(ClobClient::new(Address::zero(), creds())),
    )
    .unwrap();
    assert_eq!(client.last_trade_price_stream(id(1)).event_type, "last_trade_price");
    assert_eq!(client.market_update_stream(id(1)).event_type, "book");
    assert_eq!(client.tick_size_stream(id(1)).event_type, "tick_size_change");
    assert_eq!(client.price_change_stream(id(1)).event_type, "price_change");
    assert_eq!(client.trade_stream(hash(1)).event_type, "trade");
}

#[test]
fn one_connection_for_each_channel() {
    let mut all: Multiplexers<u8> = Multiplexers::new();
    let (a, b, c) = (Channel::Market(id(1)), Channel::Market(id(2)), Channel::User(hash(1)));
    assert!(all.get(&a).is_none());
    all.insert(a, 1);
    all.insert(b, 2);
    all.insert(c, 3);
    assert_eq!((all.get(&a), all.get(&b), all.get(&c)), (Some(&1), Some(&2), Some(&3)));
    assert!(!all.release(&b, 1));
    assert_eq!(all.get(&b), Some(&2));
    assert!(all.release(&b, 0));
    assert_eq!((all.get(&a), all.get(&b), all.get(&c)), (Some(&1), None, Some(&3)));
    all.insert(b, 4);
    assert_eq!(all.get(&b), Some(&4));
}

fn run(events: Vec<Event<&'static str>>) -> (Phase, Vec<String>) {
    let mut phase = Phase::Connecting;
    let mut actions = Vec::new();
    for event in events {
        actions.push(match multiplexer_step(&mut phase, event) {
            Action::Wait => "wait".to_owned(),
            Action::Broadcast(Ok(text)) => format!("text {text}"),
            Action::Broadcast(Err(_)) => "error".to_owned(),
            Action::Connect => "connect".to_owned(),
            Action::Ping => "ping".to_owned(),
            Action::Release => "release".to_owned(),
        });
    }
    (phase, actions)
}

#[test]
fn a_connection_and_its_end() {
    let (phase, actions) = run(vec![
        Event::Connected,
        Event::Tick,
        Event::Text("a"),
        Event::Pong,
        Event::OtherMessage,
        Event::ReadFailed,
        Event::Text("b"),
        Event::Closed { receivers: 2 },
        Event::Text("c"),
        Event::Closed { receivers: 0 },
        Event::Text("d"),
        Event::Closed { receivers: 0 },
    ]);
    assert_eq!(phase, Phase::Stopped);
    assert_eq!(
        actions,
        vec![
            "wait", "ping", "text a", "wait", "wait", "wait", "text b", "wait", "text c", "release",
            "wait", "wait",
        ]
    );
}

#[test]
fn a_lost_connection() {
    let failed = || Event::ConnectFailed(WSClientError::connect_error("x".to_owned()));
    let (phase, actions) = run(vec![
        Event::Connected,
        Event::Ended,
        failed(),
        Event::Ended,
        Event::Connected,
        Event::Text("a"),
    ]);
    assert_eq!(phase, Phase::Running);
    assert_eq!(actions, vec!["wait", "connect", "error", "connect", "wait", "text a"]);
    let (phase, actions) = run(vec![failed(), Event::Connected, Event::Text("a")]);
    assert_eq!(phase, Phase::Stopped);
    assert_eq!(actions, vec!["error", "wait", "wait"]);
}

#[test]
fn waits_before_connecting_again() {
    let mut backoff = Backoff::new();
    let waits: Vec<_> = (0..6).map(|_| backoff.failed()).collect();
    assert_eq!(waits, vec![Some(2), Some(4), Some(8), Some(16), None, None]);
}

#[test]
fn what_a_receiver_reads() {
    assert!(matches!(receive::<u8, u8>(Received::Lagged), Err(RecvStep::Skip)));
    assert!(matches!(receive::<u8, u8>(Received::Text(7)), Ok(7)));
    assert!(matches!(
        receive::<u8, u8>(Received::Failed(WSClientError::TooManyMalformedMessages)),
        Err(RecvStep::Ready(Err(WSClientError::TooManyMalformedMessages)))
    ));
    assert!(is_expected::<MarketUpdate>(Some("book")));
    assert!(!is_expected::<MarketUpdate>(Some("trade")));
    assert!(!is_expected::<MarketUpdate>(Some("")));
    assert!(!is_expected::<MarketUpdate>(None));
}

#[test]
fn what_a_receiver_hands_out() {
    let channel = Channel::Market(id(3));
    assert!(matches!(
        message_step(&channel, Ok(price(3))),
        RecvStep::Ready(Ok(m)) if m.asset_id == id(3)
    ));
    assert!(matches!(message_step(&channel, Ok(price(4))), RecvStep::Skip));
    assert!(matches!(message_step(&channel, Ok(trade(1))), RecvStep::Skip));
    assert!(matches!(
        message_step::<LastTradePrice>(&channel, Err("bad".to_owned())),
        RecvStep::Ready(Err(WSClientError::SerializeError(e))) if *e == "bad"
    ));
}

#[test]
fn listeners_share_a_connection() {
    let subscription = |key: &str| Subscription {
        channel: Channel::User(hash(1)),
        auth: Some(ApiCreds {
            api_key: key.to_owned(),
            secret: String::new(),
            passphrase: String::new(),
        }),
        event_type: "trade",
    };
    let mut all: Multiplexers<String> = Multiplexers::new();
    assert!(all.listen(subscription("a"), |s| s.auth.unwrap().api_key));
    assert!(!all.listen(subscription("b"), |_| panic!("there is a connection")));
    assert_eq!(all.get(&Channel::User(hash(1))).map(String::as_str), Some("a"));
    assert!(all.listen(market_client::<MarketUpdate>(id(1)), |_| "c".to_owned()));
    assert!(all.release(&Channel::User(hash(1)), 0));
    assert!(all.listen(subscription("b"), |s| s.auth.unwrap().api_key));
    assert_eq!(all.get(&Channel::User(hash(1))).map(String::as_str), Some("b"));
}

#[test]
fn texts_are_read_only_where_expected() {
    let channel = Channel::Market(id(3));
    for name in [None, Some("book"), Some("trade")] {
        let step = text_step::<LastTradePrice, _>(&channel, name, || panic!("not expected"));
        assert!(matches!(step, RecvStep::Skip));
    }
    let name = Some("last_trade_price");
    assert!(matches!(
        text_step(&channel, name, || Ok(price(3))),
        RecvStep::Ready(Ok(m)) if m.asset_id == id(3)
    ));
    assert!(matches!(text_step(&channel, name, || Ok(price(4))), RecvStep::Skip));
    assert!(matches!(
        text_step::<LastTradePrice, _>(&channel, name, || Err("bad".to_owned())),
        RecvStep::Ready(Err(WSClientError::SerializeError(_)))
    ));
}

#[test]
fn the_first_message_for_a_receiver() {
    let channel = Channel::Market(id(3));
    let items = vec![
        Received::Lagged,
        Received::Text(("book", 3)),
        Received::Text(("last_trade_price", 4)),
        Received::Text(("last_trade_price", 3)),
        Received::Failed(WSClientError::TooManyMalformedMessages),
    ];
    let mut steps = items.into_iter().map(|item| match receive(item) {
        Ok((name, asset)) => text_step(&channel, Some(name), || Ok(price(asset))),
        Err(step) => step,
    });
    for _ in 0..3 {
        assert!(matches!(steps.next(), Some(RecvStep::Skip)));
    }
    assert!(matches!(steps.next(), Some(RecvStep::Ready(Ok(m))) if m.asset_id == id(3)));
    assert!(matches!(
        steps.next(),
        Some(RecvStep::Ready(Err(WSClientError::TooManyMalformedMessages)))
    ));
}

#[test]
fn each_text_is_broadcast_once_and_in_order() {
    let (_, actions) = run(vec![
        Event::Connected,
        Event::Text("a"),
        Event::Tick,
        Event::Text("b"),
        Event::Ended,
        Event::Connected,
        Event::Text("a"),
    ]);
    let texts: Vec<_> = actions.iter().filter_map(|a| a.strip_prefix("text ")).collect();
    assert_eq!(texts, vec!["a", "b", "a"]);
}

#[test]
fn errors_in_words() {
    let e = || "x".to_owned();
    let texts: Vec<_> = [
        WSClientError::connect_error(e()),
        WSClientError::send_error(e()),
        WSClientError::recv_error(e()),
        WSClientError::serialize_error(e()),
        WSClientError::too_many_malformed_messages(),
    ]
    .iter()
    .map(WSClientError::to_text)
    .collect();
    assert_eq!(
        texts,
        vec![
            "Failed to connect to WS: x",
            "Failed to send message: x",
            "Failed to receive message: x",
            "Failed to deserialize message: x",
            "Bad message from client",
        ]
    );
}
