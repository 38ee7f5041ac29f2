use polymarket_client::api::{HistoricalInterval, PostOrderResponse};
use polymarket_client::client::api::{
    APIError, ApiCreds, ClobClient, CredsStep, ErrorDebugClient, ErrorDebugRequest, GammaClient,
    Headers, HttpError, Method, PaginatedStream, SendStep, read_response,
};
use polymarket_client::client::contract::AMOY;
use polymarket_client::primitives::{Address, B256, Instant, U256};
use polymarket_client::client::PolymarketClientError;
use polymarket_client::client::ws::WSClientError;
use polymarket_client::encoding::Base64Error;
use polymarket_client::PolymarketClient;

const NOW: u64 = 1700000000;

fn client() -> ClobClient {
    ClobClient::new(
        Address { bytes: [0x11; 20] },
        ApiCreds {
            api_key: "key".to_owned(),
            secret: "--9zZWNyZXQga2V5".to_owned(),
            passphrase: "pass".to_owned(),
        },
    )
}

fn keyless() -> ClobClient {
    let mut client = client();
    client.api_creds.secret = "YQ".to_owned();
    client
}

fn pairs(v: &[(String, String)]) -> Vec<(&str, &str)> {
    v.iter().map(|(k, v)| (k.as_str(), v.as_str())).collect()
}

fn l2(signature: &str) -> Vec<(&str, &str)> {
    vec![
        ("poly_address", "0x1111111111111111111111111111111111111111"),
        ("poly_signature", signature),
        ("poly_timestamp", "1700000000"),
        ("poly_api_key", "key"),
        ("poly_passphrase", "pass"),
    ]
}

#[test]
fn building_requests() {
    let mut headers = Headers::new();
    headers.insert("h", "1".to_owned());
    let req = ErrorDebugClient
        .post("u".to_owned())
        .query("a", "1")
        .extend_query(vec![("b".to_owned(), "2".to_owned()), ("a".to_owned(), "3".to_owned())])
        .query("c", "4")
        .headers(headers)
        .body("{}".to_owned());
    assert_eq!(req.method, Method::Post);
    assert_eq!(req.url, "u");
    assert_eq!(pairs(&req.query), vec![("a", "1"), ("b", "2"), ("a", "3"), ("c", "4")]);
    assert_eq!(pairs(&req.headers), vec![("h", "1")]);
    assert_eq!(req.body.as_deref(), Some("{}"));
    let req = ErrorDebugClient.delete("v".to_owned());
    assert_eq!(req.method, Method::Delete);
    assert!(req.query.is_empty() && req.headers.is_empty() && req.body.is_none());
    assert_eq!(ErrorDebugClient.get("w".to_owned()).method, Method::Get);
}

#[test]
fn statuses() {
    for status in [200, 201, 204, 299] {
        assert!(matches!(read_response(status, "b".to_owned()), Ok(b) if b == "b"));
    }
    for status in [100, 199, 300, 400, 429, 500] {
        assert!(matches!(
            read_response(status, "b".to_owned()),
            Err(APIError::ErrorStatusCode(s)) if s == status
        ));
    }
}

fn http(timeout: bool, connect: bool, request: bool) -> APIError {
    APIError::HTTPError(HttpError { timeout, connect, request, message: "m".to_owned() })
}

fn step(attempt: u32, outcome: Result<u8, APIError>) -> SendStep<u8> {
    ErrorDebugRequest::after_send(attempt, true, outcome)
}

#[test]
fn errors_that_may_pass_are_retried() {
    for attempt in [0, 1] {
        for e in [
            http(true, false, false),
            http(false, true, false),
            http(false, false, true),
            APIError::ErrorStatusCode(429),
        ] {
            assert!(matches!(step(attempt, Err(e)), SendStep::Retry { delay_secs: 1 }));
        }
    }
}

#[test]
fn retrying_ends_with_the_third_time() {
    assert!(matches!(
        step(2, Err(http(true, false, false))),
        SendStep::GiveUp { delay_secs: 1, error: APIError::HTTPError(e) } if e.message == "m"
    ));
    assert!(matches!(
        step(2, Err(APIError::ErrorStatusCode(429))),
        SendStep::GiveUp { delay_secs: 1, error: APIError::ErrorStatusCode(429) }
    ));
}

#[test]
fn other_outcomes_are_handed_out() {
    for attempt in [0, 1, 2] {
        assert!(matches!(step(attempt, Ok(7)), SendStep::Done(Ok(7))));
        assert!(matches!(
            step(attempt, Err(APIError::ErrorStatusCode(500))),
            SendStep::Done(Err(APIError::ErrorStatusCode(500)))
        ));
        assert!(matches!(
            step(attempt, Err(http(false, false, false))),
            SendStep::Done(Err(APIError::HTTPError(_)))
        ));
        assert!(matches!(
            step(attempt, Err(APIError::SerdeError("x".to_owned()))),
            SendStep::Done(Err(APIError::SerdeError(_)))
        ));
    }
}

#[test]
fn requests_that_cannot_be_repeated() {
    assert!(matches!(
        ErrorDebugRequest::after_send::<u8>(0, false, Err(APIError::ErrorStatusCode(429))),
        SendStep::Done(Err(APIError::ErrorStatusCode(429)))
    ));
}

#[test]
fn sending_three_times() {
    let mut sent = 0;
    let mut attempt = 0;
    let last = loop {
        sent += 1;
        match step(attempt, Err(APIError::ErrorStatusCode(429))) {
            SendStep::Retry { .. } => attempt += 1,
            SendStep::GiveUp { error, .. } => break error,
            SendStep::Done(_) => panic!("an error that may pass"),
        }
    };
    assert_eq!(sent, 3);
    assert!(matches!(last, APIError::ErrorStatusCode(429)));
}

#[test]
fn credentials() {
    let mut headers = Headers::new();
    headers.insert("h", "1".to_owned());
    let req = ClobClient::get_api_creds(headers);
    assert_eq!((req.method, req.url.as_str()), (Method::Post, "https://clob.polymarket.com/auth/api-key"));
    assert_eq!(pairs(&req.headers), vec![("h", "1")]);
    let req = ClobClient::derive_api_creds(Headers::new());
    assert_eq!(
        (req.method, req.url.as_str()),
        (Method::Get, "https://clob.polymarket.com/auth/derive-api-key")
    );
    assert!(matches!(
        ClobClient::creds_step(Ok(client().api_creds)),
        CredsStep::Use(creds) if creds.api_key == "key"
    ));
    assert!(matches!(
        ClobClient::creds_step(Err(APIError::ErrorStatusCode(400))),
        CredsStep::Derive
    ));
    assert!(matches!(
        ClobClient::creds_step(Err(APIError::ErrorStatusCode(401))),
        CredsStep::Fail(APIError::ErrorStatusCode(401))
    ));
    assert!(matches!(
        ClobClient::creds_step(Err(APIError::SigningError("x".to_owned()))),
        CredsStep::Fail(APIError::SigningError(_))
    ));
}

#[test]
fn chains() {
    assert_eq!(client().chain_id, 137);
    let moved = client().with_chain_id(AMOY);
    assert_eq!(moved.chain_id, AMOY);
    assert_eq!(moved.api_key(), "key");
}

#[test]
fn asking_for_an_order() {
    let req = client().get_order(B256 { bytes: [0xab; 32] }, NOW).unwrap();
    assert_eq!(req.method, Method::Get);
    assert_eq!(
        req.url,
        format!("https://clob.polymarket.com/data/order/0x{}", "ab".repeat(32))
    );
    assert_eq!(
        pairs(&req.headers),
        l2("65tOS_c8z7vQOt8bh-1hM1Yks7jlzmrXLpVzdIuAKEQ=")
    );
    assert!(req.query.is_empty() && req.body.is_none());
}

#[test]
fn asking_whether_an_order_scores() {
    let req = client().is_order_scoring("0x12", NOW).unwrap();
    assert_eq!(req.url, "https://clob.polymarket.com/order-scoring");
    assert_eq!(pairs(&req.query), vec![("order_id", "0x12")]);
    assert_eq!(
        pairs(&req.headers),
        l2("cBrDdbEyGSUyodjRM_fIqqRViJMVUZPESD9-ukxl_3c=")
    );
}

#[test]
fn asking_for_rewards() {
    let at = Instant { secs: 1709210096, nanos: 0 };
    let req = client().get_total_rewards_earned(at, NOW).unwrap();
    assert_eq!(req.url, "https://clob.polymarket.com/rewards/user/total");
    assert_eq!(pairs(&req.query), vec![("date", "2024-02-29"), ("signature_type", "0")]);
    assert_eq!(
        pairs(&req.headers),
        l2("bGRq0U-Ki7xTTWiBGhw721WLM2xBptQe1mAeDNLsaLc=")
    );
}

#[test]
fn asking_for_rewards_of_a_given_day() {
    let req = client().rewards_request("today", NOW).unwrap();
    assert_eq!(pairs(&req.query), vec![("date", "today"), ("signature_type", "0")]);
}

#[test]
fn submitting_orders() {
    let req = client().post_orders("[]".to_owned(), NOW).unwrap();
    assert_eq!((req.method, req.url.as_str()), (Method::Post, "https://clob.polymarket.com/orders"));
    assert_eq!(req.body.as_deref(), Some("[]"));
    assert_eq!(
        pairs(&req.headers),
        l2("eJ1k5yWxVqjBn4n6ARiN6yftYcZNiPDbqUgMvs1J108=")
    );
}

fn answer(success: bool, error_msg: Option<&str>) -> PostOrderResponse {
    PostOrderResponse {
        success,
        error_msg: error_msg.map(|s| s.to_owned()),
        order_id: None,
        order_hash: vec![],
    }
}

#[test]
fn answers_to_submitted_orders() {
    let ok = ClobClient::posted_orders(vec![answer(true, None), answer(true, None)]).unwrap();
    assert_eq!(ok.len(), 2);
    assert!(ClobClient::posted_orders(vec![]).unwrap().is_empty());
    for bad in [answer(false, None), answer(true, Some("no")), answer(false, Some("no"))] {
        assert!(matches!(
            ClobClient::posted_orders(vec![answer(true, None), bad]),
            Err(APIError::PostOrdersError(all)) if all.len() == 2
        ));
    }
}

#[test]
fn cancelling_orders() {
    let req = client().cancel_orders(U256::from_u64(123), NOW).unwrap();
    assert_eq!(
        (req.method, req.url.as_str()),
        (Method::Delete, "https://clob.polymarket.com/cancel-market-orders")
    );
    assert_eq!(req.body.as_deref(), Some("{\"asset_id\":\"123\"}"));
    assert_eq!(
        pairs(&req.headers),
        l2("6coVyRL4I0c9UBnKk9PoKQA24iw6DBnw5HM7t4zPpvw=")
    );
}

#[test]
fn list_of_open_orders() {
    let orders: PaginatedStream<u8> = client().get_open_orders(U256::from_u64(123), NOW).unwrap();
    assert_eq!(orders.url, "https://clob.polymarket.com/data/orders");
    let mut query = l2("OAtV2RfC-CEr9iH1JC5yfxz6p5-cuu95f7P9kfMv3_w=");
    query.push(("asset_id", "123"));
    assert_eq!(pairs(&orders.query), query);
}

#[test]
fn list_of_trades() {
    let trades: PaginatedStream<u8> = client().trades(B256::zero(), NOW).unwrap();
    assert_eq!(trades.url, "https://clob.polymarket.com/data/trades/");
    let condition = format!("0x{}", "00".repeat(32));
    let mut query = l2("X5e3Hmdm1_Vfr1l1RN3UmMeUl2gbfNaJMH_9dFeJvwc=");
    query.push(("condition_id", &condition));
    assert_eq!(pairs(&trades.query), query);
}

#[test]
fn secrets_without_a_key_stop_requests() {
    fn failed<T>(r: Result<T, APIError>) -> bool {
        matches!(r, Err(APIError::Base64DecodeError(_)))
    }
    let client = keyless();
    let at = Instant { secs: 0, nanos: 0 };
    assert!(failed(client.get_order(B256::zero(), NOW)));
    assert!(failed(client.is_order_scoring("x", NOW)));
    assert!(failed(client.get_total_rewards_earned(at, NOW)));
    assert!(failed(client.post_orders(String::new(), NOW)));
    assert!(failed(client.cancel_orders(U256::zero(), NOW)));
    assert!(failed(client.get_open_orders::<u8>(U256::zero(), NOW)));
    assert!(failed(client.trades::<u8>(B256::zero(), NOW)));
}

#[test]
fn public_requests() {
    let req = client().price_history(U256::from_u64(9), HistoricalInterval::Week, 60);
    assert_eq!(req.url, "https://clob.polymarket.com/prices-history");
    assert_eq!(
        pairs(&req.query),
        vec![("interval", "1w"), ("fidelity", "60"), ("market", "9")]
    );
    assert!(req.headers.is_empty());
    let req = client().get_book("9");
    assert_eq!(req.url, "https://clob.polymarket.com/book");
    assert_eq!(pairs(&req.query), vec![("token_id", "9")]);
    let req = client().get_mid_price("9");
    assert_eq!(req.url, "https://clob.polymarket.com/midpoint");
    assert_eq!(pairs(&req.query), vec![("token_id", "9")]);
    let rewards: PaginatedStream<u8> = client().get_market_rewards();
    assert_eq!(rewards.url, "https://polymarket.com/api/rewards/markets");
    assert!(rewards.query.is_empty());
}

#[test]
fn market_metadata() {
    let req = GammaClient::new().get_markets(40, 20);
    assert_eq!(req.url, "https://gamma-api.polymarket.com/markets");
    assert_eq!(
        pairs(&req.query),
        vec![
            ("ascending", "false"),
            ("limit", "20"),
            ("offset", "40"),
            ("order", "startDate"),
            ("closed", "false"),
        ]
    );
    let req = GammaClient::new().get_market(u64::MAX);
    assert_eq!(req.url, "https://gamma-api.polymarket.com/markets/18446744073709551615");
    assert!(req.query.is_empty());
}

#[test]
fn tokens_are_named_in_decimal_notation() {
    let client = PolymarketClient::connect_with_provider(true, 137, Ok(client())).unwrap();
    let req = client.get_mid_price(U256::from_u64(12));
    assert_eq!(pairs(&req.query), vec![("token_id", "12")]);
    let req = client.get_book(U256::from_u64(12));
    assert_eq!(pairs(&req.query), vec![("token_id", "12")]);
}

#[test]
fn errors_of_requests_in_words() {
    let e = || "x \"y\"".to_owned();
    for (error, text) in [
        (http(true, false, false), "HTTP error: m"),
        (APIError::ErrorStatusCode(429), "Error status code: 429 Too Many Requests"),
        (APIError::ErrorStatusCode(400), "Error status code: 400 Bad Request"),
        (APIError::ErrorStatusCode(999), "Error status code: 999 <unknown status code>"),
        (APIError::ErrorStatusCode(99), "Error status code: 99"),
        (APIError::ErrorStatusCode(1000), "Error status code: 1000"),
        (APIError::SerdeError(e()), "Invalid Payload: x \"y\""),
        (APIError::SigningError(e()), "Signing error: x \"y\""),
        (APIError::InvalidChain(5), "Invalid chain: 5"),
        (
            APIError::Base64DecodeError(Base64Error::InvalidPadding),
            "Can't decode secret to base64",
        ),
        (APIError::PollInFlightError(e()), "Failed to poll in flight task: x \"y\""),
        (APIError::PostOrdersError(vec![]), "Failed to post orders: []"),
        (APIError::CancelOrdersError(vec![]), "Failed to cancel orders: {}"),
    ] {
        assert_eq!(error.to_text(), text);
    }
}

#[test]
fn refused_orders_in_words() {
    let id = B256 { bytes: [0xab; 32] };
    let hex = "ab".repeat(32);
    let answer = |success: bool, error_msg: Option<&str>, order_hash: Vec<&str>| PostOrderResponse {
        success,
        error_msg: error_msg.map(str::to_owned),
        order_id: if success { Some(id) } else { None },
        order_hash: order_hash.into_iter().map(str::to_owned).collect(),
    };
    let error = APIError::PostOrdersError(vec![
        answer(false, Some("no \"money\"\n"), vec![]),
        answer(true, None, vec!["a", "b"]),
    ]);
    assert_eq!(
        error.to_text(),
        format!(
            "Failed to post orders: [PostOrderResponse {{ success: false, error_msg: \
             Some(\"no \\\"money\\\"\\n\"), order_id: None, order_hash: [] }}, \
             PostOrderResponse {{ success: true, error_msg: None, order_id: Some(0x{hex}), \
             order_hash: [\"a\", \"b\"] }}]"
        )
    );
    let error = APIError::CancelOrdersError(vec![
        (id, "filled".to_owned()),
        (B256 { bytes: [0; 32] }, String::new()),
    ]);
    let zero = "0".repeat(64);
    assert_eq!(
        error.to_text(),
        format!("Failed to cancel orders: {{0x{hex}: \"filled\", 0x{zero}: \"\"}}")
    );
}

#[test]
fn errors_of_the_client_in_words() {
    let e = || "x".to_owned();
    for (error, text) in [
        (PolymarketClientError::InvalidChain(5), "Invalid chain id: 5"),
        (PolymarketClientError::RpcError(e()), "Failed to get chain id: x"),
        (PolymarketClientError::SendTransactionError(e()), "Failed to send transaction: x"),
        (PolymarketClientError::WatchTransactionError(e()), "Failed to confirm transaction: x"),
        (
            PolymarketClientError::ClobClientError(APIError::InvalidChain(5)),
            "API Error: Invalid chain: 5",
        ),
        (
            PolymarketClientError::WSError(WSClientError::TooManyMalformedMessages),
            "WS Error: Bad message from client",
        ),
        (
            PolymarketClientError::SignerNotCredentialed,
            "Provider should be able to sign on behalf of the signer",
        ),
    ] {
        assert_eq!(error.to_text(), text);
    }
}
