//! The order book's and the markets' part of the interface.

use super::auth::{self, ApiCreds, Headers};
use super::paginate::PaginatedStream;
use super::request::{self, ErrorDebugClient, ErrorDebugRequest, Method, RequestView};
use super::{
    APIError, BAD_REQUEST, CLOB_HOST, GAMMA_HOST, POLYMARKET_API_DIR, POLYMARKET_API_HOST,
};
use crate::client::contract;
use crate::client::order::{self, OrderDraft, OrderTicket, SignedOrder};
use crate::client::types::api::{HistoricalInterval, OrderType, PostOrderResponse, Side};
use crate::clock;
use crate::encoding::{self, BaseUrl};
use crate::json;
use crate::primitives::{Address, B256, Instant, U256};
use crate::text;
use vstd::prelude::*;

verus! {

/// The base of the order book's URLs.
pub fn clob_url() -> (url: BaseUrl)
    ensures
        url.wf(),
        url.host@ == CLOB_HOST@,
        url.dir@.len() == 0,
{
    proof {
        reveal_strlit("clob.polymarket.com");
        reveal_strlit("");
    }
    BaseUrl { host: CLOB_HOST, dir: "" }
}

/// The base of the URLs of market metadata.
pub fn gamma_url() -> (url: BaseUrl)
    ensures
        url.wf(),
        url.host@ == GAMMA_HOST@,
        url.dir@.len() == 0,
{
    proof {
        reveal_strlit("gamma-api.polymarket.com");
        reveal_strlit("");
    }
    BaseUrl { host: GAMMA_HOST, dir: "" }
}

/// The base of the URLs of rewards.
pub fn polymarket_api_url() -> (url: BaseUrl)
    ensures
        url.wf(),
        url.host@ == POLYMARKET_API_HOST@,
        url.dir@ == POLYMARKET_API_DIR@,
{
    proof {
        reveal_strlit("polymarket.com");
        reveal_strlit("/api/");
    }
    BaseUrl { host: POLYMARKET_API_HOST, dir: POLYMARKET_API_DIR }
}

/// The order book, for the owner of a wallet.
#[derive(Debug, Clone)]
pub struct ClobClient {
    /// The wallet's address.
    pub address: Address,
    /// The base of the order book's URLs.
    pub url: BaseUrl,
    /// The chain for which orders are signed.
    pub chain_id: u64,
    /// The credentials of the wallet's owner.
    pub api_creds: ApiCreds,
}

/// How the credentials are come by.
#[derive(Debug)]
pub enum CredsStep {
    /// These are the credentials.
    Use(ApiCreds),
    /// The wallet has credentials already; they are to be derived.
    Derive,
    /// There are none to be had.
    Fail(APIError),
}

impl ClobClient {
    /// The URLs' base needs no normalisation.
    pub open spec fn wf(&self) -> bool {
        self.url.wf()
    }

    /// The URL of a path.
    pub open spec fn url_of(&self, path: Seq<char>) -> Seq<char> {
        encoding::url_at(self.url.host@, self.url.dir@, path)
    }

    /// Whether this is the request `req`, signed at the time `timestamp` for a
    /// path, or the error that the secret holds no key.
    pub open spec fn is_signed(
        &self,
        outcome: Result<ErrorDebugRequest, APIError>,
        timestamp: u64,
        method: Seq<char>,
        req_path: Seq<char>,
        req: RequestView,
    ) -> bool {
        match auth::secret_key(self.api_creds.secret@) {
            Some(key) => {
                &&& outcome is Ok
                &&& outcome->Ok_0@ == RequestView {
                    headers: auth::l2_entries(
                        self.address@,
                        self.api_creds,
                        key,
                        timestamp,
                        method,
                        req_path,
                        req.body,
                    ),
                    ..req
                }
            },
            None => outcome == Err::<ErrorDebugRequest, APIError>(
                APIError::Base64DecodeError(encoding::base64_failure(self.api_creds.secret@)),
            ),
        }
    }

    /// Whether this is the list at a path, with the headers of a request for
    /// `req_path` and one more pair as the query, or the error that the secret
    /// holds no key.
    pub open spec fn is_signed_list<T>(
        &self,
        outcome: Result<PaginatedStream<T>, APIError>,
        timestamp: u64,
        req_path: Seq<char>,
        path: Seq<char>,
        pair: (Seq<char>, Seq<char>),
    ) -> bool {
        match auth::secret_key(self.api_creds.secret@) {
            Some(key) => {
                &&& outcome is Ok
                &&& outcome->Ok_0.is_new(
                    self.url_of(path),
                    auth::l2_entries(
                        self.address@,
                        self.api_creds,
                        key,
                        timestamp,
                        "GET"@,
                        req_path,
                        None,
                    ).push(pair),
                )
            },
            None => outcome == Err::<PaginatedStream<T>, APIError>(
                APIError::Base64DecodeError(encoding::base64_failure(self.api_creds.secret@)),
            ),
        }
    }

    /// The request for new credentials, with the wallet's headers.
    pub fn get_api_creds(headers: Headers) -> (req: ErrorDebugRequest)
        ensures
            req@ == (RequestView {
                headers: headers@,
                ..request::bare(
                    Method::Post,
                    encoding::url_at(CLOB_HOST@, seq![], "auth/api-key"@),
                )
            }),
    {
        proof {
            reveal_strlit("auth/api-key");
        }
        let base = clob_url();
        assert(base.dir@ =~= seq![]);
        let req = ErrorDebugClient.post(base.join("auth/api-key")).headers(headers);
        assert(req@.headers =~= headers@);
        req
    }

    /// The request for the credentials that the wallet has, with the wallet's
    /// headers.
    pub fn derive_api_creds(headers: Headers) -> (req: ErrorDebugRequest)
        ensures
            req@ == (RequestView {
                headers: headers@,
                ..request::bare(
                    Method::Get,
                    encoding::url_at(CLOB_HOST@, seq![], "auth/derive-api-key"@),
                )
            }),
    {
        proof {
            reveal_strlit("auth/derive-api-key");
        }
        let base = clob_url();
        assert(base.dir@ =~= seq![]);
        let req = ErrorDebugClient.get(base.join("auth/derive-api-key")).headers(headers);
        assert(req@.headers =~= headers@);
        req
    }

    /// What becomes of the answer to the request for new credentials. The
    /// exchange calls the request bad where the wallet has credentials.
    pub fn creds_step(created: Result<ApiCreds, APIError>) -> (step: CredsStep)
        ensures
            step == (match created {
                Ok(creds) => CredsStep::Use(creds),
                Err(e) => if e == APIError::ErrorStatusCode(BAD_REQUEST) {
                    CredsStep::Derive
                } else {
                    CredsStep::Fail(e)
                },
            }),
    {
        match created {
            Ok(creds) => CredsStep::Use(creds),
            Err(APIError::ErrorStatusCode(status)) => if status == BAD_REQUEST {
                CredsStep::Derive
            } else {
                CredsStep::Fail(APIError::ErrorStatusCode(status))
            },
            Err(e) => CredsStep::Fail(e),
        }
    }

    /// The order book for a wallet's owner, with orders for Polygon.
    pub fn new(address: Address, api_creds: ApiCreds) -> (client: ClobClient)
        ensures
            client.wf(),
            client.address == address,
            client.url.host@ == CLOB_HOST@,
            client.url.dir@.len() == 0,
            client.chain_id == contract::POLYGON,
            client.api_creds == api_creds,
    {
        ClobClient { address, url: clob_url(), chain_id: contract::POLYGON, api_creds }
    }

    /// The same with orders for another chain.
    pub fn with_chain_id(self, chain_id: u64) -> (client: ClobClient)
        ensures
            client == (ClobClient { chain_id, ..self }),
    {
        ClobClient { chain_id, ..self }
    }

    /// The list of open orders for a token.
    pub fn get_open_orders<T>(&self, token_id: U256, timestamp: u64) -> (orders: Result<
        PaginatedStream<T>,
        APIError,
    >)
        requires
            self.wf(),
        ensures
            self.is_signed_list(
                orders,
                timestamp,
                "/data/orders"@,
                "data/orders"@,
                ("asset_id"@, text::decimal(token_id@)),
            ),
    {
        let mut headers = match auth::l2_headers(
            self.address,
            &self.api_creds,
            timestamp,
            "GET",
            "/data/orders",
            None,
        ) {
            Ok(headers) => headers,
            Err(e) => return Err(e),
        };
        let ghost before = headers@;
        headers.insert("asset_id", token_id.to_decimal());
        proof {
            reveal_strlit("data/orders");
            auth::header_names_differ();
            auth::with_value_at(before, "asset_id"@, text::decimal(token_id@), before.len() as int);
        }
        Ok(PaginatedStream::new(self.url.join("data/orders"), headers.entries))
    }

    /// The request for an order.
    pub fn get_order(&self, order_id: B256, timestamp: u64) -> (req: Result<
        ErrorDebugRequest,
        APIError,
    >)
        requires
            self.wf(),
        ensures
            ({
                let path = "/data/order/"@ + (seq!['0', 'x'] + text::hex(order_id@));
                self.is_signed(
                    req,
                    timestamp,
                    "GET"@,
                    path,
                    request::bare(Method::Get, self.url_of(path)),
                )
            }),
    {
        let req_path = text::join2("/data/order/", &order_id.to_hex());
        let headers = match auth::l2_headers(
            self.address,
            &self.api_creds,
            timestamp,
            "GET",
            &req_path,
            None,
        ) {
            Ok(headers) => headers,
            Err(e) => return Err(e),
        };
        proof {
            reveal_strlit("/data/order/");
            encoding::hex_is_plain_path(order_id@);
            encoding::plain_paths_join("/data/order/"@, seq!['0', 'x'] + text::hex(order_id@));
        }
        let req = ErrorDebugClient.get(self.url.join(&req_path)).headers(headers);
        assert(req@.headers =~= headers@);
        Ok(req)
    }

    /// The request whether an order earns rewards.
    pub fn is_order_scoring(&self, order_id: &str, timestamp: u64) -> (req: Result<
        ErrorDebugRequest,
        APIError,
    >)
        requires
            self.wf(),
        ensures
            self.is_signed(
                req,
                timestamp,
                "GET"@,
                "/order-scoring"@,
                (RequestView {
                    query: seq![("order_id"@, order_id@)],
                    ..request::bare(Method::Get, self.url_of("order-scoring"@))
                }),
            ),
    {
        let headers = match auth::l2_headers(
            self.address,
            &self.api_creds,
            timestamp,
            "GET",
            "/order-scoring",
            None,
        ) {
            Ok(headers) => headers,
            Err(e) => return Err(e),
        };
        proof {
            reveal_strlit("order-scoring");
        }
        let req = ErrorDebugClient.get(self.url.join("order-scoring")).headers(headers).query(
            "order_id",
            order_id,
        );
        assert(req@.headers =~= headers@);
        assert(req@.query =~= seq![("order_id"@, order_id@)]);
        Ok(req)
    }

    /// The request for the rewards that were earned on a day, which `date`
    /// names, by the owner of a plain wallet.
    pub fn rewards_request(&self, date: &str, timestamp: u64) -> (req: Result<
        ErrorDebugRequest,
        APIError,
    >)
        requires
            self.wf(),
        ensures
            self.is_signed(
                req,
                timestamp,
                "GET"@,
                "/rewards/user/total"@,
                (RequestView {
                    query: seq![("date"@, date@), ("signature_type"@, "0"@)],
                    ..request::bare(Method::Get, self.url_of("rewards/user/total"@))
                }),
            ),
    {
        let headers = match auth::l2_headers(
            self.address,
            &self.api_creds,
            timestamp,
            "GET",
            "/rewards/user/total",
            None,
        ) {
            Ok(headers) => headers,
            Err(e) => return Err(e),
        };
        proof {
            reveal_strlit("rewards/user/total");
        }
        let req = ErrorDebugClient.get(self.url.join("rewards/user/total")).headers(headers).query(
            "date",
            date,
        ).query("signature_type", "0");
        assert(req@.headers =~= headers@);
        assert(req@.query =~= seq![("date"@, date@), ("signature_type"@, "0"@)]);
        Ok(req)
    }

    /// The request for the rewards that were earned on the day of `date`, in
    /// UTC, by the owner of a plain wallet.
    pub fn get_total_rewards_earned(&self, date: Instant, timestamp: u64) -> (req: Result<
        ErrorDebugRequest,
        APIError,
    >)
        requires
            self.wf(),
            clock::in_calendar(date.secs as int),
        ensures
            self.is_signed(
                req,
                timestamp,
                "GET"@,
                "/rewards/user/total"@,
                (RequestView {
                    query: seq![
                        ("date"@, clock::date_written(clock::utc_date(date.secs))),
                        ("signature_type"@, "0"@),
                    ],
                    ..request::bare(Method::Get, self.url_of("rewards/user/total"@))
                }),
            ),
    {
        self.rewards_request(&clock::date_text(date.secs), timestamp)
    }

    /// An order of this client's owner with these amounts, which does not
    /// expire.
    pub fn draft_order(
        &self,
        ticket: &OrderTicket,
        maker_amount: U256,
        taker_amount: U256,
    ) -> (draft: OrderDraft)
        ensures
            draft.maker == self.address,
            draft.token_id == ticket.token_id,
            draft.side == ticket.side,
            draft.maker_amount == maker_amount,
            draft.taker_amount == taker_amount,
            draft.expiration == 0,
            clock::is_draw(draft.salt),
    {
        order::draft_order(
            self.address,
            ticket.token_id,
            ticket.side,
            maker_amount,
            taker_amount,
            0,
        ).unwrap()
    }

    /// Whether this is an order of this client's owner that is to be submitted.
    pub open spec fn is_submission(
        &self,
        submission: SignedOrder,
        order_type: OrderType,
        draft: OrderDraft,
        signature: Seq<u8>,
    ) -> bool {
        &&& draft.is_signed_order(submission.order, signature)
        &&& submission.owner@ == self.api_creds.api_key@
        &&& submission.order_type == order_type
        &&& !submission.defer_exec
    }

    /// An order that stays in the book until it is cancelled.
    pub fn create_gtc_order(&self, draft: &OrderDraft, signature: &[u8; 65]) -> (submission:
        SignedOrder)
        ensures
            self.is_submission(submission, OrderType::GTC, *draft, signature@),
    {
        SignedOrder {
            order: order::create_signed_order(draft, signature),
            owner: self.api_key(),
            order_type: OrderType::GTC,
            defer_exec: false,
        }
    }

    /// An order that is filled whole or dropped.
    pub fn create_fok_order(&self, draft: &OrderDraft, signature: &[u8; 65]) -> (submission:
        SignedOrder)
        ensures
            self.is_submission(submission, OrderType::FOK, *draft, signature@),
    {
        SignedOrder {
            order: order::create_signed_order(draft, signature),
            owner: self.api_key(),
            order_type: OrderType::FOK,
            defer_exec: false,
        }
    }

    /// The order that a ticket wants, of the type that it wants.
    pub fn create_order(&self, ticket: &OrderTicket, draft: &OrderDraft, signature: &[u8; 65]) -> (
    submission: SignedOrder)
        ensures
            self.is_submission(submission, ticket.order_type, *draft, signature@),
    {
        match ticket.order_type {
            OrderType::GTC => self.create_gtc_order(draft, signature),
            OrderType::FOK => self.create_fok_order(draft, signature),
            OrderType::GTD => SignedOrder {
                order: order::create_signed_order(draft, signature),
                owner: self.api_key(),
                order_type: OrderType::GTD,
                defer_exec: false,
            },
        }
    }

    /// The request that submits orders, which `body` holds in JSON notation.
    pub fn post_orders(&self, body: String, timestamp: u64) -> (req: Result<
        ErrorDebugRequest,
        APIError,
    >)
        requires
            self.wf(),
        ensures
            self.is_signed(
                req,
                timestamp,
                "POST"@,
                "/orders"@,
                (RequestView {
                    body: Some(body@),
                    ..request::bare(Method::Post, self.url_of("orders"@))
                }),
            ),
    {
        let headers = match auth::l2_headers(
            self.address,
            &self.api_creds,
            timestamp,
            "POST",
            "/orders",
            Some(body.as_str()),
        ) {
            Ok(headers) => headers,
            Err(e) => return Err(e),
        };
        proof {
            reveal_strlit("orders");
        }
        let req = ErrorDebugClient.post(self.url.join("orders")).headers(headers).body(body);
        assert(req@.headers =~= headers@);
        Ok(req)
    }

    /// Whether an order was accepted.
    pub open spec fn accepted(response: PostOrderResponse) -> bool {
        response.success && response.error_msg is None
    }

    /// What becomes of the answers to submitted orders: they are handed out,
    /// as an error where any of the orders was not accepted.
    pub fn posted_orders(responses: Vec<PostOrderResponse>) -> (outcome: Result<
        Vec<PostOrderResponse>,
        APIError,
    >)
        ensures
            outcome == (if forall|i: int|
                0 <= i < responses@.len() ==> Self::accepted(#[trigger] responses@[i]) {
                Ok(responses)
            } else {
                Err(APIError::PostOrdersError(responses))
            }),
    {
        let mut i: usize = 0;
        while i < responses.len()
            invariant
                i <= responses@.len(),
                forall|j: int| 0 <= j < i ==> Self::accepted(#[trigger] responses@[j]),
            decreases responses@.len() - i,
        {
            let response = &responses[i];
            if !response.success || response.error_msg.is_some() {
                assert(!Self::accepted(responses@[i as int]));
                return Err(APIError::PostOrdersError(responses));
            }
            i += 1;
        }
        Ok(responses)
    }

    /// The request that cancels all orders for a token.
    pub fn cancel_orders(&self, token_id: U256, timestamp: u64) -> (req: Result<
        ErrorDebugRequest,
        APIError,
    >)
        requires
            self.wf(),
        ensures
            self.is_signed(
                req,
                timestamp,
                "DELETE"@,
                "/cancel-market-orders"@,
                (RequestView {
                    body: Some(json::json_object("asset_id"@, text::decimal(token_id@))),
                    ..request::bare(Method::Delete, self.url_of("cancel-market-orders"@))
                }),
            ),
    {
        proof {
            reveal_strlit("asset_id");
            reveal_strlit("cancel-market-orders");
            text::decimal_denotes(token_id@, false);
        }
        let body = json::json_object_text("asset_id", &token_id.to_decimal());
        let headers = match auth::l2_headers(
            self.address,
            &self.api_creds,
            timestamp,
            "DELETE",
            "/cancel-market-orders",
            Some(body.as_str()),
        ) {
            Ok(headers) => headers,
            Err(e) => return Err(e),
        };
        let req = ErrorDebugClient.delete(self.url.join("cancel-market-orders")).headers(
            headers,
        ).body(body);
        assert(req@.headers =~= headers@);
        Ok(req)
    }

    /// The list of trades under a condition.
    pub fn trades<T>(&self, condition_id: B256, timestamp: u64) -> (trades: Result<
        PaginatedStream<T>,
        APIError,
    >)
        requires
            self.wf(),
        ensures
            self.is_signed_list(
                trades,
                timestamp,
                "/data/trades"@,
                "data/trades/"@,
                ("condition_id"@, seq!['0', 'x'] + text::hex(condition_id@)),
            ),
    {
        let mut headers = match auth::l2_headers(
            self.address,
            &self.api_creds,
            timestamp,
            "GET",
            "/data/trades",
            None,
        ) {
            Ok(headers) => headers,
            Err(e) => return Err(e),
        };
        let ghost before = headers@;
        let condition = condition_id.to_hex();
        headers.insert("condition_id", condition);
        proof {
            reveal_strlit("data/trades/");
            auth::header_names_differ();
            auth::with_value_at(before, "condition_id"@, condition@, before.len() as int);
        }
        Ok(PaginatedStream::new(self.url.join("data/trades/"), headers.entries))
    }

    /// The key of the owner's credentials.
    pub fn api_key(&self) -> (key: String)
        ensures
            key@ == self.api_creds.api_key@,
    {
        self.api_creds.api_key.clone()
    }

    /// The request for a token's prices over a span, one for each
    /// `fidelity_minutes`.
    pub fn price_history(
        &self,
        token_id: U256,
        interval: HistoricalInterval,
        fidelity_minutes: u32,
    ) -> (req: ErrorDebugRequest)
        requires
            self.wf(),
        ensures
            req@ == (RequestView {
                query: interval.query() + seq![
                    ("fidelity"@, text::decimal(fidelity_minutes as nat)),
                    ("market"@, text::decimal(token_id@)),
                ],
                ..request::bare(Method::Get, self.url_of("prices-history"@))
            }),
    {
        proof {
            reveal_strlit("prices-history");
        }
        let fidelity = text::decimal_text(fidelity_minutes as u64);
        let token = token_id.to_decimal();
        let req = ErrorDebugClient.get(self.url.join("prices-history")).extend_query(
            interval.as_query_param(),
        ).query("fidelity", &fidelity).query("market", &token);
        assert(req@.query =~= interval.query() + seq![
            ("fidelity"@, fidelity@),
            ("market"@, token@),
        ]);
        req
    }

    /// The list of the markets' rewards.
    pub fn get_market_rewards<T>(&self) -> (rewards: PaginatedStream<T>)
        ensures
            rewards.is_new(
                encoding::url_at(POLYMARKET_API_HOST@, POLYMARKET_API_DIR@, "rewards/markets"@),
                seq![],
            ),
    {
        proof {
            reveal_strlit("rewards/markets");
        }
        let url = polymarket_api_url().join("rewards/markets");
        let query: Vec<(String, String)> = Vec::new();
        assert(text::pairs(query@) =~= seq![]);
        PaginatedStream::new(url, query)
    }

    /// The request for a token's order book.
    pub fn get_book(&self, token_id: &str) -> (req: ErrorDebugRequest)
        requires
            self.wf(),
        ensures
            req@ == (RequestView {
                query: seq![("token_id"@, token_id@)],
                ..request::bare(Method::Get, self.url_of("book"@))
            }),
    {
        proof {
            reveal_strlit("book");
        }
        let req = ErrorDebugClient.get(self.url.join("book")).query("token_id", token_id);
        assert(req@.query =~= seq![("token_id"@, token_id@)]);
        req
    }

    /// The request for the middle of a token's best prices.
    pub fn get_mid_price(&self, token_id: &str) -> (req: ErrorDebugRequest)
        requires
            self.wf(),
        ensures
            req@ == (RequestView {
                query: seq![("token_id"@, token_id@)],
                ..request::bare(Method::Get, self.url_of("midpoint"@))
            }),
    {
        proof {
            reveal_strlit("midpoint");
        }
        let req = ErrorDebugClient.get(self.url.join("midpoint")).query("token_id", token_id);
        assert(req@.query =~= seq![("token_id"@, token_id@)]);
        req
    }
}

/// The metadata of markets.
#[derive(Debug, Clone, Copy)]
pub struct GammaClient {
    /// The base of the URLs of market metadata.
    pub url: BaseUrl,
}

impl GammaClient {
    /// The URLs' base needs no normalisation.
    pub open spec fn wf(&self) -> bool {
        self.url.wf()
    }

    /// The URL of a path.
    pub open spec fn url_of(&self, path: Seq<char>) -> Seq<char> {
        encoding::url_at(self.url.host@, self.url.dir@, path)
    }

    /// The metadata of markets.
    pub fn new() -> (client: GammaClient)
        ensures
            client.wf(),
            client.url.host@ == GAMMA_HOST@,
            client.url.dir@.len() == 0,
    {
        GammaClient { url: gamma_url() }
    }

    /// The request for the `limit` latest open markets from the index `offset`
    /// on.
    pub fn get_markets(&self, offset: u64, limit: u64) -> (req: ErrorDebugRequest)
        requires
            self.wf(),
        ensures
            req@ == (RequestView {
                query: seq![
                    ("ascending"@, "false"@),
                    ("limit"@, text::decimal(limit as nat)),
                    ("offset"@, text::decimal(offset as nat)),
                    ("order"@, "startDate"@),
                    ("closed"@, "false"@),
                ],
                ..request::bare(Method::Get, self.url_of("markets"@))
            }),
    {
        proof {
            reveal_strlit("markets");
        }
        let limit = text::decimal_text(limit);
        let offset = text::decimal_text(offset);
        let req = ErrorDebugClient.get(self.url.join("markets")).query("ascending", "false").query(
            "limit",
            &limit,
        ).query("offset", &offset).query("order", "startDate").query("closed", "false");
        assert(req@.query =~= seq![
            ("ascending"@, "false"@),
            ("limit"@, limit@),
            ("offset"@, offset@),
            ("order"@, "startDate"@),
            ("closed"@, "false"@),
        ]);
        req
    }

    /// The request for a market.
    pub fn get_market(&self, market_id: u64) -> (req: ErrorDebugRequest)
        requires
            self.wf(),
        ensures
            req@ == request::bare(
                Method::Get,
                self.url_of("markets/"@ + text::decimal(market_id as nat)),
            ),
    {
        proof {
            reveal_strlit("markets/");
            encoding::decimal_is_plain_path(market_id);
            encoding::plain_paths_join("markets/"@, text::decimal(market_id as nat));
        }
        let path = text::join2("markets/", &text::decimal_text(market_id));
        ErrorDebugClient.get(self.url.join(&path))
    }
}

/// Whether the request is made of these parts, apart from its headers.
pub open spec fn asks(
    req: ErrorDebugRequest,
    method: Method,
    url: Seq<char>,
    query: Seq<(Seq<char>, Seq<char>)>,
    body: Option<Seq<char>>,
) -> bool {
    &&& req.method == method
    &&& req.url@ == url
    &&& text::pairs(req.query@) == query
    &&& req.body is Some <==> body is Some
    &&& body matches Some(body) ==> req.body->0@ == body
}

/// Whether the URLs' base is that of the exchange's order book.
pub open spec fn at_order_book(client: ClobClient) -> bool {
    client.wf() && client.url.host@ == "clob.polymarket.com"@ && client.url.dir@.len() == 0
}

/// The URLs of the order book.
pub(crate) proof fn order_book_urls(client: ClobClient, path: Seq<char>)
    requires
        at_order_book(client),
        path.len() > 0,
    ensures
        path[0] != '/' ==> client.url_of(path) == "https://clob.polymarket.com/"@ + path,
        path[0] == '/' ==> client.url_of(path) == "https://clob.polymarket.com"@ + path,
{
    reveal_strlit("https://");
    reveal_strlit("clob.polymarket.com");
    reveal_strlit("https://clob.polymarket.com");
    reveal_strlit("https://clob.polymarket.com/");
    assert("https://clob.polymarket.com"@ =~= "https://"@ + "clob.polymarket.com"@);
    assert("https://clob.polymarket.com/"@ =~= "https://"@ + "clob.polymarket.com"@ + seq!['/']);
    if path[0] != '/' {
        assert(client.url_of(path) =~= "https://clob.polymarket.com/"@ + path);
    } else {
        assert(client.url_of(path) =~= "https://clob.polymarket.com"@ + path);
    }
}

/// A client that is made for a wallet's owner asks the order book, for that
/// wallet, with those credentials and for Polygon; another chain changes
/// nothing but the chain.
pub proof fn clients_ask_the_order_book(
    address: Address,
    api_creds: ApiCreds,
    chain_id: u64,
    client: ClobClient,
    moved: ClobClient,
)
    requires
        call_ensures(ClobClient::new, (address, api_creds), client),
        call_ensures(ClobClient::with_chain_id, (client, chain_id), moved),
    ensures
        at_order_book(client),
        client.address@ == address@,
        client.api_creds == api_creds,
        client.chain_id == 137,
        at_order_book(moved),
        moved.address == client.address,
        moved.api_creds == client.api_creds,
        moved.chain_id == chain_id,
{
}

/// Credentials are asked for with the wallet's headers: new ones, or those that
/// the wallet has.
pub proof fn credentials_are_asked_for(
    headers: Headers,
    created: ErrorDebugRequest,
    derived: ErrorDebugRequest,
)
    requires
        call_ensures(ClobClient::get_api_creds, (headers,), created),
        call_ensures(ClobClient::derive_api_creds, (headers,), derived),
    ensures
        asks(
            created,
            Method::Post,
            "https://clob.polymarket.com/auth/api-key"@,
            seq![],
            None,
        ),
        text::pairs(created.headers@) == headers@,
        asks(
            derived,
            Method::Get,
            "https://clob.polymarket.com/auth/derive-api-key"@,
            seq![],
            None,
        ),
        text::pairs(derived.headers@) == headers@,
{
    reveal_strlit("https://");
    reveal_strlit("clob.polymarket.com");
    reveal_strlit("auth/api-key");
    reveal_strlit("auth/derive-api-key");
    reveal_strlit("https://clob.polymarket.com/auth/api-key");
    reveal_strlit("https://clob.polymarket.com/auth/derive-api-key");
    assert(created.url@ =~= "https://clob.polymarket.com/auth/api-key"@);
    assert(derived.url@ =~= "https://clob.polymarket.com/auth/derive-api-key"@);
    assert(created@.query == text::pairs(created.query@));
    assert(created@.headers == text::pairs(created.headers@));
    assert(derived@.query == text::pairs(derived.query@));
    assert(derived@.headers == text::pairs(derived.headers@));
}

/// New credentials are used, and those that the wallet has are derived where
/// the exchange calls the request for new ones bad. Every other error is the
/// end.
pub proof fn credentials_are_derived_where_there_are_some(
    created: Result<ApiCreds, APIError>,
    step: CredsStep,
)
    requires
        call_ensures(ClobClient::creds_step, (created,), step),
    ensures
        created matches Ok(creds) ==> step == CredsStep::Use(creds),
        step is Derive <==> created == Err::<ApiCreds, APIError>(APIError::ErrorStatusCode(400)),
        created is Err && created->Err_0 != APIError::ErrorStatusCode(400) ==> step
            == CredsStep::Fail(created->Err_0),
{
}

/// An order is asked for by its identifier, under the path that is signed.
pub proof fn orders_are_asked_for_by_id(
    client: ClobClient,
    order_id: B256,
    timestamp: u64,
    req: Result<ErrorDebugRequest, APIError>,
)
    requires
        at_order_book(client),
        call_ensures(ClobClient::get_order, (&client, order_id, timestamp), req),
    ensures
        req is Ok <==> auth::has_key(client.api_creds),
        req matches Ok(r) ==> {
            &&& asks(
                r,
                Method::Get,
                "https://clob.polymarket.com"@ + ("/data/order/"@ + (seq!['0', 'x'] + text::hex(order_id@))),
                seq![],
                None,
            )
            &&& auth::authenticates(
                text::pairs(r.headers@),
                client.address,
                client.api_creds,
                timestamp,
                text::decimal(timestamp as nat) + "GET"@ + ("/data/order/"@ + (seq!['0', 'x'] + text::hex(order_id@))),
            )
        },
        req matches Err(e) ==> e is Base64DecodeError,
{
    reveal_strlit("/data/order/");
    order_book_urls(client, "/data/order/"@ + (seq!['0', 'x'] + text::hex(order_id@)));
    if let Some(key) = auth::secret_key(client.api_creds.secret@) {
        auth::entries_authenticate(
            client.address,
            client.api_creds,
            key,
            timestamp,
            "GET"@,
            ("/data/order/"@ + (seq!['0', 'x'] + text::hex(order_id@))),
            None,
        );
        let r = req->Ok_0;
        assert(r@.query == text::pairs(r.query@));
        assert(r@.headers == text::pairs(r.headers@));
    }
}

/// Whether an order earns rewards is asked with its identifier in the query.
pub proof fn scoring_is_asked_for_by_id(
    client: ClobClient,
    order_id: &str,
    timestamp: u64,
    req: Result<ErrorDebugRequest, APIError>,
)
    requires
        at_order_book(client),
        call_ensures(ClobClient::is_order_scoring, (&client, order_id, timestamp), req),
    ensures
        req is Ok <==> auth::has_key(client.api_creds),
        req matches Ok(r) ==> {
            &&& asks(
                r,
                Method::Get,
                "https://clob.polymarket.com/order-scoring"@,
                seq![("order_id"@, order_id@)],
                None,
            )
            &&& auth::authenticates(
                text::pairs(r.headers@),
                client.address,
                client.api_creds,
                timestamp,
                text::decimal(timestamp as nat) + "GET"@ + "/order-scoring"@,
            )
        },
        req matches Err(e) ==> e is Base64DecodeError,
{
    reveal_strlit("order-scoring");
    reveal_strlit("https://clob.polymarket.com/");
    reveal_strlit("https://clob.polymarket.com/order-scoring");
    order_book_urls(client, "order-scoring"@);
    assert("https://clob.polymarket.com/order-scoring"@ =~= "https://clob.polymarket.com/"@ + "order-scoring"@);
    if let Some(key) = auth::secret_key(client.api_creds.secret@) {
        auth::entries_authenticate(
            client.address,
            client.api_creds,
            key,
            timestamp,
            "GET"@,
            "/order-scoring"@,
            None,
        );
        let r = req->Ok_0;
        assert(r@.query == text::pairs(r.query@));
        assert(r@.headers == text::pairs(r.headers@));
    }
}

/// Rewards are asked for by the date, for a plain wallet.
pub proof fn rewards_are_asked_for_by_date(
    client: ClobClient,
    date: &str,
    timestamp: u64,
    req: Result<ErrorDebugRequest, APIError>,
)
    requires
        at_order_book(client),
        call_ensures(ClobClient::rewards_request, (&client, date, timestamp), req),
    ensures
        req is Ok <==> auth::has_key(client.api_creds),
        req matches Ok(r) ==> {
            &&& asks(
                r,
                Method::Get,
                "https://clob.polymarket.com/rewards/user/total"@,
                seq![("date"@, date@), ("signature_type"@, "0"@)],
                None,
            )
            &&& auth::authenticates(
                text::pairs(r.headers@),
                client.address,
                client.api_creds,
                timestamp,
                text::decimal(timestamp as nat) + "GET"@ + "/rewards/user/total"@,
            )
        },
        req matches Err(e) ==> e is Base64DecodeError,
{
    reveal_strlit("rewards/user/total");
    reveal_strlit("https://clob.polymarket.com/");
    reveal_strlit("https://clob.polymarket.com/rewards/user/total");
    order_book_urls(client, "rewards/user/total"@);
    assert("https://clob.polymarket.com/rewards/user/total"@ =~= "https://clob.polymarket.com/"@ + "rewards/user/total"@);
    if let Some(key) = auth::secret_key(client.api_creds.secret@) {
        auth::entries_authenticate(
            client.address,
            client.api_creds,
            key,
            timestamp,
            "GET"@,
            "/rewards/user/total"@,
            None,
        );
        let r = req->Ok_0;
        assert(r@.query == text::pairs(r.query@));
        assert(r@.headers == text::pairs(r.headers@));
    }
}

/// Rewards are asked for by the date in UTC on which a point in time falls.
pub proof fn rewards_are_asked_for_by_day(
    client: ClobClient,
    date: Instant,
    day: String,
    timestamp: u64,
    req: Result<ErrorDebugRequest, APIError>,
)
    requires
        at_order_book(client),
        clock::in_calendar(date.secs as int),
        call_ensures(clock::date_text, (date.secs,), day),
        call_ensures(ClobClient::get_total_rewards_earned, (&client, date, timestamp), req),
    ensures
        req is Ok <==> auth::has_key(client.api_creds),
        req matches Ok(r) ==> {
            &&& asks(
                r,
                Method::Get,
                "https://clob.polymarket.com/rewards/user/total"@,
                seq![("date"@, day@), ("signature_type"@, "0"@)],
                None,
            )
            &&& auth::authenticates(
                text::pairs(r.headers@),
                client.address,
                client.api_creds,
                timestamp,
                text::decimal(timestamp as nat) + "GET"@ + "/rewards/user/total"@,
            )
        },
        req matches Err(e) ==> e is Base64DecodeError,
{
    reveal_strlit("rewards/user/total");
    reveal_strlit("https://clob.polymarket.com/");
    reveal_strlit("https://clob.polymarket.com/rewards/user/total");
    order_book_urls(client, "rewards/user/total"@);
    assert("https://clob.polymarket.com/rewards/user/total"@ =~= "https://clob.polymarket.com/"@ + "rewards/user/total"@);
    if let Some(key) = auth::secret_key(client.api_creds.secret@) {
        auth::entries_authenticate(
            client.address,
            client.api_creds,
            key,
            timestamp,
            "GET"@,
            "/rewards/user/total"@,
            None,
        );
        let r = req->Ok_0;
        assert(r@.query == text::pairs(r.query@));
        assert(r@.headers == text::pairs(r.headers@));
    }
}

/// Orders are submitted in a body that is signed as it is sent.
pub proof fn orders_are_posted_as_they_are(
    client: ClobClient,
    body: String,
    timestamp: u64,
    req: Result<ErrorDebugRequest, APIError>,
)
    requires
        at_order_book(client),
        call_ensures(ClobClient::post_orders, (&client, body, timestamp), req),
    ensures
        req is Ok <==> auth::has_key(client.api_creds),
        req matches Ok(r) ==> {
            &&& asks(
                r,
                Method::Post,
                "https://clob.polymarket.com/orders"@,
                seq![],
                Some(body@),
            )
            &&& auth::authenticates(
                text::pairs(r.headers@),
                client.address,
                client.api_creds,
                timestamp,
                text::decimal(timestamp as nat) + "POST"@ + "/orders"@ + body@,
            )
        },
        req matches Err(e) ==> e is Base64DecodeError,
{
    reveal_strlit("orders");
    reveal_strlit("https://clob.polymarket.com/");
    reveal_strlit("https://clob.polymarket.com/orders");
    order_book_urls(client, "orders"@);
    assert("https://clob.polymarket.com/orders"@ =~= "https://clob.polymarket.com/"@ + "orders"@);
    if let Some(key) = auth::secret_key(client.api_creds.secret@) {
        auth::entries_authenticate(
            client.address,
            client.api_creds,
            key,
            timestamp,
            "POST"@,
            "/orders"@,
            Some(body@),
        );
        let r = req->Ok_0;
        assert(r@.query == text::pairs(r.query@));
        assert(r@.headers == text::pairs(r.headers@));
    }
}

/// The orders for a token are cancelled by the token's number, in a body that is
/// signed as it is sent.
pub proof fn orders_are_cancelled_by_token(
    client: ClobClient,
    token_id: U256,
    timestamp: u64,
    req: Result<ErrorDebugRequest, APIError>,
)
    requires
        at_order_book(client),
        call_ensures(ClobClient::cancel_orders, (&client, token_id, timestamp), req),
    ensures
        req is Ok <==> auth::has_key(client.api_creds),
        req matches Ok(r) ==> {
            &&& asks(
                r,
                Method::Delete,
                "https://clob.polymarket.com/cancel-market-orders"@,
                seq![],
                Some(("{\"asset_id\":\""@ + text::decimal(token_id@) + "\"}"@)),
            )
            &&& auth::authenticates(
                text::pairs(r.headers@),
                client.address,
                client.api_creds,
                timestamp,
                text::decimal(timestamp as nat) + "DELETE"@ + "/cancel-market-orders"@ + ("{\"asset_id\":\""@ + text::decimal(token_id@) + "\"}"@),
            )
        },
        req matches Err(e) ==> e is Base64DecodeError,
{
    reveal_strlit("cancel-market-orders");
    reveal_strlit("https://clob.polymarket.com/");
    reveal_strlit("https://clob.polymarket.com/cancel-market-orders");
    order_book_urls(client, "cancel-market-orders"@);
    assert("https://clob.polymarket.com/cancel-market-orders"@ =~= "https://clob.polymarket.com/"@ + "cancel-market-orders"@);
    reveal_strlit("{\"asset_id\":\"");
    reveal_strlit("\"}");
    reveal_strlit("asset_id");
    let body = "{\"asset_id\":\""@ + text::decimal(token_id@) + "\"}"@;
    assert(json::json_object("asset_id"@, text::decimal(token_id@)) =~= body);
    if let Some(key) = auth::secret_key(client.api_creds.secret@) {
        auth::entries_authenticate(
            client.address,
            client.api_creds,
            key,
            timestamp,
            "DELETE"@,
            "/cancel-market-orders"@,
            Some(("{\"asset_id\":\""@ + text::decimal(token_id@) + "\"}"@)),
        );
        let r = req->Ok_0;
        assert(r@.query == text::pairs(r.query@));
        assert(r@.headers == text::pairs(r.headers@));
    }
}

/// Open orders are listed by the token, behind the headers of a signed request.
pub proof fn open_orders_are_listed_by_token<T>(
    client: ClobClient,
    token_id: U256,
    timestamp: u64,
    list: Result<PaginatedStream<T>, APIError>,
)
    requires
        at_order_book(client),
        call_ensures(ClobClient::get_open_orders::<T>, (&client, token_id, timestamp), list),
    ensures
        list is Ok <==> auth::has_key(client.api_creds),
        list matches Ok(l) ==> {
            let query = text::pairs(l.query@);
            &&& l.url@ == "https://clob.polymarket.com/data/orders"@
            &&& query.len() == 6
            &&& query[5] == ("asset_id"@, text::decimal(token_id@))
            &&& auth::authenticates(
                query.take(5),
                client.address,
                client.api_creds,
                timestamp,
                text::decimal(timestamp as nat) + "GET"@ + "/data/orders"@,
            )
            &&& l.buffer@.len() == 0
            &&& l.in_flight@ == "MA=="@
            &&& !l.done
        },
        list matches Err(e) ==> e is Base64DecodeError,
{
    reveal_strlit("data/orders");
    reveal_strlit("https://clob.polymarket.com/");
    reveal_strlit("https://clob.polymarket.com/data/orders");
    order_book_urls(client, "data/orders"@);
    assert("https://clob.polymarket.com/data/orders"@ =~= "https://clob.polymarket.com/"@ + "data/orders"@);
    if let Some(key) = auth::secret_key(client.api_creds.secret@) {
        auth::entries_authenticate(
            client.address,
            client.api_creds,
            key,
            timestamp,
            "GET"@,
            "/data/orders"@,
            None,
        );
        let entries = auth::l2_entries(
            client.address@,
            client.api_creds,
            key,
            timestamp,
            "GET"@,
            "/data/orders"@,
            None,
        );
        assert(entries.push(("asset_id"@, text::decimal(token_id@))).take(5) =~= entries);
    }
}

/// Trades are listed by the condition, behind the headers of a signed request.
pub proof fn trades_are_listed_by_condition<T>(
    client: ClobClient,
    condition_id: B256,
    timestamp: u64,
    list: Result<PaginatedStream<T>, APIError>,
)
    requires
        at_order_book(client),
        call_ensures(ClobClient::trades::<T>, (&client, condition_id, timestamp), list),
    ensures
        list is Ok <==> auth::has_key(client.api_creds),
        list matches Ok(l) ==> {
            let query = text::pairs(l.query@);
            &&& l.url@ == "https://clob.polymarket.com/data/trades/"@
            &&& query.len() == 6
            &&& query[5] == ("condition_id"@, seq!['0', 'x'] + text::hex(condition_id@))
            &&& auth::authenticates(
                query.take(5),
                client.address,
                client.api_creds,
                timestamp,
                text::decimal(timestamp as nat) + "GET"@ + "/data/trades"@,
            )
            &&& l.buffer@.len() == 0
            &&& l.in_flight@ == "MA=="@
            &&& !l.done
        },
        list matches Err(e) ==> e is Base64DecodeError,
{
    reveal_strlit("data/trades/");
    reveal_strlit("https://clob.polymarket.com/");
    reveal_strlit("https://clob.polymarket.com/data/trades/");
    order_book_urls(client, "data/trades/"@);
    assert("https://clob.polymarket.com/data/trades/"@ =~= "https://clob.polymarket.com/"@ + "data/trades/"@);
    if let Some(key) = auth::secret_key(client.api_creds.secret@) {
        auth::entries_authenticate(
            client.address,
            client.api_creds,
            key,
            timestamp,
            "GET"@,
            "/data/trades"@,
            None,
        );
        let entries = auth::l2_entries(
            client.address@,
            client.api_creds,
            key,
            timestamp,
            "GET"@,
            "/data/trades"@,
            None,
        );
        assert(entries.push(("condition_id"@, seq!['0', 'x'] + text::hex(condition_id@))).take(5) =~= entries);
    }
}

/// A book is asked for by its token.
pub proof fn books_are_asked_for_by_token(
    client: ClobClient,
    token_id: &str,
    req: ErrorDebugRequest,
)
    requires
        at_order_book(client),
        call_ensures(ClobClient::get_book, (&client, token_id), req),
    ensures
        asks(
            req,
            Method::Get,
            "https://clob.polymarket.com/book"@,
            seq![("token_id"@, token_id@)],
            None,
        ),
        req.headers@.len() == 0,
{
    reveal_strlit("book");
    reveal_strlit("https://clob.polymarket.com/");
    reveal_strlit("https://clob.polymarket.com/book");
    order_book_urls(client, "book"@);
    assert("https://clob.polymarket.com/book"@ =~= "https://clob.polymarket.com/"@ + "book"@);
    assert(req@.query == text::pairs(req.query@));
    assert(req@.headers.len() == req.headers@.len());
}

/// The middle of the best prices is asked for by its token.
pub proof fn mid_prices_are_asked_for_by_token(
    client: ClobClient,
    token_id: &str,
    req: ErrorDebugRequest,
)
    requires
        at_order_book(client),
        call_ensures(ClobClient::get_mid_price, (&client, token_id), req),
    ensures
        asks(
            req,
            Method::Get,
            "https://clob.polymarket.com/midpoint"@,
            seq![("token_id"@, token_id@)],
            None,
        ),
        req.headers@.len() == 0,
{
    reveal_strlit("midpoint");
    reveal_strlit("https://clob.polymarket.com/");
    reveal_strlit("https://clob.polymarket.com/midpoint");
    order_book_urls(client, "midpoint"@);
    assert("https://clob.polymarket.com/midpoint"@ =~= "https://clob.polymarket.com/"@ + "midpoint"@);
    assert(req@.query == text::pairs(req.query@));
    assert(req@.headers.len() == req.headers@.len());
}

/// A history of prices is asked for by the span, by how fine it is to be, and by
/// the token.
pub proof fn histories_are_asked_for_by_token(
    client: ClobClient,
    token_id: U256,
    interval: HistoricalInterval,
    fidelity_minutes: u32,
    span: Vec<(String, String)>,
    req: ErrorDebugRequest,
)
    requires
        at_order_book(client),
        call_ensures(HistoricalInterval::as_query_param, (&interval,), span),
        call_ensures(
            ClobClient::price_history,
            (&client, token_id, interval, fidelity_minutes),
            req,
        ),
    ensures
        asks(
            req,
            Method::Get,
            "https://clob.polymarket.com/prices-history"@,
            text::pairs(span@) + seq![
                ("fidelity"@, text::decimal(fidelity_minutes as nat)),
                ("market"@, text::decimal(token_id@)),
            ],
            None,
        ),
        req.headers@.len() == 0,
{
    reveal_strlit("prices-history");
    reveal_strlit("https://clob.polymarket.com/");
    reveal_strlit("https://clob.polymarket.com/prices-history");
    order_book_urls(client, "prices-history"@);
    assert("https://clob.polymarket.com/prices-history"@ =~= "https://clob.polymarket.com/"@ + "prices-history"@);
    assert(req@.query == text::pairs(req.query@));
    assert(req@.headers.len() == req.headers@.len());
}

/// Rewards of markets are listed at the exchange's own host, without a query.
pub proof fn market_rewards_are_listed<T>(client: ClobClient, list: PaginatedStream<T>)
    requires
        call_ensures(ClobClient::get_market_rewards::<T>, (&client,), list),
    ensures
        list.url@ == "https://polymarket.com/api/rewards/markets"@,
        list.query@.len() == 0,
        list.buffer@.len() == 0,
        list.in_flight@ == "MA=="@,
        !list.done,
{
    reveal_strlit("https://");
    reveal_strlit("polymarket.com");
    reveal_strlit("/api/");
    reveal_strlit("rewards/markets");
    reveal_strlit("https://polymarket.com/api/rewards/markets");
    assert(list.url@ =~= "https://polymarket.com/api/rewards/markets"@);
    assert(text::pairs(list.query@).len() == list.query@.len());
}

/// Markets are asked for at the host of the metadata: one by its number, or the
/// latest open ones by their place.
pub proof fn markets_are_asked_for(
    client: GammaClient,
    offset: u64,
    limit: u64,
    market_id: u64,
    many: ErrorDebugRequest,
    one: ErrorDebugRequest,
)
    requires
        call_ensures(GammaClient::new, (), client),
        call_ensures(GammaClient::get_markets, (&client, offset, limit), many),
        call_ensures(GammaClient::get_market, (&client, market_id), one),
    ensures
        asks(
            many,
            Method::Get,
            "https://gamma-api.polymarket.com/markets"@,
            seq![
                ("ascending"@, "false"@),
                ("limit"@, text::decimal(limit as nat)),
                ("offset"@, text::decimal(offset as nat)),
                ("order"@, "startDate"@),
                ("closed"@, "false"@),
            ],
            None,
        ),
        asks(
            one,
            Method::Get,
            "https://gamma-api.polymarket.com/markets/"@ + text::decimal(market_id as nat),
            seq![],
            None,
        ),
{
    reveal_strlit("https://");
    reveal_strlit("gamma-api.polymarket.com");
    reveal_strlit("markets");
    reveal_strlit("markets/");
    reveal_strlit("https://gamma-api.polymarket.com/markets");
    reveal_strlit("https://gamma-api.polymarket.com/markets/");
    assert(many.url@ =~= "https://gamma-api.polymarket.com/markets"@);
    assert(one.url@ =~= "https://gamma-api.polymarket.com/markets/"@ + text::decimal(
        market_id as nat,
    ));
    assert(many@.query == text::pairs(many.query@));
    assert(one@.query == text::pairs(one.query@));
}

/// What is submitted is the signed order, of the type that was asked for, in
/// the name of the owner's key, and to be handled at once. Its amounts are
/// those of the draft.
pub proof fn submissions_hold_the_order(
    client: ClobClient,
    ticket: OrderTicket,
    draft: OrderDraft,
    signature: [u8; 65],
    submission: SignedOrder,
    gtc: SignedOrder,
    fok: SignedOrder,
)
    requires
        call_ensures(ClobClient::create_order, (&client, &ticket, &draft, &signature), submission),
        call_ensures(ClobClient::create_gtc_order, (&client, &draft, &signature), gtc),
        call_ensures(ClobClient::create_fok_order, (&client, &draft, &signature), fok),
    ensures
        submission.order_type == ticket.order_type,
        gtc.order_type == OrderType::GTC,
        fok.order_type == OrderType::FOK,
        forall|s: SignedOrder|
            s == submission || s == gtc || s == fok ==> {
                &&& (#[trigger] s.owner)@ == client.api_creds.api_key@
                &&& !s.defer_exec
                &&& s.order.salt == draft.salt
                &&& s.order.maker_amount@ == text::decimal(draft.maker_amount@)
                &&& s.order.taker_amount@ == text::decimal(draft.taker_amount@)
                &&& s.order.token_id@ == text::decimal(draft.token_id@)
                &&& s.order.expiration@ == text::decimal(draft.expiration as nat)
                &&& text::hex_denoted(s.order.maker@, 20) == Some(draft.maker@)
                &&& text::hex_denoted(s.order.signer@, 20) == Some(draft.maker@)
                &&& s.order.side@ == (if draft.side == Side::BUY {
                    "BUY"@
                } else {
                    "SELL"@
                })
                &&& s.order.signature@ == seq!['0', 'x'] + text::hex(signature@)
            },
{
}

/// An order is drafted for the client's own wallet, with the ticket's token and
/// side and the amounts that were calculated for it, and never expires.
pub proof fn drafts_are_of_the_owner(
    client: ClobClient,
    ticket: OrderTicket,
    maker_amount: U256,
    taker_amount: U256,
    draft: OrderDraft,
)
    requires
        call_ensures(
            ClobClient::draft_order,
            (&client, &ticket, maker_amount, taker_amount),
            draft,
        ),
    ensures
        draft.maker@ == client.address@,
        draft.token_id@ == ticket.token_id@,
        draft.side == ticket.side,
        draft.maker_amount@ == maker_amount@,
        draft.taker_amount@ == taker_amount@,
        draft.expiration == 0,
{
}

/// The answers to submitted orders are handed out as they are: as an error if
/// and only if an order failed or has an error message.
pub proof fn answers_are_handed_out(
    responses: Vec<PostOrderResponse>,
    outcome: Result<Vec<PostOrderResponse>, APIError>,
)
    requires
        call_ensures(ClobClient::posted_orders, (responses,), outcome),
    ensures
        outcome is Err <==> exists|i: int|
            0 <= i < responses@.len() && (!(#[trigger] responses@[i]).success
                || responses@[i].error_msg is Some),
        outcome matches Ok(all) ==> all == responses,
        outcome matches Err(e) ==> e == APIError::PostOrdersError(responses),
{
    if forall|i: int|
        0 <= i < responses@.len() ==> ClobClient::accepted(#[trigger] responses@[i]) {
        assert forall|i: int| 0 <= i < responses@.len() implies (#[trigger] responses@[i]).success
            && responses@[i].error_msg is None by {
            assert(ClobClient::accepted(responses@[i]));
        }
    }
}

} // verus!
