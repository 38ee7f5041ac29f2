//! The exchange's interface over HTTP: which requests are made, how they are
//! authenticated, and what is made of the answers.

use super::types::api::PostOrderResponse;
use crate::encoding::Base64Error;
use crate::primitives::B256;
use crate::text;
use vstd::prelude::*;

pub mod auth;
pub mod clob;
pub mod paginate;
pub mod request;

pub use auth::{
    ApiCreds, Headers, build_hmac_signature, create_l1_headers, create_l2_headers, l1_headers,
    l1_message, l2_headers, signature_of_code, signed_message,
};
pub use clob::{ClobClient, CredsStep, GammaClient};
pub use paginate::{PageOutcome, PageStep, PaginatedResponse, PaginatedStream};
pub use request::{ErrorDebugClient, ErrorDebugRequest, Method, SendStep, read_response, status_text};

verus! {

/// The host of the market metadata.
pub const GAMMA_HOST: &'static str = "gamma-api.polymarket.com";

/// The host of the order book.
pub const CLOB_HOST: &'static str = "clob.polymarket.com";

/// The host of the rewards.
pub const POLYMARKET_API_HOST: &'static str = "polymarket.com";

/// The directory of the rewards.
pub const POLYMARKET_API_DIR: &'static str = "/api/";

/// The cursor behind the last page.
pub const END_CURSOR: &'static str = "LTE=";

/// The cursor of the first page.
pub const START_CURSOR: &'static str = "MA==";

/// How long to wait before a request is repeated, in seconds.
pub const START_RETRY_DELAY_SECS: u64 = 1;

/// How often a request is sent at most.
pub const NUM_RETRIES: u32 = 3;

/// The status of a request that makes no sense to the server.
pub const BAD_REQUEST: u16 = 400;

/// The status of a request that comes too soon after others.
pub const TOO_MANY_REQUESTS: u16 = 429;

/// A request that could not be sent or whose answer could not be read.
#[derive(Debug, Clone)]
pub struct HttpError {
    /// It took too long.
    pub timeout: bool,
    /// No connection was made.
    pub connect: bool,
    /// The request itself failed.
    pub request: bool,
    /// What happened, in words.
    pub message: String,
}

/// What can go wrong when the exchange is asked for something.
#[derive(Debug, Clone)]
pub enum APIError {
    HTTPError(HttpError),
    ErrorStatusCode(u16),
    SerdeError(String),
    SigningError(String),
    InvalidChain(u64),
    Base64DecodeError(Base64Error),
    PostOrdersError(Vec<PostOrderResponse>),
    CancelOrdersError(Vec<(B256, String)>),
    PollInFlightError(String),
}

impl APIError {
    /// Whether the same request may succeed a little later.
    pub open spec fn transient(&self) -> bool {
        match self {
            APIError::HTTPError(e) => e.timeout || e.connect || e.request,
            APIError::ErrorStatusCode(status) => *status == TOO_MANY_REQUESTS,
            _ => false,
        }
    }

    /// Whether the same request may succeed a little later.
    pub fn is_transient(&self) -> (transient: bool)
        ensures
            transient == self.transient(),
    {
        match self {
            APIError::HTTPError(e) => e.timeout || e.connect || e.request,
            APIError::ErrorStatusCode(status) => *status == TOO_MANY_REQUESTS,
            _ => false,
        }
    }
}

/// The answers to orders, each as it is shown for debugging.
pub open spec fn answers_shown(all: Seq<PostOrderResponse>) -> Seq<Seq<char>> {
    all.map_values(|answer: PostOrderResponse| answer.shown())
}

/// The orders that were not cancelled, each with the reason as it is shown for
/// debugging.
pub open spec fn reasons_shown(all: Seq<(B256, String)>) -> Seq<Seq<char>> {
    all.map_values(
        |entry: (B256, String)|
            seq!['0', 'x'] + text::hex(entry.0@) + ": "@ + text::debug_written(entry.1@),
    )
}

impl APIError {
    /// What went wrong, in words.
    pub open spec fn words(&self) -> Seq<char> {
        match self {
            APIError::HTTPError(e) => "HTTP error: "@ + e.message@,
            APIError::ErrorStatusCode(status) => "Error status code: "@ + request::status_shown(
                *status,
            ),
            APIError::SerdeError(e) => "Invalid Payload: "@ + e@,
            APIError::SigningError(e) => "Signing error: "@ + e@,
            APIError::InvalidChain(chain_id) => "Invalid chain: "@ + text::decimal(
                *chain_id as nat,
            ),
            APIError::Base64DecodeError(_) => "Can't decode secret to base64"@,
            APIError::PostOrdersError(all) => "Failed to post orders: ["@ + text::listed(
                answers_shown(all@),
            ) + "]"@,
            APIError::CancelOrdersError(all) => "Failed to cancel orders: {"@ + text::listed(
                reasons_shown(all@),
            ) + "}"@,
            APIError::PollInFlightError(e) => "Failed to poll in flight task: "@ + e@,
        }
    }

    /// What went wrong, in words.
    pub fn to_text(&self) -> (s: String)
        ensures
            s@ == self.words(),
    {
        match self {
            APIError::HTTPError(e) => text::join2("HTTP error: ", &e.message),
            APIError::ErrorStatusCode(status) => text::join2(
                "Error status code: ",
                &status_text(*status),
            ),
            APIError::SerdeError(e) => text::join2("Invalid Payload: ", e),
            APIError::SigningError(e) => text::join2("Signing error: ", e),
            APIError::InvalidChain(chain_id) => text::join2(
                "Invalid chain: ",
                &text::decimal_text(*chain_id),
            ),
            APIError::Base64DecodeError(_) => "Can't decode secret to base64".to_owned(),
            APIError::PostOrdersError(all) => {
                let mut shown: Vec<String> = Vec::new();
                let mut i: usize = 0;
                while i < all.len()
                    invariant
                        i <= all@.len(),
                        shown@.len() == i,
                        forall|j: int| 0 <= j < i ==> (#[trigger] shown@[j])@ == all@[j].shown(),
                    decreases all@.len() - i,
                {
                    shown.push(all[i].show());
                    i += 1;
                }
                assert(text::texts(shown@) =~= answers_shown(all@));
                text::join3("Failed to post orders: [", &text::listed_text(&shown), "]")
            },
            APIError::CancelOrdersError(all) => {
                let mut shown: Vec<String> = Vec::new();
                let mut i: usize = 0;
                while i < all.len()
                    invariant
                        i <= all@.len(),
                        shown@.len() == i,
                        forall|j: int|
                            0 <= j < i ==> (#[trigger] shown@[j])@ == seq!['0', 'x'] + text::hex(
                                all@[j].0@,
                            ) + ": "@ + text::debug_written(all@[j].1@),
                    decreases all@.len() - i,
                {
                    let reason = text::debug_text(&all[i].1);
                    shown.push(text::join3(&all[i].0.to_hex(), ": ", &reason));
                    i += 1;
                }
                assert(text::texts(shown@) =~= reasons_shown(all@));
                text::join3("Failed to cancel orders: {", &text::listed_text(&shown), "}")
            },
            APIError::PollInFlightError(e) => text::join2("Failed to poll in flight task: ", e),
        }
    }
}

/// The errors of requests in words. The answers to orders that were refused are
/// all shown, and so are the orders that were not cancelled.
pub proof fn errors_by_their_words(error: APIError, s: String)
    requires
        call_ensures(APIError::to_text, (&error,), s),
    ensures
        match error {
            APIError::HTTPError(e) => s@ == "HTTP error: "@ + e.message@,
            APIError::ErrorStatusCode(status) => {
                &&& "Error status code: "@.is_prefix_of(s@)
                &&& 100 <= status <= 999 ==> s@ == "Error status code: "@
                    + request::status_written(status)
                &&& !(100 <= status <= 999) ==> s@ == "Error status code: "@ + text::decimal(
                    status as nat,
                )
            },
            APIError::SerdeError(e) => s@ == "Invalid Payload: "@ + e@,
            APIError::SigningError(e) => s@ == "Signing error: "@ + e@,
            APIError::InvalidChain(chain_id) => s@ == "Invalid chain: "@ + text::decimal(
                chain_id as nat,
            ),
            APIError::Base64DecodeError(_) => s@ == "Can't decode secret to base64"@,
            APIError::PostOrdersError(all) => exists|shown: Seq<Seq<char>>|
                {
                    &&& s@ == "Failed to post orders: ["@ + #[trigger] text::listed(shown) + "]"@
                    &&& shown.len() == all@.len()
                    &&& forall|i: int| 0 <= i < all@.len() ==> #[trigger] shown[i] == all@[i].shown()
                },
            APIError::CancelOrdersError(all) => exists|shown: Seq<Seq<char>>|
                {
                    &&& s@ == "Failed to cancel orders: {"@ + #[trigger] text::listed(shown) + "}"@
                    &&& shown.len() == all@.len()
                    &&& forall|i: int|
                        0 <= i < all@.len() ==> #[trigger] shown[i] == seq!['0', 'x'] + text::hex(
                            all@[i].0@,
                        ) + ": "@ + text::debug_written(all@[i].1@)
                },
            APIError::PollInFlightError(e) => s@ == "Failed to poll in flight task: "@ + e@,
        },
{
    match error {
        APIError::ErrorStatusCode(status) => {
            let start = "Error status code: "@;
            assert(s@.take(start.len() as int) =~= start);
        },
        APIError::PostOrdersError(all) => {
            let shown = answers_shown(all@);
            assert(s@ == "Failed to post orders: ["@ + text::listed(shown) + "]"@);
        },
        APIError::CancelOrdersError(all) => {
            let shown = reasons_shown(all@);
            assert(s@ == "Failed to cancel orders: {"@ + text::listed(shown) + "}"@);
        },
        _ => {},
    }
}

} // verus!
