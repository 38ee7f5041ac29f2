//! Requests, and when they are repeated.

use super::auth::Headers;
use super::{APIError, NUM_RETRIES, START_RETRY_DELAY_SECS};
use crate::text;
use vstd::prelude::*;

verus! {

/// What a request does with the thing that its URL names.
#[derive(Debug, Clone, Copy, PartialEq, Eq, Structural)]
pub enum Method {
    Get,
    Post,
    Delete,
}

/// A request, over the texts that it is made of.
pub ghost struct RequestView {
    pub method: Method,
    pub url: Seq<char>,
    pub query: Seq<(Seq<char>, Seq<char>)>,
    pub headers: Seq<(Seq<char>, Seq<char>)>,
    pub body: Option<Seq<char>>,
}

/// A request to the exchange.
#[derive(Debug)]
pub struct ErrorDebugRequest {
    pub method: Method,
    pub url: String,
    /// The query's parameters.
    pub query: Vec<(String, String)>,
    /// The headers.
    pub headers: Vec<(String, String)>,
    /// The body, in JSON notation.
    pub body: Option<String>,
}

impl View for ErrorDebugRequest {
    type V = RequestView;

    open spec fn view(&self) -> RequestView {
        RequestView {
            method: self.method,
            url: self.url@,
            query: text::pairs(self.query@),
            headers: text::pairs(self.headers@),
            body: match self.body {
                Some(body) => Some(body@),
                None => None,
            },
        }
    }
}

/// A request with nothing but a method and a URL.
pub open spec fn bare(method: Method, url: Seq<char>) -> RequestView {
    RequestView { method, url, query: seq![], headers: seq![], body: None }
}

/// What makes requests.
#[derive(Debug, Clone, Copy)]
pub struct ErrorDebugClient;

impl ErrorDebugClient {
    /// A request that reads.
    pub fn get(&self, url: String) -> (req: ErrorDebugRequest)
        ensures
            req@ == bare(Method::Get, url@),
    {
        ErrorDebugRequest::new(Method::Get, url)
    }

    /// A request that creates.
    pub fn post(&self, url: String) -> (req: ErrorDebugRequest)
        ensures
            req@ == bare(Method::Post, url@),
    {
        ErrorDebugRequest::new(Method::Post, url)
    }

    /// A request that removes.
    pub fn delete(&self, url: String) -> (req: ErrorDebugRequest)
        ensures
            req@ == bare(Method::Delete, url@),
    {
        ErrorDebugRequest::new(Method::Delete, url)
    }
}

impl ErrorDebugRequest {
    /// A request with nothing but a method and a URL.
    pub fn new(method: Method, url: String) -> (req: ErrorDebugRequest)
        ensures
            req@ == bare(method, url@),
    {
        let req = ErrorDebugRequest {
            method,
            url,
            query: Vec::new(),
            headers: Vec::new(),
            body: None,
        };
        assert(req@.query =~= seq![]);
        assert(req@.headers =~= seq![]);
        req
    }

    /// Adds a parameter to the query.
    pub fn query(self, name: &str, value: &str) -> (req: ErrorDebugRequest)
        ensures
            req@ == (RequestView { query: self@.query.push((name@, value@)), ..self@ }),
    {
        let mut query = self.query;
        text::push_pair(&mut query, name, value.to_owned());
        ErrorDebugRequest {
            method: self.method,
            url: self.url,
            query,
            headers: self.headers,
            body: self.body,
        }
    }

    /// Adds parameters to the query, in their order.
    pub fn extend_query(self, params: Vec<(String, String)>) -> (req: ErrorDebugRequest)
        ensures
            req@ == (RequestView { query: self@.query + text::pairs(params@), ..self@ }),
    {
        let ghost added = params@;
        let mut params = params;
        let mut query = self.query;
        query.append(&mut params);
        assert(text::pairs(query@) =~= self@.query + text::pairs(added));
        ErrorDebugRequest {
            method: self.method,
            url: self.url,
            query,
            headers: self.headers,
            body: self.body,
        }
    }

    /// Adds headers.
    pub fn headers(self, headers: Headers) -> (req: ErrorDebugRequest)
        ensures
            req@ == (RequestView { headers: self@.headers + headers@, ..self@ }),
    {
        let ghost added = headers@;
        let mut entries = headers.entries;
        let mut all = self.headers;
        all.append(&mut entries);
        assert(text::pairs(all@) =~= self@.headers + added);
        ErrorDebugRequest {
            method: self.method,
            url: self.url,
            query: self.query,
            headers: all,
            body: self.body,
        }
    }

    /// Sets the body, which is in JSON notation.
    pub fn body(self, body: String) -> (req: ErrorDebugRequest)
        ensures
            req@ == (RequestView { body: Some(body@), ..self@ }),
    {
        ErrorDebugRequest {
            method: self.method,
            url: self.url,
            query: self.query,
            headers: self.headers,
            body: Some(body),
        }
    }
}

/// What becomes of an answer: its body, or an error that holds the status,
/// where that does not speak of success.
pub fn read_response(status: u16, body: String) -> (answer: Result<String, APIError>)
    ensures
        answer == (if 200 <= status < 300 {
            Ok::<String, APIError>(body)
        } else {
            Err(APIError::ErrorStatusCode(status))
        }),
{
    if 200 <= status && status < 300 {
        Ok(body)
    } else {
        Err(APIError::ErrorStatusCode(status))
    }
}

/// A status with its usual reason, as `404 Not Found`.
pub uninterp spec fn status_written(status: u16) -> Seq<char>;

/// `Display` of `reqwest::StatusCode`: the status in decimal notation, a blank
/// and its usual reason. Which reason that is, is a function of the status and
/// not stated here.
#[verifier::external_body]
fn status_display(status: u16) -> (s: String)
    requires
        100 <= status <= 999,
    ensures
        s@ == status_written(status),
        (text::decimal(status as nat) + seq![' ']).is_prefix_of(s@),
{
    reqwest::StatusCode::from_u16(status).expect("a status").to_string()
}

/// A status with its usual reason; a number that is no status by itself.
pub open spec fn status_shown(status: u16) -> Seq<char> {
    if 100 <= status <= 999 {
        status_written(status)
    } else {
        text::decimal(status as nat)
    }
}

/// A status with its usual reason; a number that is no status by itself.
pub fn status_text(status: u16) -> (s: String)
    ensures
        s@ == status_shown(status),
        text::decimal(status as nat).is_prefix_of(s@),
{
    if 100 <= status && status <= 999 {
        let s = status_display(status);
        proof {
            let number = text::decimal(status as nat);
            assert((number + seq![' ']).take(number.len() as int) =~= number);
            assert(s@.take(number.len() as int) =~= number);
        }
        s
    } else {
        text::decimal_text(status as u64)
    }
}

/// What is done after a request was sent.
#[derive(Debug)]
pub enum SendStep<T> {
    /// The outcome is handed out.
    Done(Result<T, APIError>),
    /// The request is sent again after a number of seconds.
    Retry { delay_secs: u64 },
    /// The error is handed out after a number of seconds.
    GiveUp { delay_secs: u64, error: APIError },
}

/// What is done after a request was sent, `attempt` times before, with an
/// outcome. A request that can be sent again is, where that may help, until
/// it was sent often enough.
pub open spec fn send_step<T>(
    attempt: u32,
    repeatable: bool,
    outcome: Result<T, APIError>,
) -> SendStep<T> {
    match outcome {
        Err(e) => if repeatable && e.transient() {
            if attempt == NUM_RETRIES - 1 {
                SendStep::GiveUp { delay_secs: START_RETRY_DELAY_SECS, error: e }
            } else {
                SendStep::Retry { delay_secs: START_RETRY_DELAY_SECS }
            }
        } else {
            SendStep::Done(outcome)
        },
        Ok(_) => SendStep::Done(outcome),
    }
}

impl ErrorDebugRequest {
    /// What is done after the request was sent, `attempt` times before, with
    /// an outcome. `repeatable` says whether the request can be sent again.
    pub fn after_send<T>(attempt: u32, repeatable: bool, outcome: Result<T, APIError>) -> (step:
        SendStep<T>)
        requires
            attempt < NUM_RETRIES,
        ensures
            step == send_step(attempt, repeatable, outcome),
    {
        match outcome {
            Ok(value) => SendStep::Done(Ok(value)),
            Err(e) => if repeatable && e.is_transient() {
                if attempt == NUM_RETRIES - 1 {
                    SendStep::GiveUp { delay_secs: START_RETRY_DELAY_SECS, error: e }
                } else {
                    SendStep::Retry { delay_secs: START_RETRY_DELAY_SECS }
                }
            } else {
                SendStep::Done(Err(e))
            },
        }
    }
}

/// How often a request is sent in all, from the attempt `attempt` on, where
/// each attempt has the outcome that `outcomes` says.
pub open spec fn sends<T>(
    attempt: nat,
    repeatable: bool,
    outcomes: spec_fn(nat) -> Result<T, APIError>,
) -> nat
    decreases NUM_RETRIES - attempt,
{
    if attempt >= NUM_RETRIES {
        attempt
    } else {
        match send_step(attempt as u32, repeatable, outcomes(attempt)) {
            SendStep::Retry { delay_secs } => sends(attempt + 1, repeatable, outcomes),
            _ => attempt + 1,
        }
    }
}

/// What is handed out in the end, from the attempt `attempt` on, where each
/// attempt has the outcome that `outcomes` says.
pub open spec fn sent<T>(
    attempt: nat,
    repeatable: bool,
    outcomes: spec_fn(nat) -> Result<T, APIError>,
) -> Option<Result<T, APIError>>
    decreases NUM_RETRIES - attempt,
{
    if attempt >= NUM_RETRIES {
        None
    } else {
        match send_step(attempt as u32, repeatable, outcomes(attempt)) {
            SendStep::Retry { delay_secs } => sent(attempt + 1, repeatable, outcomes),
            SendStep::GiveUp { delay_secs, error } => Some(Err(error)),
            SendStep::Done(outcome) => Some(outcome),
        }
    }
}

/// A request is sent at least once and at most three times, and the outcome of
/// the last time is what is handed out. All times before ended in an error
/// that may pass. Where a request was sent less than three times, the outcome
/// of the last time was no such error. A request that cannot be sent again is
/// sent once.
pub proof fn sending_ends<T>(repeatable: bool, outcomes: spec_fn(nat) -> Result<T, APIError>)
    ensures
        ({
            let n = sends(0, repeatable, outcomes);
            &&& 1 <= n <= NUM_RETRIES
            &&& sent(0, repeatable, outcomes) == Some(outcomes((n - 1) as nat))
            &&& forall|i: nat|
                i < n - 1 ==> (#[trigger] outcomes(i)) is Err && outcomes(i)->Err_0.transient()
            &&& n < NUM_RETRIES && repeatable ==> !(outcomes((n - 1) as nat) is Err && outcomes(
                (n - 1) as nat,
            )->Err_0.transient())
            &&& !repeatable ==> n == 1
        }),
{
    reveal_with_fuel(sends, 4);
    reveal_with_fuel(sent, 4);
}

/// A new request has its method and its URL, and nothing else yet.
pub proof fn new_requests_are_bare(
    client: ErrorDebugClient,
    url: String,
    get: ErrorDebugRequest,
    post: ErrorDebugRequest,
    delete: ErrorDebugRequest,
)
    requires
        call_ensures(ErrorDebugClient::get, (&client, url), get),
        call_ensures(ErrorDebugClient::post, (&client, url), post),
        call_ensures(ErrorDebugClient::delete, (&client, url), delete),
    ensures
        get.method == Method::Get && get.url@ == url@,
        post.method == Method::Post && post.url@ == url@,
        delete.method == Method::Delete && delete.url@ == url@,
        get.query@.len() == 0 && get.headers@.len() == 0 && get.body is None,
        post.query@.len() == 0 && post.headers@.len() == 0 && post.body is None,
        delete.query@.len() == 0 && delete.headers@.len() == 0 && delete.body is None,
{
    assert(get@.query.len() == get.query@.len() && get@.headers.len() == get.headers@.len());
    assert(post@.query.len() == post.query@.len() && post@.headers.len() == post.headers@.len());
    assert(delete@.query.len() == delete.query@.len());
    assert(delete@.headers.len() == delete.headers@.len());
}

/// What is added to a request is added behind what is there, and leaves all
/// else as it was.
pub proof fn requests_grow(
    req: ErrorDebugRequest,
    name: &str,
    value: &str,
    headers: Headers,
    body: String,
    queried: ErrorDebugRequest,
    headed: ErrorDebugRequest,
    filled: ErrorDebugRequest,
)
    requires
        call_ensures(ErrorDebugRequest::query, (req, name, value), queried),
        call_ensures(ErrorDebugRequest::headers, (req, headers), headed),
        call_ensures(ErrorDebugRequest::body, (req, body), filled),
    ensures
        text::pairs(queried.query@) == text::pairs(req.query@).push((name@, value@)),
        queried.method == req.method && queried.url@ == req.url@,
        text::pairs(queried.headers@) == text::pairs(req.headers@),
        queried.body is Some <==> req.body is Some,
        queried.body is Some ==> queried.body->0@ == req.body->0@,
        text::pairs(headed.headers@) == text::pairs(req.headers@) + headers@,
        headed.method == req.method && headed.url@ == req.url@,
        text::pairs(headed.query@) == text::pairs(req.query@),
        headed.body is Some <==> req.body is Some,
        headed.body is Some ==> headed.body->0@ == req.body->0@,
        filled.body is Some && filled.body->0@ == body@,
        filled.method == req.method && filled.url@ == req.url@,
        text::pairs(filled.query@) == text::pairs(req.query@),
        text::pairs(filled.headers@) == text::pairs(req.headers@),
{
    assert(queried@.query == text::pairs(queried.query@));
    assert(queried@.headers == text::pairs(queried.headers@));
    assert(headed@.query == text::pairs(headed.query@));
    assert(headed@.headers == text::pairs(headed.headers@));
    assert(filled@.query == text::pairs(filled.query@));
    assert(filled@.headers == text::pairs(filled.headers@));
}

/// The errors that may pass are requests that took too long, that found no
/// connection or that failed themselves, and the answer that there were too
/// many.
pub proof fn errors_that_may_pass(e: APIError, transient: bool)
    requires
        call_ensures(APIError::is_transient, (&e,), transient),
    ensures
        transient <==> {
            ||| e matches APIError::HTTPError(h) && (h.timeout || h.connect || h.request)
            ||| e matches APIError::ErrorStatusCode(status) && status == 429
        },
{
}

/// A request is sent again, after a second, where it can be and its error may
/// pass, twice at most; the third such error is handed out. Every other outcome
/// is handed out at once and as it is.
pub proof fn when_requests_are_repeated<T>(
    attempt: u32,
    repeatable: bool,
    outcome: Result<T, APIError>,
    transient: bool,
    step: SendStep<T>,
)
    requires
        attempt < 3,
        outcome matches Err(e) ==> call_ensures(APIError::is_transient, (&e,), transient),
        call_ensures(ErrorDebugRequest::after_send::<T>, (attempt, repeatable, outcome), step),
    ensures
        outcome is Ok ==> step == SendStep::Done(outcome),
        outcome matches Err(e) ==> {
            &&& !(repeatable && transient) ==> step == SendStep::Done(outcome)
            &&& repeatable && transient && attempt < 2 ==> step == (SendStep::<T>::Retry {
                delay_secs: 1,
            })
            &&& repeatable && transient && attempt == 2 ==> step == (SendStep::<T>::GiveUp {
                delay_secs: 1,
                error: e,
            })
        },
{
}

/// An answer is taken if and only if its status speaks of success.
pub proof fn answers_of_success_are_taken(
    status: u16,
    body: String,
    answer: Result<String, APIError>,
)
    requires
        call_ensures(read_response, (status, body), answer),
    ensures
        answer is Ok <==> status / 100 == 2,
        answer matches Ok(text) ==> text == body,
        answer matches Err(e) ==> e == APIError::ErrorStatusCode(status),
{
}

/// The text of a status starts with the status, and is more than that for the
/// numbers that can be a status.
pub proof fn statuses_by_number(status: u16, s: String)
    requires
        call_ensures(status_text, (status,), s),
    ensures
        text::decimal(status as nat).is_prefix_of(s@),
        status < 100 || status > 999 ==> s@ == text::decimal(status as nat),
        100 <= status <= 999 ==> s@ == status_written(status),
{
}

} // verus!
