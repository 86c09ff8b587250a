//! The service as a function from requests to responses: routing, the guard
//! in front of the index route, the catcher behind every failure, and the
//! instrumentation around all of it.
//!
//! The service stands for itself: it takes requests as values and hands
//! responses back, and needs no web framework to do so.
use vstd::prelude::*;
use std::time::Duration;
use crate::authentication::jwt::guarded_at;
use crate::authentication::jwt::header_view;
use crate::authentication::jwt::outcome_view;
use crate::authentication::jwt::ClaimSet;
use crate::authentication::jwt::AuthError;
use crate::authentication::jwt::Jwt;
use crate::authentication::jwt::Outcome;
use crate::errors::handlers::default_catcher;
use crate::errors::handlers::status_error;
use crate::errors::handlers::Custom;
use crate::forced_error;
use crate::helpers::response::GenericResponse;
use crate::helpers::response::Json;
use crate::helpers::response::text_view;
use crate::helpers::response::Status;
use crate::helpers::text::decimal;
use crate::helpers::text::lemma_decimal_reads_back;
use crate::helpers::text::parse_u16;
use crate::helpers::text::parsed_u16;
use crate::helpers::text::text_eq;
use crate::index;
use crate::metrics::snapshot_text;
use crate::metrics::Method;
use crate::metrics::MetricsView;
use crate::metrics::PrometheusMetrics;

verus! {

/// A request, as far as the service looks at it.
pub struct Request {
    pub method: Method,
    pub path: String,
    /// The value of the `Authorization` header, where the request has one.
    pub authorization: Option<String>,
}

/// What leaves in the body of a response.
pub enum Body {
    Empty,
    Text(String),
    Greeting(Json<GenericResponse<String>>),
    Failure(Json<GenericResponse>),
}

/// A response.
pub struct Response {
    pub status: Status,
    pub body: Body,
}

/// A route of the service, with what its path gave.
#[derive(Clone, Copy, Debug, PartialEq, Eq, Structural)]
pub enum Matched {
    /// `GET /`
    Index,
    /// `GET /errors/<code>`
    ForcedError(u16),
    /// `GET /metrics`
    Metrics,
}

impl Matched {
    /// The route as it was mounted.
    pub open spec fn uri(self) -> Seq<char> {
        match self {
            Matched::Index => "/"@,
            Matched::ForcedError(_) => "/errors/<code>"@,
            Matched::Metrics => "/metrics"@,
        }
    }

    /// The route as it was mounted.
    pub fn endpoint(self) -> (uri: &'static str)
        ensures
            uri@ == self.uri(),
    {
        match self {
            Matched::Index => "/",
            Matched::ForcedError(_) => "/errors/<code>",
            Matched::Metrics => "/metrics",
        }
    }
}

/// The prefix of the paths that force an error.
pub open spec fn errors_prefix() -> Seq<char> {
    seq!['/', 'e', 'r', 'r', 'o', 'r', 's', '/']
}

/// The route that a request falls to, if any does. Every route is mounted
/// for `GET`; a `HEAD` request falls to the route that `GET` would fall to,
/// and a request of any other method to none. A path under `/errors/` must
/// end in a status code.
pub open spec fn route_of(method: Method, path: Seq<char>) -> Option<Matched> {
    if method != Method::Get && method != Method::Head {
        None
    } else if path == "/"@ {
        Some(Matched::Index)
    } else if path == "/metrics"@ {
        Some(Matched::Metrics)
    } else if path.len() >= 8 && path.subrange(0, 8) == errors_prefix() {
        match parsed_u16(path.skip(8)) {
            Some(code) => Some(Matched::ForcedError(code)),
            None => None,
        }
    } else {
        None
    }
}

/// The endpoint that a request's duration is filed under: the URI of its
/// route as mounted, or `unmatched` where no route took it.
pub open spec fn label_of(uri: Option<Seq<char>>) -> Seq<char> {
    match uri {
        Some(uri) => uri,
        None => "unmatched"@,
    }
}

/// The endpoint that a request's duration is filed under, by what its path
/// fell to.
pub open spec fn endpoint_of(matched: Option<Matched>) -> Seq<char> {
    label_of(
        match matched {
            Some(matched) => Some(matched.uri()),
            None => None,
        },
    )
}

/// The endpoint that a request's duration is filed under: the URI of its
/// route as mounted, or `unmatched` where no route took it.
pub fn endpoint_label<'a>(uri: Option<&'a str>) -> (label: &'a str)
    ensures
        label@ == label_of(
            match uri {
                Some(uri) => Some(uri@),
                None => None,
            },
        ),
{
    match uri {
        Some(uri) => uri,
        None => "unmatched",
    }
}

/// Whether a bare status leaves as it is. A status of the client's or the
/// server's fault is caught, and so is any that is no answer by itself.
pub open spec fn leaves_bare(status: Status) -> bool {
    (200 <= status.code < 206) || status.code == 100
}

/// The status that the catcher gets for a bare status that does not leave
/// as it is: the status itself where it tells of a fault, else 500.
pub open spec fn caught(status: Status) -> Status {
    if 400 <= status.code <= 599 {
        status
    } else {
        Status { code: 500 }
    }
}

/// The status of the response to a path that forces `code`.
pub open spec fn forced_status(code: u16) -> Status {
    if leaves_bare(Status { code }) {
        Status { code }
    } else {
        caught(Status { code })
    }
}

/// Every status code can be forced: the path that spells the code in
/// decimal behind `/errors/` falls to the route that forces it.
pub proof fn lemma_forced_path(code: u16)
    ensures
        route_of(Method::Get, errors_prefix() + decimal(code as nat)) == Some(Matched::ForcedError(code)),
{
    let path = errors_prefix() + decimal(code as nat);
    lemma_decimal_reads_back(code);
    reveal_strlit("/");
    reveal_strlit("/metrics");
    assert(path.subrange(0, 8) =~= errors_prefix());
    assert(path.skip(8) =~= decimal(code as nat));
}

/// Finds the route of a request.
pub fn route(method: Method, path: &str) -> (matched: Option<Matched>)
    ensures
        matched == route_of(method, path@),
{
    match method {
        Method::Get | Method::Head => {},
        _ => {
            return None;
        },
    }
    if text_eq(path, "/") {
        return Some(Matched::Index);
    }
    if text_eq(path, "/metrics") {
        return Some(Matched::Metrics);
    }
    let len = path.unicode_len();
    if len < 8 {
        return None;
    }
    proof {
        reveal_strlit("/errors/");
        assert("/errors/"@ =~= errors_prefix());
    }
    if !text_eq(path.substring_char(0, 8), "/errors/") {
        return None;
    }
    match parse_u16(path.substring_char(8, len)) {
        Some(code) => Some(Matched::ForcedError(code)),
        None => None,
    }
}

/// Answers with a bare status: an empty response under it where it leaves
/// as it is, else the status for the catcher.
pub fn respond_with(status: Status) -> (answer: Result<Response, Status>)
    ensures
        match answer {
            Ok(response) => leaves_bare(status) && response.status == status && response.body is Empty,
            Err(failure) => !leaves_bare(status) && failure == caught(status),
        },
{
    if (200 <= status.code && status.code < 206) || status.code == 100 {
        Ok(Response { status, body: Body::Empty })
    } else if 400 <= status.code && status.code <= 599 {
        Err(status)
    } else {
        Err(Status::new(500))
    }
}

/// Whether a response is the catcher's answer to a status.
pub open spec fn is_caught(response: Response, status: Status) -> bool {
    &&& response.status == status
    &&& response.body matches Body::Failure(json)
    &&& json.0@.status == status.code
    &&& json.0@.message == status.reason_text()
    &&& json.0@.data is None
    &&& json.0@.metadata is None
    &&& json.0@.errors matches Some(errors)
    &&& errors.len() == 1
    &&& errors[0] == status_error(status, errors[0].trace_id)
}

/// Hands a failure to the catcher.
pub fn catch(status: Status) -> (response: Response)
    ensures
        is_caught(response, status),
{
    let Custom(status, json) = default_catcher(status);
    Response { status, body: Body::Failure(json) }
}

/// The route behind `GET /metrics`: the metrics as text, or nothing where
/// they could not be rendered.
pub fn metrics(state: &PrometheusMetrics) -> (text: String)
    ensures
        text@ == snapshot_text(state@),
{
    match state.render() {
        Ok(text) => text,
        Err(_) => String::new(),
    }
}

/// The service: its routes, its catcher and its metrics.
pub struct Service {
    metrics: PrometheusMetrics,
}

impl View for Service {
    type V = MetricsView;

    closed spec fn view(&self) -> MetricsView {
        self.metrics@
    }
}

/// Whether a response is the index route's greeting.
pub open spec fn is_greeting(response: Response) -> bool {
    &&& response.status == Status { code: 200 }
    &&& response.body matches Body::Greeting(json)
    &&& json.0@.status == 200
    &&& json.0@.data matches Some(text)
    &&& text@ == "Hello World!"@
}

/// Whether a response is the guarded index route's answer to what its guard
/// decided: the greeting where the guard let the request through, else the
/// catcher's answer under the status that the guard ended the request with.
pub open spec fn answers_guard(response: Response, outcome: Outcome<ClaimSet, (Status, AuthError)>) -> bool {
    match outcome {
        Outcome::Success(_) => is_greeting(response),
        Outcome::Failure(failure) => is_caught(response, failure.0),
    }
}

/// Whether `answer` is what the routes and the catcher make of a request:
/// of the route its path fell to, of what the guard decided on it, and of
/// the text that a scrape gets.
pub open spec fn answers(
    answer: Response,
    matched: Option<Matched>,
    guard: Outcome<ClaimSet, (Status, AuthError)>,
    scrape: Seq<char>,
) -> bool {
    match matched {
        None => is_caught(answer, Status { code: 404 }),
        Some(Matched::Index) => answers_guard(answer, guard),
        Some(Matched::ForcedError(code)) => {
            &&& answer.status == forced_status(code)
            &&& leaves_bare(Status { code }) ==> answer.body is Empty
            &&& !leaves_bare(Status { code }) ==> is_caught(answer, forced_status(code))
        },
        Some(Matched::Metrics) => {
            &&& answer.status == Status { code: 200 }
            &&& answer.body matches Body::Text(text)
            &&& text@ == scrape
        },
    }
}

/// Whether `response` is `answer` as it leaves for a request of the given
/// method: without its body for `HEAD`, else as it is.
pub open spec fn delivered(method: Method, answer: Response, response: Response) -> bool {
    if method == Method::Head {
        response.status == answer.status && response.body is Empty
    } else {
        response == answer
    }
}

/// Sends an answer on its way: without its body for `HEAD`, else as it is.
pub fn deliver(method: Method, answer: Response) -> (response: Response)
    ensures
        delivered(method, answer, response),
{
    match method {
        Method::Head => Response { status: answer.status, body: Body::Empty },
        _ => answer,
    }
}

/// The answer of the guarded index route to what its guard decided: the
/// greeting where the guard let the request through, else the catcher's
/// answer under the status that the guard ended the request with.
pub fn guarded(outcome: Outcome<Jwt, (Status, AuthError)>) -> (response: Response)
    ensures
        answers_guard(response, outcome_view(outcome)),
{
    match outcome {
        Outcome::Success(jwt) => Response { status: Status::new(200), body: Body::Greeting(index(jwt)) },
        Outcome::Failure((status, _)) => catch(status),
    }
}

impl Service {
    /// A service that has seen no request.
    pub fn new() -> (service: Service)
        ensures
            service@ == MetricsView::zero(),
    {
        Service { metrics: PrometheusMetrics::default() }
    }

    /// The metrics of the service.
    pub fn metrics(&self) -> (state: &PrometheusMetrics)
        ensures
            state@ == self@,
    {
        &self.metrics
    }

    /// Takes a request through the service.
    ///
    /// The request is counted as it comes in. It falls to its route, or to
    /// the catcher under 404 where it has none. The index route is guarded:
    /// what the guard decides on the request's token decides between the
    /// greeting and the catcher under 401. A path that forces an error
    /// answers with the status it names, through the catcher where the
    /// status tells of a fault or is no answer by itself. The metrics route
    /// answers with the metrics as they stand once the request itself is
    /// counted. A `HEAD` request gets the answer without its body. At last
    /// the response is counted and the time the request took is filed under
    /// its route.
    pub fn dispatch(&mut self, request: &Request) -> (response: Response)
        ensures
            exists|answer: Response, now: u64|
                #![trigger delivered(request.method, answer, response), guarded_at(text_view(request.authorization), now)]
                {
                    &&& delivered(request.method, answer, response)
                    &&& answers(
                        answer,
                        route_of(request.method, request.path@),
                        guarded_at(text_view(request.authorization), now),
                        snapshot_text(old(self)@.request_started(request.method)),
                    )
                },
            exists|elapsed: Duration|
                final(self)@ == (#[trigger] old(self)@.request_started(request.method).observed(
                    Some(elapsed),
                    endpoint_of(route_of(request.method, request.path@)),
                    request.method,
                    response.status.code,
                )).response_sent(response.status.code),
    {
        let timer = self.metrics.on_request(request.method);
        let matched = route(request.method, request.path.as_str());
        let ghost mut now: u64 = 0;
        let answer = match matched {
            Some(Matched::Index) => {
                let authorization = match &request.authorization {
                    Some(value) => Some(value.as_str()),
                    None => None,
                };
                let outcome = Jwt::from_request(authorization);
                proof {
                    let decided = outcome_view(outcome);
                    now = choose|now: u64| decided == #[trigger] guarded_at(header_view(authorization), now);
                    assert(header_view(authorization) == text_view(request.authorization));
                }
                guarded(outcome)
            },
            Some(Matched::ForcedError(code)) => match respond_with(forced_error(code)) {
                Ok(response) => response,
                Err(status) => catch(status),
            },
            Some(Matched::Metrics) => Response { status: Status::new(200), body: Body::Text(metrics(&self.metrics)) },
            None => catch(Status::new(404)),
        };
        let response = deliver(request.method, answer);
        assert(delivered(request.method, answer, response) && answers(
            answer,
            route_of(request.method, request.path@),
            guarded_at(text_view(request.authorization), now),
            snapshot_text(old(self)@.request_started(request.method)),
        ));
        let endpoint = endpoint_label(
            match matched {
                Some(matched) => Some(matched.endpoint()),
                None => None,
            },
        );
        let ghost started = self.metrics@;
        self.metrics.on_response(timer, endpoint, request.method, response.status.code);
        proof {
            let elapsed = choose|elapsed: Option<Duration>|
                {
                    &&& elapsed is Some <==> timer.0 is Some
                    &&& self.metrics@ == (#[trigger] started.observed(
                        elapsed,
                        endpoint@,
                        request.method,
                        response.status.code,
                    )).response_sent(response.status.code)
                };
            assert(self@ == (old(self)@.request_started(request.method).observed(
                Some(elapsed->0),
                endpoint_of(route_of(request.method, request.path@)),
                request.method,
                response.status.code,
            )).response_sent(response.status.code));
        }
        response
    }
}

} // verus!
