//! Request instrumentation: fourteen counters and one histogram of request
//! durations, updated when a request starts and when its response leaves, and
//! rendered as text for a scrape.
use vstd::prelude::*;
use std::time::Duration;
use std::time::Instant;
use crate::helpers::text::decimal;
use crate::helpers::text::decimal_string;
use crate::helpers::text::is_digit;
use crate::metrics::backend::accepts;
use crate::metrics::backend::bucket_label;
use crate::metrics::backend::counter_inc;
use crate::metrics::backend::counter_state;
use crate::metrics::backend::elapsed_since;
use crate::metrics::backend::encode_text;
use crate::metrics::backend::exposition_text;
use crate::metrics::backend::histogram_observe;
use crate::metrics::backend::histogram_state;
use crate::metrics::backend::is_label_start;
use crate::metrics::backend::new_counter;
use crate::metrics::backend::new_histogram;
use crate::metrics::backend::new_scrape;
use crate::metrics::backend::now;
use crate::metrics::backend::register_counter;
use crate::metrics::backend::register_histogram;
use crate::metrics::backend::registered;
use crate::metrics::backend::valid_label_name;
use crate::metrics::backend::valid_metric_name;
use crate::metrics::backend::Collected;
use crate::metrics::backend::CounterState;
use crate::metrics::backend::DurationHistogram;
use crate::metrics::backend::EventCounter;
use crate::metrics::backend::HistogramState;
use crate::metrics::backend::Sample;

pub mod backend;

verus! {

/// The method of a request.
#[derive(Clone, Copy, Debug, PartialEq, Eq, Structural)]
pub enum Method {
    Get,
    Put,
    Post,
    Delete,
    Options,
    Head,
    Trace,
    Connect,
    Patch,
}

impl Method {
    /// The method as a request line spells it.
    pub open spec fn name(self) -> Seq<char> {
        match self {
            Method::Get => "GET"@,
            Method::Put => "PUT"@,
            Method::Post => "POST"@,
            Method::Delete => "DELETE"@,
            Method::Options => "OPTIONS"@,
            Method::Head => "HEAD"@,
            Method::Trace => "TRACE"@,
            Method::Connect => "CONNECT"@,
            Method::Patch => "PATCH"@,
        }
    }

    /// The method as a request line spells it.
    pub fn as_str(self) -> (s: &'static str)
        ensures
            s@ == self.name(),
    {
        match self {
            Method::Get => "GET",
            Method::Put => "PUT",
            Method::Post => "POST",
            Method::Delete => "DELETE",
            Method::Options => "OPTIONS",
            Method::Head => "HEAD",
            Method::Trace => "TRACE",
            Method::Connect => "CONNECT",
            Method::Patch => "PATCH",
        }
    }
}

/// Why a snapshot could not be rendered.
#[derive(Clone, Copy, Debug, PartialEq, Eq, Structural)]
pub enum MetricError {
    /// The registry refused one of the collectors.
    RegistrationFailure,
    /// The encoder gave no text.
    RenderFailure,
}

/// The moment a request came in, where it was seen coming in.
#[derive(Clone, Copy)]
pub struct TimerStart(pub Option<Instant>);

/// The metrics as numbers: each counter's total and the observations of the
/// histogram, oldest first.
pub struct MetricsView {
    pub requests: nat,
    pub get_requests: nat,
    pub post_requests: nat,
    pub put_requests: nat,
    pub delete_requests: nat,
    pub patch_requests: nat,
    pub head_requests: nat,
    pub options_requests: nat,
    pub responses_2xx: nat,
    pub responses_3xx: nat,
    pub responses_4xx: nat,
    pub responses_401: nat,
    pub responses_403: nat,
    pub responses_5xx: nat,
    pub durations: Seq<Sample>,
}

impl MetricsView {
    /// Nothing counted, nothing observed.
    pub open spec fn zero() -> MetricsView {
        MetricsView {
            requests: 0,
            get_requests: 0,
            post_requests: 0,
            put_requests: 0,
            delete_requests: 0,
            patch_requests: 0,
            head_requests: 0,
            options_requests: 0,
            responses_2xx: 0,
            responses_3xx: 0,
            responses_4xx: 0,
            responses_401: 0,
            responses_403: 0,
            responses_5xx: 0,
            durations: Seq::empty(),
        }
    }

    /// The total of the counter kept for a method; zero for a method that has
    /// no counter of its own.
    pub open spec fn of_method(self, method: Method) -> nat {
        match method {
            Method::Get => self.get_requests,
            Method::Post => self.post_requests,
            Method::Put => self.put_requests,
            Method::Delete => self.delete_requests,
            Method::Patch => self.patch_requests,
            Method::Head => self.head_requests,
            Method::Options => self.options_requests,
            Method::Trace => 0,
            Method::Connect => 0,
        }
    }

    /// The metrics after one more request of the given method has come in:
    /// one more request in all, and one more of its method where the method
    /// has a counter.
    pub open spec fn request_started(self, method: Method) -> MetricsView {
        let counted = MetricsView { requests: self.requests + 1, ..self };
        match method {
            Method::Get => MetricsView { get_requests: self.get_requests + 1, ..counted },
            Method::Post => MetricsView { post_requests: self.post_requests + 1, ..counted },
            Method::Put => MetricsView { put_requests: self.put_requests + 1, ..counted },
            Method::Delete => MetricsView { delete_requests: self.delete_requests + 1, ..counted },
            Method::Patch => MetricsView { patch_requests: self.patch_requests + 1, ..counted },
            Method::Head => MetricsView { head_requests: self.head_requests + 1, ..counted },
            Method::Options => MetricsView { options_requests: self.options_requests + 1, ..counted },
            Method::Trace => counted,
            Method::Connect => counted,
        }
    }

    /// The metrics after one more response of the given status has left: one
    /// more in the class of its hundreds, and one more for 401 or 403 where
    /// it is one of these. A status below 200 or above 599 counts nowhere.
    pub open spec fn response_sent(self, status: u16) -> MetricsView {
        if 200 <= status <= 299 {
            MetricsView { responses_2xx: self.responses_2xx + 1, ..self }
        } else if 300 <= status <= 399 {
            MetricsView { responses_3xx: self.responses_3xx + 1, ..self }
        } else if status == 401 {
            MetricsView {
                responses_4xx: self.responses_4xx + 1,
                responses_401: self.responses_401 + 1,
                ..self
            }
        } else if status == 403 {
            MetricsView {
                responses_4xx: self.responses_4xx + 1,
                responses_403: self.responses_403 + 1,
                ..self
            }
        } else if 400 <= status <= 499 {
            MetricsView { responses_4xx: self.responses_4xx + 1, ..self }
        } else if 500 <= status <= 599 {
            MetricsView { responses_5xx: self.responses_5xx + 1, ..self }
        } else {
            self
        }
    }

    /// The metrics after a request's duration has been observed, or after
    /// nothing was observed because its start was never seen.
    pub open spec fn observed(
        self,
        elapsed: Option<Duration>,
        endpoint: Seq<char>,
        method: Method,
        status: u16,
    ) -> MetricsView {
        match elapsed {
            Some(elapsed) => MetricsView {
                durations: self.durations.push(
                    Sample { endpoint, method: method.name(), status: decimal(status as nat), elapsed },
                ),
                ..self
            },
            None => self,
        }
    }

    /// Whether the metrics have only grown since `earlier`: no counter stands
    /// lower, and the observations of then are still the first of now.
    pub open spec fn extends(self, earlier: MetricsView) -> bool {
        &&& self.requests >= earlier.requests
        &&& self.get_requests >= earlier.get_requests
        &&& self.post_requests >= earlier.post_requests
        &&& self.put_requests >= earlier.put_requests
        &&& self.delete_requests >= earlier.delete_requests
        &&& self.patch_requests >= earlier.patch_requests
        &&& self.head_requests >= earlier.head_requests
        &&& self.options_requests >= earlier.options_requests
        &&& self.responses_2xx >= earlier.responses_2xx
        &&& self.responses_3xx >= earlier.responses_3xx
        &&& self.responses_4xx >= earlier.responses_4xx
        &&& self.responses_401 >= earlier.responses_401
        &&& self.responses_403 >= earlier.responses_403
        &&& self.responses_5xx >= earlier.responses_5xx
        &&& earlier.durations.is_prefix_of(self.durations)
    }

    /// The metrics after each of `methods` has come in as a request, first to last.
    pub open spec fn after_requests(self, methods: Seq<Method>) -> MetricsView
        decreases methods.len(),
    {
        if methods.len() == 0 {
            self
        } else {
            self.after_requests(methods.drop_last()).request_started(methods.last())
        }
    }
}

/// How often a method occurs in a sequence of methods.
pub open spec fn occurrences(methods: Seq<Method>, method: Method) -> nat
    decreases methods.len(),
{
    if methods.len() == 0 {
        0
    } else {
        occurrences(methods.drop_last(), method) + if methods.last() == method {
            1nat
        } else {
            0nat
        }
    }
}

/// A counter as a registry holds it.
pub open spec fn counter_named(name: Seq<char>, help: Seq<char>, total: nat) -> Collected {
    Collected::Counter(CounterState { name, help, total })
}

/// The fifteen collectors as a registry holds them for a scrape.
pub open spec fn collectors(view: MetricsView) -> Seq<Collected> {
    seq![
        counter_named("http_requests_total"@, "Total number of HTTP requests made."@, view.requests),
        counter_named(
            "http_get_requests_total"@,
            "Total number of HTTP GET requests made."@,
            view.get_requests,
        ),
        counter_named(
            "http_post_requests_total"@,
            "Total number of HTTP POST requests made."@,
            view.post_requests,
        ),
        counter_named(
            "http_put_requests_total"@,
            "Total number of HTTP PUT requests made."@,
            view.put_requests,
        ),
        counter_named(
            "http_delete_requests_total"@,
            "Total number of HTTP DELETE requests made."@,
            view.delete_requests,
        ),
        counter_named(
            "http_patch_requests_total"@,
            "Total number of HTTP PATCH requests made."@,
            view.patch_requests,
        ),
        counter_named(
            "http_head_requests_total"@,
            "Total number of HTTP HEAD requests made."@,
            view.head_requests,
        ),
        counter_named(
            "http_options_requests_total"@,
            "Total number of HTTP OPTIONS requests made."@,
            view.options_requests,
        ),
        counter_named(
            "http_2xx_responses_total"@,
            "Total number of HTTP 2xx responses made."@,
            view.responses_2xx,
        ),
        counter_named(
            "http_3xx_responses_total"@,
            "Total number of HTTP 3xx responses made."@,
            view.responses_3xx,
        ),
        counter_named(
            "http_4xx_responses_total"@,
            "Total number of HTTP 4xx responses made."@,
            view.responses_4xx,
        ),
        counter_named(
            "http_401_responses_total"@,
            "Total number of HTTP 401 responses made."@,
            view.responses_401,
        ),
        counter_named(
            "http_403_responses_total"@,
            "Total number of HTTP 403 responses made."@,
            view.responses_403,
        ),
        counter_named(
            "http_5xx_responses_total"@,
            "Total number of HTTP 5xx responses made."@,
            view.responses_5xx,
        ),
        Collected::Histogram(
            HistogramState {
                name: "http_requests_duration_seconds"@,
                help: "HTTP request duration in seconds for all requests"@,
                labels: seq!["endpoint"@, "method"@, "status"@],
                samples: view.durations,
            },
        ),
    ]
}

/// Whether a registry that holds nothing takes every one of `collected`,
/// each behind those before it.
pub open spec fn all_accepted(collected: Seq<Collected>) -> bool {
    forall|i: int| 0 <= i < collected.len() ==> #[trigger] accepts(collected.take(i), collected[i])
}

/// What becomes of a scrape once the registry and the encoder have spoken:
/// a failure of registration where a collector was refused and nothing was
/// encoded, a failure of rendering where the encoder gave no text, else the
/// text.
pub open spec fn scrape_outcome(encoded: Option<Option<Seq<char>>>) -> Result<Seq<char>, MetricError> {
    match encoded {
        None => Err(MetricError::RegistrationFailure),
        Some(None) => Err(MetricError::RenderFailure),
        Some(Some(text)) => Ok(text),
    }
}

/// What a scrape gets where the metrics stand at `view`: the text that the
/// encoder writes for the fifteen collectors, once a fresh registry has taken
/// them all.
pub open spec fn snapshot(view: MetricsView) -> Result<Seq<char>, MetricError> {
    scrape_outcome(
        if all_accepted(collectors(view)) {
            Some(exposition_text(collectors(view)))
        } else {
            None
        },
    )
}

/// The text that a scrape gets where the metrics stand at `view`, or nothing
/// where they cannot be rendered.
pub open spec fn snapshot_text(view: MetricsView) -> Seq<char> {
    match snapshot(view) {
        Ok(text) => text,
        Err(_) => Seq::empty(),
    }
}

/// A text and whether there is one, as sequences of characters.
pub open spec fn encoded_view(encoded: Option<Option<String>>) -> Option<Option<Seq<char>>> {
    match encoded {
        None => None,
        Some(None) => Some(None),
        Some(Some(text)) => Some(Some(text@)),
    }
}

/// A rendering with its text as a sequence of characters.
pub open spec fn rendered_view(rendered: Result<String, MetricError>) -> Result<Seq<char>, MetricError> {
    match rendered {
        Ok(text) => Ok(text@),
        Err(error) => Err(error),
    }
}

/// Settles a scrape once the registry and the encoder have spoken.
pub fn settle_scrape(encoded: Option<Option<String>>) -> (rendered: Result<String, MetricError>)
    ensures
        rendered_view(rendered) == scrape_outcome(encoded_view(encoded)),
{
    match encoded {
        None => Err(MetricError::RegistrationFailure),
        Some(None) => Err(MetricError::RenderFailure),
        Some(Some(text)) => Ok(text),
    }
}

/// The counters and the histogram of one service.
pub struct PrometheusMetrics {
    http_requests_total: EventCounter,
    http_get_requests_total: EventCounter,
    http_post_requests_total: EventCounter,
    http_put_requests_total: EventCounter,
    http_delete_requests_total: EventCounter,
    http_patch_requests_total: EventCounter,
    http_head_requests_total: EventCounter,
    http_options_requests_total: EventCounter,
    http_2xx_responses_total: EventCounter,
    http_3xx_responses_total: EventCounter,
    http_4xx_responses_total: EventCounter,
    http_401_responses_total: EventCounter,
    http_403_responses_total: EventCounter,
    http_5xx_responses_total: EventCounter,
    http_requests_duration_seconds: DurationHistogram,
}

impl View for PrometheusMetrics {
    type V = MetricsView;

    closed spec fn view(&self) -> MetricsView {
        MetricsView {
            requests: counter_state(self.http_requests_total).total,
            get_requests: counter_state(self.http_get_requests_total).total,
            post_requests: counter_state(self.http_post_requests_total).total,
            put_requests: counter_state(self.http_put_requests_total).total,
            delete_requests: counter_state(self.http_delete_requests_total).total,
            patch_requests: counter_state(self.http_patch_requests_total).total,
            head_requests: counter_state(self.http_head_requests_total).total,
            options_requests: counter_state(self.http_options_requests_total).total,
            responses_2xx: counter_state(self.http_2xx_responses_total).total,
            responses_3xx: counter_state(self.http_3xx_responses_total).total,
            responses_4xx: counter_state(self.http_4xx_responses_total).total,
            responses_401: counter_state(self.http_401_responses_total).total,
            responses_403: counter_state(self.http_403_responses_total).total,
            responses_5xx: counter_state(self.http_5xx_responses_total).total,
            durations: histogram_state(self.http_requests_duration_seconds).samples,
        }
    }
}

/// From `from` on, only lower-case letters, digits and underscores.
spec fn plain_from(name: Seq<char>, from: int) -> bool
    decreases name.len() - from,
{
    if from >= name.len() {
        true
    } else {
        &&& ('a' <= name[from] <= 'z') || is_digit(name[from]) || name[from] == '_'
        &&& plain_from(name, from + 1)
    }
}

proof fn lemma_plain_from(name: Seq<char>, from: int)
    requires
        0 <= from,
        plain_from(name, from),
    ensures
        forall|i: int| from <= i < name.len() ==> is_label_start(#[trigger] name[i]) || is_digit(name[i]),
    decreases name.len() - from,
{
    if from < name.len() {
        lemma_plain_from(name, from + 1);
    }
}

/// A name that starts with a letter or an underscore and goes on in
/// lower-case letters, digits and underscores names a metric as well as a label.
proof fn lemma_plain_name(name: Seq<char>)
    requires
        name.len() > 0,
        is_label_start(name[0]),
        plain_from(name, 1),
    ensures
        valid_metric_name(name),
        valid_label_name(name),
{
    lemma_plain_from(name, 1);
}

proof fn lemma_request_counter_names()
    ensures
        valid_metric_name("http_requests_total"@),
        valid_metric_name("http_get_requests_total"@),
        valid_metric_name("http_post_requests_total"@),
        valid_metric_name("http_put_requests_total"@),
        valid_metric_name("http_delete_requests_total"@),
        valid_metric_name("http_patch_requests_total"@),
        valid_metric_name("http_head_requests_total"@),
        valid_metric_name("http_options_requests_total"@),
{
    reveal_with_fuel(plain_from, 32);
    reveal_strlit("http_requests_total");
    lemma_plain_name("http_requests_total"@);
    reveal_strlit("http_get_requests_total");
    lemma_plain_name("http_get_requests_total"@);
    reveal_strlit("http_post_requests_total");
    lemma_plain_name("http_post_requests_total"@);
    reveal_strlit("http_put_requests_total");
    lemma_plain_name("http_put_requests_total"@);
    reveal_strlit("http_delete_requests_total");
    lemma_plain_name("http_delete_requests_total"@);
    reveal_strlit("http_patch_requests_total");
    lemma_plain_name("http_patch_requests_total"@);
    reveal_strlit("http_head_requests_total");
    lemma_plain_name("http_head_requests_total"@);
    reveal_strlit("http_options_requests_total");
    lemma_plain_name("http_options_requests_total"@);
}

proof fn lemma_response_counter_names()
    ensures
        valid_metric_name("http_2xx_responses_total"@),
        valid_metric_name("http_3xx_responses_total"@),
        valid_metric_name("http_4xx_responses_total"@),
        valid_metric_name("http_401_responses_total"@),
        valid_metric_name("http_403_responses_total"@),
        valid_metric_name("http_5xx_responses_total"@),
{
    reveal_with_fuel(plain_from, 32);
    reveal_strlit("http_2xx_responses_total");
    lemma_plain_name("http_2xx_responses_total"@);
    reveal_strlit("http_3xx_responses_total");
    lemma_plain_name("http_3xx_responses_total"@);
    reveal_strlit("http_4xx_responses_total");
    lemma_plain_name("http_4xx_responses_total"@);
    reveal_strlit("http_401_responses_total");
    lemma_plain_name("http_401_responses_total"@);
    reveal_strlit("http_403_responses_total");
    lemma_plain_name("http_403_responses_total"@);
    reveal_strlit("http_5xx_responses_total");
    lemma_plain_name("http_5xx_responses_total"@);
}

proof fn lemma_histogram_names()
    ensures
        valid_metric_name("http_requests_duration_seconds"@),
        valid_label_name("endpoint"@),
        valid_label_name("method"@),
        valid_label_name("status"@),
        "endpoint"@ != "method"@,
        "endpoint"@ != "status"@,
        "method"@ != "status"@,
        "endpoint"@ != bucket_label(),
        "method"@ != bucket_label(),
        "status"@ != bucket_label(),
{
    reveal_with_fuel(plain_from, 32);
    reveal_strlit("http_requests_duration_seconds");
    lemma_plain_name("http_requests_duration_seconds"@);
    reveal_strlit("endpoint");
    lemma_plain_name("endpoint"@);
    reveal_strlit("method");
    lemma_plain_name("method"@);
    reveal_strlit("status");
    lemma_plain_name("status"@);
}

proof fn lemma_help_texts()
    ensures
        "Total number of HTTP requests made."@.len() > 0,
        "Total number of HTTP GET requests made."@.len() > 0,
        "Total number of HTTP POST requests made."@.len() > 0,
        "Total number of HTTP PUT requests made."@.len() > 0,
        "Total number of HTTP DELETE requests made."@.len() > 0,
        "Total number of HTTP PATCH requests made."@.len() > 0,
        "Total number of HTTP HEAD requests made."@.len() > 0,
        "Total number of HTTP OPTIONS requests made."@.len() > 0,
        "Total number of HTTP 2xx responses made."@.len() > 0,
        "Total number of HTTP 3xx responses made."@.len() > 0,
        "Total number of HTTP 4xx responses made."@.len() > 0,
        "Total number of HTTP 401 responses made."@.len() > 0,
        "Total number of HTTP 403 responses made."@.len() > 0,
        "Total number of HTTP 5xx responses made."@.len() > 0,
        "HTTP request duration in seconds for all requests"@.len() > 0,
{
    reveal_strlit("Total number of HTTP requests made.");
    reveal_strlit("Total number of HTTP GET requests made.");
    reveal_strlit("Total number of HTTP POST requests made.");
    reveal_strlit("Total number of HTTP PUT requests made.");
    reveal_strlit("Total number of HTTP DELETE requests made.");
    reveal_strlit("Total number of HTTP PATCH requests made.");
    reveal_strlit("Total number of HTTP HEAD requests made.");
    reveal_strlit("Total number of HTTP OPTIONS requests made.");
    reveal_strlit("Total number of HTTP 2xx responses made.");
    reveal_strlit("Total number of HTTP 3xx responses made.");
    reveal_strlit("Total number of HTTP 4xx responses made.");
    reveal_strlit("Total number of HTTP 401 responses made.");
    reveal_strlit("Total number of HTTP 403 responses made.");
    reveal_strlit("Total number of HTTP 5xx responses made.");
    reveal_strlit("HTTP request duration in seconds for all requests");
}

impl PrometheusMetrics {
    /// What the registry is given for a scrape.
    closed spec fn collected(self) -> Seq<Collected> {
        seq![
            Collected::Counter(counter_state(self.http_requests_total)),
            Collected::Counter(counter_state(self.http_get_requests_total)),
            Collected::Counter(counter_state(self.http_post_requests_total)),
            Collected::Counter(counter_state(self.http_put_requests_total)),
            Collected::Counter(counter_state(self.http_delete_requests_total)),
            Collected::Counter(counter_state(self.http_patch_requests_total)),
            Collected::Counter(counter_state(self.http_head_requests_total)),
            Collected::Counter(counter_state(self.http_options_requests_total)),
            Collected::Counter(counter_state(self.http_2xx_responses_total)),
            Collected::Counter(counter_state(self.http_3xx_responses_total)),
            Collected::Counter(counter_state(self.http_4xx_responses_total)),
            Collected::Counter(counter_state(self.http_401_responses_total)),
            Collected::Counter(counter_state(self.http_403_responses_total)),
            Collected::Counter(counter_state(self.http_5xx_responses_total)),
            Collected::Histogram(histogram_state(self.http_requests_duration_seconds)),
        ]
    }

    /// Every collector has the name, the help text and the labels it was made with.
    #[verifier::type_invariant]
    closed spec fn well_formed(self) -> bool {
        self.collected() == collectors(self@)
    }
}

impl PrometheusMetrics {
    /// Counts a request that has just come in, and notes the time.
    pub fn on_request(&mut self, method: Method) -> (timer: TimerStart)
        ensures
            final(self)@ == old(self)@.request_started(method),
            timer.0 is Some,
    {
        proof {
            use_type_invariant(&*self);
        }
        let started = now();
        counter_inc(&mut self.http_requests_total);
        match method {
            Method::Get => counter_inc(&mut self.http_get_requests_total),
            Method::Post => counter_inc(&mut self.http_post_requests_total),
            Method::Put => counter_inc(&mut self.http_put_requests_total),
            Method::Delete => counter_inc(&mut self.http_delete_requests_total),
            Method::Patch => counter_inc(&mut self.http_patch_requests_total),
            Method::Head => counter_inc(&mut self.http_head_requests_total),
            Method::Options => counter_inc(&mut self.http_options_requests_total),
            Method::Trace => {},
            Method::Connect => {},
        }
        TimerStart(Some(started))
    }

    /// Files a response that is about to leave: the time its request took,
    /// where that is known, under the endpoint, the method and the status; and
    /// the status in the counters of its class.
    pub fn record_response(&mut self, elapsed: Option<Duration>, endpoint: &str, method: Method, status: u16)
        ensures
            final(self)@ == old(self)@.observed(elapsed, endpoint@, method, status).response_sent(status),
    {
        proof {
            use_type_invariant(&*self);
        }
        if let Some(elapsed) = elapsed {
            let code = decimal_string(status);
            histogram_observe(
                &mut self.http_requests_duration_seconds,
                endpoint,
                method.as_str(),
                code.as_str(),
                elapsed,
            );
        }
        if 200 <= status && status <= 299 {
            counter_inc(&mut self.http_2xx_responses_total);
        } else if 300 <= status && status <= 399 {
            counter_inc(&mut self.http_3xx_responses_total);
        } else if 400 <= status && status <= 499 {
            counter_inc(&mut self.http_4xx_responses_total);
            if status == 401 {
                counter_inc(&mut self.http_401_responses_total);
            } else if status == 403 {
                counter_inc(&mut self.http_403_responses_total);
            }
        } else if 500 <= status && status <= 599 {
            counter_inc(&mut self.http_5xx_responses_total);
        }
    }

    /// Files a response that is about to leave, with the time that has passed
    /// since its request was seen coming in.
    ///
    /// The counters move as the status says. A duration is observed exactly
    /// where the timer holds a start; its length is whatever the clock says.
    pub fn on_response(&mut self, timer: TimerStart, endpoint: &str, method: Method, status: u16)
        ensures
            exists|elapsed: Option<Duration>|
                {
                    &&& elapsed is Some <==> timer.0 is Some
                    &&& final(self)@ == (#[trigger] old(self)@.observed(
                        elapsed,
                        endpoint@,
                        method,
                        status,
                    )).response_sent(status)
                },
    {
        let elapsed = match timer.0 {
            Some(started) => Some(elapsed_since(&started)),
            None => None,
        };
        self.record_response(elapsed, endpoint, method, status);
    }

    /// The metrics as text for a scrape.
    ///
    /// A fresh registry is handed the fifteen collectors one by one, and what
    /// it holds is encoded. Whether the registry takes them and what the
    /// encoder writes depend on the collectors alone, so the rendering is
    /// [`snapshot`] of the metrics as they stand: the text, or the reason
    /// there is none.
    pub fn render(&self) -> (rendered: Result<String, MetricError>)
        ensures
            rendered_view(rendered) == snapshot(self@),
    {
        proof {
            use_type_invariant(self);
        }
        let ghost all = collectors(self@);
        let counters: Vec<&EventCounter> = vec![
            &self.http_requests_total,
            &self.http_get_requests_total,
            &self.http_post_requests_total,
            &self.http_put_requests_total,
            &self.http_delete_requests_total,
            &self.http_patch_requests_total,
            &self.http_head_requests_total,
            &self.http_options_requests_total,
            &self.http_2xx_responses_total,
            &self.http_3xx_responses_total,
            &self.http_4xx_responses_total,
            &self.http_401_responses_total,
            &self.http_403_responses_total,
            &self.http_5xx_responses_total,
        ];
        let mut scrape = new_scrape();
        let mut taken = true;
        for at in 0..14usize
            invariant
                all == collectors(self@),
                all == self.collected(),
                counters@.len() == 14,
                forall|j: int| 0 <= j < 14 ==> Collected::Counter(counter_state(*#[trigger] counters@[j])) == all[j],
                taken ==> registered(scrape) == all.take(at as int),
                taken ==> forall|j: int| 0 <= j < at ==> #[trigger] accepts(all.take(j), all[j]),
                !taken ==> !all_accepted(all),
        {
            if taken {
                taken = register_counter(&mut scrape, counters[at]);
            }
        }
        if taken {
            taken = register_histogram(&mut scrape, &self.http_requests_duration_seconds);
            assert(taken ==> registered(scrape) == all);
        }
        let encoded = if taken {
            Some(encode_text(&scrape))
        } else {
            None
        };
        settle_scrape(encoded)
    }
}

/// Requests are counted without loss: after any run of requests the total has
/// grown by their number, and the counter of each method by the number of
/// requests of that method.
pub proof fn lemma_requests_counted(start: MetricsView, methods: Seq<Method>, method: Method)
    ensures
        start.after_requests(methods).requests == start.requests + methods.len(),
        start.after_requests(methods).of_method(method) == start.of_method(method) + if method
            == Method::Trace || method == Method::Connect {
            0
        } else {
            occurrences(methods, method)
        },
    decreases methods.len(),
{
    if methods.len() > 0 {
        lemma_requests_counted(start, methods.drop_last(), method);
    }
}

/// Nothing that happens to the metrics takes anything back: a request that
/// comes in, a response that leaves and a duration that is observed each
/// leave every counter where it was or higher, and every earlier observation
/// in its place.
pub proof fn lemma_metrics_only_grow(
    view: MetricsView,
    method: Method,
    status: u16,
    elapsed: Option<Duration>,
    endpoint: Seq<char>,
)
    ensures
        view.request_started(method).extends(view),
        view.response_sent(status).extends(view),
        view.observed(elapsed, endpoint, method, status).extends(view),
        view.observed(elapsed, endpoint, method, status).response_sent(status).extends(view),
{
}

/// A response is counted in the class of its status and nowhere else: in
/// exactly one of the four classes where its status lies from 200 to 599,
/// and besides that under 401 or 403 exactly where it is that status.
pub proof fn lemma_response_counted(view: MetricsView, status: u16)
    ensures
        view.response_sent(status).responses_2xx == view.responses_2xx + if 200 <= status <= 299 {
            1nat
        } else {
            0nat
        },
        view.response_sent(status).responses_3xx == view.responses_3xx + if 300 <= status <= 399 {
            1nat
        } else {
            0nat
        },
        view.response_sent(status).responses_4xx == view.responses_4xx + if 400 <= status <= 499 {
            1nat
        } else {
            0nat
        },
        view.response_sent(status).responses_5xx == view.responses_5xx + if 500 <= status <= 599 {
            1nat
        } else {
            0nat
        },
        view.response_sent(status).responses_401 == view.responses_401 + if status == 401 {
            1nat
        } else {
            0nat
        },
        view.response_sent(status).responses_403 == view.responses_403 + if status == 403 {
            1nat
        } else {
            0nat
        },
        view.response_sent(status).requests == view.requests,
        forall|method: Method| view.response_sent(status).of_method(method) == view.of_method(method),
        view.response_sent(status).durations == view.durations,
{
}

/// Requests leave the response counters and the histogram alone.
pub proof fn lemma_requests_keep_responses(start: MetricsView, methods: Seq<Method>)
    ensures
        start.after_requests(methods).responses_2xx == start.responses_2xx,
        start.after_requests(methods).responses_3xx == start.responses_3xx,
        start.after_requests(methods).responses_4xx == start.responses_4xx,
        start.after_requests(methods).responses_401 == start.responses_401,
        start.after_requests(methods).responses_403 == start.responses_403,
        start.after_requests(methods).responses_5xx == start.responses_5xx,
        start.after_requests(methods).durations == start.durations,
    decreases methods.len(),
{
    if methods.len() > 0 {
        lemma_requests_keep_responses(start, methods.drop_last());
    }
}

impl Default for PrometheusMetrics {
    /// Fresh metrics: every counter at zero, no duration observed.
    fn default() -> (metrics: PrometheusMetrics)
        ensures
            metrics@ == MetricsView::zero(),
    {
        proof {
            lemma_request_counter_names();
            lemma_response_counter_names();
            lemma_histogram_names();
            lemma_help_texts();
        }
        let metrics = PrometheusMetrics {
            http_requests_total: new_counter("http_requests_total", "Total number of HTTP requests made."),
            http_get_requests_total: new_counter(
                "http_get_requests_total",
                "Total number of HTTP GET requests made.",
            ),
            http_post_requests_total: new_counter(
                "http_post_requests_total",
                "Total number of HTTP POST requests made.",
            ),
            http_put_requests_total: new_counter(
                "http_put_requests_total",
                "Total number of HTTP PUT requests made.",
            ),
            http_delete_requests_total: new_counter(
                "http_delete_requests_total",
                "Total number of HTTP DELETE requests made.",
            ),
            http_patch_requests_total: new_counter(
                "http_patch_requests_total",
                "Total number of HTTP PATCH requests made.",
            ),
            http_head_requests_total: new_counter(
                "http_head_requests_total",
                "Total number of HTTP HEAD requests made.",
            ),
            http_options_requests_total: new_counter(
                "http_options_requests_total",
                "Total number of HTTP OPTIONS requests made.",
            ),
            http_2xx_responses_total: new_counter(
                "http_2xx_responses_total",
                "Total number of HTTP 2xx responses made.",
            ),
            http_3xx_responses_total: new_counter(
                "http_3xx_responses_total",
                "Total number of HTTP 3xx responses made.",
            ),
            http_4xx_responses_total: new_counter(
                "http_4xx_responses_total",
                "Total number of HTTP 4xx responses made.",
            ),
            http_401_responses_total: new_counter(
                "http_401_responses_total",
                "Total number of HTTP 401 responses made.",
            ),
            http_403_responses_total: new_counter(
                "http_403_responses_total",
                "Total number of HTTP 403 responses made.",
            ),
            http_5xx_responses_total: new_counter(
                "http_5xx_responses_total",
                "Total number of HTTP 5xx responses made.",
            ),
            http_requests_duration_seconds: new_histogram(
                "http_requests_duration_seconds",
                "HTTP request duration in seconds for all requests",
                "endpoint",
                "method",
                "status",
            ),
        };
        metrics
    }
}

} // verus!
