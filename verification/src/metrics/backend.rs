//! The boundary to the `prometheus` crate and to the clock.
//!
//! Nothing in this file is proved. Each item states what the verifier is told to
//! believe about code that lives outside this crate; the rest of the crate is
//! proved against these statements.
//!
//! A `prometheus` collector shares its cells with every clone of itself and
//! changes through `&self`. Here a collector changes through `&mut` alone,
//! and the one clone that is ever made goes to a [`Scrape`], which keeps the
//! collector borrowed while it lives. So a collector that is borrowed shared
//! keeps the state these contracts speak of.
use vstd::prelude::*;
use std::marker::PhantomData;
use std::time::Duration;
use std::time::Instant;
use crate::helpers::text::is_digit;

verus! {

#[verifier::external_type_specification]
#[verifier::external_body]
pub struct ExRegistry(prometheus::Registry);

#[verifier::external_type_specification]
#[verifier::external_body]
pub struct ExInstant(Instant);

/// A `prometheus::Counter`. The counter's type is generic over a trait of
/// `prometheus`, which the verifier cannot be told about; the counter is held
/// here, out of the verifier's sight.
#[verifier::external_body]
pub struct EventCounter {
    inner: prometheus::Counter,
}

/// A `prometheus::HistogramVec`. The vector's type parameter is private to
/// `prometheus`, so the verifier cannot be told about the type itself; it is
/// held here, out of the verifier's sight.
#[verifier::external_body]
pub struct DurationHistogram {
    inner: prometheus::HistogramVec,
}

/// A registry for one scrape. A collector that is handed to it stays
/// borrowed for as long as the registry lives, so none can change under it.
/// Only [`new_scrape`] makes one, and nothing outside this file can take one
/// apart.
pub struct Scrape<'a> {
    registry: prometheus::Registry,
    held: PhantomData<&'a EventCounter>,
}

/// What a counter shows to a scrape: its name, its help text, and how many
/// times it has been incremented.
pub struct CounterState {
    pub name: Seq<char>,
    pub help: Seq<char>,
    pub total: nat,
}

/// One observation of a histogram: the three label values it was filed under
/// and the time that was measured.
pub struct Sample {
    pub endpoint: Seq<char>,
    pub method: Seq<char>,
    pub status: Seq<char>,
    pub elapsed: Duration,
}

/// What a histogram shows to a scrape: its name, its help text, its label
/// names, and every observation made so far, oldest first.
pub struct HistogramState {
    pub name: Seq<char>,
    pub help: Seq<char>,
    pub labels: Seq<Seq<char>>,
    pub samples: Seq<Sample>,
}

/// A collector as a registry holds it.
pub enum Collected {
    Counter(CounterState),
    Histogram(HistogramState),
}

/// The state of the `prometheus::Counter` inside an [`EventCounter`].
pub uninterp spec fn counter_state(counter: EventCounter) -> CounterState;

/// The state of the `prometheus::HistogramVec` inside a [`DurationHistogram`].
pub uninterp spec fn histogram_state(histogram: DurationHistogram) -> HistogramState;

/// The collectors registered with the `prometheus::Registry` of a
/// [`Scrape`], in the order of their registration.
pub uninterp spec fn registered(scrape: Scrape<'_>) -> Seq<Collected>;

/// Whether a `prometheus::Registry` that holds exactly `held` takes `next`
/// when it is handed to `register`.
pub uninterp spec fn accepts(held: Seq<Collected>, next: Collected) -> bool;

/// The text that `prometheus::TextEncoder` writes for the families gathered
/// from a registry that holds exactly `collected`, or nothing where the
/// encoder gives an error.
pub uninterp spec fn exposition_text(collected: Seq<Collected>) -> Option<Seq<char>>;

/// `[a-zA-Z_]`: how a label name starts.
pub open spec fn is_label_start(c: char) -> bool {
    ('a' <= c && c <= 'z') || ('A' <= c && c <= 'Z') || c == '_'
}

/// `[a-zA-Z_:]`: how a metric name starts.
pub open spec fn is_metric_start(c: char) -> bool {
    is_label_start(c) || c == ':'
}

/// `[a-zA-Z_:][a-zA-Z0-9_:]*`: the names `prometheus` accepts for a metric.
pub open spec fn valid_metric_name(name: Seq<char>) -> bool {
    &&& name.len() > 0
    &&& is_metric_start(name[0])
    &&& forall|i: int| 0 < i < name.len() ==> is_metric_start(#[trigger] name[i]) || is_digit(name[i])
}

/// `[a-zA-Z_][a-zA-Z0-9_]*`: the names `prometheus` accepts for a label.
pub open spec fn valid_label_name(name: Seq<char>) -> bool {
    &&& name.len() > 0
    &&& is_label_start(name[0])
    &&& forall|i: int| 0 < i < name.len() ==> is_label_start(#[trigger] name[i]) || is_digit(name[i])
}

/// The label name that `prometheus` keeps for the bounds of a histogram's buckets.
pub open spec fn bucket_label() -> Seq<char> {
    seq!['l', 'e']
}

/// `prometheus::Counter::with_opts` on `prometheus::Opts::new(name, help)`.
///
/// The call fails only on an empty help text or a name outside
/// [`valid_metric_name`]; both are excluded. The new counter stands at zero.
#[verifier::external_body]
pub(crate) fn new_counter(name: &str, help: &str) -> (counter: EventCounter)
    requires
        valid_metric_name(name@),
        help@.len() > 0,
    ensures
        counter_state(counter) == (CounterState { name: name@, help: help@, total: 0 }),
{
    EventCounter { inner: prometheus::Counter::with_opts(prometheus::Opts::new(name, help)).unwrap() }
}

/// `prometheus::Counter::inc`: one more increment, name and help text unchanged.
#[verifier::external_body]
pub(crate) fn counter_inc(counter: &mut EventCounter)
    ensures
        counter_state(*final(counter)) == (CounterState {
            total: counter_state(*old(counter)).total + 1,
            ..counter_state(*old(counter))
        }),
    no_unwind
{
    counter.inner.inc()
}

/// `prometheus::HistogramVec::new` on `prometheus::HistogramOpts::new(name, help)`
/// with three label names.
///
/// The call fails only on an empty help text, a name outside
/// [`valid_metric_name`], a label outside [`valid_label_name`] or a label
/// given twice; all are excluded, and so is the label `le`, on which a later
/// observation would panic. The new histogram has no observations.
#[verifier::external_body]
pub(crate) fn new_histogram(name: &str, help: &str, first: &str, second: &str, third: &str) -> (histogram:
    DurationHistogram)
    requires
        valid_metric_name(name@),
        help@.len() > 0,
        valid_label_name(first@),
        valid_label_name(second@),
        valid_label_name(third@),
        first@ != second@,
        first@ != third@,
        second@ != third@,
        first@ != bucket_label(),
        second@ != bucket_label(),
        third@ != bucket_label(),
    ensures
        histogram_state(histogram) == (HistogramState {
            name: name@,
            help: help@,
            labels: seq![first@, second@, third@],
            samples: Seq::empty(),
        }),
{
    let opts = prometheus::HistogramOpts::new(name, help);
    DurationHistogram { inner: prometheus::HistogramVec::new(opts, &[first, second, third]).unwrap() }
}

/// `prometheus::HistogramVec::with_label_values` and `prometheus::Histogram::observe`
/// on the elapsed time in seconds.
///
/// `with_label_values` panics unless it gets as many values as the histogram
/// has labels; a histogram of three labels is asked for. The observation is
/// added behind those made before.
#[verifier::external_body]
pub(crate) fn histogram_observe(
    histogram: &mut DurationHistogram,
    endpoint: &str,
    method: &str,
    status: &str,
    elapsed: Duration,
)
    requires
        histogram_state(*old(histogram)).labels.len() == 3,
    ensures
        histogram_state(*final(histogram)) == (HistogramState {
            samples: histogram_state(*old(histogram)).samples.push(
                Sample { endpoint: endpoint@, method: method@, status: status@, elapsed },
            ),
            ..histogram_state(*old(histogram))
        }),
    no_unwind
{
    histogram.inner.with_label_values(&[endpoint, method, status]).observe(elapsed.as_secs_f64())
}

/// `prometheus::Registry::new`: a registry that holds nothing.
#[verifier::external_body]
pub(crate) fn new_scrape<'a>() -> (scrape: Scrape<'a>)
    ensures
        registered(scrape) == Seq::<Collected>::empty(),
{
    Scrape { registry: prometheus::Registry::new(), held: PhantomData }
}

/// `prometheus::Registry::register` on a clone of a counter.
///
/// Tells whether the registry took the counter. The registry goes by the
/// names, the help texts and the label names of what it holds and of what it
/// is handed, and by nothing else, so the same collectors give the same
/// answer. If it took the counter, it holds the counter behind what it held;
/// if not, it holds what it held.
#[verifier::external_body]
pub(crate) fn register_counter<'a>(scrape: &mut Scrape<'a>, counter: &'a EventCounter) -> (taken: bool)
    ensures
        taken == accepts(registered(*old(scrape)), Collected::Counter(counter_state(*counter))),
        taken ==> registered(*final(scrape)) == registered(*old(scrape)).push(
            Collected::Counter(counter_state(*counter)),
        ),
        !taken ==> registered(*final(scrape)) == registered(*old(scrape)),
{
    scrape.registry.register(Box::new(counter.inner.clone())).is_ok()
}

/// `prometheus::Registry::register` on a clone of a histogram.
///
/// As [`register_counter`].
#[verifier::external_body]
pub(crate) fn register_histogram<'a>(scrape: &mut Scrape<'a>, histogram: &'a DurationHistogram) -> (taken:
    bool)
    ensures
        taken == accepts(registered(*old(scrape)), Collected::Histogram(histogram_state(*histogram))),
        taken ==> registered(*final(scrape)) == registered(*old(scrape)).push(
            Collected::Histogram(histogram_state(*histogram)),
        ),
        !taken ==> registered(*final(scrape)) == registered(*old(scrape)),
{
    scrape.registry.register(Box::new(histogram.inner.clone())).is_ok()
}

/// `prometheus::Registry::gather` and `prometheus::TextEncoder::encode_to_string`.
///
/// Whether the encoder gives a text, and which, depends on nothing but the
/// collectors that the registry holds.
#[verifier::external_body]
pub(crate) fn encode_text(scrape: &Scrape<'_>) -> (text: Option<String>)
    ensures
        match text {
            Some(text) => exposition_text(registered(*scrape)) == Some(text@),
            None => exposition_text(registered(*scrape)) is None,
        },
{
    prometheus::TextEncoder::new().encode_to_string(&scrape.registry.gather()).ok()
}

/// `std::time::Instant::now`. Nothing is said of the instant.
#[verifier::external_body]
pub(crate) fn now() -> Instant {
    Instant::now()
}

/// `std::time::Instant::elapsed`. Nothing is said of the duration.
#[verifier::external_body]
pub(crate) fn elapsed_since(start: &Instant) -> Duration {
    start.elapsed()
}

} // verus!
