//! The exposition-format backend, built on the `prometheus-client` engine.
//!
//! This backend enforces the metric name grammar `[A-Za-z_][A-Za-z0-9_]*`,
//! checks histogram bucket bounds, and rejects a second registration of a
//! name that is already registered.
//!
//! Histogram bucket bounds are IEEE-754 binary64 values. The library carries
//! each bound as its bit pattern (`f64::to_bits`), on which the checks below
//! are exact: a pattern is a finite, non-negative value exactly when it is
//! below `0x7FF0_0000_0000_0000` (positive zero up to the largest finite
//! value) or is `0x8000_0000_0000_0000` (negative zero, which compares equal
//! to zero), and on those patterns numeric order is the order of the
//! patterns, with negative zero taken as zero.

use crate::metrics::{CounterTrait, GaugeTrait, Metric};
use crate::registry::{MetricBackend, ObservabilityRegistry};
use crate::renderer::{MetricsRenderer, RenderedMetrics};
use prometheus_client::metrics::counter::Counter;
use prometheus_client::metrics::gauge::Gauge;
use prometheus_client::metrics::histogram::Histogram;
use prometheus_client::registry::Registry;
use vstd::prelude::*;
use vstd::utf8::valid_utf8;

verus! {

#[verifier::external_type_specification]
#[verifier::external_body]
pub struct ExRegistry(prometheus_client::registry::Registry);

#[verifier::external_type_specification]
#[verifier::external_body]
#[verifier::reject_recursive_types(N)]
#[verifier::reject_recursive_types(A)]
pub struct ExCounter<N, A>(prometheus_client::metrics::counter::Counter<N, A>);

#[verifier::external_type_specification]
#[verifier::external_body]
#[verifier::reject_recursive_types(N)]
#[verifier::reject_recursive_types(A)]
pub struct ExGauge<N, A>(prometheus_client::metrics::gauge::Gauge<N, A>);

#[verifier::external_type_specification]
#[verifier::external_body]
pub struct ExHistogram(prometheus_client::metrics::histogram::Histogram);

/// Errors of the exposition-format backend.
#[derive(Debug)]
pub enum PrometheusError {
    /// The engine refused the registration (here: the name is taken).
    RegistrationError(String),
    /// The metric name does not match `[A-Za-z_][A-Za-z0-9_]*`.
    InvalidNamingConvention(String),
    /// A bucket bound is not finite, is negative, or does not increase.
    InvalidHistogramBuckets(String),
}

// ---------------------------------------------------------------------------
// Metric name grammar
// ---------------------------------------------------------------------------

/// An ASCII letter or underscore.
pub open spec fn is_name_start(c: char) -> bool {
    ('a' <= c && c <= 'z') || ('A' <= c && c <= 'Z') || c == '_'
}

/// An ASCII letter, digit or underscore.
pub open spec fn is_name_char(c: char) -> bool {
    is_name_start(c) || ('0' <= c && c <= '9')
}

/// `s` matches `[A-Za-z_][A-Za-z0-9_]*`.
pub open spec fn valid_metric_name(s: Seq<char>) -> bool {
    &&& s.len() > 0
    &&& is_name_start(s[0])
    &&& forall|i: int| 1 <= i < s.len() ==> is_name_char(#[trigger] s[i])
}

/// First character of a metric name: letter or underscore.
pub fn is_valid_first_char(c: char) -> (r: bool)
    ensures
        r == is_name_start(c),
{
    ('a' <= c && c <= 'z') || ('A' <= c && c <= 'Z') || c == '_'
}

/// Subsequent characters of a metric name: letter, digit or underscore.
pub fn is_valid_subsequent_char(c: char) -> (r: bool)
    ensures
        r == is_name_char(c),
{
    is_valid_first_char(c) || ('0' <= c && c <= '9')
}

/// Check `name` against `[A-Za-z_][A-Za-z0-9_]*`.
pub fn validate_prometheus_metric_name(name: &str) -> (r: Result<(), PrometheusError>)
    ensures
        r is Ok <==> valid_metric_name(name@),
        r is Err ==> r->Err_0 is InvalidNamingConvention,
{
    broadcast use vstd::string::axiom_spec_iter;

    if name.is_empty() {
        return Err(PrometheusError::InvalidNamingConvention("metric name cannot be empty".to_owned()));
    }
    let mut first = true;
    for c in it: name.chars()
        invariant
            it.seq() == name@,
            name@.len() > 0,
            first == (it.index() == 0),
            it.index() > 0 ==> is_name_start(name@[0]),
            forall|i: int| 1 <= i < it.index() ==> is_name_char(#[trigger] name@[i]),
    {
        if first {
            if !is_valid_first_char(c) {
                return Err(
                    PrometheusError::InvalidNamingConvention(
                        "metric name must start with [a-zA-Z_]".to_owned(),
                    ),
                );
            }
            first = false;
        } else if !is_valid_subsequent_char(c) {
            return Err(
                PrometheusError::InvalidNamingConvention(
                    "metric name may only contain [a-zA-Z0-9_]".to_owned(),
                ),
            );
        }
    }
    Ok(())
}

// ---------------------------------------------------------------------------
// Histogram bucket bounds, as binary64 bit patterns
// ---------------------------------------------------------------------------

/// The bit pattern of negative zero.
pub const NEGATIVE_ZERO_BITS: u64 = 0x8000_0000_0000_0000;

/// The bit pattern of positive infinity; every finite non-negative value
/// other than negative zero lies below it.
pub const INFINITY_BITS: u64 = 0x7FF0_0000_0000_0000;

/// The bit pattern of negative infinity; the negative finite values lie
/// between negative zero and it.
pub const NEGATIVE_INFINITY_BITS: u64 = 0xFFF0_0000_0000_0000;

/// The pattern encodes a finite value that is not below zero.
pub open spec fn is_valid_bound(bits: u64) -> bool {
    bits < INFINITY_BITS || bits == NEGATIVE_ZERO_BITS
}

/// For patterns that pass `is_valid_bound`: a key whose integer order is
/// the numeric order of the values.
pub open spec fn bound_key(bits: u64) -> u64 {
    if bits == NEGATIVE_ZERO_BITS {
        0
    } else {
        bits
    }
}

/// Every bound is finite and non-negative, and the bounds strictly increase.
/// The empty list is valid: such a histogram keeps only sum and count.
pub open spec fn valid_buckets(bounds: Seq<u64>) -> bool {
    &&& forall|i: int| 0 <= i < bounds.len() ==> is_valid_bound(#[trigger] bounds[i])
    &&& forall|i: int|
        1 <= i < bounds.len() ==> bound_key(bounds[i - 1]) < bound_key(#[trigger] bounds[i])
}

/// Check that the bucket bounds are finite, non-negative and strictly increasing.
pub fn validate_histogram_buckets(bounds: &[u64]) -> (r: Result<(), PrometheusError>)
    ensures
        r is Ok <==> valid_buckets(bounds@),
        r is Err ==> r->Err_0 is InvalidHistogramBuckets,
{
    let mut i: usize = 0;
    while i < bounds.len()
        invariant
            i <= bounds@.len(),
            forall|j: int| 0 <= j < i ==> is_valid_bound(#[trigger] bounds@[j]),
            forall|j: int| 1 <= j < i ==> bound_key(bounds@[j - 1]) < bound_key(#[trigger] bounds@[j]),
        decreases bounds@.len() - i,
    {
        let b: u64 = bounds[i];
        if b >= INFINITY_BITS && b != NEGATIVE_ZERO_BITS {
            let msg = if b > NEGATIVE_ZERO_BITS && b < NEGATIVE_INFINITY_BITS {
                "bucket bound is negative"
            } else {
                "bucket bound is not finite (NaN or infinity)"
            };
            return Err(PrometheusError::InvalidHistogramBuckets(msg.to_owned()));
        }
        if i > 0 {
            let prev: u64 = bounds[i - 1];
            let prev_key: u64 = if prev == NEGATIVE_ZERO_BITS { 0 } else { prev };
            let key: u64 = if b == NEGATIVE_ZERO_BITS { 0 } else { b };
            if key <= prev_key {
                return Err(
                    PrometheusError::InvalidHistogramBuckets(
                        "bucket bounds must be strictly increasing".to_owned(),
                    ),
                );
            }
        }
        i = i + 1;
    }
    Ok(())
}

// ---------------------------------------------------------------------------
// Calls into the engine
// ---------------------------------------------------------------------------

#[verifier::external_type_specification]
#[verifier::external_body]
pub struct ExFmtError(std::fmt::Error);

/// Relies on `Registry::default`: an engine registry with no metrics.
#[verifier::external_body]
fn new_engine_registry() -> Registry {
    Registry::default()
}

/// Relies on `Counter::default`: a counter at zero in a fresh shared cell.
#[verifier::external_body]
fn new_engine_counter() -> Counter<u64> {
    Counter::default()
}

/// Relies on `Gauge::default`: a gauge at zero in a fresh shared cell.
#[verifier::external_body]
fn new_engine_gauge() -> Gauge<i64> {
    Gauge::default()
}

/// Relies on `Counter::inc`: an atomic increment of the shared cell.
#[verifier::external_body]
fn engine_counter_inc(c: &Counter<u64>) {
    c.inc();
}

/// Relies on `Counter::inc_by`: an atomic (wrapping) add to the shared cell.
#[verifier::external_body]
fn engine_counter_inc_by(c: &Counter<u64>, v: u64) {
    c.inc_by(v);
}

/// Relies on `Counter::get`: a load of the shared cell.
#[verifier::external_body]
fn engine_counter_get(c: &Counter<u64>) -> u64 {
    c.get()
}

/// Relies on `Gauge::set`: an atomic store to the shared cell.
#[verifier::external_body]
fn engine_gauge_set(g: &Gauge<i64>, v: i64) {
    g.set(v);
}

/// Relies on `Gauge::inc`: an atomic increment of the shared cell.
#[verifier::external_body]
fn engine_gauge_inc(g: &Gauge<i64>) {
    g.inc();
}

/// Relies on `Gauge::inc_by`: an atomic (wrapping) add to the shared cell.
#[verifier::external_body]
fn engine_gauge_inc_by(g: &Gauge<i64>, v: i64) {
    g.inc_by(v);
}

/// Relies on `Gauge::dec`: an atomic decrement of the shared cell.
#[verifier::external_body]
fn engine_gauge_dec(g: &Gauge<i64>) {
    g.dec();
}

/// Relies on `Gauge::dec_by`: an atomic (wrapping) subtraction from the shared cell.
#[verifier::external_body]
fn engine_gauge_dec_by(g: &Gauge<i64>, v: i64) {
    g.dec_by(v);
}

/// Relies on `Gauge::get`: a load of the shared cell.
#[verifier::external_body]
fn engine_gauge_get(g: &Gauge<i64>) -> i64 {
    g.get()
}

/// Relies on `Registry::register`: records a handle sharing the counter's cell.
#[verifier::external_body]
fn engine_register_counter(registry: &mut Registry, name: &str, help: &str, c: &Counter<u64>) {
    registry.register(name, help, c.clone());
}

/// Relies on `Registry::register`: records a handle sharing the gauge's cell.
#[verifier::external_body]
fn engine_register_gauge(registry: &mut Registry, name: &str, help: &str, g: &Gauge<i64>) {
    registry.register(name, help, g.clone());
}

/// Relies on `Registry::register`: records a handle sharing the histogram's state.
#[verifier::external_body]
fn engine_register_histogram(registry: &mut Registry, name: &str, help: &str, h: &Histogram) {
    registry.register(name, help, h.clone());
}

/// Relies on `prometheus_client::encoding::text::encode`: the text
/// exposition of every registered metric. It passes on only the writer's
/// errors, and a `String` writer has none; its one error of its own is for a
/// `u64` gauge at `u64::MAX`, and a storage registers only `u64` counters,
/// `i64` gauges and histograms. The bytes are those of a `String`, so UTF-8.
#[verifier::external_body]
fn engine_encode_text(storage: &PrometheusStorage) -> (r: Result<Vec<u8>, std::fmt::Error>)
    ensures
        r is Ok,
        r is Ok ==> valid_utf8(r->Ok_0@),
{
    let mut buffer = String::new();
    prometheus_client::encoding::text::encode(&mut buffer, &storage.registry)?;
    Ok(buffer.into_bytes())
}

impl CounterTrait for Counter<u64> {
    fn inc(&self) {
        engine_counter_inc(self);
    }

    fn inc_by(&self, value: u64) {
        engine_counter_inc_by(self, value);
    }

    fn get(&self) -> u64 {
        engine_counter_get(self)
    }
}

impl GaugeTrait for Gauge<i64> {
    fn set(&self, value: i64) {
        engine_gauge_set(self, value);
    }

    fn inc(&self) {
        engine_gauge_inc(self);
    }

    fn inc_by(&self, value: i64) {
        engine_gauge_inc_by(self, value);
    }

    fn dec(&self) {
        engine_gauge_dec(self);
    }

    fn dec_by(&self, value: i64) {
        engine_gauge_dec_by(self, value);
    }

    fn get(&self) -> i64 {
        engine_gauge_get(self)
    }
}

// ---------------------------------------------------------------------------
// Storage and backend
// ---------------------------------------------------------------------------

/// The content type of the text exposition format.
pub open spec fn exposition_content_type() -> Seq<char> {
    "text/plain; version=0.0.4; charset=utf-8"@
}

/// A counter or gauge named `name` is accepted by a storage holding `names`:
/// the name is well formed and not yet taken.
pub open spec fn admits_name(names: Set<Seq<char>>, name: Seq<char>) -> bool {
    valid_metric_name(name) && !names.contains(name)
}

/// `e` is the error owed for refusing a counter or gauge named `name` in a
/// storage holding `names`: a malformed name is a naming error, a taken one
/// a registration error.
pub open spec fn name_error_for(names: Set<Seq<char>>, name: Seq<char>, e: PrometheusError) -> bool {
    &&& !valid_metric_name(name) ==> e is InvalidNamingConvention
    &&& valid_metric_name(name) && names.contains(name) ==> e is RegistrationError
}

/// `e` is the error owed for refusing a histogram: the name is checked
/// first, then the bounds, then whether the name is taken.
pub open spec fn histogram_error_for(
    names: Set<Seq<char>>,
    name: Seq<char>,
    bounds: Seq<u64>,
    e: PrometheusError,
) -> bool {
    &&& !valid_metric_name(name) ==> e is InvalidNamingConvention
    &&& valid_metric_name(name) && !valid_buckets(bounds) ==> e is InvalidHistogramBuckets
    &&& valid_metric_name(name) && valid_buckets(bounds) && names.contains(name)
        ==> e is RegistrationError
}

/// The engine registry together with the names registered in it.
///
/// Names are unique: registering a name that is already taken, under any
/// instrument kind, fails with `RegistrationError` and changes nothing.
pub struct PrometheusStorage {
    registry: Registry,
    names: Vec<String>,
}

impl PrometheusStorage {
    /// The registered names, in order of registration.
    pub closed spec fn names_view(&self) -> Seq<Seq<char>> {
        self.names@.map_values(|s: String| s@)
    }

    /// No name is registered twice.
    pub open spec fn wf(&self) -> bool {
        self.names_view().no_duplicates()
    }

    /// An empty storage.
    pub fn new() -> (r: Self)
        ensures
            r.wf(),
            r.names_view() == Seq::<Seq<char>>::empty(),
    {
        let r = PrometheusStorage { registry: new_engine_registry(), names: Vec::new() };
        assert(r.names_view() =~= Seq::<Seq<char>>::empty());
        r
    }

    /// Whether `name` is already registered.
    pub fn is_registered(&self, name: &str) -> (r: bool)
        ensures
            r == self.names_view().contains(name@),
    {
        let wanted = name.to_owned();
        let mut i: usize = 0;
        while i < self.names.len()
            invariant
                i <= self.names@.len(),
                wanted@ == name@,
                forall|j: int| 0 <= j < i ==> self.names_view()[j] != name@,
            decreases self.names@.len() - i,
        {
            if self.names[i] == wanted {
                assert(self.names_view()[i as int] == name@);
                return true;
            }
            i = i + 1;
        }
        assert forall|j: int| 0 <= j < self.names_view().len() implies self.names_view()[j]
            != name@ by {}
        false
    }

    /// Record `name`, which is not yet taken.
    fn record(&mut self, name: &str)
        requires
            old(self).wf(),
            !old(self).names_view().contains(name@),
        ensures
            final(self).wf(),
            final(self).names_view() == old(self).names_view().push(name@),
            final(self).registry == old(self).registry,
    {
        self.names.push(name.to_owned());
        assert(self.names_view() =~= old(self).names_view().push(name@));
        assert forall|i: int, j: int|
            0 <= i < j < self.names_view().len() implies self.names_view()[i]
            != self.names_view()[j] by {
            if j == self.names_view().len() - 1 {
                assert(old(self).names_view()[i] == self.names_view()[i]);
            }
        }
    }

    /// Check `name` against the grammar and the registered names.
    fn check_name(&self, name: &str) -> (r: Result<(), PrometheusError>)
        ensures
            r is Ok <==> admits_name(self.names_view().to_set(), name@),
            r is Err ==> name_error_for(self.names_view().to_set(), name@, r->Err_0),
    {
        match validate_prometheus_metric_name(name) {
            Err(e) => Err(e),
            Ok(()) => {
                if self.is_registered(name) {
                    Err(PrometheusError::RegistrationError("metric name is already registered".to_owned()))
                } else {
                    Ok(())
                }
            },
        }
    }

    /// Validate `name`, then create and register a counter.
    pub fn add_counter(&mut self, name: &str, help: &str) -> (r: Result<Counter<u64>, PrometheusError>)
        requires
            old(self).wf(),
        ensures
            final(self).wf(),
            r is Ok <==> admits_name(old(self).names_view().to_set(), name@),
            r is Err ==> name_error_for(old(self).names_view().to_set(), name@, r->Err_0),
            r is Ok ==> final(self).names_view() == old(self).names_view().push(name@),
            r is Err ==> *final(self) == *old(self),
    {
        match self.check_name(name) {
            Err(e) => Err(e),
            Ok(()) => {
                let counter = new_engine_counter();
                engine_register_counter(&mut self.registry, name, help, &counter);
                self.record(name);
                Ok(counter)
            },
        }
    }

    /// Validate `name`, then create and register a gauge.
    pub fn add_gauge(&mut self, name: &str, help: &str) -> (r: Result<Gauge<i64>, PrometheusError>)
        requires
            old(self).wf(),
        ensures
            final(self).wf(),
            r is Ok <==> admits_name(old(self).names_view().to_set(), name@),
            r is Err ==> name_error_for(old(self).names_view().to_set(), name@, r->Err_0),
            r is Ok ==> final(self).names_view() == old(self).names_view().push(name@),
            r is Err ==> *final(self) == *old(self),
    {
        match self.check_name(name) {
            Err(e) => Err(e),
            Ok(()) => {
                let gauge = new_engine_gauge();
                engine_register_gauge(&mut self.registry, name, help, &gauge);
                self.record(name);
                Ok(gauge)
            },
        }
    }

    /// Validate `name` and `bounds`, then register `histogram` (built over
    /// those bounds) and hand it back.
    pub fn add_histogram(&mut self, name: &str, help: &str, bounds: &[u64], histogram: Histogram) -> (r:
        Result<Histogram, PrometheusError>)
        requires
            old(self).wf(),
        ensures
            final(self).wf(),
            r is Ok <==> admits_name(old(self).names_view().to_set(), name@) && valid_buckets(bounds@),
            r is Ok ==> r->Ok_0 == histogram,
            r is Err ==> histogram_error_for(old(self).names_view().to_set(), name@, bounds@, r->Err_0),
            r is Ok ==> final(self).names_view() == old(self).names_view().push(name@),
            r is Err ==> *final(self) == *old(self),
    {
        match validate_prometheus_metric_name(name) {
            Err(e) => {
                return Err(e);
            },
            Ok(()) => {},
        }
        match validate_histogram_buckets(bounds) {
            Err(e) => {
                return Err(e);
            },
            Ok(()) => {},
        }
        match self.check_name(name) {
            Err(e) => Err(e),
            Ok(()) => {
                engine_register_histogram(&mut self.registry, name, help, &histogram);
                self.record(name);
                Ok(histogram)
            },
        }
    }
}

impl MetricsRenderer for PrometheusStorage {
    type Error = std::fmt::Error;

    open spec fn spec_content_type(&self) -> Seq<char> {
        exposition_content_type()
    }

    open spec fn spec_infallible(&self) -> bool {
        true
    }

    open spec fn spec_renders(&self, out: RenderedMetrics) -> bool {
        out.content_type@ == exposition_content_type() && valid_utf8(out.body@)
    }

    fn render(&self) -> (r: Result<RenderedMetrics, std::fmt::Error>) {
        match engine_encode_text(self) {
            Ok(body) => Ok(RenderedMetrics::new("text/plain; version=0.0.4; charset=utf-8", body)),
            Err(e) => Err(e),
        }
    }
}

/// The exposition-format backend.
pub struct PrometheusBackend;

impl MetricBackend for PrometheusBackend {
    // The storage's sequence of names relates to the set of registered
    // names through `Seq::to_set`; `lemma_push_to_set_commute` carries each
    // registration across.
    type Registry = PrometheusStorage;
    type Counter = Counter<u64>;
    type Gauge = Gauge<i64>;
    type Histogram = Histogram;
    type Error = PrometheusError;

    open spec fn storage_wf(registry: &PrometheusStorage) -> bool {
        registry.wf()
    }

    open spec fn registered(registry: &PrometheusStorage) -> Set<Seq<char>> {
        registry.names_view().to_set()
    }

    open spec fn admits(registry: &PrometheusStorage, name: Seq<char>) -> bool {
        admits_name(registry.names_view().to_set(), name)
    }

    open spec fn admits_histogram(registry: &PrometheusStorage, name: Seq<char>, bounds: Seq<u64>) -> bool {
        admits_name(registry.names_view().to_set(), name) && valid_buckets(bounds)
    }

    open spec fn name_error(registry: &PrometheusStorage, name: Seq<char>, e: PrometheusError) -> bool {
        name_error_for(registry.names_view().to_set(), name, e)
    }

    open spec fn histogram_error(
        registry: &PrometheusStorage,
        name: Seq<char>,
        bounds: Seq<u64>,
        e: PrometheusError,
    ) -> bool {
        histogram_error_for(registry.names_view().to_set(), name, bounds, e)
    }

    fn create_registry() -> PrometheusStorage {
        let r = PrometheusStorage::new();
        assert(r.names_view().to_set() =~= Set::<Seq<char>>::empty());
        r
    }

    fn register_counter(registry: &mut PrometheusStorage, name: &str, help: &str) -> Result<Counter<u64>, PrometheusError> {
        proof {
            registry.names_view().lemma_push_to_set_commute(name@);
        }

        registry.add_counter(name, help)
    }

    fn register_gauge(registry: &mut PrometheusStorage, name: &str, help: &str) -> Result<Gauge<i64>, PrometheusError> {
        proof {
            registry.names_view().lemma_push_to_set_commute(name@);
        }

        registry.add_gauge(name, help)
    }

    fn register_histogram(
        registry: &mut PrometheusStorage,
        name: &str,
        help: &str,
        bounds: &[u64],
        histogram: Histogram,
    ) -> Result<Histogram, PrometheusError> {
        proof {
            registry.names_view().lemma_push_to_set_commute(name@);
        }

        registry.add_histogram(name, help, bounds, histogram)
    }
}

/// A registry over the exposition-format backend.
pub type PrometheusRegistry = ObservabilityRegistry<PrometheusBackend>;

/// An engine counter with identity.
pub type PrometheusCounter = Metric<Counter<u64>>;

/// An engine gauge with identity.
pub type PrometheusGauge = Metric<Gauge<i64>>;

/// An engine histogram with identity.
pub type PrometheusHistogram = Metric<Histogram>;

/// A named engine counter at zero, not registered anywhere.
pub fn counter(name: &str, description: &str) -> (r: PrometheusCounter)
    ensures
        r.spec_name() == name@,
        r.spec_description() == description@,
{
    Metric::new(name, description, new_engine_counter())
}

/// A named engine gauge at zero, not registered anywhere.
pub fn gauge(name: &str, description: &str) -> (r: PrometheusGauge)
    ensures
        r.spec_name() == name@,
        r.spec_description() == description@,
{
    Metric::new(name, description, new_engine_gauge())
}

} // verus!
