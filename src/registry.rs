//! The backend capability interface and the generic registry over it.

use crate::metrics::{CounterTrait, GaugeTrait, Metric};
use crate::renderer::{MetricsRenderer, RenderedMetrics};
use vstd::prelude::*;

verus! {

/// The bucket bounds used by `histogram`: eleven latency bounds, in
/// seconds, from 5 ms to 10 s (0.005, 0.01, 0.025, 0.05, 0.1, 0.25, 0.5,
/// 1, 2.5, 5, 10), as binary64 bit patterns.
pub open spec fn spec_default_latency_bounds() -> Seq<u64> {
    seq![
        0x3F74_7AE1_47AE_147B,
        0x3F84_7AE1_47AE_147B,
        0x3F99_9999_9999_999A,
        0x3FA9_9999_9999_999A,
        0x3FB9_9999_9999_999A,
        0x3FD0_0000_0000_0000,
        0x3FE0_0000_0000_0000,
        0x3FF0_0000_0000_0000,
        0x4004_0000_0000_0000,
        0x4014_0000_0000_0000,
        0x4024_0000_0000_0000,
    ]
}

/// The default latency bucket bounds, as binary64 bit patterns.
pub fn default_latency_bounds() -> (r: Vec<u64>)
    ensures
        r@ == spec_default_latency_bounds(),
{
    let r: Vec<u64> = vec![
        0x3F74_7AE1_47AE_147B,
        0x3F84_7AE1_47AE_147B,
        0x3F99_9999_9999_999A,
        0x3FA9_9999_9999_999A,
        0x3FB9_9999_9999_999A,
        0x3FD0_0000_0000_0000,
        0x3FE0_0000_0000_0000,
        0x3FF0_0000_0000_0000,
        0x4004_0000_0000_0000,
        0x4014_0000_0000_0000,
        0x4024_0000_0000_0000,
    ];
    assert(r@ =~= spec_default_latency_bounds());
    r
}

/// What a concrete metrics engine provides to plug into a registry.
///
/// Every registration either succeeds and adds the name to the set of
/// names registered in the storage, or fails and leaves the storage
/// untouched.
/// Which names and bucket bounds a backend admits is its own policy,
/// exposed through `admits` and `admits_histogram`.
pub trait MetricBackend {
    /// The backend-native storage of registered instruments.
    type Registry: MetricsRenderer;

    /// The counter handle type.
    type Counter: CounterTrait;

    /// The gauge handle type.
    type Gauge: GaugeTrait;

    /// The histogram handle type.
    type Histogram;

    /// Error type for registration failures.
    type Error;

    /// The storage's internal consistency.
    spec fn storage_wf(registry: &Self::Registry) -> bool;

    /// The names registered so far.
    spec fn registered(registry: &Self::Registry) -> Set<Seq<char>>;

    /// Whether a counter or gauge named `name` is accepted.
    spec fn admits(registry: &Self::Registry, name: Seq<char>) -> bool;

    /// Whether a histogram named `name` with these bucket bounds is accepted.
    spec fn admits_histogram(registry: &Self::Registry, name: Seq<char>, bounds: Seq<u64>) -> bool;

    /// Whether `e` is an error owed for refusing a counter or gauge named `name`.
    spec fn name_error(registry: &Self::Registry, name: Seq<char>, e: Self::Error) -> bool;

    /// Whether `e` is an error owed for refusing a histogram named `name`
    /// with these bucket bounds.
    spec fn histogram_error(
        registry: &Self::Registry,
        name: Seq<char>,
        bounds: Seq<u64>,
        e: Self::Error,
    ) -> bool;

    /// Create an empty storage.
    fn create_registry() -> (r: Self::Registry)
        ensures
            Self::storage_wf(&r),
            Self::registered(&r) == Set::<Seq<char>>::empty(),
    ;

    /// Validate `name`, then create and register a counter.
    fn register_counter(registry: &mut Self::Registry, name: &str, help: &str) -> (r: Result<
        Self::Counter,
        Self::Error,
    >)
        requires
            Self::storage_wf(old(registry)),
        ensures
            Self::storage_wf(final(registry)),
            r is Ok <==> Self::admits(old(registry), name@),
            r is Err ==> Self::name_error(old(registry), name@, r->Err_0),
            r is Ok ==> Self::registered(final(registry)) == Self::registered(
                old(registry),
            ).insert(name@),
            r is Err ==> *final(registry) == *old(registry),
    ;

    /// Validate `name`, then create and register a gauge.
    fn register_gauge(registry: &mut Self::Registry, name: &str, help: &str) -> (r: Result<
        Self::Gauge,
        Self::Error,
    >)
        requires
            Self::storage_wf(old(registry)),
        ensures
            Self::storage_wf(final(registry)),
            r is Ok <==> Self::admits(old(registry), name@),
            r is Err ==> Self::name_error(old(registry), name@, r->Err_0),
            r is Ok ==> Self::registered(final(registry)) == Self::registered(
                old(registry),
            ).insert(name@),
            r is Err ==> *final(registry) == *old(registry),
    ;

    /// Validate `name` and `bounds`, then register `histogram`, which the
    /// caller built over those same bounds, and hand it back.
    fn register_histogram(
        registry: &mut Self::Registry,
        name: &str,
        help: &str,
        bounds: &[u64],
        histogram: Self::Histogram,
    ) -> (r: Result<Self::Histogram, Self::Error>)
        requires
            Self::storage_wf(old(registry)),
        ensures
            Self::storage_wf(final(registry)),
            r is Ok <==> Self::admits_histogram(old(registry), name@, bounds@),
            r is Err ==> Self::histogram_error(old(registry), name@, bounds@, r->Err_0),
            r is Ok ==> r->Ok_0 == histogram,
            r is Ok ==> Self::registered(final(registry)) == Self::registered(
                old(registry),
            ).insert(name@),
            r is Err ==> *final(registry) == *old(registry),
    ;
}

/// A registry that creates named instruments against one backend storage.
pub struct ObservabilityRegistry<B: MetricBackend> {
    inner: B::Registry,
}

impl<B: MetricBackend> ObservabilityRegistry<B> {
    /// The owned storage is consistent.
    pub closed spec fn wf(&self) -> bool {
        B::storage_wf(&self.inner)
    }

    /// The owned storage.
    pub closed spec fn spec_inner(&self) -> B::Registry {
        self.inner
    }

    /// The names registered so far.
    pub open spec fn names(&self) -> Set<Seq<char>> {
        B::registered(&self.spec_inner())
    }

    /// Create a registry over a fresh, empty storage.
    pub fn new() -> (r: Self)
        ensures
            r.wf(),
            r.names() == Set::<Seq<char>>::empty(),
    {
        ObservabilityRegistry { inner: B::create_registry() }
    }

    /// Create and register a counter; the backend's error is passed on unchanged.
    pub fn counter(&mut self, name: &str, help: &str) -> (r: Result<Metric<B::Counter>, B::Error>)
        requires
            old(self).wf(),
        ensures
            final(self).wf(),
            r is Ok <==> B::admits(&old(self).spec_inner(), name@),
            r is Err ==> B::name_error(&old(self).spec_inner(), name@, r->Err_0),
            r is Ok ==> r->Ok_0.spec_name() == name@ && r->Ok_0.spec_description() == help@,
            r is Ok ==> final(self).names() == old(self).names().insert(name@),
            r is Err ==> *final(self) == *old(self),
    {
        match B::register_counter(&mut self.inner, name, help) {
            Ok(counter) => Ok(Metric::new(name, help, counter)),
            Err(e) => Err(e),
        }
    }

    /// Create and register a gauge; the backend's error is passed on unchanged.
    pub fn gauge(&mut self, name: &str, help: &str) -> (r: Result<Metric<B::Gauge>, B::Error>)
        requires
            old(self).wf(),
        ensures
            final(self).wf(),
            r is Ok <==> B::admits(&old(self).spec_inner(), name@),
            r is Err ==> B::name_error(&old(self).spec_inner(), name@, r->Err_0),
            r is Ok ==> r->Ok_0.spec_name() == name@ && r->Ok_0.spec_description() == help@,
            r is Ok ==> final(self).names() == old(self).names().insert(name@),
            r is Err ==> *final(self) == *old(self),
    {
        match B::register_gauge(&mut self.inner, name, help) {
            Ok(gauge) => Ok(Metric::new(name, help, gauge)),
            Err(e) => Err(e),
        }
    }

    /// Register a histogram over the default latency bounds
    /// (`default_latency_bounds`); `histogram` must have been built over them.
    pub fn histogram(&mut self, name: &str, help: &str, histogram: B::Histogram) -> (r: Result<
        Metric<B::Histogram>,
        B::Error,
    >)
        requires
            old(self).wf(),
        ensures
            final(self).wf(),
            r is Ok <==> B::admits_histogram(
                &old(self).spec_inner(),
                name@,
                spec_default_latency_bounds(),
            ),
            r is Err ==> B::histogram_error(
                &old(self).spec_inner(),
                name@,
                spec_default_latency_bounds(),
                r->Err_0,
            ),
            r is Ok ==> r->Ok_0.spec_name() == name@ && r->Ok_0.spec_description() == help@
                && r->Ok_0.spec_inner() == histogram,
            r is Ok ==> final(self).names() == old(self).names().insert(name@),
            r is Err ==> *final(self) == *old(self),
    {
        self.histogram_with_buckets(name, help, default_latency_bounds(), histogram)
    }

    /// Register a histogram over explicit bucket bounds (binary64 bit
    /// patterns); `histogram` must have been built over the same bounds.
    pub fn histogram_with_buckets(
        &mut self,
        name: &str,
        help: &str,
        buckets: Vec<u64>,
        histogram: B::Histogram,
    ) -> (r: Result<Metric<B::Histogram>, B::Error>)
        requires
            old(self).wf(),
        ensures
            final(self).wf(),
            r is Ok <==> B::admits_histogram(&old(self).spec_inner(), name@, buckets@),
            r is Err ==> B::histogram_error(&old(self).spec_inner(), name@, buckets@, r->Err_0),
            r is Ok ==> r->Ok_0.spec_name() == name@ && r->Ok_0.spec_description() == help@
                && r->Ok_0.spec_inner() == histogram,
            r is Ok ==> final(self).names() == old(self).names().insert(name@),
            r is Err ==> *final(self) == *old(self),
    {
        match B::register_histogram(&mut self.inner, name, help, buckets.as_slice(), histogram) {
            Ok(h) => Ok(Metric::new(name, help, h)),
            Err(e) => Err(e),
        }
    }

    /// Render the storage through its rendering contract.
    pub fn render(&self) -> (r: Result<RenderedMetrics, <B::Registry as MetricsRenderer>::Error>)
        ensures
            self.spec_inner().spec_infallible() ==> r is Ok,
            r is Ok ==> r->Ok_0.content_type@ == self.spec_inner().spec_content_type(),
            r is Ok ==> self.spec_inner().spec_renders(r->Ok_0),
    {
        self.inner.render()
    }

    /// The underlying storage.
    pub fn inner(&self) -> (r: &B::Registry)
        ensures
            *r == self.spec_inner(),
    {
        &self.inner
    }

    /// The underlying storage, for direct use of the engine.
    pub fn inner_mut(&mut self) -> (r: &mut B::Registry)
        ensures
            *r == old(self).spec_inner(),
            final(self).spec_inner() == *final(r),
    {
        &mut self.inner
    }
}

impl<B: MetricBackend> Default for ObservabilityRegistry<B> {
    fn default() -> (r: Self)
        ensures
            r.wf(),
            r.names() == Set::<Seq<char>>::empty(),
    {
        Self::new()
    }
}

} // verus!
