//! Backend-agnostic instrument capabilities and the named metric wrapper.
//!
//! Instrument handles share their state between clones and may be updated
//! from several threads at once, so the value an instrument reads back is
//! not a function of the calls made through one handle: the capability
//! methods below promise nothing about it. What the wrapper does promise is
//! its identity, which never changes after construction.

use vstd::prelude::*;

verus! {

/// A monotonically increasing counter.
pub trait CounterTrait: Sized {
    /// Increment the counter by 1.
    fn inc(&self);

    /// Increment the counter by `value`; zero leaves it unchanged.
    fn inc_by(&self, value: u64);

    /// Read the current counter value.
    fn get(&self) -> u64;
}

/// A gauge that can go up or down.
pub trait GaugeTrait: Sized {
    /// Replace the gauge value.
    fn set(&self, value: i64);

    /// Increment the gauge by 1.
    fn inc(&self);

    /// Increment the gauge by `value`.
    fn inc_by(&self, value: i64);

    /// Decrement the gauge by 1.
    fn dec(&self);

    /// Decrement the gauge by `value`.
    fn dec_by(&self, value: i64);

    /// Read the current gauge value.
    fn get(&self) -> i64;
}

/// An instrument together with its immutable identity (name, description).
#[derive(Debug)]
pub struct Metric<T> {
    inner: T,
    name: String,
    description: String,
}

impl<T> Metric<T> {
    /// The metric's name.
    pub closed spec fn spec_name(&self) -> Seq<char> {
        self.name@
    }

    /// The metric's description.
    pub closed spec fn spec_description(&self) -> Seq<char> {
        self.description@
    }

    /// The wrapped instrument.
    pub closed spec fn spec_inner(&self) -> T {
        self.inner
    }

    /// Assemble a metric from its identity and an instrument; never fails.
    pub fn new(name: &str, description: &str, inner: T) -> (r: Self)
        ensures
            r.spec_name() == name@,
            r.spec_description() == description@,
            r.spec_inner() == inner,
    {
        Metric { inner, name: name.to_owned(), description: description.to_owned() }
    }

    /// Get the metric name.
    pub fn name(&self) -> (r: &str)
        ensures
            r@ == self.spec_name(),
    {
        self.name.as_str()
    }

    /// Get the metric description.
    pub fn description(&self) -> (r: &str)
        ensures
            r@ == self.spec_description(),
    {
        self.description.as_str()
    }

    /// Access the underlying instrument.
    pub fn inner(&self) -> (r: &T)
        ensures
            *r == self.spec_inner(),
    {
        &self.inner
    }
}

impl<T: CounterTrait> Metric<T> {
    /// Increment the counter by 1.
    pub fn inc(&self) {
        self.inner.inc();
    }

    /// Increment the counter by `value`.
    pub fn inc_by(&self, value: u64) {
        self.inner.inc_by(value);
    }

    /// Read the current counter value.
    pub fn get_counter(&self) -> u64 {
        self.inner.get()
    }
}

impl<T: GaugeTrait> Metric<T> {
    /// Set the gauge to `value`.
    pub fn set(&self, value: i64) {
        self.inner.set(value);
    }

    /// Increment the gauge by 1.
    pub fn gauge_inc(&self) {
        self.inner.inc();
    }

    /// Increment the gauge by `value`.
    pub fn gauge_inc_by(&self, value: i64) {
        self.inner.inc_by(value);
    }

    /// Decrement the gauge by 1.
    pub fn dec(&self) {
        self.inner.dec();
    }

    /// Decrement the gauge by `value`.
    pub fn dec_by(&self, value: i64) {
        self.inner.dec_by(value);
    }

    /// Read the current gauge value.
    pub fn get_gauge(&self) -> i64 {
        self.inner.get()
    }
}

} // verus!
