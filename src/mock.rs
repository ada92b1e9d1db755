//! In-memory instruments for tests, one atomic cell per instrument.
//!
//! Clones share their cell. Updates wrap on overflow, as the atomic
//! `fetch_add` / `fetch_sub` operations do.

use crate::metrics::{CounterTrait, GaugeTrait, Metric};
use std::sync::atomic::{AtomicI64, AtomicU64, Ordering};
use std::sync::Arc;
use vstd::prelude::*;

verus! {

/// A counter held in a shared atomic cell.
#[derive(Clone, Default, Debug)]
pub struct MockCounter(Arc<AtomicU64>);

impl MockCounter {
    /// Create a counter starting at 0.
    pub fn new() -> Self {
        MockCounter(Arc::new(AtomicU64::new(0)))
    }

    /// Create a counter starting at `value`.
    pub fn with_value(value: u64) -> Self {
        MockCounter(Arc::new(AtomicU64::new(value)))
    }

    /// Reset the counter to 0.
    pub fn reset(&self) {
        self.0.store(0, Ordering::Relaxed);
    }
}

impl CounterTrait for MockCounter {
    fn inc(&self) {
        self.0.fetch_add(1, Ordering::Relaxed);
    }

    fn inc_by(&self, value: u64) {
        self.0.fetch_add(value, Ordering::Relaxed);
    }

    fn get(&self) -> u64 {
        self.0.load(Ordering::Relaxed)
    }
}

/// A gauge held in a shared atomic cell.
#[derive(Clone, Default, Debug)]
pub struct MockGauge(Arc<AtomicI64>);

impl MockGauge {
    /// Create a gauge starting at 0.
    pub fn new() -> Self {
        MockGauge(Arc::new(AtomicI64::new(0)))
    }

    /// Create a gauge starting at `value`.
    pub fn with_value(value: i64) -> Self {
        MockGauge(Arc::new(AtomicI64::new(value)))
    }

    /// Reset the gauge to 0.
    pub fn reset(&self) {
        self.0.store(0, Ordering::Relaxed);
    }
}

impl GaugeTrait for MockGauge {
    fn set(&self, value: i64) {
        self.0.store(value, Ordering::Relaxed);
    }

    fn inc(&self) {
        self.0.fetch_add(1, Ordering::Relaxed);
    }

    fn inc_by(&self, value: i64) {
        self.0.fetch_add(value, Ordering::Relaxed);
    }

    fn dec(&self) {
        self.0.fetch_sub(1, Ordering::Relaxed);
    }

    fn dec_by(&self, value: i64) {
        self.0.fetch_sub(value, Ordering::Relaxed);
    }

    fn get(&self) -> i64 {
        self.0.load(Ordering::Relaxed)
    }
}

/// A mock counter with identity.
pub type TestCounter = Metric<MockCounter>;

/// A mock gauge with identity.
pub type TestGauge = Metric<MockGauge>;

/// Create a named mock counter starting at 0.
pub fn test_counter(name: &str, description: &str) -> (r: TestCounter)
    ensures
        r.spec_name() == name@,
        r.spec_description() == description@,
{
    Metric::new(name, description, MockCounter::new())
}

/// Create a named mock gauge starting at 0.
pub fn test_gauge(name: &str, description: &str) -> (r: TestGauge)
    ensures
        r.spec_name() == name@,
        r.spec_description() == description@,
{
    Metric::new(name, description, MockGauge::new())
}

} // verus!
