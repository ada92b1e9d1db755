use observability_kit::metrics::{CounterTrait, Metric};
use std::sync::atomic::{AtomicU64, Ordering};
use std::sync::Arc;

#[derive(Clone, Default)]
struct TestCounter(Arc<AtomicU64>);

impl CounterTrait for TestCounter {
    fn inc(&self) {
        self.0.fetch_add(1, Ordering::Relaxed);
    }

    fn inc_by(&self, value: u64) {
        self.0.fetch_add(value, Ordering::Relaxed);
    }

    fn get(&self) -> u64 {
        self.0.load(Ordering::Relaxed)
    }
}

#[test]
fn test_metric_wrapper_with_counter() {
    let counter = Metric::new(
        "test_requests_total",
        "Total number of test requests",
        TestCounter::default(),
    );

    assert_eq!(counter.name(), "test_requests_total");
    assert_eq!(counter.description(), "Total number of test requests");
    assert_eq!(counter.get_counter(), 0);

    counter.inc();
    assert_eq!(counter.get_counter(), 1);

    counter.inc_by(10);
    assert_eq!(counter.get_counter(), 11);
}

#[test]
fn wrapper_inner_shares_instrument() {
    let metric = Metric::new("n", "d", TestCounter::default());
    metric.inner().inc_by(4);
    assert_eq!(metric.get_counter(), 4);
}
