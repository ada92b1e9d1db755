use observability_kit::prometheus::{
    counter, gauge, validate_histogram_buckets, validate_prometheus_metric_name, PrometheusError,
    PrometheusRegistry, PrometheusStorage,
};
use observability_kit::registry::default_latency_bounds;
use observability_kit::renderer::RenderedMetrics;
use prometheus_client::metrics::histogram::Histogram;

const LATENCY: [f64; 11] = [
    0.005, 0.01, 0.025, 0.05, 0.1, 0.25, 0.5, 1.0, 2.5, 5.0, 10.0,
];

fn bits(values: &[f64]) -> Vec<u64> {
    values.iter().map(|v| v.to_bits()).collect()
}

fn engine_histogram(values: &[f64]) -> Histogram {
    Histogram::new(values.iter().copied())
}

fn histogram_with_buckets(
    registry: &mut PrometheusRegistry,
    name: &str,
    help: &str,
    buckets: Vec<f64>,
) -> Result<observability_kit::metrics::Metric<Histogram>, PrometheusError> {
    let handle = engine_histogram(&buckets);
    registry.histogram_with_buckets(name, help, bits(&buckets), handle)
}

fn rendered_text(registry: &PrometheusRegistry) -> String {
    let output = registry.render().unwrap();
    output.as_str().unwrap().to_string()
}

#[test]
fn prometheus_test_prometheus_counter() {
    let counter = counter("http_requests_total", "Total HTTP requests");

    assert_eq!(counter.get_counter(), 0);
    counter.inc();
    assert_eq!(counter.get_counter(), 1);
    counter.inc_by(5);
    assert_eq!(counter.get_counter(), 6);
}

#[test]
fn prometheus_test_prometheus_gauge() {
    let gauge = gauge("active_connections", "Number of active connections");

    assert_eq!(gauge.get_gauge(), 0);
    gauge.set(10);
    assert_eq!(gauge.get_gauge(), 10);
    gauge.gauge_inc();
    assert_eq!(gauge.get_gauge(), 11);
    gauge.dec();
    assert_eq!(gauge.get_gauge(), 10);
    gauge.dec_by(5);
    assert_eq!(gauge.get_gauge(), 5);
}

#[test]
fn prometheus_backend_test_prometheus_counter() {
    let counter = counter("http_requests_total", "Total HTTP requests");

    assert_eq!(counter.get_counter(), 0);
    counter.inc();
    assert_eq!(counter.get_counter(), 1);
    counter.inc_by(5);
    assert_eq!(counter.get_counter(), 6);
}

#[test]
fn prometheus_backend_test_prometheus_gauge() {
    let gauge = gauge("active_connections", "Number of active connections");

    assert_eq!(gauge.get_gauge(), 0);
    gauge.set(10);
    assert_eq!(gauge.get_gauge(), 10);
    gauge.gauge_inc();
    assert_eq!(gauge.get_gauge(), 11);
    gauge.dec();
    assert_eq!(gauge.get_gauge(), 10);
    gauge.dec_by(5);
    assert_eq!(gauge.get_gauge(), 5);
}

#[test]
fn test_counter_basic_operations() {
    let requests = counter("http_requests_total", "Total HTTP requests");

    assert_eq!(requests.get_counter(), 0);

    requests.inc();
    assert_eq!(requests.get_counter(), 1);

    requests.inc_by(10);
    assert_eq!(requests.get_counter(), 11);
}

#[test]
fn test_gauge_basic_operations() {
    let connections = gauge("active_connections", "Active connections");

    assert_eq!(connections.get_gauge(), 0);

    connections.set(100);
    assert_eq!(connections.get_gauge(), 100);

    connections.gauge_inc();
    assert_eq!(connections.get_gauge(), 101);

    connections.dec();
    assert_eq!(connections.get_gauge(), 100);

    connections.dec_by(50);
    assert_eq!(connections.get_gauge(), 50);
}

#[test]
fn test_metric_metadata() {
    let requests = counter("my_counter", "My counter description");

    assert_eq!(requests.name(), "my_counter");
    assert_eq!(requests.description(), "My counter description");
}

#[test]
fn test_prometheus_registry_creates_and_registers_metrics() {
    let mut registry = PrometheusRegistry::new();

    let requests = registry
        .counter("http_requests_total", "Total HTTP requests")
        .unwrap();
    let connections = registry
        .gauge("active_connections", "Active connections")
        .unwrap();
    let latency = registry
        .histogram(
            "request_duration_seconds",
            "Request latency",
            engine_histogram(&LATENCY),
        )
        .unwrap();

    requests.inc();
    requests.inc_by(5);
    connections.set(42);
    latency.inner().observe(0.042);
    latency.inner().observe(0.156);

    assert_eq!(requests.get_counter(), 6);
    assert_eq!(connections.get_gauge(), 42);
}

#[test]
fn test_prometheus_registry_renders_metrics() {
    let mut registry = PrometheusRegistry::new();

    let requests = registry
        .counter("test_requests_total", "Test counter")
        .unwrap();
    requests.inc();
    requests.inc_by(10);

    let gauge = registry.gauge("test_gauge", "Test gauge").unwrap();
    gauge.set(42);

    let output = registry.render().unwrap();
    let text = output.as_str().unwrap();

    assert!(text.contains("test_requests_total"));
    assert!(text.contains("11"));
    assert!(text.contains("test_gauge"));
    assert!(text.contains("42"));

    assert!(output.content_type.contains("text/plain"));
}

#[test]
fn validation_empty_metric_name_rejected() {
    let mut registry = PrometheusRegistry::new();
    let result = registry.counter("", "help");
    assert!(
        matches!(result, Err(PrometheusError::InvalidNamingConvention(_))),
        "expected InvalidNamingConvention, got {:?}",
        result
    );
}

#[test]
fn validation_metric_name_starting_with_digit_rejected() {
    let mut registry = PrometheusRegistry::new();
    let result = registry.counter("123bad", "help");
    assert!(
        matches!(result, Err(PrometheusError::InvalidNamingConvention(_))),
        "expected InvalidNamingConvention, got {:?}",
        result
    );
}

#[test]
fn validation_metric_name_with_hyphen_rejected() {
    let mut registry = PrometheusRegistry::new();
    let result = registry.counter("my-metric", "help");
    assert!(
        matches!(result, Err(PrometheusError::InvalidNamingConvention(_))),
        "expected InvalidNamingConvention, got {:?}",
        result
    );
}

#[test]
fn validation_metric_name_with_colon_rejected() {
    let mut registry = PrometheusRegistry::new();
    let result = registry.counter("name_with:colon", "help");
    assert!(
        matches!(result, Err(PrometheusError::InvalidNamingConvention(_))),
        "expected InvalidNamingConvention (colons not allowed), got {:?}",
        result
    );
}

#[test]
fn validation_valid_metric_names_accepted() {
    let mut registry = PrometheusRegistry::new();
    assert!(registry.counter("http_requests_total", "help").is_ok());
    assert!(registry.gauge("_private_metric", "help").is_ok());
    assert!(registry.counter("request_count_42", "help").is_ok());
}

#[test]
fn validation_single_char_valid_names_accepted() {
    let mut registry = PrometheusRegistry::new();
    assert!(registry.counter("a", "help").is_ok());
    assert!(registry.gauge("_", "help").is_ok());
    assert!(registry.counter("Z", "help").is_ok());
}

#[test]
fn validation_metric_name_with_dot_rejected() {
    let mut registry = PrometheusRegistry::new();
    let result = registry.counter("my.metric", "help");
    assert!(
        matches!(result, Err(PrometheusError::InvalidNamingConvention(_))),
        "expected InvalidNamingConvention (dots not allowed), got {:?}",
        result
    );
}

#[test]
fn validation_gauge_invalid_name_rejected() {
    let mut registry = PrometheusRegistry::new();
    let result = registry.gauge("bad-name", "help");
    assert!(
        matches!(result, Err(PrometheusError::InvalidNamingConvention(_))),
        "expected InvalidNamingConvention for gauge, got {:?}",
        result
    );
}

#[test]
fn validation_histogram_invalid_name_rejected() {
    let mut registry = PrometheusRegistry::new();
    let result = histogram_with_buckets(&mut registry, "bad.name", "help", vec![1.0]);
    assert!(
        matches!(result, Err(PrometheusError::InvalidNamingConvention(_))),
        "expected InvalidNamingConvention for histogram, got {:?}",
        result
    );
}

#[test]
fn validation_histogram_buckets_empty_accepted() {
    let mut registry = PrometheusRegistry::new();
    let result = histogram_with_buckets(&mut registry, "h", "help", vec![]);
    assert!(
        result.is_ok(),
        "empty buckets should be accepted: {:?}",
        result
    );
}

#[test]
fn validation_histogram_buckets_negative_rejected() {
    let mut registry = PrometheusRegistry::new();
    let result = histogram_with_buckets(&mut registry, "h", "help", vec![-1.0, 1.0]);
    assert!(
        matches!(result, Err(PrometheusError::InvalidHistogramBuckets(_))),
        "expected InvalidHistogramBuckets, got {:?}",
        result
    );
}

#[test]
fn validation_histogram_buckets_nan_rejected() {
    let mut registry = PrometheusRegistry::new();
    let result = histogram_with_buckets(&mut registry, "h", "help", vec![f64::NAN, 1.0]);
    assert!(
        matches!(result, Err(PrometheusError::InvalidHistogramBuckets(_))),
        "expected InvalidHistogramBuckets, got {:?}",
        result
    );
}

#[test]
fn validation_histogram_buckets_infinity_rejected() {
    let mut registry = PrometheusRegistry::new();
    let result = histogram_with_buckets(&mut registry, "h", "help", vec![1.0, f64::INFINITY]);
    assert!(
        matches!(result, Err(PrometheusError::InvalidHistogramBuckets(_))),
        "expected InvalidHistogramBuckets, got {:?}",
        result
    );
}

#[test]
fn validation_histogram_buckets_unsorted_rejected() {
    let mut registry = PrometheusRegistry::new();
    let result = histogram_with_buckets(&mut registry, "h", "help", vec![1.0, 0.5, 2.0]);
    assert!(
        matches!(result, Err(PrometheusError::InvalidHistogramBuckets(_))),
        "expected InvalidHistogramBuckets, got {:?}",
        result
    );
}

#[test]
fn validation_histogram_buckets_duplicate_rejected() {
    let mut registry = PrometheusRegistry::new();
    let result = histogram_with_buckets(&mut registry, "h", "help", vec![0.5, 0.5, 1.0]);
    assert!(
        matches!(result, Err(PrometheusError::InvalidHistogramBuckets(_))),
        "expected InvalidHistogramBuckets (strictly increasing), got {:?}",
        result
    );
}

#[test]
fn validation_histogram_buckets_valid_accepted() {
    let mut registry = PrometheusRegistry::new();
    let result = histogram_with_buckets(&mut registry, "latency", "help", vec![0.1, 0.5, 1.0]);
    assert!(
        result.is_ok(),
        "valid buckets should be accepted: {:?}",
        result
    );
}

#[test]
fn name_grammar_cases() {
    assert!(validate_prometheus_metric_name("http_requests_total").is_ok());
    assert!(validate_prometheus_metric_name("_").is_ok());
    assert!(validate_prometheus_metric_name("a1_B2").is_ok());
    for bad in ["", "123bad", "my-metric", "my.metric", "a:b", "é", "a b", "x\u{e9}"] {
        assert!(
            matches!(
                validate_prometheus_metric_name(bad),
                Err(PrometheusError::InvalidNamingConvention(_))
            ),
            "{:?} should be rejected",
            bad
        );
    }
}

#[test]
fn bucket_validation_cases() {
    assert!(validate_histogram_buckets(&[]).is_ok());
    assert!(validate_histogram_buckets(&bits(&LATENCY)).is_ok());
    assert!(validate_histogram_buckets(&bits(&[0.0, f64::MAX])).is_ok());
    assert!(validate_histogram_buckets(&bits(&[-0.0, 1.0])).is_ok());
    for bad in [
        vec![1.0, 0.5, 2.0],
        vec![-1.0, 1.0],
        vec![f64::NAN, 1.0],
        vec![-f64::NAN],
        vec![f64::INFINITY],
        vec![f64::NEG_INFINITY],
        vec![0.0, -0.0],
        vec![2.0, 2.0],
        vec![-f64::MIN_POSITIVE],
    ] {
        assert!(
            matches!(
                validate_histogram_buckets(&bits(&bad)),
                Err(PrometheusError::InvalidHistogramBuckets(_))
            ),
            "{:?} should be rejected",
            bad
        );
    }
}

#[test]
fn default_latency_bounds_are_the_documented_set() {
    assert_eq!(default_latency_bounds(), bits(&LATENCY));
}

#[test]
fn duplicate_name_is_rejected_without_change() {
    let mut registry = PrometheusRegistry::new();
    let first = registry.counter("jobs_total", "Jobs").unwrap();
    first.inc_by(3);
    let before = rendered_text(&registry);
    let again = registry.gauge("jobs_total", "Other");
    assert!(matches!(again, Err(PrometheusError::RegistrationError(_))));
    let again = histogram_with_buckets(&mut registry, "jobs_total", "Other", vec![1.0]);
    assert!(matches!(again, Err(PrometheusError::RegistrationError(_))));
    assert_eq!(rendered_text(&registry), before);
    assert!(registry.inner().is_registered("jobs_total"));
    assert!(!registry.inner().is_registered("other"));
}

#[test]
fn invalid_registration_leaves_storage_unchanged() {
    let mut registry = PrometheusRegistry::new();
    let before = rendered_text(&registry);
    assert!(registry.counter("bad-name", "h").is_err());
    assert!(histogram_with_buckets(&mut registry, "h", "h", vec![2.0, 1.0]).is_err());
    assert_eq!(rendered_text(&registry), before);
    assert!(!registry.inner().is_registered("h"));
    assert!(histogram_with_buckets(&mut registry, "h", "h", vec![1.0, 2.0]).is_ok());
    assert!(registry.inner().is_registered("h"));
}

#[test]
fn render_twice_is_identical() {
    let mut registry = PrometheusRegistry::new();
    let c = registry.counter("requests_total", "Requests").unwrap();
    let g = registry.gauge("depth", "Depth").unwrap();
    let h = histogram_with_buckets(&mut registry, "latency", "Latency", vec![0.1, 1.0]).unwrap();
    c.inc_by(7);
    g.set(-3);
    h.inner().observe(0.5);
    let first = registry.render().unwrap();
    let second = registry.render().unwrap();
    assert_eq!(first.as_bytes(), second.as_bytes());
    assert_eq!(first.content_type, second.content_type);
}

#[test]
fn render_reports_content_type_and_values() {
    let mut storage = PrometheusStorage::new();
    let c = storage.add_counter("served", "Served").unwrap();
    c.inc_by(12);
    let output = observability_kit::renderer::MetricsRenderer::render(&storage).unwrap();
    assert_eq!(output.content_type, "text/plain; version=0.0.4; charset=utf-8");
    let text = output.as_str().unwrap();
    assert!(text.contains("served_total 12"));
    assert!(text.contains("# EOF"));
}

#[test]
fn rendered_metrics_accessors() {
    let output = RenderedMetrics::new("text/plain", b"abc".to_vec());
    assert_eq!(output.as_str().unwrap(), "abc");
    assert_eq!(output.as_bytes(), b"abc");
    assert_eq!(output.content_type, "text/plain");
    assert_eq!(output.into_bytes(), b"abc".to_vec());
    let invalid = RenderedMetrics::new("application/octet-stream", vec![0xff, 0xfe]);
    assert!(invalid.as_str().is_err());
}

#[test]
fn histogram_accepts_non_finite_observations() {
    let mut registry = PrometheusRegistry::new();
    let h = histogram_with_buckets(&mut registry, "odd", "Odd values", vec![1.0]).unwrap();
    h.inner().observe(f64::NAN);
    h.inner().observe(f64::INFINITY);
    h.inner().observe(f64::NEG_INFINITY);
    h.inner().observe(0.5);
    let text = rendered_text(&registry);
    assert!(text.contains("odd_count 4"));
    assert!(text.contains("odd_bucket{le=\"1.0\"} 2"));
}

#[test]
fn default_histogram_uses_latency_bounds() {
    let mut registry = PrometheusRegistry::new();
    let h = registry
        .histogram("lat", "Latency", engine_histogram(&LATENCY))
        .unwrap();
    h.inner().observe(0.3);
    let text = rendered_text(&registry);
    assert!(text.contains("lat_bucket{le=\"0.25\"} 0"));
    assert!(text.contains("lat_bucket{le=\"0.5\"} 1"));
    assert!(text.contains("lat_bucket{le=\"10.0\"} 1"));
    assert!(text.contains("lat_count 1"));
}
