use prometheus::{Gauge, Registry};
use prometheus::proto::{Gauge as GaugeValue, Metric, MetricFamily, MetricType};
use sentineld::http::{cpu_handler, families_reply, families_typed, health_reply, metrics_reply, State};

#[test]
fn encoder_failure_answers_500_with_message() {
    let r = metrics_reply(Err("MetricFamily has no metrics".to_string()));
    assert_eq!(r.status, 500);
    assert_eq!(r.body, "MetricFamily has no metrics");
}

#[test]
fn utf8_text_answers_200() {
    let r = metrics_reply(Ok("temp 21 °C\n".as_bytes().to_vec()));
    assert_eq!(r.status, 200);
    assert_eq!(r.body, "temp 21 °C\n");
}

#[test]
fn non_utf8_answers_500() {
    let r = metrics_reply(Ok(vec![0x66, 0xff, 0x66]));
    assert_eq!(r.status, 500);
    assert_eq!(r.body, "Failed to convert encoded buffer to string");
}

#[test]
fn metrics_endpoint_serves_registered_gauges() {
    let registry = Registry::new();
    let gauge = Gauge::new("sentinel_cpu_usage_percent", "CPU usage in percentage").unwrap();
    gauge.set(12.5);
    registry.register(Box::new(gauge)).unwrap();
    let state = State::new(registry);
    let r = cpu_handler(&state).unwrap();
    assert_eq!(r.status, 200);
    assert!(r.body.contains("# TYPE sentinel_cpu_usage_percent gauge"));
    assert!(r.body.contains("sentinel_cpu_usage_percent 12.5"));
}

#[test]
fn empty_registry_serves_empty_text() {
    let state = State::new(Registry::new());
    let r = cpu_handler(&state).unwrap();
    assert_eq!(r.status, 200);
    assert_eq!(r.body, "");
}

fn family(name: &str, kind: MetricType, with_metric: bool) -> MetricFamily {
    let mut f = MetricFamily::default();
    f.set_name(name.to_string());
    f.set_help("help".to_string());
    f.set_field_type(kind);
    if with_metric {
        let mut g = GaugeValue::default();
        g.set_value(2.0);
        let mut m = Metric::default();
        m.set_gauge(g);
        f.set_metric(vec![m]);
    }
    f
}

#[test]
fn untyped_families_are_not_encoded() {
    let families = vec![family("a", MetricType::GAUGE, true), family("b", MetricType::UNTYPED, true)];
    assert!(!families_typed(&families));
    assert!(families_reply(&families).is_none());
}

#[test]
fn typed_families_are_encoded() {
    let families = vec![family("a", MetricType::GAUGE, true)];
    assert!(families_typed(&families));
    let r = families_reply(&families).unwrap();
    assert_eq!(r.status, 200);
    assert_eq!(r.body, "# HELP a help\n# TYPE a gauge\na 2\n");
}

#[test]
fn family_without_metrics_answers_500() {
    let families = vec![family("empty", MetricType::GAUGE, false)];
    let r = families_reply(&families).unwrap();
    assert_eq!(r.status, 500);
    assert!(r.body.starts_with("Error: MetricFamily has no metrics"));
}

#[test]
fn health_reply_is_healthy() {
    let r = health_reply();
    assert_eq!(r.status, 200);
    assert_eq!(r.body, "Healthy");
}
