use std::collections::HashMap;

use ops::{
    CheckResponse, Checker, Health, HealthGauge, MetricsError, NamedChecker, StatusBuilder,
};

/// A probe that always reports the same fixed status.
struct FixedChecker {
    health: Health,
}

impl Checker for FixedChecker {
    fn check(&self) -> CheckResponse {
        match self.health {
            Health::Healthy => CheckResponse::healthy("all good"),
            Health::Degraded => CheckResponse::degraded("slow", "add capacity"),
            Health::Unhealthy => CheckResponse::unhealthy("down", "restart", "no traffic served"),
        }
    }
}

#[test]
fn check_metric_updates_are_one_hot() {
    let updates = ops::check_metric_updates("db", Health::Degraded);
    assert_eq!(updates.len(), 3);
    assert!(updates.iter().all(|u| u.name == "db"));
    assert_eq!(updates[0].result, "healthy");
    assert_eq!(updates[0].value, 0);
    assert_eq!(updates[1].result, "degraded");
    assert_eq!(updates[1].value, 1);
    assert_eq!(updates[2].result, "unhealthy");
    assert_eq!(updates[2].value, 0);
}

#[test]
fn one_cycle_writes_three_gauges_per_checker() {
    let gauge = HealthGauge::new().unwrap();
    let registry = prometheus::Registry::new();
    gauge.register(&registry).unwrap();

    let status = StatusBuilder::healthchecks("svc", "a service")
        .checker(NamedChecker::new("db", FixedChecker { health: Health::Healthy }))
        .checker(NamedChecker::new("cache", FixedChecker { health: Health::Degraded }))
        .gauge(gauge);
    status.check().unwrap();

    let families = registry.gather();
    assert_eq!(families.len(), 1);
    let family = &families[0];
    assert_eq!(family.name(), "healthcheck_status");

    let metrics = family.get_metric();
    assert_eq!(metrics.len(), 6);

    let mut seen: HashMap<(String, String), f64> = HashMap::new();
    for metric in metrics {
        let mut name = String::new();
        let mut result = String::new();
        for label in metric.get_label() {
            if label.name() == "healthcheck_name" {
                name = label.value().to_string();
            }
            if label.name() == "healthcheck_result" {
                result = label.value().to_string();
            }
        }
        seen.insert((name, result), metric.get_gauge().value());
    }

    let expect = |name: &str, result: &str, value: f64| {
        assert_eq!(
            seen.get(&(name.to_string(), result.to_string())),
            Some(&value),
            "series ({name}, {result})"
        );
    };
    expect("db", "healthy", 1.0);
    expect("db", "degraded", 0.0);
    expect("db", "unhealthy", 0.0);
    expect("cache", "healthy", 0.0);
    expect("cache", "degraded", 1.0);
    expect("cache", "unhealthy", 0.0);
}

#[test]
fn later_cycles_overwrite_earlier_values() {
    let gauge = HealthGauge::new().unwrap();
    let registry = prometheus::Registry::new();
    gauge.register(&registry).unwrap();

    let healthy = StatusBuilder::healthchecks("svc", "a service")
        .checker(NamedChecker::new("db", FixedChecker { health: Health::Healthy }))
        .gauge(gauge.share());
    healthy.check().unwrap();

    let unhealthy = StatusBuilder::healthchecks("svc", "a service")
        .checker(NamedChecker::new("db", FixedChecker { health: Health::Unhealthy }))
        .gauge(gauge);
    unhealthy.check().unwrap();

    let families = registry.gather();
    let family = &families[0];
    let mut seen: HashMap<String, f64> = HashMap::new();
    for metric in family.get_metric() {
        let mut result = String::new();
        for label in metric.get_label() {
            if label.name() == "healthcheck_result" {
                result = label.value().to_string();
            }
        }
        seen.insert(result, metric.get_gauge().value());
    }
    assert_eq!(seen.get("healthy"), Some(&0.0));
    assert_eq!(seen.get("unhealthy"), Some(&1.0));
}

#[test]
fn registering_the_family_twice_is_an_error() {
    let gauge = HealthGauge::new().unwrap();
    let registry = prometheus::Registry::new();
    assert!(gauge.register(&registry).is_ok());
    let again = HealthGauge::new().unwrap();
    match again.register(&registry) {
        Err(MetricsError::Prometheus(_)) => (),
        Ok(()) => panic!("a second registration of the same family must fail"),
    }
}

#[test]
fn register_default_feeds_the_process_wide_registry() {
    let gauge = HealthGauge::new().unwrap();
    gauge.register_default().unwrap();
    let status = StatusBuilder::healthchecks("svc", "a service")
        .checker(NamedChecker::new("db", FixedChecker { health: Health::Healthy }))
        .gauge(gauge);
    status.check().unwrap();
    let found = prometheus::gather()
        .iter()
        .any(|family| family.name() == "healthcheck_status");
    assert!(found);
}

#[test]
fn cycles_without_a_sink_record_nothing() {
    let registry = prometheus::Registry::new();
    let status = StatusBuilder::healthchecks("svc", "a service")
        .checker(NamedChecker::new("db", FixedChecker { health: Health::Healthy }));
    status.check().unwrap();
    assert!(registry.gather().is_empty());
}
