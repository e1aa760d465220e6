use ops::{
    CheckResponse, Checker, Health, NamedChecker, StatusBuilder, StatusNoChecks, StatusWithChecks,
};

/// A probe that always reports the same fixed status.
struct FixedChecker {
    health: Health,
}

impl FixedChecker {
    fn new(health: Health) -> FixedChecker {
        FixedChecker { health }
    }
}

impl Checker for FixedChecker {
    fn check(&self) -> CheckResponse {
        match self.health {
            Health::Healthy => CheckResponse::healthy("all good"),
            Health::Degraded => CheckResponse::degraded("slow", "add capacity"),
            Health::Unhealthy => CheckResponse::unhealthy("down", "restart", "no traffic served"),
        }
    }
}

fn status_of(healths: &[Health]) -> StatusWithChecks<FixedChecker> {
    let mut status = StatusBuilder::healthchecks("svc", "a service");
    for (i, h) in healths.iter().enumerate() {
        status = status.checker(NamedChecker::new(&format!("c{}", i), FixedChecker::new(*h)));
    }
    status
}

#[test]
fn aggregate_of_healthy_and_degraded_is_degraded() {
    let result = status_of(&[Health::Healthy, Health::Degraded]).check().unwrap();
    assert_eq!(result.health, Health::Degraded);
}

#[test]
fn aggregate_of_two_healthy_is_healthy() {
    let result = status_of(&[Health::Healthy, Health::Healthy]).check().unwrap();
    assert_eq!(result.health, Health::Healthy);
}

#[test]
fn aggregate_with_unhealthy_is_unhealthy() {
    let result = status_of(&[Health::Degraded, Health::Unhealthy, Health::Healthy])
        .check()
        .unwrap();
    assert_eq!(result.health, Health::Unhealthy);
}

#[test]
fn empty_registry_is_unhealthy_and_not_ready() {
    let status: StatusWithChecks<FixedChecker> = StatusBuilder::healthchecks("svc", "a service");
    let result = status.check().unwrap();
    assert_eq!(result.health, Health::Unhealthy);
    assert!(result.checks.is_empty());
    assert_eq!(status.ready(), Some(false));
}

#[test]
fn readiness_follows_aggregate_health() {
    assert_eq!(status_of(&[Health::Healthy]).ready(), Some(true));
    assert_eq!(status_of(&[Health::Healthy, Health::Degraded]).ready(), Some(true));
    assert_eq!(status_of(&[Health::Healthy, Health::Unhealthy]).ready(), Some(false));
    assert!(Health::Healthy.is_ready());
    assert!(Health::Degraded.is_ready());
    assert!(!Health::Unhealthy.is_ready());
}

#[test]
fn name_sanitization_replaces_unsafe_characters() {
    let checker = NamedChecker::new("my checker!#1", FixedChecker::new(Health::Healthy));
    assert_eq!(checker.name(), "my_checker__1");
}

#[test]
fn name_sanitization_keeps_safe_characters() {
    let checker = NamedChecker::new("svc:db", FixedChecker::new(Health::Healthy));
    assert_eq!(checker.name(), "svc:db");
    assert_eq!(ops::safe_metric_name("AZaz09_:"), "AZaz09_:");
    assert_eq!(ops::safe_metric_name(""), "");
    assert_eq!(ops::safe_metric_name("a.b-c/d"), "a_b_c_d");
}

#[test]
fn always_variant_is_always_ready() {
    let status = StatusBuilder::always("svc", "a service");
    assert_eq!(status.ready(), Some(true));
    assert!(status.check().is_none());
}

#[test]
fn never_variant_is_never_ready() {
    let status = StatusBuilder::never("svc", "a service");
    assert_eq!(status.ready(), Some(false));
    assert!(status.check().is_none());
}

#[test]
fn none_variant_has_no_readiness() {
    let status = StatusBuilder::none("svc", "a service");
    assert_eq!(status.ready(), None);
    assert!(status.check().is_none());
}

#[test]
fn check_reports_entries_in_registration_order() {
    let status = StatusBuilder::healthchecks("the-app", "it serves")
        .checker(NamedChecker::new("db", FixedChecker::new(Health::Healthy)))
        .checker(NamedChecker::new("cache", FixedChecker::new(Health::Degraded)));
    let result = status.check().unwrap();

    assert_eq!(result.name, "the-app");
    assert_eq!(result.description, "it serves");
    assert_eq!(result.health, Health::Degraded);
    assert_eq!(result.checks.len(), 2);

    assert_eq!(result.checks[0].name, "db");
    assert_eq!(result.checks[0].health, Health::Healthy);
    assert_eq!(result.checks[0].output, "all good");
    assert_eq!(result.checks[0].action, None);
    assert_eq!(result.checks[0].impact, None);

    assert_eq!(result.checks[1].name, "cache");
    assert_eq!(result.checks[1].health, Health::Degraded);
    assert_eq!(result.checks[1].output, "slow");
    assert_eq!(result.checks[1].action.as_deref(), Some("add capacity"));
    assert_eq!(result.checks[1].impact, None);

    assert_eq!(status.ready(), Some(true));
}

#[test]
fn duplicate_checker_names_are_permitted() {
    let status = StatusBuilder::healthchecks("svc", "a service")
        .checker(NamedChecker::new("twin", FixedChecker::new(Health::Healthy)))
        .checker(NamedChecker::new("twin", FixedChecker::new(Health::Degraded)));
    let result = status.check().unwrap();
    assert_eq!(result.checks.len(), 2);
    assert_eq!(result.checks[0].name, "twin");
    assert_eq!(result.checks[1].name, "twin");
    assert_eq!(result.health, Health::Degraded);
}

#[test]
fn check_response_constructors_fill_the_fields() {
    let healthy = CheckResponse::healthy("fine");
    assert_eq!(healthy.health(), Health::Healthy);
    assert_eq!(healthy.output(), "fine");
    assert_eq!(healthy.action(), None);
    assert_eq!(healthy.impact(), None);

    let degraded = CheckResponse::degraded("laggy", "scale up");
    assert_eq!(degraded.health(), Health::Degraded);
    assert_eq!(degraded.output(), "laggy");
    assert_eq!(degraded.action(), Some("scale up"));
    assert_eq!(degraded.impact(), None);

    let unhealthy = CheckResponse::unhealthy("broken", "page someone", "requests fail");
    assert_eq!(unhealthy.health(), Health::Unhealthy);
    assert_eq!(unhealthy.output(), "broken");
    assert_eq!(unhealthy.action(), Some("page someone"));
    assert_eq!(unhealthy.impact(), Some("requests fail"));
}

#[test]
fn health_labels_match_the_wire_vocabulary() {
    assert_eq!(Health::Healthy.as_str(), "healthy");
    assert_eq!(Health::Degraded.as_str(), "degraded");
    assert_eq!(Health::Unhealthy.as_str(), "unhealthy");
}

#[test]
fn about_carries_the_configured_metadata() {
    let no_checks: StatusNoChecks = StatusBuilder::always("svc", "a service")
        .revision("abc123")
        .owner("team", "#team-channel")
        .link("runbook", "https://runbook.example");
    let about = no_checks.about();
    assert_eq!(about.name, "svc");
    assert_eq!(about.description, "a service");
    assert_eq!(about.revision.as_deref(), Some("abc123"));
    assert_eq!(about.owners.len(), 1);
    assert_eq!(about.owners[0].name, "team");
    assert_eq!(about.owners[0].slack, "#team-channel");
    assert_eq!(about.links.len(), 1);
    assert_eq!(about.links[0].description, "runbook");
    assert_eq!(about.links[0].url, "https://runbook.example");

    let with_checks = StatusBuilder::healthchecks("svc2", "another")
        .checker(NamedChecker::new("db", FixedChecker::new(Health::Healthy)))
        .revision("def456")
        .owner("crew", "#crew")
        .link("dashboard", "https://dash.example");
    let about = with_checks.about();
    assert_eq!(about.name, "svc2");
    assert_eq!(about.revision.as_deref(), Some("def456"));
    assert_eq!(about.owners[0].name, "crew");
    assert_eq!(about.links[0].url, "https://dash.example");
}
