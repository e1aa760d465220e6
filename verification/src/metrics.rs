use vstd::prelude::*;

use crate::health::{health_label, Health};
use vstd::string::StringExecFns;

verus! {

#[verifier::external_type_specification]
#[verifier::external_body]
pub struct ExPrometheusError(prometheus::Error);

#[verifier::external_type_specification]
#[verifier::external_body]
pub struct ExRegistry(prometheus::Registry);

/// One gauge of the family, opaque to the verifier.
#[verifier::external_body]
struct GaugeHandle {
    gauge: prometheus::Gauge,
}

/// An error of the metrics sink, raised at gauge creation or registration
/// time only; gauge updates themselves never fail.
#[derive(Debug)]
pub enum MetricsError {
    /// The metrics registry refused the gauge family.
    Prometheus(prometheus::Error),
}

/// One labelled gauge write: set the series labelled `(name, result)` to
/// `value` (always 0 or 1).
pub struct MetricUpdate {
    pub name: String,
    pub result: String,
    pub value: u32,
}

/// The fixed order in which the three statuses are fanned out per check.
pub open spec fn health_statuses() -> Seq<Health> {
    seq![Health::Healthy, Health::Degraded, Health::Unhealthy]
}

/// The one-hot gauge values written for a response with status `h`: for each
/// of the three statuses, in order, 1 when `h` equals it and 0 otherwise.
pub open spec fn update_values(h: Health) -> Seq<u32> {
    Seq::new(
        3,
        |i: int|
            if h == health_statuses()[i] {
                1u32
            } else {
                0u32
            },
    )
}

/// A sequence holds only the values 0 and 1, and exactly one 1.
pub open spec fn one_hot(vs: Seq<u32>) -> bool {
    (forall|k: int| 0 <= k < vs.len() ==> vs[k] == 0 || vs[k] == 1) && (exists|k: int|
        0 <= k < vs.len() && vs[k] == 1) && (forall|k1: int, k2: int|
        0 <= k1 < vs.len() && 0 <= k2 < vs.len() && vs[k1] == 1 && vs[k2] == 1 ==> k1 == k2)
}

/// The gauge values of one aggregation cycle: the three values of each
/// response in turn, in registration order.
pub open spec fn cycle_update_values(hs: Seq<Health>) -> Seq<u32>
    decreases hs.len(),
{
    if hs.len() == 0 {
        Seq::empty()
    } else {
        cycle_update_values(hs.drop_last()) + update_values(hs.last())
    }
}

/// The gauge values written for one response are one-hot: each is 0 or 1,
/// and exactly one of the three is 1.
pub proof fn lemma_update_values_one_hot(h: Health)
    ensures
        one_hot(update_values(h)),
{
    let vs = update_values(h);
    match h {
        Health::Healthy => {
            assert(vs[0] == 1);
        },
        Health::Degraded => {
            assert(vs[1] == 1);
        },
        Health::Unhealthy => {
            assert(vs[2] == 1);
        },
    }
}

/// One aggregation cycle over `hs` produces exactly `3 * hs.len()` gauge
/// values: for each response, in order, a one-hot triple over the three
/// statuses.
pub proof fn lemma_metric_fan_out(hs: Seq<Health>)
    ensures
        cycle_update_values(hs).len() == 3 * hs.len(),
        forall|i: int|
            0 <= i < hs.len() ==> cycle_update_values(hs).subrange(3 * i, 3 * i + 3)
                == update_values(#[trigger] hs[i]),
        forall|i: int| 0 <= i < hs.len() ==> one_hot(update_values(#[trigger] hs[i])),
    decreases hs.len(),
{
    if hs.len() > 0 {
        let prefix = hs.drop_last();
        let whole = cycle_update_values(hs);
        lemma_metric_fan_out(prefix);
        assert forall|i: int|
            0 <= i < hs.len() implies whole.subrange(3 * i, 3 * i + 3) == update_values(
            #[trigger] hs[i],
        ) by {
            if i < hs.len() - 1 {
                assert(whole.subrange(3 * i, 3 * i + 3) =~= cycle_update_values(prefix).subrange(
                    3 * i,
                    3 * i + 3,
                ));
                assert(prefix[i] == hs[i]);
            } else {
                assert(whole.subrange(3 * i, 3 * i + 3) =~= update_values(hs.last()));
            }
        }
        assert forall|i: int| 0 <= i < hs.len() implies one_hot(update_values(#[trigger] hs[i])) by {
            lemma_update_values_one_hot(hs[i]);
        }
    }
}

/// The gauge updates of one check: for each of the three statuses, in order,
/// a write of 1 when the response's status equals it and of 0 otherwise,
/// labelled with the checker's name and the status's text label.
pub fn check_metric_updates(name: &str, health: Health) -> (v: Vec<MetricUpdate>)
    ensures
        v@.len() == 3,
        forall|i: int| 0 <= i < 3 ==> (#[trigger] v@[i]).name@ == name@,
        forall|i: int| 0 <= i < 3 ==> (#[trigger] v@[i]).result@ == health_label(
            health_statuses()[i],
        ),
        forall|i: int| 0 <= i < 3 ==> (#[trigger] v@[i]).value == update_values(health)[i],
{
    let statuses: [Health; 3] = [Health::Healthy, Health::Degraded, Health::Unhealthy];
    let mut v: Vec<MetricUpdate> = Vec::new();
    let mut i: usize = 0;
    while i < 3
        invariant
            i <= 3,
            v@.len() == i,
            statuses@ == health_statuses(),
            forall|j: int| 0 <= j < i ==> (#[trigger] v@[j]).name@ == name@,
            forall|j: int| 0 <= j < i ==> (#[trigger] v@[j]).result@ == health_label(
                health_statuses()[j],
            ),
            forall|j: int| 0 <= j < i ==> (#[trigger] v@[j]).value == update_values(health)[j],
        decreases 3 - i,
    {
        let status = statuses[i];
        let value: u32 = if health == status {
            1
        } else {
            0
        };
        v.push(
            MetricUpdate {
                name: name.to_owned(),
                result: String::from_str(status.as_str()),
                value,
            },
        );
        i += 1;
    }
    v
}

/// The labelled gauge family that mirrors check results into a metrics
/// registry: one series per (checker name, status label) pair.
#[verifier::external_body]
pub struct HealthGauge {
    gauge: prometheus::GaugeVec,
}

impl HealthGauge {
    /// Relies on prometheus's GenericGaugeVec::new (with Opts::new shaping
    /// its argument): creates a gauge family with the given name and help
    /// text and exactly the two given variable labels.
    #[verifier::external_body]
    fn gauge_vec_new(name: &str, help: &str, label_a: &str, label_b: &str) -> Result<
        HealthGauge,
        prometheus::Error,
    > {
        let opts = prometheus::Opts::new(name, help);
        let gauge = prometheus::GaugeVec::new(opts, &[label_a, label_b])?;
        Ok(HealthGauge { gauge })
    }

    /// Relies on prometheus's MetricVec::clone: another handle on the same
    /// family, sharing its series, so several statuses can write to one
    /// registered sink.
    #[verifier::external_body]
    pub fn share(&self) -> HealthGauge {
        HealthGauge { gauge: self.gauge.clone() }
    }

    /// Relies on prometheus's Registry::register (with the collector boxed
    /// and cloned as its argument): the family becomes visible to the
    /// registry's gather.
    #[verifier::external_body]
    fn register_raw(&self, registry: &prometheus::Registry) -> Result<(), prometheus::Error> {
        registry.register(Box::new(self.gauge.clone()))
    }

    /// Relies on prometheus's register (with the collector boxed and cloned
    /// as its argument): the family becomes visible to the process-wide
    /// default registry's gather.
    #[verifier::external_body]
    fn register_default_raw(&self) -> Result<(), prometheus::Error> {
        prometheus::register(Box::new(self.gauge.clone()))
    }

    /// Relies on prometheus's MetricVec::get_metric_with_label_values: the
    /// gauge of the series labelled with the two values, created at 0 on
    /// first use; an error only when the family does not have exactly two
    /// variable labels, which `new` rules out.
    #[verifier::external_body]
    fn gauge_for(&self, name: &str, result: &str) -> Result<GaugeHandle, prometheus::Error> {
        let gauge = self.gauge.get_metric_with_label_values(&[name, result])?;
        Ok(GaugeHandle { gauge })
    }

    /// Creates the gauge family `healthcheck_status`, labelled by
    /// `healthcheck_name` and `healthcheck_result`, not yet registered
    /// anywhere; the caller hands it to a [`StatusWithChecks`] and registers
    /// it with the registry it scrapes.
    ///
    /// [`StatusWithChecks`]: crate::StatusWithChecks
    pub fn new() -> (r: Result<HealthGauge, MetricsError>) {
        match Self::gauge_vec_new(
            "healthcheck_status",
            "Meters the healthcheck status based for each check and for each result",
            "healthcheck_name",
            "healthcheck_result",
        ) {
            Ok(g) => Ok(g),
            Err(e) => Err(MetricsError::Prometheus(e)),
        }
    }

    /// Registers the family with the given registry.
    pub fn register(&self, registry: &prometheus::Registry) -> (r: Result<(), MetricsError>) {
        match self.register_raw(registry) {
            Ok(u) => Ok(u),
            Err(e) => Err(MetricsError::Prometheus(e)),
        }
    }

    /// Registers the family with the process-wide default registry.
    pub fn register_default(&self) -> (r: Result<(), MetricsError>) {
        match self.register_default_raw() {
            Ok(u) => Ok(u),
            Err(e) => Err(MetricsError::Prometheus(e)),
        }
    }

    /// Applies one labelled gauge write to the family.
    pub fn apply(&self, update: &MetricUpdate) {
        match self.gauge_for(update.name.as_str(), update.result.as_str()) {
            Ok(g) => gauge_set(&g, update.value),
            Err(_) => (),
        }
    }
}

/// Relies on prometheus's GenericGauge::set (with the value converted to the
/// gauge's number type): stores the value in the gauge.
#[verifier::external_body]
fn gauge_set(handle: &GaugeHandle, value: u32) {
    handle.gauge.set(value.into());
}

} // verus!
