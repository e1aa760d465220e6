//! A health-reporting core for long-running services.
//!
//! A process registers a set of independent probes (types implementing
//! [`Checker`]), each wrapped in a [`NamedChecker`] that carries a
//! metric-safe name. A [`StatusWithChecks`] built through [`StatusBuilder`]
//! runs every registered probe, mirrors each result into a metrics gauge,
//! and reduces the results to one aggregate [`Health`] by severity.
//! [`StatusNoChecks`] covers services with a fixed (or absent) notion of
//! readiness. Serving the results over HTTP and encoding them as JSON are
//! left to the embedding application.

mod check;
mod health;
mod metrics;
mod status;

pub use crate::check::{safe_metric_name, CheckResponse, Checker, NamedChecker};
pub use crate::health::Health;
pub use crate::metrics::{check_metric_updates, HealthGauge, MetricUpdate, MetricsError};
pub use crate::status::{
    About, HealthResult, HealthResultEntry, Link, Owner, StatusBuilder, StatusNoChecks,
    StatusWithChecks,
};
