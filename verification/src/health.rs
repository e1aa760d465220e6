use vstd::prelude::*;

verus! {

/// The three health statuses a probe can report, ordered by severity:
/// `Healthy` < `Degraded` < `Unhealthy`.
#[derive(Clone, Copy, Debug, PartialEq, Eq, Structural)]
pub enum Health {
    Healthy,
    Degraded,
    Unhealthy,
}

/// The position of a status in the fixed severity order.
pub open spec fn severity(h: Health) -> int {
    match h {
        Health::Healthy => 0,
        Health::Degraded => 1,
        Health::Unhealthy => 2,
    }
}

/// The worse of two statuses under the severity order.
pub open spec fn health_max(a: Health, b: Health) -> Health {
    if severity(b) > severity(a) {
        b
    } else {
        a
    }
}

/// The aggregate status of a sequence of results: the maximum under the
/// severity order, or `Unhealthy` when the sequence is empty (no checks
/// configured counts as a misconfigured, unhealthy state).
pub open spec fn aggregate_health(hs: Seq<Health>) -> Health
    decreases hs.len(),
{
    if hs.len() == 0 {
        Health::Unhealthy
    } else if hs.len() == 1 {
        hs[0]
    } else {
        health_max(aggregate_health(hs.drop_last()), hs.last())
    }
}

/// The text label of a status, as used for metric labels and wire formats.
pub open spec fn health_label(h: Health) -> Seq<char> {
    match h {
        Health::Healthy => "healthy"@,
        Health::Degraded => "degraded"@,
        Health::Unhealthy => "unhealthy"@,
    }
}

impl Health {
    /// The severity rank of this status.
    pub fn severity_level(&self) -> (n: u8)
        ensures
            n == severity(*self),
    {
        match self {
            Health::Healthy => 0,
            Health::Degraded => 1,
            Health::Unhealthy => 2,
        }
    }

    /// The text label of this status: `"healthy"`, `"degraded"` or
    /// `"unhealthy"`.
    pub fn as_str(&self) -> (s: &'static str)
        ensures
            s@ == health_label(*self),
    {
        match self {
            Health::Healthy => "healthy",
            Health::Degraded => "degraded",
            Health::Unhealthy => "unhealthy",
        }
    }

    /// The worse of `self` and `other` under the severity order.
    pub fn worse(self, other: Health) -> (r: Health)
        ensures
            r == health_max(self, other),
    {
        if other.severity_level() > self.severity_level() {
            other
        } else {
            self
        }
    }

    /// Whether a service with this aggregate status should receive traffic:
    /// `true` for `Healthy` and `Degraded` (usable but possibly impaired),
    /// `false` only for `Unhealthy`.
    pub fn is_ready(&self) -> (b: bool)
        ensures
            b == (*self != Health::Unhealthy),
    {
        match self {
            Health::Healthy => true,
            Health::Degraded => true,
            Health::Unhealthy => false,
        }
    }
}

/// The aggregate status is the maximum of a non-empty sequence: it is one of
/// the elements, and no element is worse.
pub proof fn lemma_aggregate_is_max(hs: Seq<Health>)
    requires
        hs.len() > 0,
    ensures
        exists|i: int| 0 <= i < hs.len() && hs[i] == aggregate_health(hs),
        forall|i: int| 0 <= i < hs.len() ==> severity(hs[i]) <= severity(aggregate_health(hs)),
    decreases hs.len(),
{
    if hs.len() == 1 {
        assert(hs[0] == aggregate_health(hs));
    } else {
        let prefix = hs.drop_last();
        lemma_aggregate_is_max(prefix);
        let prev = aggregate_health(prefix);
        let agg = aggregate_health(hs);
        if severity(hs.last()) > severity(prev) {
            assert(hs[hs.len() - 1] == agg);
        } else {
            let i = choose|i: int| 0 <= i < prefix.len() && prefix[i] == prev;
            assert(hs[i] == agg);
        }
        assert forall|i: int| 0 <= i < hs.len() implies severity(hs[i]) <= severity(agg) by {
            if i < hs.len() - 1 {
                assert(hs[i] == prefix[i]);
            }
        }
    }
}

/// Readiness is derived from the aggregate status: not being `Unhealthy` is
/// the same as being `Healthy` or `Degraded`.
pub proof fn lemma_ready_iff_healthy_or_degraded(hs: Seq<Health>)
    ensures
        (aggregate_health(hs) != Health::Unhealthy) <==> (aggregate_health(hs) == Health::Healthy
            || aggregate_health(hs) == Health::Degraded),
{
}

} // verus!
