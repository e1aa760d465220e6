use vstd::prelude::*;

use crate::health::Health;
use vstd::string::StrSliceExecFns;
use vstd::string::StringExecFns;

verus! {

/// Characters that may stand in a metric name or label value unchanged.
pub open spec fn safe_char(c: char) -> bool {
    ('a' <= c && c <= 'z') || ('A' <= c && c <= 'Z') || ('0' <= c && c <= '9') || c == '_' || c
        == ':'
}

/// The metric-safe form of a name: every character outside
/// `[A-Za-z0-9_:]` is replaced by `'_'`.
pub open spec fn sanitized(s: Seq<char>) -> Seq<char> {
    Seq::new(
        s.len(),
        |i: int|
            if safe_char(s[i]) {
                s[i]
            } else {
                '_'
            },
    )
}

/// Replaces every character of `metric_name` outside `[A-Za-z0-9_:]` with
/// `'_'`, making the result safe as a metric name or label value.
pub fn safe_metric_name(metric_name: &str) -> (r: String)
    ensures
        r@ == sanitized(metric_name@),
{
    let len = metric_name.unicode_len();
    let mut out = String::new();
    let mut i: usize = 0;
    while i < len
        invariant
            i <= len,
            len == metric_name@.len(),
            out@ == sanitized(metric_name@).take(i as int),
        decreases len - i,
    {
        let c = metric_name.get_char(i);
        if ('a' <= c && c <= 'z') || ('A' <= c && c <= 'Z') || ('0' <= c && c <= '9') || c == '_'
            || c == ':' {
            let piece = metric_name.substring_char(i, i + 1);
            out.append(piece);
            proof {
                assert(piece@ =~= seq![c]);
            }
        } else {
            out.append("_");
            proof {
                reveal_strlit("_");
                assert("_"@ =~= seq!['_']);
            }
        }
        proof {
            assert(out@ =~= sanitized(metric_name@).take(i + 1));
        }
        i += 1;
    }
    proof {
        assert(sanitized(metric_name@).take(len as int) =~= sanitized(metric_name@));
    }
    out
}

/// A unit of health logic: each invocation produces one [`CheckResponse`].
pub trait Checker {
    /// Runs the check and returns its result.
    fn check(&self) -> CheckResponse;
}

/// The immutable result of one probe invocation: a status, a free-text
/// output, and, for non-healthy results, a remediation action and an
/// impact statement.
#[derive(Debug)]
pub struct CheckResponse {
    health: Health,
    output: String,
    action: Option<String>,
    impact: Option<String>,
}

/// The mathematical value of a [`CheckResponse`].
pub struct CheckResponseView {
    pub health: Health,
    pub output: Seq<char>,
    pub action: Option<Seq<char>>,
    pub impact: Option<Seq<char>>,
}

/// The view of an optional owned string.
pub open spec fn opt_view(o: Option<String>) -> Option<Seq<char>> {
    match o {
        Option::Some(s) => Option::Some(s@),
        Option::None => Option::None,
    }
}

impl View for CheckResponse {
    type V = CheckResponseView;

    closed spec fn view(&self) -> CheckResponseView {
        CheckResponseView {
            health: self.health,
            output: self.output@,
            action: opt_view(self.action),
            impact: opt_view(self.impact),
        }
    }
}

impl CheckResponse {
    /// Creates a healthy response carrying only an output text.
    pub fn healthy(output: &str) -> (r: Self)
        ensures
            r@.health == Health::Healthy,
            r@.output == output@,
            r@.action is None,
            r@.impact is None,
    {
        CheckResponse {
            health: Health::Healthy,
            output: output.to_owned(),
            action: None,
            impact: None,
        }
    }

    /// Creates a degraded response with the action that resolves the issue.
    pub fn degraded(output: &str, action: &str) -> (r: Self)
        ensures
            r@.health == Health::Degraded,
            r@.output == output@,
            r@.action == Some(action@),
            r@.impact is None,
    {
        CheckResponse {
            health: Health::Degraded,
            output: output.to_owned(),
            action: Some(action.to_owned()),
            impact: None,
        }
    }

    /// Creates an unhealthy response with the action that resolves the issue
    /// and the impact of not fixing it.
    pub fn unhealthy(output: &str, action: &str, impact: &str) -> (r: Self)
        ensures
            r@.health == Health::Unhealthy,
            r@.output == output@,
            r@.action == Some(action@),
            r@.impact == Some(impact@),
    {
        CheckResponse {
            health: Health::Unhealthy,
            output: output.to_owned(),
            action: Some(action.to_owned()),
            impact: Some(impact.to_owned()),
        }
    }

    /// Health status of the check.
    pub fn health(&self) -> (h: Health)
        ensures
            h == self@.health,
    {
        self.health
    }

    /// Text representation of the current status.
    pub fn output(&self) -> (r: &str)
        ensures
            r@ == self@.output,
    {
        self.output.as_str()
    }

    /// Action to resolve the issue if non-healthy.
    pub fn action(&self) -> (r: Option<&str>)
        ensures
            r is Some <==> self@.action is Some,
            r is Some ==> r->0@ == self@.action->0,
    {
        match &self.action {
            Some(s) => Some(s.as_str()),
            None => None,
        }
    }

    /// Impact of not fixing the issue.
    pub fn impact(&self) -> (r: Option<&str>)
        ensures
            r is Some <==> self@.impact is Some,
            r is Some ==> r->0@ == self@.impact->0,
    {
        match &self.impact {
            Some(s) => Some(s.as_str()),
            None => None,
        }
    }
}

/// Binds a metric-safe name to an owned [`Checker`]; the name doubles as a
/// metric label value.
pub struct NamedChecker<C: Checker> {
    name: String,
    checker: C,
}

impl<C: Checker> NamedChecker<C> {
    /// The sanitized name of the checker.
    pub closed spec fn spec_name(&self) -> Seq<char> {
        self.name@
    }

    /// The owned checker instance.
    pub closed spec fn spec_checker(&self) -> C {
        self.checker
    }

    /// Creates a checker registration: sanitizes `name` with
    /// [`safe_metric_name`] and takes ownership of `checker`.
    pub fn new(name: &str, checker: C) -> (r: Self)
        ensures
            r.spec_name() == sanitized(name@),
            r.spec_checker() == checker,
    {
        NamedChecker { name: safe_metric_name(name), checker }
    }

    /// The sanitized name of the checker.
    pub fn name(&self) -> (r: &str)
        ensures
            r@ == self.spec_name(),
    {
        self.name.as_str()
    }

    /// A read-only borrow of the owned checker.
    pub fn checker(&self) -> (r: &C)
        ensures
            *r == self.spec_checker(),
    {
        &self.checker
    }
}

impl<C: Checker> Checker for NamedChecker<C> {
    fn check(&self) -> CheckResponse {
        self.checker.check()
    }
}

} // verus!
