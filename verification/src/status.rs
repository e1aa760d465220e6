use vstd::prelude::*;

use crate::check::{opt_view, CheckResponse, Checker, NamedChecker};
use crate::health::{aggregate_health, Health};
use crate::metrics::{check_metric_updates, HealthGauge};

verus! {

/// A party responsible for the service, with a contact channel.
pub struct Owner {
    pub name: String,
    pub slack: String,
}

/// The mathematical value of an [`Owner`].
pub struct OwnerView {
    pub name: Seq<char>,
    pub slack: Seq<char>,
}

impl View for Owner {
    type V = OwnerView;

    open spec fn view(&self) -> OwnerView {
        OwnerView { name: self.name@, slack: self.slack@ }
    }
}

impl Owner {
    /// Creates an owner entry from a name and a contact channel.
    pub fn new(name: &str, slack: &str) -> (r: Self)
        ensures
            r@.name == name@,
            r@.slack == slack@,
    {
        Owner { name: name.to_owned(), slack: slack.to_owned() }
    }
}

/// A link attached to the service's metadata.
pub struct Link {
    pub description: String,
    pub url: String,
}

/// The mathematical value of a [`Link`].
pub struct LinkView {
    pub description: Seq<char>,
    pub url: Seq<char>,
}

impl View for Link {
    type V = LinkView;

    open spec fn view(&self) -> LinkView {
        LinkView { description: self.description@, url: self.url@ }
    }
}

impl Link {
    /// Creates a link entry from a description and a URL.
    pub fn new(description: &str, url: &str) -> (r: Self)
        ensures
            r@.description == description@,
            r@.url == url@,
    {
        Link { description: description.to_owned(), url: url.to_owned() }
    }
}

/// The views of a sequence of owners.
pub open spec fn owner_views(owners: Seq<Owner>) -> Seq<OwnerView> {
    owners.map_values(|o: Owner| o@)
}

/// The views of a sequence of links.
pub open spec fn link_views(links: Seq<Link>) -> Seq<LinkView> {
    links.map_values(|l: Link| l@)
}

/// The static metadata of a service: independent of health state.
pub struct About {
    pub name: String,
    pub description: String,
    pub revision: Option<String>,
    pub owners: Vec<Owner>,
    pub links: Vec<Link>,
}

/// The mathematical value of an [`About`].
pub struct AboutView {
    pub name: Seq<char>,
    pub description: Seq<char>,
    pub revision: Option<Seq<char>>,
    pub owners: Seq<OwnerView>,
    pub links: Seq<LinkView>,
}

impl View for About {
    type V = AboutView;

    open spec fn view(&self) -> AboutView {
        AboutView {
            name: self.name@,
            description: self.description@,
            revision: opt_view(self.revision),
            owners: owner_views(self.owners@),
            links: link_views(self.links@),
        }
    }
}

/// One probe's result embedded in an aggregate [`HealthResult`]: the
/// projection of a [`CheckResponse`] plus its checker's name.
pub struct HealthResultEntry {
    pub name: String,
    pub health: Health,
    pub output: String,
    pub action: Option<String>,
    pub impact: Option<String>,
}

/// The mathematical value of a [`HealthResultEntry`].
pub struct HealthResultEntryView {
    pub name: Seq<char>,
    pub health: Health,
    pub output: Seq<char>,
    pub action: Option<Seq<char>>,
    pub impact: Option<Seq<char>>,
}

impl View for HealthResultEntry {
    type V = HealthResultEntryView;

    open spec fn view(&self) -> HealthResultEntryView {
        HealthResultEntryView {
            name: self.name@,
            health: self.health,
            output: self.output@,
            action: opt_view(self.action),
            impact: opt_view(self.impact),
        }
    }
}

impl HealthResultEntry {
    /// Creates one aggregate entry from a checker's name and the fields of
    /// its response.
    pub fn new(
        name: String,
        health: Health,
        output: String,
        action: Option<String>,
        impact: Option<String>,
    ) -> (r: Self)
        ensures
            r@.name == name@,
            r@.health == health,
            r@.output == output@,
            r@.action == opt_view(action),
            r@.impact == opt_view(impact),
    {
        HealthResultEntry { name, health, output, action, impact }
    }
}

/// The views of a sequence of aggregate entries.
pub open spec fn entry_views(checks: Seq<HealthResultEntry>) -> Seq<HealthResultEntryView> {
    checks.map_values(|e: HealthResultEntry| e@)
}

/// The statuses of a sequence of aggregate entries, in order.
pub open spec fn entry_healths(checks: Seq<HealthResultEntryView>) -> Seq<Health> {
    checks.map_values(|e: HealthResultEntryView| e.health)
}

/// One aggregation cycle's output: the service's name and description, the
/// aggregate status, and one entry per configured checker in registration
/// order.
pub struct HealthResult {
    pub name: String,
    pub description: String,
    pub health: Health,
    pub checks: Vec<HealthResultEntry>,
}

/// The mathematical value of a [`HealthResult`].
pub struct HealthResultView {
    pub name: Seq<char>,
    pub description: Seq<char>,
    pub health: Health,
    pub checks: Seq<HealthResultEntryView>,
}

impl View for HealthResult {
    type V = HealthResultView;

    open spec fn view(&self) -> HealthResultView {
        HealthResultView {
            name: self.name@,
            description: self.description@,
            health: self.health,
            checks: entry_views(self.checks@),
        }
    }
}

impl HealthResult {
    /// Assembles one aggregation cycle's output from its parts.
    pub fn new(name: String, description: String, health: Health, checks: Vec<HealthResultEntry>) -> (r:
        Self)
        ensures
            r@.name == name@,
            r@.description == description@,
            r@.health == health,
            r@.checks == entry_views(checks@),
    {
        HealthResult { name, description, health, checks }
    }
}

/// The readiness a [`StatusNoChecks`] was built with.
#[derive(Clone, Copy)]
enum Ready {
    Always,
    Never,
}

/// Builds a status object: a [`StatusNoChecks`] with a fixed (or absent)
/// readiness, or a [`StatusWithChecks`] backed by a checker registry.
pub struct StatusBuilder {}

impl StatusBuilder {
    /// A status with no checks that is always ready.
    pub fn always(name: &str, description: &str) -> (r: StatusNoChecks)
        ensures
            r@.name == name@,
            r@.description == description@,
            r@.ready == Some(true),
            r@.revision is None,
            r@.owners.len() == 0,
            r@.links.len() == 0,
    {
        StatusNoChecks {
            name: name.to_owned(),
            description: description.to_owned(),
            ready: Some(Ready::Always),
            revision: None,
            owners: Vec::new(),
            links: Vec::new(),
        }
    }

    /// A status with no checks that is never ready.
    pub fn never(name: &str, description: &str) -> (r: StatusNoChecks)
        ensures
            r@.name == name@,
            r@.description == description@,
            r@.ready == Some(false),
            r@.revision is None,
            r@.owners.len() == 0,
            r@.links.len() == 0,
    {
        StatusNoChecks {
            name: name.to_owned(),
            description: description.to_owned(),
            ready: Some(Ready::Never),
            revision: None,
            owners: Vec::new(),
            links: Vec::new(),
        }
    }

    /// A status with no checks and no concept of readiness.
    pub fn none(name: &str, description: &str) -> (r: StatusNoChecks)
        ensures
            r@.name == name@,
            r@.description == description@,
            r@.ready is None,
            r@.revision is None,
            r@.owners.len() == 0,
            r@.links.len() == 0,
    {
        StatusNoChecks {
            name: name.to_owned(),
            description: description.to_owned(),
            ready: None,
            revision: None,
            owners: Vec::new(),
            links: Vec::new(),
        }
    }

    /// A status that aggregates one or more [`NamedChecker`]s, initially
    /// empty and without a metrics sink.
    pub fn healthchecks<C: Checker>(name: &str, description: &str) -> (r: StatusWithChecks<C>)
        ensures
            r@.name == name@,
            r@.description == description@,
            r@.checker_names.len() == 0,
            r@.revision is None,
            r@.owners.len() == 0,
            r@.links.len() == 0,
    {
        StatusWithChecks {
            name: name.to_owned(),
            description: description.to_owned(),
            checkers: Vec::new(),
            revision: None,
            owners: Vec::new(),
            links: Vec::new(),
            gauge: None,
        }
    }
}

/// A status with no health checks: `about` metadata plus a readiness fixed
/// at construction time (or absent).
pub struct StatusNoChecks {
    name: String,
    description: String,
    ready: Option<Ready>,
    revision: Option<String>,
    owners: Vec<Owner>,
    links: Vec<Link>,
}

/// The mathematical value of a [`StatusNoChecks`].
pub struct StatusNoChecksView {
    pub name: Seq<char>,
    pub description: Seq<char>,
    pub ready: Option<bool>,
    pub revision: Option<Seq<char>>,
    pub owners: Seq<OwnerView>,
    pub links: Seq<LinkView>,
}

impl View for StatusNoChecks {
    type V = StatusNoChecksView;

    closed spec fn view(&self) -> StatusNoChecksView {
        StatusNoChecksView {
            name: self.name@,
            description: self.description@,
            ready: match self.ready {
                Some(Ready::Always) => Some(true),
                Some(Ready::Never) => Some(false),
                None => None,
            },
            revision: opt_view(self.revision),
            owners: owner_views(self.owners@),
            links: link_views(self.links@),
        }
    }
}

impl StatusNoChecks {
    /// Sets the revision; this should be a version control ref.
    pub fn revision(self, revision: &str) -> (r: Self)
        ensures
            r@.name == self@.name,
            r@.description == self@.description,
            r@.ready == self@.ready,
            r@.revision == Some(revision@),
            r@.owners == self@.owners,
            r@.links == self@.links,
    {
        let mut s = self;
        s.revision = Some(revision.to_owned());
        s
    }

    /// Adds an owner.
    pub fn owner(self, name: &str, slack: &str) -> (r: Self)
        ensures
            r@.name == self@.name,
            r@.description == self@.description,
            r@.ready == self@.ready,
            r@.revision == self@.revision,
            r@.owners == self@.owners.push(OwnerView { name: name@, slack: slack@ }),
            r@.links == self@.links,
    {
        let mut s = self;
        s.owners.push(Owner::new(name, slack));
        proof {
            assert(owner_views(s.owners@) =~= owner_views(self.owners@).push(
                OwnerView { name: name@, slack: slack@ },
            ));
        }
        s
    }

    /// Adds a link.
    pub fn link(self, description: &str, url: &str) -> (r: Self)
        ensures
            r@.name == self@.name,
            r@.description == self@.description,
            r@.ready == self@.ready,
            r@.revision == self@.revision,
            r@.owners == self@.owners,
            r@.links == self@.links.push(LinkView { description: description@, url: url@ }),
    {
        let mut s = self;
        s.links.push(Link::new(description, url));
        proof {
            assert(link_views(s.links@) =~= link_views(self.links@).push(
                LinkView { description: description@, url: url@ },
            ));
        }
        s
    }

    /// The service's static metadata.
    pub fn about(&self) -> (r: About)
        ensures
            r@.name == self@.name,
            r@.description == self@.description,
            r@.revision == self@.revision,
            r@.owners == self@.owners,
            r@.links == self@.links,
    {
        About {
            name: self.name.clone(),
            description: self.description.clone(),
            revision: clone_opt_string(&self.revision),
            owners: clone_owners(&self.owners),
            links: clone_links(&self.links),
        }
    }

    /// The readiness this status was built with: `Some(true)` for `always`,
    /// `Some(false)` for `never`, `None` for `none`.
    pub fn ready(&self) -> (r: Option<bool>)
        ensures
            r == self@.ready,
    {
        match self.ready {
            Some(Ready::Always) => Some(true),
            Some(Ready::Never) => Some(false),
            None => None,
        }
    }

    /// This variant has no checks: always `None`.
    pub fn check(&self) -> (r: Option<HealthResult>)
        ensures
            r is None,
    {
        None
    }
}

/// A copy of an optional owned string.
fn clone_opt_string(o: &Option<String>) -> (r: Option<String>)
    ensures
        opt_view(r) == opt_view(*o),
{
    match o {
        Some(s) => Some(s.clone()),
        None => None,
    }
}

/// A copy of a list of owners.
fn clone_owners(v: &Vec<Owner>) -> (r: Vec<Owner>)
    ensures
        owner_views(r@) == owner_views(v@),
{
    let mut r: Vec<Owner> = Vec::new();
    let mut i: usize = 0;
    while i < v.len()
        invariant
            i <= v@.len(),
            r@.len() == i,
            forall|j: int| 0 <= j < i ==> (#[trigger] r@[j])@ == v@[j]@,
        decreases v@.len() - i,
    {
        r.push(Owner::new(v[i].name.as_str(), v[i].slack.as_str()));
        i += 1;
    }
    proof {
        assert(owner_views(r@) =~= owner_views(v@));
    }
    r
}

/// A copy of a list of links.
fn clone_links(v: &Vec<Link>) -> (r: Vec<Link>)
    ensures
        link_views(r@) == link_views(v@),
{
    let mut r: Vec<Link> = Vec::new();
    let mut i: usize = 0;
    while i < v.len()
        invariant
            i <= v@.len(),
            r@.len() == i,
            forall|j: int| 0 <= j < i ==> (#[trigger] r@[j])@ == v@[j]@,
        decreases v@.len() - i,
    {
        r.push(Link::new(v[i].description.as_str(), v[i].url.as_str()));
        i += 1;
    }
    proof {
        assert(link_views(r@) =~= link_views(v@));
    }
    r
}

/// A status backed by a registry of [`NamedChecker`]s: one aggregation
/// cycle runs every checker, mirrors each result into the metrics sink, and
/// reduces the results to one aggregate [`Health`].
pub struct StatusWithChecks<C: Checker> {
    name: String,
    description: String,
    checkers: Vec<NamedChecker<C>>,
    revision: Option<String>,
    owners: Vec<Owner>,
    links: Vec<Link>,
    gauge: Option<HealthGauge>,
}

/// The mathematical value of a [`StatusWithChecks`]: its metadata and the
/// sanitized names of its checkers in registration order. The metrics sink
/// is a side channel and has no mathematical value.
pub struct StatusWithChecksView {
    pub name: Seq<char>,
    pub description: Seq<char>,
    pub checker_names: Seq<Seq<char>>,
    pub revision: Option<Seq<char>>,
    pub owners: Seq<OwnerView>,
    pub links: Seq<LinkView>,
}

impl<C: Checker> View for StatusWithChecks<C> {
    type V = StatusWithChecksView;

    closed spec fn view(&self) -> StatusWithChecksView {
        StatusWithChecksView {
            name: self.name@,
            description: self.description@,
            checker_names: self.checkers@.map_values(|c: NamedChecker<C>| c.spec_name()),
            revision: opt_view(self.revision),
            owners: owner_views(self.owners@),
            links: link_views(self.links@),
        }
    }
}

/// How one aggregation cycle's output relates to the status it came from:
/// same name and description, one entry per checker carrying that checker's
/// name in registration order, and the aggregate status equal to the maximum
/// of the entries' statuses under the severity order (`Unhealthy` when no
/// checker is registered).
pub open spec fn result_matches(v: StatusWithChecksView, hr: HealthResultView) -> bool {
    &&& hr.name == v.name
    &&& hr.description == v.description
    &&& hr.checks.len() == v.checker_names.len()
    &&& forall|i: int|
        0 <= i < hr.checks.len() ==> (#[trigger] hr.checks[i]).name == v.checker_names[i]
    &&& hr.health == aggregate_health(entry_healths(hr.checks))
}

impl<C: Checker> StatusWithChecks<C> {
    /// Registers a [`NamedChecker`]; duplicate names are permitted and will
    /// share a metric series.
    pub fn checker(self, checker: NamedChecker<C>) -> (r: Self)
        ensures
            r@.name == self@.name,
            r@.description == self@.description,
            r@.checker_names == self@.checker_names.push(checker.spec_name()),
            r@.revision == self@.revision,
            r@.owners == self@.owners,
            r@.links == self@.links,
    {
        let mut s = self;
        s.checkers.push(checker);
        proof {
            assert(s.checkers@.map_values(|c: NamedChecker<C>| c.spec_name())
                =~= self.checkers@.map_values(|c: NamedChecker<C>| c.spec_name()).push(
                checker.spec_name(),
            ));
        }
        s
    }

    /// Sets the revision; this should be a version control ref.
    pub fn revision(self, revision: &str) -> (r: Self)
        ensures
            r@.name == self@.name,
            r@.description == self@.description,
            r@.checker_names == self@.checker_names,
            r@.revision == Some(revision@),
            r@.owners == self@.owners,
            r@.links == self@.links,
    {
        let mut s = self;
        s.revision = Some(revision.to_owned());
        s
    }

    /// Adds an owner.
    pub fn owner(self, name: &str, slack: &str) -> (r: Self)
        ensures
            r@.name == self@.name,
            r@.description == self@.description,
            r@.checker_names == self@.checker_names,
            r@.revision == self@.revision,
            r@.owners == self@.owners.push(OwnerView { name: name@, slack: slack@ }),
            r@.links == self@.links,
    {
        let mut s = self;
        s.owners.push(Owner::new(name, slack));
        proof {
            assert(owner_views(s.owners@) =~= owner_views(self.owners@).push(
                OwnerView { name: name@, slack: slack@ },
            ));
        }
        s
    }

    /// Adds a link.
    pub fn link(self, description: &str, url: &str) -> (r: Self)
        ensures
            r@.name == self@.name,
            r@.description == self@.description,
            r@.checker_names == self@.checker_names,
            r@.revision == self@.revision,
            r@.owners == self@.owners,
            r@.links == self@.links.push(LinkView { description: description@, url: url@ }),
    {
        let mut s = self;
        s.links.push(Link::new(description, url));
        proof {
            assert(link_views(s.links@) =~= link_views(self.links@).push(
                LinkView { description: description@, url: url@ },
            ));
        }
        s
    }

    /// Attaches the metrics sink that every aggregation cycle writes to.
    /// Until a sink is attached, cycles run without recording metrics.
    pub fn gauge(self, gauge: HealthGauge) -> (r: Self)
        ensures
            r@ == self@,
    {
        let mut s = self;
        s.gauge = Some(gauge);
        s
    }

    /// The service's static metadata.
    pub fn about(&self) -> (r: About)
        ensures
            r@.name == self@.name,
            r@.description == self@.description,
            r@.revision == self@.revision,
            r@.owners == self@.owners,
            r@.links == self@.links,
    {
        About {
            name: self.name.clone(),
            description: self.description.clone(),
            revision: clone_opt_string(&self.revision),
            owners: clone_owners(&self.owners),
            links: clone_links(&self.links),
        }
    }

    /// Mirrors one checker's response into the metrics sink: one write per
    /// status value, 1 for the response's status and 0 for the other two.
    /// Without an attached sink this records nothing.
    pub fn update_check_metrics(&self, checker: &NamedChecker<C>, response: &CheckResponse) {
        let updates = check_metric_updates(checker.name(), response.health());
        match &self.gauge {
            Some(g) => {
                let mut i: usize = 0;
                while i < updates.len()
                    decreases updates@.len() - i,
                {
                    g.apply(&updates[i]);
                    i += 1;
                }
            },
            None => (),
        }
    }

    /// Runs one aggregation cycle: invokes every registered checker, mirrors
    /// each response into the metrics sink, and reduces the responses to one
    /// aggregate status (the maximum under the severity order, or
    /// `Unhealthy` when no checker is registered).
    pub fn check(&self) -> (r: Option<HealthResult>)
        ensures
            r is Some,
            r matches Some(hr) ==> result_matches(self@, hr@),
    {
        let mut checks: Vec<HealthResultEntry> = Vec::new();
        let mut i: usize = 0;
        while i < self.checkers.len()
            invariant
                i <= self.checkers@.len(),
                checks@.len() == i,
                forall|j: int|
                    0 <= j < i ==> (#[trigger] checks@[j])@.name == self@.checker_names[j],
            decreases self.checkers@.len() - i,
        {
            let nc = &self.checkers[i];
            let response = nc.check();
            self.update_check_metrics(nc, &response);
            let action: Option<String> = match response.action() {
                Some(s) => Some(s.to_owned()),
                None => None,
            };
            let impact: Option<String> = match response.impact() {
                Some(s) => Some(s.to_owned()),
                None => None,
            };
            let entry = HealthResultEntry::new(
                nc.name().to_owned(),
                response.health(),
                response.output().to_owned(),
                action,
                impact,
            );
            checks.push(entry);
            i += 1;
        }
        let health = aggregate_entries(&checks);
        let result = HealthResult::new(
            self.name.clone(),
            self.description.clone(),
            health,
            checks,
        );
        proof {
            assert(entry_healths(entry_views(result.checks@)) =~= result.checks@.map_values(
                |e: HealthResultEntry| e@.health,
            ));
        }
        Some(result)
    }

    /// Whether the service should receive traffic: runs one aggregation
    /// cycle and derives readiness from the aggregate status — `true` for
    /// `Healthy` or `Degraded`, `false` for `Unhealthy`. With no checker
    /// registered the aggregate is `Unhealthy`, so the answer is
    /// `Some(false)`.
    pub fn ready(&self) -> (r: Option<bool>)
        ensures
            r is Some,
            self@.checker_names.len() == 0 ==> r == Some(false),
            exists|hs: Seq<Health>|
                hs.len() == self@.checker_names.len() && r == Some(
                    aggregate_health(hs) != Health::Unhealthy,
                ),
    {
        let checked = self.check();
        match checked {
            Some(hr) => {
                let is_ready = hr.health.is_ready();
                proof {
                    let hs = entry_healths(hr@.checks);
                    assert(hs.len() == self@.checker_names.len());
                    assert(hs.len() == self@.checker_names.len() && Some(is_ready) == Some(
                        aggregate_health(hs) != Health::Unhealthy,
                    ));
                }
                Some(is_ready)
            },
            None => {
                proof {
                    assert(false);
                }
                None
            },
        }
    }
}

/// The aggregate status of a list of entries: the maximum of their statuses
/// under the severity order, or `Unhealthy` when the list is empty.
pub fn aggregate_entries(checks: &Vec<HealthResultEntry>) -> (h: Health)
    ensures
        h == aggregate_health(entry_healths(entry_views(checks@))),
{
    let ghost hs = checks@.map_values(|e: HealthResultEntry| e@.health);
    proof {
        assert(entry_healths(entry_views(checks@)) =~= hs);
    }
    if checks.len() == 0 {
        Health::Unhealthy
    } else {
        let mut h = checks[0].health;
        proof {
            assert(hs.take(1) =~= seq![hs[0]]);
        }
        let mut i: usize = 1;
        while i < checks.len()
            invariant
                1 <= i <= checks@.len(),
                hs == checks@.map_values(|e: HealthResultEntry| e@.health),
                hs.len() == checks@.len(),
                h == aggregate_health(hs.take(i as int)),
            decreases checks@.len() - i,
        {
            h = h.worse(checks[i].health);
            proof {
                assert(hs.take(i + 1).drop_last() =~= hs.take(i as int));
                assert(hs.take(i + 1).last() == hs[i as int]);
            }
            i += 1;
        }
        proof {
            assert(hs.take(checks@.len() as int) =~= hs);
        }
        h
    }
}

} // verus!
