//! Dashboards and the audit log: creating, extending, publishing and
//! summarizing dashboards, and recording governed actions.
use vstd::prelude::*;
use crate::api::AnalyticsApi;
use crate::domain::{AuditEntry, AuditParam, Dashboard, ParamValue, Widget};
use crate::inputs::{AddWidgetInput, CreateDashboardInput};
use crate::stamps::{fresh_uuid_text, now_rfc3339, is_hyphenated_uuid, is_lower_hex, is_utc_rfc3339};
use crate::text::{owned, str_is, decimal, decimal_text};

verus! {

/// `s` is `prefix` followed by eight lowercase hexadecimal digits.
pub open spec fn is_short_id(s: Seq<char>, prefix: Seq<char>) -> bool {
    &&& s.len() == prefix.len() + 8
    &&& s.take(prefix.len() as int) == prefix
    &&& forall|i: int| prefix.len() <= i < s.len() ==> is_lower_hex(#[trigger] s[i])
}

/// `prefix` followed by the first eight characters of a fresh random UUID.
pub fn short_id(prefix: &str) -> (s: String)
    ensures
        is_short_id(s@, prefix@),
{
    let token = fresh_uuid_text();
    let head = token.as_str().substring_char(0, 8);
    let mut s = owned(prefix);
    s.append(head);
    assert(s@.take(prefix@.len() as int) =~= prefix@);
    assert forall|i: int| prefix@.len() <= i < s@.len() implies is_lower_hex(#[trigger] s@[i]) by {
        assert(s@[i] == token@[i - prefix@.len()]);
    }
    s
}

/// The catalog (data sources, datasets, metrics, segments, funnels) and the
/// policy are the same in `a` and `b`.
pub open spec fn catalog_kept(a: AnalyticsApi, b: AnalyticsApi) -> bool {
    &&& a.data_sources@ == b.data_sources@
    &&& a.datasets@ == b.datasets@
    &&& a.metrics@ == b.metrics@
    &&& a.segments@ == b.segments@
    &&& a.funnels@ == b.funnels@
    &&& a.policy == b.policy
}

/// `after`'s audit log is `before`'s with one entry added at the end: an
/// entry of `tool` with these parameters and result, under a fresh UUID and
/// stamped with the current time.
pub open spec fn audit_appended(
    before: Seq<AuditEntry>,
    after: Seq<AuditEntry>,
    tool: Seq<char>,
    params: Seq<AuditParam>,
    result: Seq<char>,
) -> bool {
    &&& after.len() == before.len() + 1
    &&& after.take(before.len() as int) == before
    &&& after.last().tool@ == tool
    &&& after.last().params@ == params
    &&& after.last().result@ == result
    &&& is_hyphenated_uuid(after.last().id@)
    &&& is_utc_rfc3339(after.last().timestamp@)
}

/// `i` is the first position of a dashboard with id `key`.
pub open spec fn is_first_dashboard(s: Seq<Dashboard>, key: Seq<char>, i: int) -> bool {
    &&& 0 <= i < s.len()
    &&& s[i].id@ == key
    &&& forall|j: int| 0 <= j < i ==> #[trigger] s[j].id@ != key
}

/// Some dashboard has id `key`.
pub open spec fn has_dashboard(s: Seq<Dashboard>, key: Seq<char>) -> bool {
    exists|i: int| 0 <= i < s.len() && #[trigger] s[i].id@ == key
}

/// A text parameter of the audit log.
pub open spec fn text_param(key: Seq<char>, value: Seq<char>, p: AuditParam) -> bool {
    &&& p.key@ == key
    &&& p.value matches ParamValue::Text(v) && v@ == value
}

/// `after` is `before` with one more widget, described by `input` and with a
/// fresh id "w-xxxxxxxx", at the end of dashboard `i`; `msg` reports it.
pub open spec fn widget_added(
    before: Seq<Dashboard>,
    after: Seq<Dashboard>,
    i: int,
    input: AddWidgetInput,
    msg: Seq<char>,
) -> bool {
    let d = before[i];
    let e = after[i];
    let w = e.widgets@.last();
    &&& after.len() == before.len()
    &&& forall|j: int| 0 <= j < after.len() && j != i ==> #[trigger] after[j] == before[j]
    &&& e.id == d.id && e.name == d.name && e.description == d.description
    &&& e.published == d.published && e.created_by == d.created_by
    &&& e.widgets@.len() == d.widgets@.len() + 1
    &&& e.widgets@.take(d.widgets@.len() as int) == d.widgets@
    &&& is_short_id(w.id@, "w-"@)
    &&& w.widget_type == input.widget_type
    &&& w.title == input.title
    &&& w.metric_id == input.metric_id
    &&& w.config@.len() == 0
    &&& msg == "Added widget '"@ + input.title@ + "' (id: "@ + w.id@ + ") to dashboard "@ + input.dashboard_id@
}

/// `after` is `before` with dashboard `i` published and nothing else changed.
pub open spec fn published_at(before: Seq<Dashboard>, after: Seq<Dashboard>, i: int) -> bool {
    let d = before[i];
    let e = after[i];
    &&& after.len() == before.len()
    &&& forall|j: int| 0 <= j < after.len() && j != i ==> #[trigger] after[j] == before[j]
    &&& e.published
    &&& e.id == d.id && e.name == d.name && e.description == d.description
    &&& e.widgets == d.widgets && e.created_by == d.created_by
}

/// A dashboard's name, its widget count, its widget titles and a one-line
/// summary.
pub struct DashboardDigest {
    pub dashboard: String,
    pub widget_count: usize,
    pub widgets: Vec<String>,
    pub summary: String,
}

/// `digest` describes dashboard `d`.
pub open spec fn digest_of(d: Dashboard, digest: DashboardDigest) -> bool {
    &&& digest.dashboard@ == d.name@
    &&& digest.widget_count == d.widgets@.len()
    &&& digest.widgets@.len() == d.widgets@.len()
    &&& forall|j: int| 0 <= j < d.widgets@.len() ==> #[trigger] digest.widgets@[j]@ == d.widgets@[j].title@
    &&& digest.summary@ == "Dashboard '"@ + d.name@ + "' tracks "@ + decimal_text(d.widgets@.len() as nat)
        + " metrics. Key focus: growth and conversion."@
}

/// "Dashboard {id} not found".
pub open spec fn dashboard_missing_text(id: Seq<char>) -> Seq<char> {
    "Dashboard "@ + id + " not found"@
}

fn dashboard_missing(id: &str) -> (m: String)
    ensures
        m@ == dashboard_missing_text(id@),
{
    let mut m = owned("Dashboard ");
    m.append(id);
    m.append(" not found");
    m
}

fn text_param_of(key: &str, value: String) -> (p: AuditParam)
    ensures
        text_param(key@, value@, p),
{
    AuditParam { key: owned(key), value: ParamValue::Text(value) }
}

impl AnalyticsApi {
    /// Records a governed action in the audit log, stamped with a fresh UUID
    /// and the current time.
    pub fn log_audit(&mut self, tool: &str, params: Vec<AuditParam>, result: &str)
        ensures
            catalog_kept(*old(self), *final(self)),
            final(self).dashboards@ == old(self).dashboards@,
            audit_appended(old(self).audit_log@, final(self).audit_log@, tool@, params@, result@),
    {
        let entry = AuditEntry {
            id: fresh_uuid_text(),
            timestamp: now_rfc3339(),
            tool: owned(tool),
            params,
            result: owned(result),
        };
        self.audit_log.push(entry);
        assert(self.audit_log@.take(old(self).audit_log@.len() as int) =~= old(self).audit_log@);
    }

    /// The position of the first dashboard with id `id`, if any.
    pub fn dashboard_position(&self, id: &str) -> (r: Option<usize>)
        ensures
            r is None <==> !has_dashboard(self.dashboards@, id@),
            r matches Some(i) ==> is_first_dashboard(self.dashboards@, id@, i as int),
    {
        let mut i: usize = 0;
        while i < self.dashboards.len()
            invariant
                i <= self.dashboards@.len(),
                forall|j: int| 0 <= j < i ==> #[trigger] self.dashboards@[j].id@ != id@,
            decreases self.dashboards@.len() - i,
        {
            if str_is(self.dashboards[i].id.as_str(), id) {
                return Some(i);
            }
            i = i + 1;
        }
        None
    }

    /// The first dashboard with id `id`, if any.
    pub fn get_dashboard(&self, id: &str) -> (r: Option<&Dashboard>)
        ensures
            r is None <==> !has_dashboard(self.dashboards@, id@),
            r matches Some(d) ==> exists|i: int|
                is_first_dashboard(self.dashboards@, id@, i) && *d == self.dashboards@[i],
    {
        match self.dashboard_position(id) {
            Some(i) => Some(&self.dashboards[i]),
            None => None,
        }
    }

    /// Creates an empty, unpublished dashboard with a fresh id "dash-xxxxxxxx",
    /// records the creation in the audit log, and reports it.
    pub fn create_dashboard(&mut self, input: CreateDashboardInput) -> (msg: String)
        ensures
            catalog_kept(*old(self), *final(self)),
            final(self).dashboards@.len() == old(self).dashboards@.len() + 1,
            final(self).dashboards@.take(old(self).dashboards@.len() as int) == old(self).dashboards@,
            ({
                let d = final(self).dashboards@.last();
                &&& is_short_id(d.id@, "dash-"@)
                &&& d.name@ == input.name@
                &&& d.description@ == match input.description {
                    Some(text) => text@,
                    None => Seq::<char>::empty(),
                }
                &&& d.widgets@.len() == 0
                &&& !d.published
                &&& d.created_by@ == "AI Agent"@
                &&& msg@ == "Created dashboard '"@ + input.name@ + "' (id: "@ + d.id@ + ")"@
                &&& audit_appended(old(self).audit_log@, final(self).audit_log@, "create_dashboard"@,
                    final(self).audit_log@.last().params@, "allowed"@)
                &&& final(self).audit_log@.last().params@.len() == 2
                &&& text_param("name"@, input.name@, final(self).audit_log@.last().params@[0])
                &&& text_param("id"@, d.id@, final(self).audit_log@.last().params@[1])
            }),
    {
        let id = short_id("dash-");
        let description = match input.description {
            Some(text) => text,
            None => String::new(),
        };
        let mut msg = owned("Created dashboard '");
        msg.append(input.name.as_str());
        msg.append("' (id: ");
        msg.append(id.as_str());
        msg.append(")");
        let params = vec![
            text_param_of("name", input.name.clone()),
            text_param_of("id", id.clone()),
        ];
        let dash = Dashboard {
            id,
            name: input.name,
            description,
            widgets: Vec::new(),
            published: false,
            created_by: owned("AI Agent"),
        };
        self.dashboards.push(dash);
        assert(self.dashboards@.take(old(self).dashboards@.len() as int) =~= old(self).dashboards@);
        self.log_audit("create_dashboard", params, "allowed");
        msg
    }

    /// Adds a widget with a fresh id "w-xxxxxxxx" and an empty configuration
    /// to the first dashboard with id `input.dashboard_id`, and reports it;
    /// when there is no such dashboard nothing changes and the message says
    /// so.
    pub fn add_widget(&mut self, input: AddWidgetInput) -> (msg: String)
        ensures
            catalog_kept(*old(self), *final(self)),
            final(self).audit_log@ == old(self).audit_log@,
            !has_dashboard(old(self).dashboards@, input.dashboard_id@) ==> {
                &&& final(self).dashboards@ == old(self).dashboards@
                &&& msg@ == dashboard_missing_text(input.dashboard_id@)
            },
            has_dashboard(old(self).dashboards@, input.dashboard_id@) ==> exists|i: int| {
                &&& is_first_dashboard(old(self).dashboards@, input.dashboard_id@, i)
                &&& widget_added(old(self).dashboards@, final(self).dashboards@, i, input, msg@)
            },
    {
        match self.dashboard_position(input.dashboard_id.as_str()) {
            None => dashboard_missing(input.dashboard_id.as_str()),
            Some(i) => {
                let wid = short_id("w-");
                let mut msg = owned("Added widget '");
                msg.append(input.title.as_str());
                msg.append("' (id: ");
                msg.append(wid.as_str());
                msg.append(") to dashboard ");
                msg.append(input.dashboard_id.as_str());
                let widget = Widget {
                    id: wid,
                    widget_type: input.widget_type,
                    title: input.title,
                    metric_id: input.metric_id,
                    config: Vec::new(),
                };
                let ghost before = self.dashboards@;
                let mut d = self.dashboards.remove(i);
                let ghost d0 = d;
                d.widgets.push(widget);
                assert(d.widgets@.take(d0.widgets@.len() as int) =~= d0.widgets@);
                self.dashboards.insert(i, d);
                assert(self.dashboards@ =~= before.update(i as int, d));
                assert(widget_added(before, self.dashboards@, i as int, input, msg@));
                msg
            }
        }
    }

    /// Publishes the first dashboard with id `id`, records it in the audit
    /// log and reports it; when there is no such dashboard nothing changes
    /// and the message says so.
    pub fn publish_dashboard(&mut self, id: &str) -> (msg: String)
        ensures
            catalog_kept(*old(self), *final(self)),
            !has_dashboard(old(self).dashboards@, id@) ==> {
                &&& final(self).dashboards@ == old(self).dashboards@
                &&& final(self).audit_log@ == old(self).audit_log@
                &&& msg@ == dashboard_missing_text(id@)
            },
            has_dashboard(old(self).dashboards@, id@) ==> exists|i: int| {
                &&& is_first_dashboard(old(self).dashboards@, id@, i)
                &&& published_at(old(self).dashboards@, final(self).dashboards@, i)
                &&& msg@ == "Dashboard '"@ + old(self).dashboards@[i].name@ + "' published"@
                &&& audit_appended(old(self).audit_log@, final(self).audit_log@, "publish_dashboard"@,
                    final(self).audit_log@.last().params@, "allowed"@)
                &&& final(self).audit_log@.last().params@.len() == 1
                &&& text_param("id"@, id@, final(self).audit_log@.last().params@[0])
            },
    {
        match self.dashboard_position(id) {
            None => dashboard_missing(id),
            Some(i) => {
                let mut d = self.dashboards.remove(i);
                d.published = true;
                let mut msg = owned("Dashboard '");
                msg.append(d.name.as_str());
                msg.append("' published");
                self.dashboards.insert(i, d);
                assert(self.dashboards@ =~= old(self).dashboards@.update(i as int, d));
                let params = vec![text_param_of("id", owned(id))];
                self.log_audit("publish_dashboard", params, "allowed");
                msg
            }
        }
    }

    /// The name, widget count and widget titles of the first dashboard with
    /// id `id`, with a one-line summary of it.
    pub fn summarize_dashboard(&self, id: &str) -> (r: Option<DashboardDigest>)
        ensures
            r is None <==> !has_dashboard(self.dashboards@, id@),
            r matches Some(digest) ==> exists|i: int| {
                &&& is_first_dashboard(self.dashboards@, id@, i)
                &&& digest_of(self.dashboards@[i], digest)
            },
    {
        match self.dashboard_position(id) {
            None => None,
            Some(i) => {
                let d = &self.dashboards[i];
                let mut titles: Vec<String> = Vec::new();
                let mut k: usize = 0;
                while k < d.widgets.len()
                    invariant
                        k <= d.widgets@.len(),
                        titles@.len() == k,
                        forall|j: int| 0 <= j < k ==> #[trigger] titles@[j]@ == d.widgets@[j].title@,
                    decreases d.widgets@.len() - k,
                {
                    titles.push(d.widgets[k].title.clone());
                    k = k + 1;
                }
                let count = d.widgets.len();
                let mut summary = owned("Dashboard '");
                summary.append(d.name.as_str());
                summary.append("' tracks ");
                summary.append(decimal(count as u64).as_str());
                summary.append(" metrics. Key focus: growth and conversion.");
                Some(DashboardDigest { dashboard: d.name.clone(), widget_count: count, widgets: titles, summary })
            }
        }
    }

    /// The most recent `n` audit entries, newest first.
    pub fn recent_audit(&self, n: usize) -> (r: Vec<&AuditEntry>)
        ensures
            r@.len() == if n < self.audit_log@.len() { n as int } else { self.audit_log@.len() as int },
            forall|k: int| 0 <= k < r@.len() ==> *(#[trigger] r@[k]) == self.audit_log@[self.audit_log@.len() - 1 - k],
    {
        let len = self.audit_log.len();
        let mut r: Vec<&AuditEntry> = Vec::new();
        let mut k: usize = 0;
        while k < n && k < len
            invariant
                len == self.audit_log@.len(),
                k <= len,
                k <= n,
                r@.len() == k,
                forall|j: int| 0 <= j < k ==> *(#[trigger] r@[j]) == self.audit_log@[len - 1 - j],
            decreases len - k,
        {
            r.push(&self.audit_log[len - 1 - k]);
            k = k + 1;
        }
        r
    }
}

} // verus!
