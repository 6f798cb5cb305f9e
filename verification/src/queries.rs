//! The query tools. Every query is recorded in the audit log: one entry
//! naming the tool, with the query's parameters and the result "allowed".
use vstd::prelude::*;
use crate::analysis::{breakdown_table, percent_total, report_summary, report_summary_text, segments_match};
use crate::api::AnalyticsApi;
use crate::catalog::metric_name_or_id;
use crate::dashboards::{audit_appended, catalog_kept, text_param};
use crate::domain::{AuditParam, BreakdownResult, Event, ParamValue};
use crate::inputs::{CompareInput, EventsInput, QueryMetricInput};
use crate::stamps::{is_utc_rfc3339, now_rfc3339};
use crate::text::owned;
use crate::timeline::{event_reported, raw_events};

verus! {

/// `after` is `before` with one entry added to the audit log, recording a
/// query of `tool` with `params` as allowed; nothing else has changed.
pub open spec fn query_recorded(
    before: AnalyticsApi,
    after: AnalyticsApi,
    tool: Seq<char>,
    params: Seq<AuditParam>,
) -> bool {
    &&& catalog_kept(before, after)
    &&& after.dashboards@ == before.dashboards@
    &&& audit_appended(before.audit_log@, after.audit_log@, tool, params, "allowed"@)
}

/// The tools that query data.
pub open spec fn is_query_tool(tool: Seq<char>) -> bool {
    ||| tool == "query_metric"@
    ||| tool == "breakdown_metric"@
    ||| tool == "compare_metric"@
    ||| tool == "query_events"@
    ||| tool == "query_report"@
}

/// What a metric query asks for, with its defaults filled in.
pub struct MetricQuery {
    pub metric_name: String,
    pub days: u32,
    pub granularity: String,
}

/// A run of a saved report.
pub struct ReportRun {
    pub report: String,
    pub generated_at: String,
    pub summary: String,
    pub metrics_included: Vec<String>,
}

/// The parameters recorded for a query of raw events: the event name when
/// one is given, and the number of events.
pub open spec fn events_params(input: EventsInput, params: Seq<AuditParam>) -> bool {
    let limit = match input.limit { Some(n) => n, None => 10u32 };
    match input.event_name {
        Some(name) => {
            &&& params.len() == 2
            &&& text_param("event_name"@, name@, params[0])
            &&& params[1].key@ == "limit"@ && params[1].value == ParamValue::Number(limit as u64)
        },
        None => {
            &&& params.len() == 1
            &&& params[0].key@ == "limit"@ && params[0].value == ParamValue::Number(limit as u64)
        },
    }
}

fn text_entry(key: &str, value: &String) -> (p: AuditParam)
    ensures
        text_param(key@, value@, p),
{
    AuditParam { key: owned(key), value: ParamValue::Text(value.clone()) }
}

impl AnalyticsApi {
    /// Records a query of a metric's series and says what it asks for: the
    /// metric's display name, the number of days (30 when absent) and the
    /// granularity ("daily" when absent).
    pub fn begin_metric_query(&mut self, input: &QueryMetricInput) -> (q: MetricQuery)
        ensures
            q.metric_name@ == metric_name_or_id(old(self).metrics@, input.metric_id@),
            q.days == match input.days { Some(n) => n, None => 30u32 },
            q.granularity@ == match input.granularity { Some(t) => t@, None => "daily"@ },
            final(self).audit_log@.last().params@.len() == 1,
            text_param("metric_id"@, input.metric_id@, final(self).audit_log@.last().params@[0]),
            query_recorded(*old(self), *final(self), "query_metric"@, final(self).audit_log@.last().params@),
    {
        let q = MetricQuery {
            metric_name: self.metric_display_name(input.metric_id.as_str()),
            days: input.days_or_default(),
            granularity: input.granularity_or_default(),
        };
        self.log_audit("query_metric", vec![text_entry("metric_id", &input.metric_id)], "allowed");
        q
    }

    /// Breaks a metric down by `dimension` and records the query.
    pub fn breakdown_metric(&mut self, metric_id: &str, dimension: &str) -> (r: BreakdownResult)
        ensures
            r.metric_name@ == metric_name_or_id(old(self).metrics@, metric_id@),
            r.dimension@ == dimension@,
            segments_match(r.segments@, breakdown_table(dimension@)),
            percent_total(r.segments@) == 100,
            final(self).audit_log@.last().params@.len() == 2,
            text_param("metric_id"@, metric_id@, final(self).audit_log@.last().params@[0]),
            text_param("dimension"@, dimension@, final(self).audit_log@.last().params@[1]),
            query_recorded(*old(self), *final(self), "breakdown_metric"@, final(self).audit_log@.last().params@),
    {
        let r = self.metric_breakdown(metric_id, dimension);
        let params = vec![text_entry("metric_id", &owned(metric_id)), text_entry("dimension", &owned(dimension))];
        self.log_audit("breakdown_metric", params, "allowed");
        r
    }

    /// Records a comparison of a metric across two periods.
    pub fn record_comparison(&mut self, input: &CompareInput)
        ensures
            final(self).audit_log@.last().params@.len() == 3,
            text_param("metric_id"@, input.metric_id@, final(self).audit_log@.last().params@[0]),
            text_param("period_a"@, input.period_a@, final(self).audit_log@.last().params@[1]),
            text_param("period_b"@, input.period_b@, final(self).audit_log@.last().params@[2]),
            query_recorded(*old(self), *final(self), "compare_metric"@, final(self).audit_log@.last().params@),
    {
        let params = vec![
            text_entry("metric_id", &input.metric_id),
            text_entry("period_a", &input.period_a),
            text_entry("period_b", &input.period_b),
        ];
        self.log_audit("compare_metric", params, "allowed");
    }

    /// Returns the raw events of a query and records the query.
    pub fn query_events(&mut self, input: &EventsInput) -> (r: Vec<Event>)
        ensures
            r@.len() == match input.limit { Some(n) => n, None => 10u32 },
            forall|k: int| 0 <= k < r@.len() ==> event_reported(#[trigger] r@[k], input.event_name, k),
            events_params(*input, final(self).audit_log@.last().params@),
            query_recorded(*old(self), *final(self), "query_events"@, final(self).audit_log@.last().params@),
    {
        let r = raw_events(input);
        let limit: u32 = match input.limit {
            Some(n) => n,
            None => 10,
        };
        let count = AuditParam { key: owned("limit"), value: ParamValue::Number(limit as u64) };
        let params = match &input.event_name {
            Some(name) => vec![text_entry("event_name", name), count],
            None => vec![count],
        };
        self.log_audit("query_events", params, "allowed");
        r
    }

    /// Runs the saved report `report_name` and records the query.
    pub fn query_report(&mut self, report_name: &str) -> (r: ReportRun)
        ensures
            r.report@ == report_name@,
            is_utc_rfc3339(r.generated_at@),
            r.summary@ == report_summary_text(report_name@),
            r.metrics_included@.len() == 4,
            r.metrics_included@[0]@ == "DAU"@ && r.metrics_included@[1]@ == "Signups"@,
            r.metrics_included@[2]@ == "Revenue"@ && r.metrics_included@[3]@ == "Churn Rate"@,
            final(self).audit_log@.last().params@.len() == 1,
            text_param("report_name"@, report_name@, final(self).audit_log@.last().params@[0]),
            query_recorded(*old(self), *final(self), "query_report"@, final(self).audit_log@.last().params@),
    {
        let r = ReportRun {
            report: owned(report_name),
            generated_at: now_rfc3339(),
            summary: report_summary(report_name),
            metrics_included: vec![owned("DAU"), owned("Signups"), owned("Revenue"), owned("Churn Rate")],
        };
        self.log_audit("query_report", vec![text_entry("report_name", &owned(report_name))], "allowed");
        r
    }
}

} // verus!
