//! The records that the analytics catalog, dashboards and audit log hold.
//! Quantities that are whole numbers are held as integers.
use vstd::prelude::*;

verus! {

/// A connected data source ("warehouse", "product_db", "event_stream").
#[derive(Debug)]
pub struct DataSource {
    pub id: String,
    pub name: String,
    pub source_type: String,
    /// "connected", "stale" or "error".
    pub status: String,
}

/// A dataset (table) of a data source.
#[derive(Debug)]
pub struct Dataset {
    pub id: String,
    pub source_id: String,
    pub name: String,
    pub row_count: u64,
    pub columns: Vec<Column>,
    /// How recent the data is, as text ("2 min ago").
    pub freshness: String,
}

/// A column of a dataset, with whether it holds personal data.
#[derive(Debug)]
pub struct Column {
    pub name: String,
    pub data_type: String,
    pub is_pii: bool,
}

/// A defined metric.
#[derive(Debug)]
pub struct MetricDefinition {
    pub id: String,
    pub name: String,
    pub formula: String,
    /// "count", "sum", "avg" or "count_distinct".
    pub aggregation: String,
    pub dataset_id: String,
    pub dimensions: Vec<String>,
    pub owner: String,
    pub certified: bool,
}

/// One segment of a metric's breakdown by a dimension; `percentage` is its
/// share in whole percent.
#[derive(Debug)]
pub struct SegmentData {
    pub label: String,
    pub value: u64,
    pub percentage: u64,
}

/// A metric broken down by a dimension.
#[derive(Debug)]
pub struct BreakdownResult {
    pub metric_name: String,
    pub dimension: String,
    pub segments: Vec<SegmentData>,
}

/// One step of a funnel analysis: its name, how many users reached it, and
/// how many reached the step before it (none for the first step). The
/// conversion rate is the ratio of the two counts.
#[derive(Debug)]
pub struct FunnelStep {
    pub name: String,
    pub count: u64,
    pub previous_count: Option<u64>,
}

/// The analysis of a funnel: its steps, and the counts of its first and last
/// steps, whose ratio is the overall conversion.
#[derive(Debug)]
pub struct FunnelResult {
    pub name: String,
    pub steps: Vec<FunnelStep>,
    pub first_count: u64,
    pub last_count: u64,
}

/// A cohort of users and their retention per period, in whole percent.
#[derive(Debug)]
pub struct CohortRow {
    pub cohort: String,
    pub size: u64,
    pub retention: Vec<u64>,
}

/// Retention of cohorts ("weekly" or "monthly").
#[derive(Debug)]
pub struct CohortResult {
    pub cohort_size: String,
    pub cohorts: Vec<CohortRow>,
}

/// A dashboard and its widgets.
#[derive(Debug)]
pub struct Dashboard {
    pub id: String,
    pub name: String,
    pub description: String,
    pub widgets: Vec<Widget>,
    pub published: bool,
    pub created_by: String,
}

/// A widget of a dashboard ("line_chart", "bar_chart", "number", "table",
/// "funnel"); its configuration is a list of text settings.
#[derive(Debug)]
pub struct Widget {
    pub id: String,
    pub widget_type: String,
    pub title: String,
    pub metric_id: Option<String>,
    pub config: Vec<(String, String)>,
}

/// A raw event; its properties are text settings.
#[derive(Debug)]
pub struct Event {
    pub timestamp: String,
    pub event_name: String,
    pub user_id: String,
    pub properties: Vec<(String, String)>,
}

/// An anomaly found in a metric: the value expected and the value seen.
#[derive(Debug)]
pub struct Anomaly {
    pub date: String,
    pub metric_name: String,
    pub expected: u64,
    pub actual: u64,
    /// "low", "medium" or "high".
    pub severity: String,
}

/// A parameter value recorded in the audit log.
#[derive(Debug)]
pub enum ParamValue {
    Text(String),
    Flag(bool),
    Number(u64),
}

/// A named parameter recorded in the audit log.
#[derive(Debug)]
pub struct AuditParam {
    pub key: String,
    pub value: ParamValue,
}

/// One entry of the audit log.
#[derive(Debug)]
pub struct AuditEntry {
    pub id: String,
    pub timestamp: String,
    pub tool: String,
    pub params: Vec<AuditParam>,
    /// "allowed", "denied", "pending" or "rate_limited".
    pub result: String,
}

/// A user segment.
#[derive(Debug)]
pub struct Segment {
    pub id: String,
    pub name: String,
    /// The segment's filter, in words.
    pub definition: String,
    pub count: u64,
}

/// Highlights, anomalies and recommendations drawn from the data.
#[derive(Debug)]
pub struct InsightSummary {
    pub highlights: Vec<String>,
    pub anomalies: Vec<String>,
    pub recommendations: Vec<String>,
}

/// A funnel: its name and the number of users that reached each step.
#[derive(Debug)]
pub struct Funnel {
    pub name: String,
    pub steps: Vec<(String, u64)>,
}

} // verus!
