//! The arguments that each analytics tool takes.
use vstd::prelude::*;
use crate::policy::PolicyContext;

verus! {

/// No arguments.
pub struct EmptyInput {}

/// The identifier of a record.
pub struct IdInput {
    pub id: String,
}

/// A metric over the last `days` days (30 when absent), at a granularity
/// ("daily" when absent).
pub struct QueryMetricInput {
    pub metric_id: String,
    pub days: Option<u32>,
    pub granularity: Option<String>,
}

/// A metric and the dimension to break it down by.
pub struct BreakdownInput {
    pub metric_id: String,
    pub dimension: String,
}

/// A metric and the two periods to compare.
pub struct CompareInput {
    pub metric_id: String,
    pub period_a: String,
    pub period_b: String,
}

/// An optional event name filter and a count of events (10 when absent).
pub struct EventsInput {
    pub event_name: Option<String>,
    pub limit: Option<u32>,
}

/// The name of a funnel.
pub struct FunnelInput {
    pub funnel_name: String,
}

/// A metric and how many days to forecast (14 when absent).
pub struct ForecastInput {
    pub metric_id: String,
    pub horizon_days: Option<u32>,
}

/// The name and optional description of a new dashboard.
pub struct CreateDashboardInput {
    pub name: String,
    pub description: Option<String>,
}

/// A widget to add to a dashboard.
pub struct AddWidgetInput {
    pub dashboard_id: String,
    pub widget_type: String,
    pub title: String,
    pub metric_id: Option<String>,
}

/// An action to check against the policy, with its context (an empty
/// context when absent).
pub struct PolicyCheckInput {
    pub action: String,
    pub context: Option<PolicyContext>,
}

/// A dataset to export, how many rows (1000 when absent) and whether the
/// export holds personal data (read from the dataset's columns when absent).
pub struct ExportRiskInput {
    pub dataset_id: String,
    pub row_count: Option<u64>,
    pub includes_pii: Option<bool>,
}

/// A restricted resource and the reason access is wanted.
pub struct DataAccessInput {
    pub resource: String,
    pub reason: String,
}

/// The identifier of a segment.
pub struct SegmentQueryInput {
    pub segment_id: String,
}

/// The name of a saved report.
pub struct ReportInput {
    pub report_name: String,
}

/// A metric whose change is to be explained, and an optional date.
pub struct ExplainInput {
    pub metric_id: String,
    pub date: Option<String>,
}

} // verus!
