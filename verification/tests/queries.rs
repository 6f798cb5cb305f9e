use mcp_analytics::api::AnalyticsApi;
use mcp_analytics::domain::ParamValue;
use mcp_analytics::inputs::{CompareInput, EventsInput, QueryMetricInput};

#[test]
fn every_query_is_logged() {
    let mut api = AnalyticsApi::seeded();
    let q = api.begin_metric_query(&QueryMetricInput { metric_id: "m-mrr".to_string(), days: None, granularity: None });
    assert_eq!((q.metric_name.as_str(), q.days, q.granularity.as_str()), ("MRR", 30, "daily"));
    let b = api.breakdown_metric("m-mrr", "plan");
    assert_eq!(b.metric_name, "MRR");
    assert_eq!(b.segments.len(), 3);
    api.record_comparison(&CompareInput { metric_id: "m-dau".to_string(), period_a: "last week".to_string(), period_b: "this week".to_string() });
    let events = api.query_events(&EventsInput { event_name: Some("signup".to_string()), limit: Some(2) });
    assert_eq!(events.len(), 2);
    let run = api.query_report("Weekly KPIs");
    assert_eq!(run.metrics_included, vec!["DAU", "Signups", "Revenue", "Churn Rate"]);
    assert!(run.generated_at.ends_with("+00:00"));
    let tools: Vec<&str> = api.audit_log.iter().map(|e| e.tool.as_str()).collect();
    assert_eq!(tools, vec!["query_metric", "breakdown_metric", "compare_metric", "query_events", "query_report"]);
    assert!(api.audit_log.iter().all(|e| e.result == "allowed" && e.timestamp.ends_with("+00:00")));
    let ev = &api.audit_log[3];
    assert_eq!(ev.params[0].key, "event_name");
    assert!(matches!(ev.params[1].value, ParamValue::Number(2)));
    assert_eq!(api.audit_log[1].params[1].key, "dimension");
    assert_eq!(api.audit_log[2].params.len(), 3);
}

#[test]
fn unfiltered_event_query_records_limit_only() {
    let mut api = AnalyticsApi::seeded();
    api.query_events(&EventsInput { event_name: None, limit: None });
    assert_eq!(api.audit_log[0].params.len(), 1);
    assert!(matches!(api.audit_log[0].params[0].value, ParamValue::Number(10)));
}
