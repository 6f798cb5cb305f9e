use mcp_analytics::api::AnalyticsApi;
use mcp_analytics::analysis::{funnel_report, report_summary};
use mcp_analytics::domain::Funnel;
use mcp_analytics::text::decimal;

#[test]
fn seeded_content() {
    let api = AnalyticsApi::seeded();
    assert_eq!(api.data_sources.len(), 3);
    assert_eq!(api.datasets.len(), 4);
    assert_eq!(api.metrics.len(), 8);
    assert_eq!(api.segments.len(), 5);
    assert_eq!(api.funnels.len(), 2);
    assert_eq!(api.dashboards.len(), 1);
    assert!(api.audit_log.is_empty());
    assert_eq!(api.dashboards[0].widgets.len(), 4);
    assert_eq!(api.dashboards[0].widgets[1].config, vec![("range".to_string(), "30d".to_string()), ("granularity".to_string(), "daily".to_string())]);
    assert_eq!(api.datasets[1].row_count, 2_340_000);
}

#[test]
fn lookups_find_by_id() {
    let api = AnalyticsApi::seeded();
    assert_eq!(api.find_dataset("tbl-purchases").unwrap().name, "purchases");
    assert!(api.find_dataset("tbl-missing").is_none());
    assert_eq!(api.find_metric("m-churn").unwrap().name, "Churn Rate");
    assert!(!api.find_metric("m-conversion").unwrap().certified);
    assert_eq!(api.find_segment("seg-4").unwrap().count, 156);
    assert!(api.find_segment("seg-9").is_none());
    assert_eq!(api.find_funnel("Feature Adoption").unwrap().steps.len(), 4);
}

#[test]
fn metric_name_falls_back_to_id() {
    let api = AnalyticsApi::seeded();
    assert_eq!(api.metric_display_name("m-mrr"), "MRR");
    assert_eq!(api.metric_display_name("m-unknown"), "m-unknown");
}

#[test]
fn breakdown_tables() {
    let api = AnalyticsApi::seeded();
    let plan = api.generate_breakdown("m-dau", "plan");
    let labels: Vec<&str> = plan.iter().map(|s| s.label.as_str()).collect();
    assert_eq!(labels, vec!["Free", "Pro", "Enterprise"]);
    assert_eq!(plan.iter().map(|s| s.percentage).collect::<Vec<_>>(), vec![58, 28, 14]);
    let country = api.generate_breakdown("m-dau", "country");
    assert_eq!(country.iter().map(|s| s.value).collect::<Vec<_>>(), vec![42, 18, 12, 28]);
    let device = api.generate_breakdown("m-dau", "device");
    assert_eq!(device[2].label, "Tablet");
    let other = api.generate_breakdown("m-dau", "source");
    assert_eq!(other.len(), 2);
    assert_eq!(other[0].label, "Segment A");
    for d in ["plan", "country", "device", "x"] {
        let total: u64 = api.generate_breakdown("m", d).iter().map(|s| s.percentage).sum();
        assert_eq!(total, 100);
    }
    let b = api.metric_breakdown("m-arpu", "plan");
    assert_eq!(b.metric_name, "ARPU");
    assert_eq!(b.dimension, "plan");
    assert_eq!(b.segments.len(), 3);
}

#[test]
fn cohorts_settle() {
    let api = AnalyticsApi::seeded();
    let c = api.generate_cohort();
    assert_eq!(c.cohort_size, "weekly");
    assert_eq!(c.cohorts.len(), 4);
    assert_eq!(c.cohorts[0].cohort, "Week -4");
    assert_eq!(c.cohorts[0].retention, vec![100, 62, 48, 41]);
    assert_eq!(c.cohorts[3].size, 430);
    for row in &c.cohorts {
        assert_eq!(row.retention[0], 100);
        assert!(row.retention.windows(2).all(|w| w[1] <= w[0]));
    }
}

#[test]
fn funnel_steps_pair_counts() {
    let api = AnalyticsApi::seeded();
    let f = api.analyze_funnel("Signup to Purchase").unwrap();
    assert_eq!(f.name, "Signup to Purchase");
    let names: Vec<&str> = f.steps.iter().map(|s| s.name.as_str()).collect();
    assert_eq!(names, vec!["Landing Page", "Signup", "Onboarding Complete", "First Purchase"]);
    let pairs: Vec<(u64, Option<u64>)> = f.steps.iter().map(|s| (s.count, s.previous_count)).collect();
    assert_eq!(pairs, vec![(10000, None), (3200, Some(10000)), (2100, Some(3200)), (840, Some(2100))]);
    assert_eq!((f.first_count, f.last_count), (10000, 840));
    let g = api.analyze_funnel("Feature Adoption").unwrap();
    assert_eq!(g.steps[3].name, "Repeated Use");
    assert_eq!(g.steps[3].previous_count, Some(2200));
    assert_eq!((g.first_count, g.last_count), (5000, 1100));
    assert!(api.analyze_funnel("Nope").is_none());
}

#[test]
fn funnel_report_of_one_step() {
    let single = funnel_report(&Funnel { name: "s".to_string(), steps: vec![("only".to_string(), 7)] });
    assert_eq!(single.steps.len(), 1);
    assert_eq!(single.steps[0].previous_count, None);
    assert_eq!((single.first_count, single.last_count), (7, 7));
    let zero = funnel_report(&Funnel { name: "z".to_string(), steps: vec![("a".to_string(), 0), ("b".to_string(), 3)] });
    assert_eq!(zero.steps[1].previous_count, Some(0));
}

#[test]
fn explain_change_names_metric() {
    let api = AnalyticsApi::seeded();
    let e = api.explain_change("m-dau");
    assert_eq!(e.metric, "DAU");
    assert_eq!(e.change, "-26% drop");
    assert_eq!(e.secondary_drivers, vec!["US region down 15%", "Free tier users down 30%"]);
    assert_eq!(e.confidence_hundredths, 82);
    assert_eq!(api.explain_change("m-zzz").metric, "m-zzz");
}

#[test]
fn seeded_names_and_links() {
    let api = AnalyticsApi::seeded();
    assert_eq!(api.dashboards[0].name, "Growth Overview");
    let wids: Vec<&str> = api.dashboards[0].widgets.iter().map(|w| w.id.as_str()).collect();
    assert_eq!(wids, vec!["w-1", "w-2", "w-3", "w-4"]);
    let seg = api.find_segment("seg-4").unwrap();
    assert_eq!((seg.name.as_str(), seg.definition.as_str(), seg.count), ("Enterprise", "plan = 'enterprise'", 156));
    let users = api.find_dataset("tbl-users").unwrap();
    assert_eq!((users.row_count, users.freshness.as_str()), (48500, "2 min ago"));
    assert_eq!(users.columns.iter().filter(|c| c.is_pii).map(|c| c.name.as_str()).collect::<Vec<_>>(), vec!["email"]);
    assert!(api.data_sources.iter().all(|d| d.status == "connected"));
    for d in &api.datasets {
        assert!(api.data_sources.iter().any(|s| s.id == d.source_id));
    }
    for m in &api.metrics {
        assert!(api.find_dataset(&m.dataset_id).is_some());
    }
}

#[test]
fn insight_summary_lists() {
    let api = AnalyticsApi::seeded();
    let s = api.generate_insight_summary();
    assert_eq!(s.highlights.len(), 3);
    assert_eq!(s.anomalies.len(), 2);
    assert_eq!(s.recommendations.len(), 3);
    assert_eq!(s.highlights[1], "MRR reached $88K, up from $82K last month");
}

#[test]
fn decimal_text() {
    assert_eq!(decimal(0), "0");
    assert_eq!(decimal(7), "7");
    assert_eq!(decimal(1000), "1000");
    assert_eq!(decimal(u64::MAX), u64::MAX.to_string());
}

#[test]
fn report_summary_text() {
    assert_eq!(
        report_summary("Weekly KPIs"),
        "Report 'Weekly KPIs' executed successfully. Contains aggregated metrics for the last 30 days."
    );
}
