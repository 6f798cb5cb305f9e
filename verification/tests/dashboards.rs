use mcp_analytics::api::AnalyticsApi;
use mcp_analytics::domain::ParamValue;
use mcp_analytics::inputs::{AddWidgetInput, CreateDashboardInput};

fn is_hex(s: &str) -> bool {
    s.chars().all(|c| c.is_ascii_digit() || ('a'..='f').contains(&c))
}

#[test]
fn create_dashboard_appends_empty_draft() {
    let mut api = AnalyticsApi::seeded();
    let msg = api.create_dashboard(CreateDashboardInput { name: "Revenue".to_string(), description: None });
    assert_eq!(api.dashboards.len(), 2);
    let d = &api.dashboards[1];
    assert!(d.id.starts_with("dash-"));
    assert_eq!(d.id.len(), 13);
    assert!(is_hex(&d.id[5..]));
    assert_eq!(d.name, "Revenue");
    assert_eq!(d.description, "");
    assert!(d.widgets.is_empty());
    assert!(!d.published);
    assert_eq!(d.created_by, "AI Agent");
    assert_eq!(msg, format!("Created dashboard 'Revenue' (id: {})", d.id));
    assert_eq!(api.audit_log.len(), 1);
    let e = &api.audit_log[0];
    assert_eq!(e.tool, "create_dashboard");
    assert_eq!(e.result, "allowed");
    assert!(matches!(&e.params[1].value, ParamValue::Text(t) if *t == d.id));
    let d2 = api.create_dashboard(CreateDashboardInput { name: "B".to_string(), description: Some("desc".to_string()) });
    assert!(d2.starts_with("Created dashboard 'B' (id: dash-"));
    assert_eq!(api.dashboards[2].description, "desc");
    assert_ne!(api.dashboards[1].id, api.dashboards[2].id);
}

#[test]
fn add_widget_to_existing_dashboard() {
    let mut api = AnalyticsApi::seeded();
    let msg = api.add_widget(AddWidgetInput {
        dashboard_id: "dash-1".to_string(),
        widget_type: "bar_chart".to_string(),
        title: "MRR by Plan".to_string(),
        metric_id: Some("m-mrr".to_string()),
    });
    let d = &api.dashboards[0];
    assert_eq!(d.widgets.len(), 5);
    let w = &d.widgets[4];
    assert!(w.id.starts_with("w-"));
    assert_eq!(w.id.len(), 10);
    assert!(is_hex(&w.id[2..]));
    assert_eq!(w.title, "MRR by Plan");
    assert_eq!(w.widget_type, "bar_chart");
    assert_eq!(w.metric_id.as_deref(), Some("m-mrr"));
    assert!(w.config.is_empty());
    assert_eq!(msg, format!("Added widget 'MRR by Plan' (id: {}) to dashboard dash-1", w.id));
    assert!(api.audit_log.is_empty());
}

#[test]
fn add_widget_to_missing_dashboard() {
    let mut api = AnalyticsApi::seeded();
    let msg = api.add_widget(AddWidgetInput {
        dashboard_id: "dash-x".to_string(),
        widget_type: "number".to_string(),
        title: "T".to_string(),
        metric_id: None,
    });
    assert_eq!(msg, "Dashboard dash-x not found");
    assert_eq!(api.dashboards[0].widgets.len(), 4);
}

#[test]
fn publish_then_read() {
    let mut api = AnalyticsApi::seeded();
    api.create_dashboard(CreateDashboardInput { name: "Exec".to_string(), description: None });
    let id = api.dashboards[1].id.clone();
    assert!(!api.get_dashboard(&id).unwrap().published);
    let msg = api.publish_dashboard(&id);
    assert_eq!(msg, "Dashboard 'Exec' published");
    assert!(api.get_dashboard(&id).unwrap().published);
    assert_eq!(api.audit_log.len(), 2);
    assert_eq!(api.audit_log[1].tool, "publish_dashboard");
    assert_eq!(api.publish_dashboard("dash-none"), "Dashboard dash-none not found");
    assert_eq!(api.audit_log.len(), 2);
}

#[test]
fn summarize_counts_widgets() {
    let api = AnalyticsApi::seeded();
    let s = api.summarize_dashboard("dash-1").unwrap();
    assert_eq!(s.dashboard, "Growth Overview");
    assert_eq!(s.widget_count, 4);
    assert_eq!(s.widgets, vec!["DAU", "DAU Trend (30d)", "Signups Today", "Signup Funnel"]);
    assert_eq!(s.summary, "Dashboard 'Growth Overview' tracks 4 metrics. Key focus: growth and conversion.");
    assert!(api.summarize_dashboard("dash-2").is_none());
}

#[test]
fn recent_audit_newest_first() {
    let mut api = AnalyticsApi::seeded();
    for i in 0..25 {
        api.log_audit(&format!("tool-{i}"), Vec::new(), "allowed");
    }
    let recent = api.recent_audit(20);
    assert_eq!(recent.len(), 20);
    assert_eq!(recent[0].tool, "tool-24");
    assert_eq!(recent[19].tool, "tool-5");
    assert_eq!(api.recent_audit(100).len(), 25);
    assert!(AnalyticsApi::seeded().recent_audit(20).is_empty());
}
