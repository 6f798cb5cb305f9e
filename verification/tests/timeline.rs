use mcp_analytics::api::AnalyticsApi;
use mcp_analytics::inputs::{EventsInput, ForecastInput, QueryMetricInput};
use mcp_analytics::timeline::{
    calendar_day_in_range, forecast_base_hundredths, forecast_dates, granularity_step, raw_events,
    sample_offsets, series_base_hundredths, series_dates,
};

// 2024-01-01, counted with 0001-01-01 as day 1.
const NEW_YEAR_2024: i32 = 738886;

#[test]
fn steps_by_granularity() {
    assert_eq!(granularity_step("daily"), 1);
    assert_eq!(granularity_step("weekly"), 7);
    assert_eq!(granularity_step("monthly"), 30);
    assert_eq!(granularity_step("hourly"), 1);
}

#[test]
fn offsets_count_down() {
    assert_eq!(sample_offsets(30, 7), vec![30, 23, 16, 9, 2]);
    assert_eq!(sample_offsets(3, 1), vec![3, 2, 1]);
    assert_eq!(sample_offsets(60, 30), vec![60, 30]);
    assert!(sample_offsets(0, 1).is_empty());
}

#[test]
fn series_dates_count_back_from_today() {
    let r = series_dates(NEW_YEAR_2024, 14, "weekly");
    assert_eq!(r, vec![(14, "2023-12-18".to_string()), (7, "2023-12-25".to_string())]);
    let d = series_dates(NEW_YEAR_2024, 2, "daily");
    assert_eq!(d, vec![(2, "2023-12-30".to_string()), (1, "2023-12-31".to_string())]);
}

#[test]
fn forecast_dates_count_forward() {
    assert_eq!(forecast_dates(NEW_YEAR_2024, 3), vec!["2024-01-02", "2024-01-03", "2024-01-04"]);
    assert!(forecast_dates(NEW_YEAR_2024, 0).is_empty());
}

#[test]
fn calendar_bounds() {
    assert!(calendar_day_in_range(1));
    assert!(calendar_day_in_range(-95746129));
    assert!(!calendar_day_in_range(-95746130));
    assert!(calendar_day_in_range(95745399));
    assert!(!calendar_day_in_range(95745400));
}

#[test]
fn base_levels() {
    assert_eq!(series_base_hundredths("m-dau"), 420000);
    assert_eq!(series_base_hundredths("m-churn"), 320);
    assert_eq!(series_base_hundredths("other"), 100000);
    assert_eq!(forecast_base_hundredths("m-mrr"), 8800000);
    assert_eq!(forecast_base_hundredths("m-wau"), 100000);
}

#[test]
fn input_defaults() {
    let q = QueryMetricInput { metric_id: "m".to_string(), days: None, granularity: None };
    assert_eq!(q.days_or_default(), 30);
    assert_eq!(q.granularity_or_default(), "daily");
    let q2 = QueryMetricInput { metric_id: "m".to_string(), days: Some(7), granularity: Some("weekly".to_string()) };
    assert_eq!(q2.days_or_default(), 7);
    assert_eq!(q2.granularity_or_default(), "weekly");
    assert_eq!(ForecastInput { metric_id: "m".to_string(), horizon_days: None }.horizon_or_default(), 14);
}

#[test]
fn anomalies_of_a_metric() {
    let api = AnalyticsApi::seeded();
    let a = api.anomalies_on("m-dau", NEW_YEAR_2024);
    assert_eq!(a.len(), 2);
    assert_eq!(a[0].date, "2023-12-29");
    assert_eq!(a[0].metric_name, "DAU");
    assert_eq!((a[0].expected, a[0].actual), (4200, 3100));
    assert_eq!(a[0].severity, "high");
    assert_eq!(a[1].date, "2023-12-25");
    assert_eq!(a[1].severity, "low");
    assert_eq!(a[1].actual, 4800);
    let today = api.detect_anomalies_for("m-x");
    assert_eq!(today[0].metric_name, "m-x");
    assert_eq!(today[0].date.len(), 10);
}

#[test]
fn events_cycle_names() {
    let e = raw_events(&EventsInput { event_name: None, limit: None });
    assert_eq!(e.len(), 10);
    let names: Vec<&str> = e.iter().take(5).map(|x| x.event_name.as_str()).collect();
    assert_eq!(names, vec!["page_view", "signup", "purchase", "feature_used", "page_view"]);
    assert_eq!(e[0].user_id, "user-1000");
    assert_eq!(e[9].user_id, "user-1009");
    assert_eq!(e[3].properties, vec![("page".to_string(), "/home".to_string()), ("source".to_string(), "organic".to_string())]);
    let f = raw_events(&EventsInput { event_name: Some("signup".to_string()), limit: Some(3) });
    assert_eq!(f.len(), 3);
    assert!(f.iter().all(|x| x.event_name == "signup"));
    assert!(raw_events(&EventsInput { event_name: None, limit: Some(0) }).is_empty());
}

#[test]
fn far_dates_carry_a_sign() {
    assert_eq!(forecast_dates(95745398, 1), vec!["+262142-12-31"]);
    assert_eq!(series_dates(-95746128, 1, "daily"), vec![(1, "-262143-01-01".to_string())]);
    assert_eq!(forecast_dates(0, 1), vec!["0001-01-01"]);
}

#[test]
fn event_timestamps_are_utc() {
    let e = raw_events(&EventsInput { event_name: None, limit: Some(1) });
    assert!(e[0].timestamp.ends_with("+00:00"));
    assert_eq!(&e[0].timestamp[10..11], "T");
}
