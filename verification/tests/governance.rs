use mcp_analytics::api::AnalyticsApi;
use mcp_analytics::domain::ParamValue;
use mcp_analytics::governance::RiskLevel;
use mcp_analytics::inputs::{DataAccessInput, ExportRiskInput, PolicyCheckInput};
use mcp_analytics::policy::{Policy, PolicyContext};

fn ctx(approved: Option<bool>) -> PolicyContext {
    PolicyContext { approved }
}

#[test]
fn default_policy_values() {
    let p = Policy::default();
    assert!(!p.raw_sql_allowed);
    assert_eq!(p.pii_column_access, "denied");
    assert_eq!(p.row_limit, 10000);
    assert_eq!(p.time_range_limit_days, 365);
    assert_eq!(p.customer_level_export, "requires_approval");
    assert_eq!(p.employee_level_export, "denied");
    assert_eq!(p.financial_metric_access, "approved_only");
    assert!(!p.external_sharing_allowed);
    assert!(p.metric_certification_required);
}

#[test]
fn default_policy_refuses_governed_actions() {
    let api = AnalyticsApi::seeded();
    let cases = [
        ("raw_sql", "Raw SQL queries are not allowed by policy"),
        ("pii_access", "PII column access is denied by policy"),
        ("customer_export", "Customer-level export requires approval"),
        ("employee_export", "Employee-level export is denied"),
        ("financial_access", "Financial metric access requires prior approval"),
        ("external_share", "External sharing is not allowed"),
    ];
    for (action, reason) in cases {
        let (allowed, why) = api.check_policy(action, &ctx(None));
        assert!(!allowed, "{action}");
        assert_eq!(why, reason);
    }
}

#[test]
fn financial_access_follows_approval() {
    let api = AnalyticsApi::seeded();
    assert_eq!(api.check_policy("financial_access", &ctx(Some(true))), (true, "Allowed".to_string()));
    assert_eq!(
        api.check_policy("financial_access", &ctx(Some(false))),
        (false, "Financial metric access requires prior approval".to_string())
    );
}

#[test]
fn ungoverned_action_is_allowed() {
    let api = AnalyticsApi::seeded();
    assert_eq!(api.check_policy("view_dashboard", &ctx(None)), (true, "Allowed".to_string()));
    assert_eq!(api.check_policy("", &ctx(Some(false))), (true, "Allowed".to_string()));
}

#[test]
fn relaxed_policy_allows_and_denies_by_setting() {
    let mut p = Policy::default();
    p.raw_sql_allowed = true;
    p.pii_column_access = "allowed".to_string();
    p.customer_level_export = "denied".to_string();
    p.financial_metric_access = "denied".to_string();
    p.employee_level_export = "allowed".to_string();
    p.external_sharing_allowed = true;
    assert_eq!(p.check("raw_sql", &ctx(None)), (true, "Allowed".to_string()));
    assert_eq!(p.check("pii_access", &ctx(None)), (true, "Allowed".to_string()));
    assert_eq!(p.check("customer_export", &ctx(None)), (false, "Customer-level export is denied".to_string()));
    assert_eq!(p.check("financial_access", &ctx(Some(true))), (false, "Financial metric access is denied".to_string()));
    assert_eq!(p.check("employee_export", &ctx(None)), (true, "Allowed".to_string()));
    assert_eq!(p.check("external_share", &ctx(None)), (true, "Allowed".to_string()));
}

#[test]
fn validation_is_audited() {
    let mut api = AnalyticsApi::seeded();
    let r = api.validate_analytics_policy(PolicyCheckInput { action: "raw_sql".to_string(), context: None });
    assert_eq!(r, (false, "Raw SQL queries are not allowed by policy".to_string()));
    let r2 = api.validate_analytics_policy(PolicyCheckInput {
        action: "financial_access".to_string(),
        context: Some(ctx(Some(true))),
    });
    assert_eq!(r2, (true, "Allowed".to_string()));
    assert_eq!(api.audit_log.len(), 2);
    let first = &api.audit_log[0];
    assert_eq!(first.tool, "validate_analytics_policy");
    assert_eq!(first.result, "denied");
    assert_eq!(first.params[0].key, "action");
    assert!(matches!(&first.params[0].value, ParamValue::Text(t) if t == "raw_sql"));
    assert!(matches!(first.params[1].value, ParamValue::Flag(false)));
    assert_eq!(api.audit_log[1].result, "allowed");
    assert_eq!(first.id.len(), 36);
}

#[test]
fn export_of_personal_data_is_high_risk() {
    let api = AnalyticsApi::seeded();
    let r = api.check_export_risk(&ExportRiskInput { dataset_id: "tbl-users".to_string(), row_count: None, includes_pii: None });
    assert_eq!(r.risk_level, RiskLevel::High);
    assert_eq!(r.risk_level.label(), "high");
    assert!(r.contains_pii);
    assert_eq!(r.row_count, 1000);
    assert_eq!(r.row_limit, 10000);
    assert!(!r.export_allowed);
    assert_eq!(r.recommendation, "Strip PII columns before export");
    assert_eq!(r.dataset_id, "tbl-users");
}

#[test]
fn large_export_is_medium_risk() {
    let api = AnalyticsApi::seeded();
    let r = api.check_export_risk(&ExportRiskInput { dataset_id: "tbl-events".to_string(), row_count: Some(20000), includes_pii: None });
    assert_eq!(r.risk_level, RiskLevel::Medium);
    assert_eq!(r.risk_level.label(), "medium");
    assert!(!r.contains_pii);
    assert!(r.export_allowed);
    assert_eq!(r.recommendation, "Safe to export");
    let at_limit = api.check_export_risk(&ExportRiskInput { dataset_id: "tbl-events".to_string(), row_count: Some(10000), includes_pii: None });
    assert_eq!(at_limit.risk_level, RiskLevel::Low);
    assert_eq!(at_limit.risk_level.label(), "low");
}

#[test]
fn stated_pii_overrides_dataset() {
    let mut api = AnalyticsApi::seeded();
    let r = api.check_export_risk(&ExportRiskInput { dataset_id: "tbl-users".to_string(), row_count: Some(5), includes_pii: Some(false) });
    assert_eq!(r.risk_level, RiskLevel::Low);
    assert!(r.export_allowed);
    let unknown = api.check_export_risk(&ExportRiskInput { dataset_id: "nope".to_string(), row_count: None, includes_pii: None });
    assert!(!unknown.contains_pii);
    let flagged = api.check_export_risk(&ExportRiskInput { dataset_id: "nope".to_string(), row_count: None, includes_pii: Some(true) });
    assert_eq!(flagged.risk_level, RiskLevel::High);
    assert!(!flagged.export_allowed);
    api.policy.pii_column_access = "allowed".to_string();
    let permitted = api.check_export_risk(&ExportRiskInput { dataset_id: "tbl-users".to_string(), row_count: None, includes_pii: None });
    assert_eq!(permitted.risk_level, RiskLevel::High);
    assert!(permitted.export_allowed);
}

#[test]
fn access_request_is_pending_in_audit() {
    let mut api = AnalyticsApi::seeded();
    let id = api.request_data_access(DataAccessInput { resource: "tbl-users.email".to_string(), reason: "churn study".to_string() });
    assert_eq!(id.len(), 36);
    assert_eq!(&id[8..9], "-");
    assert_eq!(api.audit_log.len(), 1);
    let e = &api.audit_log[0];
    assert_eq!(e.tool, "request_data_access");
    assert_eq!(e.result, "pending");
    assert_eq!(e.params[0].key, "resource");
    assert_eq!(e.params[1].key, "reason");
    assert!(matches!(&e.params[1].value, ParamValue::Text(t) if t == "churn study"));
    assert!(!e.timestamp.is_empty());
}
