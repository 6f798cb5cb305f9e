//! Policy enforcement for the analytics tools: checking actions against the
//! policy, assessing the risk of exports and requesting access, each recorded
//! in the audit log.
use vstd::prelude::*;
use crate::api::AnalyticsApi;
use crate::catalog::{has_dataset, is_first_dataset};
use crate::dashboards::{audit_appended, catalog_kept, text_param};
use crate::domain::{AuditParam, Dataset, ParamValue};
use crate::inputs::{DataAccessInput, ExportRiskInput, PolicyCheckInput};
use crate::policy::{Policy, PolicyContext, policy_verdict, context_approved};
use crate::stamps::{fresh_uuid_text, is_hyphenated_uuid};
use crate::text::{owned, text_is};

verus! {

/// How risky an export is.
#[derive(Debug, PartialEq, Eq, Structural)]
pub enum RiskLevel {
    Low,
    Medium,
    High,
}

impl RiskLevel {
    /// "low", "medium" or "high".
    pub fn label(&self) -> (s: String)
        ensures
            s@ == risk_label(*self),
    {
        match self {
            RiskLevel::Low => owned("low"),
            RiskLevel::Medium => owned("medium"),
            RiskLevel::High => owned("high"),
        }
    }
}

pub open spec fn risk_label(r: RiskLevel) -> Seq<char> {
    match r {
        RiskLevel::Low => "low"@,
        RiskLevel::Medium => "medium"@,
        RiskLevel::High => "high"@,
    }
}

/// The assessment of an export.
#[derive(Debug)]
pub struct ExportRisk {
    pub dataset_id: String,
    pub risk_level: RiskLevel,
    pub contains_pii: bool,
    pub row_count: u64,
    pub row_limit: u64,
    pub export_allowed: bool,
    pub recommendation: String,
}

/// The risk of exporting `rows` rows: high with personal data, medium above
/// the row limit, low otherwise.
pub open spec fn export_risk_level(pii: bool, rows: u64, limit: u64) -> RiskLevel {
    if pii {
        RiskLevel::High
    } else if rows > limit {
        RiskLevel::Medium
    } else {
        RiskLevel::Low
    }
}

/// An export is allowed unless it is high-risk and the policy does not allow
/// access to personal data.
pub open spec fn export_permitted(level: RiskLevel, p: Policy) -> bool {
    level != RiskLevel::High || p.pii_column_access@ == "allowed"@
}

/// Whether the first dataset with id `key` has a column of personal data;
/// false when there is no such dataset.
pub open spec fn dataset_holds_pii(ds: Seq<Dataset>, key: Seq<char>) -> bool {
    if has_dataset(ds, key) {
        let i = choose|i: int| is_first_dataset(ds, key, i);
        exists|c: int| 0 <= c < ds[i].columns@.len() && (#[trigger] ds[i].columns@[c]).is_pii
    } else {
        false
    }
}

proof fn first_dataset_unique(ds: Seq<Dataset>, key: Seq<char>, i: int)
    requires
        is_first_dataset(ds, key, i),
    ensures
        has_dataset(ds, key),
        (choose|k: int| is_first_dataset(ds, key, k)) == i,
{
    let k = choose|k: int| is_first_dataset(ds, key, k);
    assert(is_first_dataset(ds, key, k));
    if k < i {
        assert(ds[k].id@ != key);
    } else if i < k {
        assert(ds[i].id@ != key);
    }
}

fn any_pii_column(d: &Dataset) -> (b: bool)
    ensures
        b == exists|c: int| 0 <= c < d.columns@.len() && (#[trigger] d.columns@[c]).is_pii,
{
    let mut k: usize = 0;
    while k < d.columns.len()
        invariant
            k <= d.columns@.len(),
            forall|c: int| 0 <= c < k ==> !(#[trigger] d.columns@[c]).is_pii,
        decreases d.columns@.len() - k,
    {
        if d.columns[k].is_pii {
            return true;
        }
        k = k + 1;
    }
    false
}

impl AnalyticsApi {
    /// Whether the policy allows `action` in `context`, and why.
    pub fn check_policy(&self, action: &str, context: &PolicyContext) -> (r: (bool, String))
        ensures
            (r.0, r.1@) == policy_verdict(self.policy, action@, context_approved(*context)),
    {
        self.policy.check(action, context)
    }

    /// Checks an action against the policy (an absent context counting as
    /// an empty one) and records the decision in the audit log.
    pub fn validate_analytics_policy(&mut self, input: PolicyCheckInput) -> (r: (bool, String))
        ensures
            (r.0, r.1@) == policy_verdict(old(self).policy, input.action@, match input.context {
                Some(c) => context_approved(c),
                None => false,
            }),
            catalog_kept(*old(self), *final(self)),
            final(self).dashboards@ == old(self).dashboards@,
            audit_appended(old(self).audit_log@, final(self).audit_log@, "validate_analytics_policy"@,
                final(self).audit_log@.last().params@, if r.0 { "allowed"@ } else { "denied"@ }),
            final(self).audit_log@.last().params@.len() == 2,
            text_param("action"@, input.action@, final(self).audit_log@.last().params@[0]),
            final(self).audit_log@.last().params@[1].key@ == "allowed"@,
            final(self).audit_log@.last().params@[1].value == ParamValue::Flag(r.0),
    {
        let context = match input.context {
            Some(c) => c,
            None => PolicyContext { approved: None },
        };
        let (allowed, reason) = self.check_policy(input.action.as_str(), &context);
        let params = vec![
            AuditParam { key: owned("action"), value: ParamValue::Text(input.action.clone()) },
            AuditParam { key: owned("allowed"), value: ParamValue::Flag(allowed) },
        ];
        let result = if allowed { "allowed" } else { "denied" };
        self.log_audit("validate_analytics_policy", params, result);
        (allowed, reason)
    }

    /// Assesses the risk of exporting from a dataset: whether the export
    /// holds personal data (as stated, or else as the dataset's columns
    /// say), how many rows (1000 unless stated), the risk level, whether the
    /// policy allows it and what to do.
    pub fn check_export_risk(&self, input: &ExportRiskInput) -> (r: ExportRisk)
        ensures
            r.dataset_id@ == input.dataset_id@,
            r.contains_pii == match input.includes_pii {
                Some(b) => b,
                None => dataset_holds_pii(self.datasets@, input.dataset_id@),
            },
            r.row_count == match input.row_count {
                Some(n) => n,
                None => 1000u64,
            },
            r.row_limit == self.policy.row_limit,
            r.risk_level == export_risk_level(r.contains_pii, r.row_count, self.policy.row_limit),
            r.contains_pii ==> r.risk_level == RiskLevel::High,
            !r.contains_pii && r.row_count > self.policy.row_limit ==> r.risk_level == RiskLevel::Medium,
            !r.contains_pii && r.row_count <= self.policy.row_limit ==> r.risk_level == RiskLevel::Low,
            r.export_allowed == export_permitted(r.risk_level, self.policy),
            r.recommendation@ == if r.contains_pii {
                "Strip PII columns before export"@
            } else {
                "Safe to export"@
            },
    {
        let has_pii = match input.includes_pii {
            Some(b) => b,
            None => match self.find_dataset(input.dataset_id.as_str()) {
                Some(d) => {
                    proof {
                        let i = choose|i: int| is_first_dataset(self.datasets@, input.dataset_id@, i) && *d == self.datasets@[i];
                        first_dataset_unique(self.datasets@, input.dataset_id@, i);
                    }
                    any_pii_column(d)
                }
                None => false,
            },
        };
        let rows = match input.row_count {
            Some(n) => n,
            None => 1000,
        };
        let level = if has_pii {
            RiskLevel::High
        } else if rows > self.policy.row_limit {
            RiskLevel::Medium
        } else {
            RiskLevel::Low
        };
        let allowed = match level {
            RiskLevel::High => text_is(&self.policy.pii_column_access, "allowed"),
            _ => true,
        };
        let recommendation = if has_pii {
            owned("Strip PII columns before export")
        } else {
            owned("Safe to export")
        };
        ExportRisk {
            dataset_id: input.dataset_id.clone(),
            risk_level: level,
            contains_pii: has_pii,
            row_count: rows,
            row_limit: self.policy.row_limit,
            export_allowed: allowed,
            recommendation,
        }
    }

    /// Records a pending request for access to restricted data in the audit
    /// log, and returns the request's id, a fresh UUID.
    pub fn request_data_access(&mut self, input: DataAccessInput) -> (request_id: String)
        ensures
            is_hyphenated_uuid(request_id@),
            catalog_kept(*old(self), *final(self)),
            final(self).dashboards@ == old(self).dashboards@,
            audit_appended(old(self).audit_log@, final(self).audit_log@, "request_data_access"@,
                final(self).audit_log@.last().params@, "pending"@),
            final(self).audit_log@.last().params@.len() == 2,
            text_param("resource"@, input.resource@, final(self).audit_log@.last().params@[0]),
            text_param("reason"@, input.reason@, final(self).audit_log@.last().params@[1]),
    {
        let params = vec![
            AuditParam { key: owned("resource"), value: ParamValue::Text(input.resource) },
            AuditParam { key: owned("reason"), value: ParamValue::Text(input.reason) },
        ];
        self.log_audit("request_data_access", params, "pending");
        fresh_uuid_text()
    }
}

} // verus!
