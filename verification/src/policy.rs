use vstd::prelude::*;
use crate::text::{text_is, str_is};

verus! {

/// The analytics governance policy.
pub struct Policy {
    pub raw_sql_allowed: bool,
    /// One of "denied", "approved_only", "allowed".
    pub pii_column_access: String,
    pub row_limit: u64,
    pub time_range_limit_days: u32,
    /// One of "denied", "requires_approval", "allowed".
    pub customer_level_export: String,
    pub employee_level_export: String,
    pub financial_metric_access: String,
    pub external_sharing_allowed: bool,
    pub metric_certification_required: bool,
}

/// What the policy check reads from the caller's context: the value of its
/// "approved" entry when that entry is a boolean.
pub struct PolicyContext {
    pub approved: Option<bool>,
}

/// The policy that is in force when nothing else is configured.
pub open spec fn is_default_policy(p: Policy) -> bool {
    &&& !p.raw_sql_allowed
    &&& p.pii_column_access@ == "denied"@
    &&& p.row_limit == 10000
    &&& p.time_range_limit_days == 365
    &&& p.customer_level_export@ == "requires_approval"@
    &&& p.employee_level_export@ == "denied"@
    &&& p.financial_metric_access@ == "approved_only"@
    &&& !p.external_sharing_allowed
    &&& p.metric_certification_required
}

impl Default for Policy {
    fn default() -> (p: Self)
        ensures
            is_default_policy(p),
    {
        Policy {
            raw_sql_allowed: false,
            pii_column_access: "denied".to_owned(),
            row_limit: 10000,
            time_range_limit_days: 365,
            customer_level_export: "requires_approval".to_owned(),
            employee_level_export: "denied".to_owned(),
            financial_metric_access: "approved_only".to_owned(),
            external_sharing_allowed: false,
            metric_certification_required: true,
        }
    }
}

/// The verdict of the policy on an action: whether it is allowed, and why.
pub open spec fn policy_verdict(p: Policy, action: Seq<char>, approved: bool) -> (bool, Seq<char>) {
    let allowed = (true, "Allowed"@);
    if action == "raw_sql"@ {
        if !p.raw_sql_allowed { (false, "Raw SQL queries are not allowed by policy"@) } else { allowed }
    } else if action == "pii_access"@ {
        if p.pii_column_access@ == "denied"@ {
            (false, "PII column access is denied by policy"@)
        } else {
            allowed
        }
    } else if action == "customer_export"@ {
        if p.customer_level_export@ == "denied"@ {
            (false, "Customer-level export is denied"@)
        } else if p.customer_level_export@ == "requires_approval"@ {
            (false, "Customer-level export requires approval"@)
        } else {
            allowed
        }
    } else if action == "employee_export"@ {
        if p.employee_level_export@ == "denied"@ {
            (false, "Employee-level export is denied"@)
        } else {
            allowed
        }
    } else if action == "financial_access"@ {
        if p.financial_metric_access@ == "denied"@ {
            (false, "Financial metric access is denied"@)
        } else if p.financial_metric_access@ == "approved_only"@ && !approved {
            (false, "Financial metric access requires prior approval"@)
        } else {
            allowed
        }
    } else if action == "external_share"@ {
        if !p.external_sharing_allowed { (false, "External sharing is not allowed"@) } else { allowed }
    } else {
        allowed
    }
}

/// The approval flag that the check takes from a context: absent or
/// non-boolean counts as not approved.
pub open spec fn context_approved(c: PolicyContext) -> bool {
    match c.approved {
        Some(b) => b,
        None => false,
    }
}

impl Policy {
    /// Decides whether `action` is allowed, and gives the reason.
    pub fn check(&self, action: &str, context: &PolicyContext) -> (r: (bool, String))
        ensures
            (r.0, r.1@) == policy_verdict(*self, action@, context_approved(*context)),
    {
        if str_is(action, "raw_sql") {
            if !self.raw_sql_allowed {
                return (false, "Raw SQL queries are not allowed by policy".to_owned());
            }
        } else if str_is(action, "pii_access") {
            if text_is(&self.pii_column_access, "denied") {
                return (false, "PII column access is denied by policy".to_owned());
            }
        } else if str_is(action, "customer_export") {
            if text_is(&self.customer_level_export, "denied") {
                return (false, "Customer-level export is denied".to_owned());
            }
            if text_is(&self.customer_level_export, "requires_approval") {
                return (false, "Customer-level export requires approval".to_owned());
            }
        } else if str_is(action, "employee_export") {
            if text_is(&self.employee_level_export, "denied") {
                return (false, "Employee-level export is denied".to_owned());
            }
        } else if str_is(action, "financial_access") {
            if text_is(&self.financial_metric_access, "denied") {
                return (false, "Financial metric access is denied".to_owned());
            }
            if text_is(&self.financial_metric_access, "approved_only") {
                let approved = match context.approved {
                    Some(b) => b,
                    None => false,
                };
                if !approved {
                    return (false, "Financial metric access requires prior approval".to_owned());
                }
            }
        } else if str_is(action, "external_share") {
            if !self.external_sharing_allowed {
                return (false, "External sharing is not allowed".to_owned());
            }
        }
        (true, "Allowed".to_owned())
    }
}

} // verus!
