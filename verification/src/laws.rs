//! Properties that hold across the library's operations and for all of
//! their inputs.
use vstd::prelude::*;
use crate::dashboards::{has_dashboard, is_first_dashboard, published_at, widget_added};
use crate::api::AnalyticsApi;
use crate::dashboards::catalog_kept;
use crate::domain::{AuditParam, Dashboard};
use crate::queries::{is_query_tool, query_recorded};
use crate::governance::{RiskLevel, export_risk_level, export_permitted};
use crate::inputs::AddWidgetInput;
use crate::policy::{Policy, policy_verdict, is_default_policy};
use crate::timeline::{is_sampling, series_base, forecast_base};
use crate::analysis::breakdown_table;

verus! {

/// An action is allowed exactly when the reason given is "Allowed".
pub proof fn verdict_reason_tells_outcome(p: Policy, action: Seq<char>, approved: bool)
    ensures
        policy_verdict(p, action, approved).0 <==> policy_verdict(p, action, approved).1 == "Allowed"@,
{
    reveal_strlit("Allowed");
    assert("Allowed"@.len() == 7);
    reveal_strlit("Raw SQL queries are not allowed by policy");
    assert("Raw SQL queries are not allowed by policy"@.len() == 41);
    reveal_strlit("PII column access is denied by policy");
    assert("PII column access is denied by policy"@.len() == 37);
    reveal_strlit("Customer-level export is denied");
    assert("Customer-level export is denied"@.len() == 31);
    reveal_strlit("Customer-level export requires approval");
    assert("Customer-level export requires approval"@.len() == 39);
    reveal_strlit("Employee-level export is denied");
    assert("Employee-level export is denied"@.len() == 31);
    reveal_strlit("Financial metric access is denied");
    assert("Financial metric access is denied"@.len() == 33);
    reveal_strlit("Financial metric access requires prior approval");
    assert("Financial metric access requires prior approval"@.len() == 47);
    reveal_strlit("External sharing is not allowed");
    assert("External sharing is not allowed"@.len() == 31);
}

/// Under the default policy, raw SQL, access to personal data, customer- and
/// employee-level exports and external sharing are refused, and financial
/// metrics are open exactly to approved requests.
pub proof fn default_policy_boundaries(p: Policy, approved: bool)
    requires
        is_default_policy(p),
    ensures
        !policy_verdict(p, "raw_sql"@, approved).0,
        !policy_verdict(p, "pii_access"@, approved).0,
        !policy_verdict(p, "customer_export"@, approved).0,
        !policy_verdict(p, "employee_export"@, approved).0,
        !policy_verdict(p, "external_share"@, approved).0,
        policy_verdict(p, "financial_access"@, approved).0 == approved,
{
    reveal_strlit("raw_sql");
    assert("raw_sql"@.len() == 7);
    reveal_strlit("pii_access");
    assert("pii_access"@.len() == 10);
    reveal_strlit("customer_export");
    assert("customer_export"@.len() == 15);
    reveal_strlit("employee_export");
    assert("employee_export"@.len() == 15);
    reveal_strlit("financial_access");
    assert("financial_access"@.len() == 16);
    reveal_strlit("external_share");
    assert("external_share"@.len() == 14);
    reveal_strlit("denied");
    assert("denied"@.len() == 6);
    reveal_strlit("approved_only");
    assert("approved_only"@.len() == 13);
    assert("customer_export"@[0] != "employee_export"@[0]);
}

/// Approval never turns an allowed action into a refused one.
pub proof fn approval_only_widens(p: Policy, action: Seq<char>)
    ensures
        policy_verdict(p, action, false).0 ==> policy_verdict(p, action, true).0,
{
}

/// Actions that the policy does not govern are always allowed.
pub proof fn ungoverned_actions_allowed(p: Policy, action: Seq<char>, approved: bool)
    requires
        action != "raw_sql"@,
        action != "pii_access"@,
        action != "customer_export"@,
        action != "employee_export"@,
        action != "financial_access"@,
        action != "external_share"@,
    ensures
        policy_verdict(p, action, approved) == (true, "Allowed"@),
{
}

/// An export with personal data is high-risk, and is allowed only where the
/// policy allows access to personal data; an export without personal data
/// is always allowed. Under the default policy no export with personal data
/// is allowed.
pub proof fn personal_data_exports_guarded(p: Policy, pii: bool, rows: u64)
    ensures
        pii ==> export_risk_level(pii, rows, p.row_limit) == RiskLevel::High,
        pii ==> (export_permitted(export_risk_level(pii, rows, p.row_limit), p)
            <==> p.pii_column_access@ == "allowed"@),
        !pii ==> export_permitted(export_risk_level(pii, rows, p.row_limit), p),
        is_default_policy(p) && pii ==> !export_permitted(export_risk_level(pii, rows, p.row_limit), p),
{
    reveal_strlit("denied");
    reveal_strlit("allowed");
    assert("denied"@.len() == 6);
    assert("allowed"@.len() == 7);
}

/// A series over `days` days sampled every `step` days has one point for
/// every `step` days begun, the k-th lying `days - k * step` days back, all
/// between one day and `days` days back.
pub proof fn sampling_shape(s: Seq<u32>, days: int, step: int)
    requires
        step > 0,
        days >= 0,
        is_sampling(s, days, step),
    ensures
        forall|k: int| 0 <= k < s.len() ==> #[trigger] s[k] + k * step == days,
        forall|k: int| 0 <= k < s.len() ==> 1 <= #[trigger] s[k] <= days,
        s.len() == (days + step - 1) / step,
{
    assert forall|k: int| 0 <= k < s.len() implies #[trigger] s[k] + k * step == days by {
        sampling_position(s, days, step, k);
    }
    if s.len() > 0 {
        let n = s.len() as int;
        assert(s[n - 1] + (n - 1) * step == days);
        assert(0 < s[n - 1] <= step);
        assert((days + step - 1) / step == n) by (nonlinear_arith)
            requires
                step > 0,
                n >= 1,
                days == s[n - 1] + (n - 1) * step,
                0 < s[n - 1] <= step,
        ;
        assert forall|k: int| 0 <= k < s.len() implies 1 <= #[trigger] s[k] <= days by {
            assert(s[k] + k * step == days);
            assert(k * step >= 0) by (nonlinear_arith)
                requires
                    k >= 0,
                    step > 0,
            ;
        }
    } else {
        assert((0 + step - 1) / step == 0) by (nonlinear_arith)
            requires
                step > 0,
        ;
    }
}

proof fn sampling_position(s: Seq<u32>, days: int, step: int, k: int)
    requires
        is_sampling(s, days, step),
        0 <= k < s.len(),
    ensures
        s[k] + k * step == days,
    decreases k,
{
    if k > 0 {
        sampling_position(s, days, step, k - 1);
        let j = k - 1;
        assert(s[j + 1] + step == s[j]);
        assert(k * step == (k - 1) * step + step) by (nonlinear_arith);
    }
}

/// After a dashboard is published, reading by its id finds it published,
/// with its widgets unchanged.
pub proof fn published_dashboard_reads_published(
    before: Seq<Dashboard>,
    after: Seq<Dashboard>,
    id: Seq<char>,
    i: int,
)
    requires
        is_first_dashboard(before, id, i),
        published_at(before, after, i),
    ensures
        is_first_dashboard(after, id, i),
        after[i].published,
        after[i].widgets == before[i].widgets,
{
    assert forall|j: int| 0 <= j < i implies #[trigger] after[j].id@ != id by {
        assert(after[j] == before[j]);
    }
}

/// After a widget is added to a dashboard, reading by the dashboard's id
/// finds one more widget, the new one last.
pub proof fn added_widget_reads_back(
    before: Seq<Dashboard>,
    after: Seq<Dashboard>,
    i: int,
    input: AddWidgetInput,
    msg: Seq<char>,
)
    requires
        is_first_dashboard(before, input.dashboard_id@, i),
        widget_added(before, after, i, input, msg),
    ensures
        is_first_dashboard(after, input.dashboard_id@, i),
        after[i].widgets@.len() == before[i].widgets@.len() + 1,
        after[i].widgets@.last().title == input.title,
{
    assert forall|j: int| 0 <= j < i implies #[trigger] after[j].id@ != input.dashboard_id@ by {
        assert(after[j] == before[j]);
    }
}

/// After a dashboard is created under an id that no earlier dashboard has,
/// reading by that id finds the new dashboard.
pub proof fn created_dashboard_reads_back(before: Seq<Dashboard>, after: Seq<Dashboard>, id: Seq<char>)
    requires
        after.len() == before.len() + 1,
        after.take(before.len() as int) == before,
        after.last().id@ == id,
        !has_dashboard(before, id),
    ensures
        is_first_dashboard(after, id, before.len() as int),
        has_dashboard(after, id),
{
    assert forall|j: int| 0 <= j < before.len() implies #[trigger] after[j].id@ != id by {
        assert(after[j] == after.take(before.len() as int)[j]);
        if after[j].id@ == id {
            assert(before[j].id@ == id);
        }
    }
    assert(after[before.len() as int] == after.last());
}

/// Every query is recorded: it appends exactly one audit entry, which names
/// the query's tool and says "allowed", keeps every earlier entry, and
/// changes nothing else.
pub proof fn query_appends_one_entry(
    before: AnalyticsApi,
    after: AnalyticsApi,
    tool: Seq<char>,
    params: Seq<AuditParam>,
)
    requires
        is_query_tool(tool),
        query_recorded(before, after, tool, params),
    ensures
        after.audit_log@.len() == before.audit_log@.len() + 1,
        forall|i: int| 0 <= i < before.audit_log@.len() ==> #[trigger] after.audit_log@[i] == before.audit_log@[i],
        is_query_tool(after.audit_log@.last().tool@),
        after.audit_log@.last().params@ == params,
        after.audit_log@.last().result@ == "allowed"@,
        after.dashboards@ == before.dashboards@,
        catalog_kept(before, after),
{
    assert forall|i: int| 0 <= i < before.audit_log@.len() implies #[trigger] after.audit_log@[i] == before.audit_log@[i] by {
        assert(after.audit_log@.take(before.audit_log@.len() as int)[i] == after.audit_log@[i]);
    }
}

/// A run of queries leaves one audit entry per query, in the order they ran,
/// after the entries that were already there.
pub proof fn query_run_logged(states: Seq<AnalyticsApi>, tools: Seq<Seq<char>>, params: Seq<Seq<AuditParam>>)
    requires
        states.len() == tools.len() + 1,
        params.len() == tools.len(),
        forall|k: int| 0 <= k < tools.len() ==> #[trigger] query_recorded(states[k], states[k + 1], tools[k], params[k]),
    ensures
        states.last().audit_log@.len() == states[0].audit_log@.len() + tools.len(),
        forall|i: int| 0 <= i < states[0].audit_log@.len() ==> #[trigger] states.last().audit_log@[i] == states[0].audit_log@[i],
        forall|k: int| 0 <= k < tools.len() ==> (#[trigger] states.last().audit_log@[states[0].audit_log@.len() + k]).tool@ == tools[k],
    decreases tools.len(),
{
    if tools.len() > 0 {
        let n = tools.len() - 1;
        let front = states.take(n + 1);
        assert forall|k: int| 0 <= k < tools.take(n).len() implies
            #[trigger] query_recorded(front[k], front[k + 1], tools.take(n)[k], params.take(n)[k]) by {
            assert(query_recorded(states[k], states[k + 1], tools[k], params[k]));
        }
        query_run_logged(front, tools.take(n), params.take(n));
        let mid = states[n];
        let last = states[n + 1];
        assert(query_recorded(mid, last, tools[n], params[n]));
        assert(front.last() == mid);
        let base = states[0].audit_log@.len();
        assert forall|i: int| 0 <= i < mid.audit_log@.len() implies #[trigger] last.audit_log@[i] == mid.audit_log@[i] by {
            assert(last.audit_log@.take(mid.audit_log@.len() as int)[i] == last.audit_log@[i]);
        }
        assert forall|i: int| 0 <= i < base implies #[trigger] states.last().audit_log@[i] == states[0].audit_log@[i] by {
            assert(last.audit_log@[i] == mid.audit_log@[i]);
            assert(front[0] == states[0]);
        }
        assert forall|k: int| 0 <= k < tools.len() implies (#[trigger] states.last().audit_log@[base + k]).tool@ == tools[k] by {
            if k < n {
                assert(front[0] == states[0]);
                assert(mid.audit_log@[base + k].tool@ == tools.take(n)[k]);
                assert(last.audit_log@[base + k] == mid.audit_log@[base + k]);
            } else {
                assert(front[0] == states[0]);
            }
        }
    }
}

/// The rank of a risk level: low below medium below high.
pub open spec fn risk_rank(level: RiskLevel) -> int {
    match level {
        RiskLevel::Low => 0,
        RiskLevel::Medium => 1,
        RiskLevel::High => 2,
    }
}

/// An export without personal data is medium-risk exactly when it has more
/// rows than the policy's row limit, and low-risk otherwise; adding rows
/// never lowers the risk, and personal data always makes it high.
pub proof fn export_risk_follows_row_limit(p: Policy, pii: bool, rows: u64, more_rows: u64)
    requires
        rows <= more_rows,
    ensures
        !pii && rows > p.row_limit ==> export_risk_level(pii, rows, p.row_limit) == RiskLevel::Medium,
        !pii && rows <= p.row_limit ==> export_risk_level(pii, rows, p.row_limit) == RiskLevel::Low,
        pii ==> export_risk_level(pii, rows, p.row_limit) == RiskLevel::High,
        risk_rank(export_risk_level(pii, rows, p.row_limit)) <= risk_rank(export_risk_level(pii, more_rows, p.row_limit)),
{
}

/// In every breakdown the first segment has the largest share, and every
/// share is positive.
pub proof fn breakdown_led_by_first(dimension: Seq<char>)
    ensures
        breakdown_table(dimension).len() > 0,
        forall|k: int| 0 <= k < breakdown_table(dimension).len() ==>
            0 < #[trigger] breakdown_table(dimension)[k].1 <= breakdown_table(dimension)[0].1,
{
    let t = breakdown_table(dimension);
    assert forall|k: int| 0 <= k < t.len() implies 0 < #[trigger] t[k].1 <= t[0].1 by {
        assert(k == 0 || k == 1 || k == 2 || k == 3);
    }
}

/// The series levels of the active-user metrics nest: daily actives at most
/// weekly actives, weekly at most monthly.
pub proof fn active_user_levels_nest()
    ensures
        series_base("m-dau"@) <= series_base("m-wau"@) <= series_base("m-mau"@),
{
    reveal_strlit("m-dau");
    reveal_strlit("m-wau");
    reveal_strlit("m-mau");
    assert("m-dau"@[2] != "m-wau"@[2]);
    assert("m-dau"@[2] != "m-mau"@[2]);
    assert("m-wau"@[2] != "m-mau"@[2]);
}

/// The forecasts of daily actives, recurring revenue and signups start from
/// at or above the level of their series, and at most a tenth above it.
pub proof fn forecasts_start_near_series()
    ensures
        series_base("m-dau"@) <= forecast_base("m-dau"@) <= series_base("m-dau"@) * 11 / 10,
        series_base("m-mrr"@) <= forecast_base("m-mrr"@) <= series_base("m-mrr"@) * 11 / 10,
        series_base("m-signups"@) <= forecast_base("m-signups"@) <= series_base("m-signups"@) * 11 / 10,
{
    reveal_strlit("m-dau");
    reveal_strlit("m-wau");
    reveal_strlit("m-mau");
    reveal_strlit("m-mrr");
    reveal_strlit("m-signups");
    assert("m-dau"@[2] != "m-wau"@[2]);
    assert("m-dau"@[2] != "m-mau"@[2]);
    assert("m-dau"@[2] != "m-mrr"@[2]);
    assert("m-dau"@.len() != "m-signups"@.len());
    assert("m-wau"@[2] != "m-mau"@[2]);
    assert("m-wau"@[2] != "m-mrr"@[2]);
    assert("m-wau"@.len() != "m-signups"@.len());
    assert("m-mau"@[3] != "m-mrr"@[3]);
    assert("m-mau"@.len() != "m-signups"@.len());
    assert("m-mrr"@.len() != "m-signups"@.len());
}

} // verus!
