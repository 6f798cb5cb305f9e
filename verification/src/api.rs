//! The analytics catalog and its seeded demo content.
use vstd::prelude::*;
use crate::catalog::{has_dataset, has_metric};
use crate::domain::{Column, Dashboard, DataSource, Dataset, Funnel, MetricDefinition, Segment, Widget, AuditEntry};
use crate::policy::{Policy, is_default_policy};
use crate::text::owned;

verus! {

/// The analytics backend: the catalog (data sources, datasets, metrics,
/// segments, funnels), the dashboards, the audit log and the policy in force.
pub struct AnalyticsApi {
    pub data_sources: Vec<DataSource>,
    pub datasets: Vec<Dataset>,
    pub metrics: Vec<MetricDefinition>,
    pub segments: Vec<Segment>,
    pub funnels: Vec<Funnel>,
    pub dashboards: Vec<Dashboard>,
    pub audit_log: Vec<AuditEntry>,
    pub policy: Policy,
}

/// Every funnel has at least one step, every step counts someone, and each
/// step counts fewer users than the step before it.
pub open spec fn funnels_narrow(funnels: Seq<Funnel>) -> bool {
    forall|i: int|
        0 <= i < funnels.len() ==> {
            &&& (#[trigger] funnels[i]).steps@.len() > 0
            &&& forall|k: int| 0 <= k < funnels[i].steps@.len() ==> #[trigger] funnels[i].steps@[k].1 > 0
            &&& forall|k: int| 0 < k < funnels[i].steps@.len()
                ==> #[trigger] funnels[i].steps@[k].1 < funnels[i].steps@[k - 1].1
        }
}

/// Every dataset belongs to a data source of `sources`.
pub open spec fn datasets_have_sources(datasets: Seq<Dataset>, sources: Seq<DataSource>) -> bool {
    forall|k: int| 0 <= k < datasets.len() ==> exists|i: int|
        0 <= i < sources.len() && #[trigger] sources[i].id@ == (#[trigger] datasets[k]).source_id@
}

/// Every metric is defined over a dataset of `datasets`.
pub open spec fn metrics_have_datasets(metrics: Seq<MetricDefinition>, datasets: Seq<Dataset>) -> bool {
    forall|k: int| 0 <= k < metrics.len() ==> has_dataset(datasets, (#[trigger] metrics[k]).dataset_id@)
}

/// Every widget that names a metric names one of `metrics`.
pub open spec fn widgets_have_metrics(dashboards: Seq<Dashboard>, metrics: Seq<MetricDefinition>) -> bool {
    forall|d: int, w: int| 0 <= d < dashboards.len() && 0 <= w < dashboards[d].widgets@.len() ==>
        ((#[trigger] dashboards[d].widgets@[w]).metric_id matches Some(m) ==> has_metric(metrics, m@))
}

/// The seeded data sources.
pub open spec fn seeded_data_sources(s: Seq<DataSource>) -> bool {
    &&& s.len() == 3
    &&& s[0].id@ == "ds-1"@ && s[0].name@ == "Product Database"@
    &&& s[0].source_type@ == "product_db"@ && s[0].status@ == "connected"@
    &&& s[1].id@ == "ds-2"@ && s[1].name@ == "Data Warehouse"@
    &&& s[1].source_type@ == "warehouse"@ && s[1].status@ == "connected"@
    &&& s[2].id@ == "ds-3"@ && s[2].name@ == "Payment Events"@
    &&& s[2].source_type@ == "event_stream"@ && s[2].status@ == "connected"@
}

/// The seeded datasets and their columns.
pub open spec fn seeded_datasets(s: Seq<Dataset>) -> bool {
    &&& s.len() == 4
    &&& s[0].id@ == "tbl-users"@ && s[0].source_id@ == "ds-1"@ && s[0].name@ == "users"@
    &&& s[0].row_count == 48500 && s[0].freshness@ == "2 min ago"@
    &&& s[0].columns@.len() == 5
    &&& s[0].columns@[0].name@ == "user_id"@ && s[0].columns@[0].data_type@ == "uuid"@ && !s[0].columns@[0].is_pii
    &&& s[0].columns@[1].name@ == "email"@ && s[0].columns@[1].data_type@ == "string"@ && s[0].columns@[1].is_pii
    &&& s[0].columns@[2].name@ == "plan"@ && s[0].columns@[2].data_type@ == "string"@ && !s[0].columns@[2].is_pii
    &&& s[0].columns@[3].name@ == "created_at"@ && s[0].columns@[3].data_type@ == "timestamp"@ && !s[0].columns@[3].is_pii
    &&& s[0].columns@[4].name@ == "country"@ && s[0].columns@[4].data_type@ == "string"@ && !s[0].columns@[4].is_pii
    &&& s[1].id@ == "tbl-events"@ && s[1].source_id@ == "ds-2"@ && s[1].name@ == "events"@
    &&& s[1].row_count == 2340000 && s[1].freshness@ == "30 sec ago"@
    &&& s[1].columns@.len() == 5
    &&& s[1].columns@[0].name@ == "event_id"@ && s[1].columns@[0].data_type@ == "uuid"@ && !s[1].columns@[0].is_pii
    &&& s[1].columns@[1].name@ == "user_id"@ && s[1].columns@[1].data_type@ == "uuid"@ && !s[1].columns@[1].is_pii
    &&& s[1].columns@[2].name@ == "event_name"@ && s[1].columns@[2].data_type@ == "string"@ && !s[1].columns@[2].is_pii
    &&& s[1].columns@[3].name@ == "timestamp"@ && s[1].columns@[3].data_type@ == "timestamp"@ && !s[1].columns@[3].is_pii
    &&& s[1].columns@[4].name@ == "properties"@ && s[1].columns@[4].data_type@ == "json"@ && !s[1].columns@[4].is_pii
    &&& s[2].id@ == "tbl-purchases"@ && s[2].source_id@ == "ds-3"@ && s[2].name@ == "purchases"@
    &&& s[2].row_count == 12800 && s[2].freshness@ == "5 min ago"@
    &&& s[2].columns@.len() == 5
    &&& s[2].columns@[0].name@ == "purchase_id"@ && s[2].columns@[0].data_type@ == "uuid"@ && !s[2].columns@[0].is_pii
    &&& s[2].columns@[1].name@ == "user_id"@ && s[2].columns@[1].data_type@ == "uuid"@ && !s[2].columns@[1].is_pii
    &&& s[2].columns@[2].name@ == "amount_cents"@ && s[2].columns@[2].data_type@ == "integer"@ && !s[2].columns@[2].is_pii
    &&& s[2].columns@[3].name@ == "plan"@ && s[2].columns@[3].data_type@ == "string"@ && !s[2].columns@[3].is_pii
    &&& s[2].columns@[4].name@ == "created_at"@ && s[2].columns@[4].data_type@ == "timestamp"@ && !s[2].columns@[4].is_pii
    &&& s[3].id@ == "tbl-subscriptions"@ && s[3].source_id@ == "ds-1"@ && s[3].name@ == "subscriptions"@
    &&& s[3].row_count == 9200 && s[3].freshness@ == "10 min ago"@
    &&& s[3].columns@.len() == 5
    &&& s[3].columns@[0].name@ == "sub_id"@ && s[3].columns@[0].data_type@ == "uuid"@ && !s[3].columns@[0].is_pii
    &&& s[3].columns@[1].name@ == "user_id"@ && s[3].columns@[1].data_type@ == "uuid"@ && !s[3].columns@[1].is_pii
    &&& s[3].columns@[2].name@ == "plan"@ && s[3].columns@[2].data_type@ == "string"@ && !s[3].columns@[2].is_pii
    &&& s[3].columns@[3].name@ == "mrr_cents"@ && s[3].columns@[3].data_type@ == "integer"@ && !s[3].columns@[3].is_pii
    &&& s[3].columns@[4].name@ == "status"@ && s[3].columns@[4].data_type@ == "string"@ && !s[3].columns@[4].is_pii
}

/// The seeded metric definitions.
pub open spec fn seeded_metrics(s: Seq<MetricDefinition>) -> bool {
    &&& s.len() == 8
    &&& s[0].id@ == "m-dau"@ && s[0].name@ == "DAU"@
    &&& s[0].formula@ == "COUNT(DISTINCT user_id) WHERE event_date = today"@
    &&& s[0].aggregation@ == "count_distinct"@ && s[0].dataset_id@ == "tbl-events"@
    &&& s[0].dimensions@.len() == 3 && s[0].dimensions@[0]@ == "country"@ && s[0].dimensions@[1]@ == "plan"@ && s[0].dimensions@[2]@ == "device"@
    &&& s[0].owner@ == "Growth Team"@ && s[0].certified
    &&& s[1].id@ == "m-wau"@ && s[1].name@ == "WAU"@
    &&& s[1].formula@ == "COUNT(DISTINCT user_id) WHERE event_date >= today - 7"@
    &&& s[1].aggregation@ == "count_distinct"@ && s[1].dataset_id@ == "tbl-events"@
    &&& s[1].dimensions@.len() == 2 && s[1].dimensions@[0]@ == "country"@ && s[1].dimensions@[1]@ == "plan"@
    &&& s[1].owner@ == "Growth Team"@ && s[1].certified
    &&& s[2].id@ == "m-mau"@ && s[2].name@ == "MAU"@
    &&& s[2].formula@ == "COUNT(DISTINCT user_id) WHERE event_date >= today - 30"@
    &&& s[2].aggregation@ == "count_distinct"@ && s[2].dataset_id@ == "tbl-events"@
    &&& s[2].dimensions@.len() == 2 && s[2].dimensions@[0]@ == "country"@ && s[2].dimensions@[1]@ == "plan"@
    &&& s[2].owner@ == "Growth Team"@ && s[2].certified
    &&& s[3].id@ == "m-mrr"@ && s[3].name@ == "MRR"@
    &&& s[3].formula@ == "SUM(mrr_cents) / 100 WHERE status = 'active'"@
    &&& s[3].aggregation@ == "sum"@ && s[3].dataset_id@ == "tbl-subscriptions"@
    &&& s[3].dimensions@.len() == 2 && s[3].dimensions@[0]@ == "plan"@ && s[3].dimensions@[1]@ == "country"@
    &&& s[3].owner@ == "Finance"@ && s[3].certified
    &&& s[4].id@ == "m-signups"@ && s[4].name@ == "Signups"@
    &&& s[4].formula@ == "COUNT(*) WHERE event_name = 'signup'"@
    &&& s[4].aggregation@ == "count"@ && s[4].dataset_id@ == "tbl-events"@
    &&& s[4].dimensions@.len() == 2 && s[4].dimensions@[0]@ == "country"@ && s[4].dimensions@[1]@ == "source"@
    &&& s[4].owner@ == "Growth Team"@ && s[4].certified
    &&& s[5].id@ == "m-churn"@ && s[5].name@ == "Churn Rate"@
    &&& s[5].formula@ == "COUNT(churned) / COUNT(active_start) * 100"@
    &&& s[5].aggregation@ == "avg"@ && s[5].dataset_id@ == "tbl-subscriptions"@
    &&& s[5].dimensions@.len() == 1 && s[5].dimensions@[0]@ == "plan"@
    &&& s[5].owner@ == "Finance"@ && s[5].certified
    &&& s[6].id@ == "m-arpu"@ && s[6].name@ == "ARPU"@
    &&& s[6].formula@ == "SUM(amount_cents) / COUNT(DISTINCT user_id) / 100"@
    &&& s[6].aggregation@ == "avg"@ && s[6].dataset_id@ == "tbl-purchases"@
    &&& s[6].dimensions@.len() == 2 && s[6].dimensions@[0]@ == "plan"@ && s[6].dimensions@[1]@ == "country"@
    &&& s[6].owner@ == "Finance"@ && s[6].certified
    &&& s[7].id@ == "m-conversion"@ && s[7].name@ == "Conversion Rate"@
    &&& s[7].formula@ == "COUNT(purchased) / COUNT(signed_up) * 100"@
    &&& s[7].aggregation@ == "avg"@ && s[7].dataset_id@ == "tbl-events"@
    &&& s[7].dimensions@.len() == 2 && s[7].dimensions@[0]@ == "source"@ && s[7].dimensions@[1]@ == "plan"@
    &&& s[7].owner@ == "Product"@ && !s[7].certified
}

/// The seeded user segments.
pub open spec fn seeded_segments(s: Seq<Segment>) -> bool {
    &&& s.len() == 5
    &&& s[0].id@ == "seg-1"@ && s[0].name@ == "Power Users"@
    &&& s[0].definition@ == "events_last_7d >= 20"@ && s[0].count == 3200
    &&& s[1].id@ == "seg-2"@ && s[1].name@ == "Churned"@
    &&& s[1].definition@ == "last_active > 30 days ago AND was_paying"@ && s[1].count == 890
    &&& s[2].id@ == "seg-3"@ && s[2].name@ == "New This Week"@
    &&& s[2].definition@ == "created_at >= 7 days ago"@ && s[2].count == 420
    &&& s[3].id@ == "seg-4"@ && s[3].name@ == "Enterprise"@
    &&& s[3].definition@ == "plan = 'enterprise'"@ && s[3].count == 156
    &&& s[4].id@ == "seg-5"@ && s[4].name@ == "Free Tier"@
    &&& s[4].definition@ == "plan = 'free'"@ && s[4].count == 28400
}

/// The seeded funnels and their step counts.
pub open spec fn seeded_funnels(s: Seq<Funnel>) -> bool {
    &&& s.len() == 2
    &&& s[0].name@ == "Signup to Purchase"@ && s[0].steps@.len() == 4
    &&& s[0].steps@[0].0@ == "Landing Page"@ && s[0].steps@[0].1 == 10000
    &&& s[0].steps@[1].0@ == "Signup"@ && s[0].steps@[1].1 == 3200
    &&& s[0].steps@[2].0@ == "Onboarding Complete"@ && s[0].steps@[2].1 == 2100
    &&& s[0].steps@[3].0@ == "First Purchase"@ && s[0].steps@[3].1 == 840
    &&& s[1].name@ == "Feature Adoption"@ && s[1].steps@.len() == 4
    &&& s[1].steps@[0].0@ == "Login"@ && s[1].steps@[0].1 == 5000
    &&& s[1].steps@[1].0@ == "Feature Viewed"@ && s[1].steps@[1].1 == 3800
    &&& s[1].steps@[2].0@ == "Feature Used"@ && s[1].steps@[2].1 == 2200
    &&& s[1].steps@[3].0@ == "Repeated Use"@ && s[1].steps@[3].1 == 1100
}

/// The seeded dashboard and its widgets.
pub open spec fn seeded_dashboards(s: Seq<Dashboard>) -> bool {
    &&& s.len() == 1
    &&& s[0].id@ == "dash-1"@ && s[0].name@ == "Growth Overview"@
    &&& s[0].description@ == "Key growth metrics for the team"@
    &&& s[0].published && s[0].created_by@ == "Growth Team"@
    &&& s[0].widgets@.len() == 4
    &&& s[0].widgets@[0].id@ == "w-1"@ && s[0].widgets@[0].widget_type@ == "number"@ && s[0].widgets@[0].title@ == "DAU"@
    &&& (s[0].widgets@[0].metric_id matches Some(m) && m@ == "m-dau"@)
    &&& s[0].widgets@[0].config@.len() == 0
    &&& s[0].widgets@[1].id@ == "w-2"@ && s[0].widgets@[1].widget_type@ == "line_chart"@ && s[0].widgets@[1].title@ == "DAU Trend (30d)"@
    &&& (s[0].widgets@[1].metric_id matches Some(m) && m@ == "m-dau"@)
    &&& s[0].widgets@[1].config@.len() == 2 && s[0].widgets@[1].config@[0].0@ == "range"@ && s[0].widgets@[1].config@[0].1@ == "30d"@ && s[0].widgets@[1].config@[1].0@ == "granularity"@ && s[0].widgets@[1].config@[1].1@ == "daily"@
    &&& s[0].widgets@[2].id@ == "w-3"@ && s[0].widgets@[2].widget_type@ == "number"@ && s[0].widgets@[2].title@ == "Signups Today"@
    &&& (s[0].widgets@[2].metric_id matches Some(m) && m@ == "m-signups"@)
    &&& s[0].widgets@[2].config@.len() == 0
    &&& s[0].widgets@[3].id@ == "w-4"@ && s[0].widgets@[3].widget_type@ == "funnel"@ && s[0].widgets@[3].title@ == "Signup Funnel"@
    &&& s[0].widgets@[3].metric_id is None
    &&& s[0].widgets@[3].config@.len() == 1 && s[0].widgets@[3].config@[0].0@ == "funnel"@ && s[0].widgets@[3].config@[0].1@ == "Signup to Purchase"@
}

fn seeded_data_sources_list() -> (r: Vec<DataSource>)
    ensures
        seeded_data_sources(r@),
{
    vec![
        DataSource { id: owned("ds-1"), name: owned("Product Database"), source_type: owned("product_db"), status: owned("connected") },
        DataSource { id: owned("ds-2"), name: owned("Data Warehouse"), source_type: owned("warehouse"), status: owned("connected") },
        DataSource { id: owned("ds-3"), name: owned("Payment Events"), source_type: owned("event_stream"), status: owned("connected") },
    ]
}

fn seeded_datasets_list() -> (r: Vec<Dataset>)
    ensures
        seeded_datasets(r@),
{
    vec![
        Dataset { id: owned("tbl-users"), source_id: owned("ds-1"), name: owned("users"), row_count: 48500, columns: vec![Column { name: owned("user_id"), data_type: owned("uuid"), is_pii: false }, Column { name: owned("email"), data_type: owned("string"), is_pii: true }, Column { name: owned("plan"), data_type: owned("string"), is_pii: false }, Column { name: owned("created_at"), data_type: owned("timestamp"), is_pii: false }, Column { name: owned("country"), data_type: owned("string"), is_pii: false }], freshness: owned("2 min ago") },
        Dataset { id: owned("tbl-events"), source_id: owned("ds-2"), name: owned("events"), row_count: 2340000, columns: vec![Column { name: owned("event_id"), data_type: owned("uuid"), is_pii: false }, Column { name: owned("user_id"), data_type: owned("uuid"), is_pii: false }, Column { name: owned("event_name"), data_type: owned("string"), is_pii: false }, Column { name: owned("timestamp"), data_type: owned("timestamp"), is_pii: false }, Column { name: owned("properties"), data_type: owned("json"), is_pii: false }], freshness: owned("30 sec ago") },
        Dataset { id: owned("tbl-purchases"), source_id: owned("ds-3"), name: owned("purchases"), row_count: 12800, columns: vec![Column { name: owned("purchase_id"), data_type: owned("uuid"), is_pii: false }, Column { name: owned("user_id"), data_type: owned("uuid"), is_pii: false }, Column { name: owned("amount_cents"), data_type: owned("integer"), is_pii: false }, Column { name: owned("plan"), data_type: owned("string"), is_pii: false }, Column { name: owned("created_at"), data_type: owned("timestamp"), is_pii: false }], freshness: owned("5 min ago") },
        Dataset { id: owned("tbl-subscriptions"), source_id: owned("ds-1"), name: owned("subscriptions"), row_count: 9200, columns: vec![Column { name: owned("sub_id"), data_type: owned("uuid"), is_pii: false }, Column { name: owned("user_id"), data_type: owned("uuid"), is_pii: false }, Column { name: owned("plan"), data_type: owned("string"), is_pii: false }, Column { name: owned("mrr_cents"), data_type: owned("integer"), is_pii: false }, Column { name: owned("status"), data_type: owned("string"), is_pii: false }], freshness: owned("10 min ago") },
    ]
}

fn seeded_metrics_list() -> (r: Vec<MetricDefinition>)
    ensures
        seeded_metrics(r@),
{
    vec![
        MetricDefinition { id: owned("m-dau"), name: owned("DAU"), formula: owned("COUNT(DISTINCT user_id) WHERE event_date = today"), aggregation: owned("count_distinct"), dataset_id: owned("tbl-events"), dimensions: vec![owned("country"), owned("plan"), owned("device")], owner: owned("Growth Team"), certified: true },
        MetricDefinition { id: owned("m-wau"), name: owned("WAU"), formula: owned("COUNT(DISTINCT user_id) WHERE event_date >= today - 7"), aggregation: owned("count_distinct"), dataset_id: owned("tbl-events"), dimensions: vec![owned("country"), owned("plan")], owner: owned("Growth Team"), certified: true },
        MetricDefinition { id: owned("m-mau"), name: owned("MAU"), formula: owned("COUNT(DISTINCT user_id) WHERE event_date >= today - 30"), aggregation: owned("count_distinct"), dataset_id: owned("tbl-events"), dimensions: vec![owned("country"), owned("plan")], owner: owned("Growth Team"), certified: true },
        MetricDefinition { id: owned("m-mrr"), name: owned("MRR"), formula: owned("SUM(mrr_cents) / 100 WHERE status = 'active'"), aggregation: owned("sum"), dataset_id: owned("tbl-subscriptions"), dimensions: vec![owned("plan"), owned("country")], owner: owned("Finance"), certified: true },
        MetricDefinition { id: owned("m-signups"), name: owned("Signups"), formula: owned("COUNT(*) WHERE event_name = 'signup'"), aggregation: owned("count"), dataset_id: owned("tbl-events"), dimensions: vec![owned("country"), owned("source")], owner: owned("Growth Team"), certified: true },
        MetricDefinition { id: owned("m-churn"), name: owned("Churn Rate"), formula: owned("COUNT(churned) / COUNT(active_start) * 100"), aggregation: owned("avg"), dataset_id: owned("tbl-subscriptions"), dimensions: vec![owned("plan")], owner: owned("Finance"), certified: true },
        MetricDefinition { id: owned("m-arpu"), name: owned("ARPU"), formula: owned("SUM(amount_cents) / COUNT(DISTINCT user_id) / 100"), aggregation: owned("avg"), dataset_id: owned("tbl-purchases"), dimensions: vec![owned("plan"), owned("country")], owner: owned("Finance"), certified: true },
        MetricDefinition { id: owned("m-conversion"), name: owned("Conversion Rate"), formula: owned("COUNT(purchased) / COUNT(signed_up) * 100"), aggregation: owned("avg"), dataset_id: owned("tbl-events"), dimensions: vec![owned("source"), owned("plan")], owner: owned("Product"), certified: false },
    ]
}

fn seeded_segments_list() -> (r: Vec<Segment>)
    ensures
        seeded_segments(r@),
{
    vec![
        Segment { id: owned("seg-1"), name: owned("Power Users"), definition: owned("events_last_7d >= 20"), count: 3200 },
        Segment { id: owned("seg-2"), name: owned("Churned"), definition: owned("last_active > 30 days ago AND was_paying"), count: 890 },
        Segment { id: owned("seg-3"), name: owned("New This Week"), definition: owned("created_at >= 7 days ago"), count: 420 },
        Segment { id: owned("seg-4"), name: owned("Enterprise"), definition: owned("plan = 'enterprise'"), count: 156 },
        Segment { id: owned("seg-5"), name: owned("Free Tier"), definition: owned("plan = 'free'"), count: 28400 },
    ]
}

fn seeded_funnels_list() -> (r: Vec<Funnel>)
    ensures
        seeded_funnels(r@),
{
    vec![
        Funnel { name: owned("Signup to Purchase"), steps: vec![(owned("Landing Page"), 10000), (owned("Signup"), 3200), (owned("Onboarding Complete"), 2100), (owned("First Purchase"), 840)] },
        Funnel { name: owned("Feature Adoption"), steps: vec![(owned("Login"), 5000), (owned("Feature Viewed"), 3800), (owned("Feature Used"), 2200), (owned("Repeated Use"), 1100)] },
    ]
}

fn seeded_dashboards_list() -> (r: Vec<Dashboard>)
    ensures
        seeded_dashboards(r@),
{
    let widgets = vec![
        Widget { id: owned("w-1"), widget_type: owned("number"), title: owned("DAU"), metric_id: Some(owned("m-dau")), config: vec![] },
        Widget { id: owned("w-2"), widget_type: owned("line_chart"), title: owned("DAU Trend (30d)"), metric_id: Some(owned("m-dau")), config: vec![(owned("range"), owned("30d")), (owned("granularity"), owned("daily"))] },
        Widget { id: owned("w-3"), widget_type: owned("number"), title: owned("Signups Today"), metric_id: Some(owned("m-signups")), config: vec![] },
        Widget { id: owned("w-4"), widget_type: owned("funnel"), title: owned("Signup Funnel"), metric_id: None, config: vec![(owned("funnel"), owned("Signup to Purchase"))] },
    ];
    vec![Dashboard { id: owned("dash-1"), name: owned("Growth Overview"), description: owned("Key growth metrics for the team"), widgets, published: true, created_by: owned("Growth Team") }]
}

proof fn distinct_seeded_data_sources(s: Seq<DataSource>)
    requires
        seeded_data_sources(s),
    ensures
        forall|i: int, j: int| 0 <= i < s.len() && 0 <= j < s.len() && i != j ==> #[trigger] s[i].id@ != #[trigger] s[j].id@,
{
    reveal_strlit("ds-1");
    reveal_strlit("ds-2");
    reveal_strlit("ds-3");
    assert("ds-1"@[3] != "ds-2"@[3]);
    assert("ds-1"@[3] != "ds-3"@[3]);
    assert("ds-2"@[3] != "ds-3"@[3]);
    assert forall|i: int, j: int| 0 <= i < s.len() && 0 <= j < s.len() && i != j implies #[trigger] s[i].id@ != #[trigger] s[j].id@ by {
        assert(i == 0 || i == 1 || i == 2);
        assert(j == 0 || j == 1 || j == 2);
    }
}

proof fn distinct_seeded_datasets(s: Seq<Dataset>)
    requires
        seeded_datasets(s),
    ensures
        forall|i: int, j: int| 0 <= i < s.len() && 0 <= j < s.len() && i != j ==> #[trigger] s[i].id@ != #[trigger] s[j].id@,
{
    reveal_strlit("tbl-users");
    reveal_strlit("tbl-events");
    reveal_strlit("tbl-purchases");
    reveal_strlit("tbl-subscriptions");
    assert("tbl-users"@.len() != "tbl-events"@.len());
    assert("tbl-users"@.len() != "tbl-purchases"@.len());
    assert("tbl-users"@.len() != "tbl-subscriptions"@.len());
    assert("tbl-events"@.len() != "tbl-purchases"@.len());
    assert("tbl-events"@.len() != "tbl-subscriptions"@.len());
    assert("tbl-purchases"@.len() != "tbl-subscriptions"@.len());
    assert forall|i: int, j: int| 0 <= i < s.len() && 0 <= j < s.len() && i != j implies #[trigger] s[i].id@ != #[trigger] s[j].id@ by {
        assert(i == 0 || i == 1 || i == 2 || i == 3);
        assert(j == 0 || j == 1 || j == 2 || j == 3);
    }
}

proof fn distinct_seeded_metrics(s: Seq<MetricDefinition>)
    requires
        seeded_metrics(s),
    ensures
        forall|i: int, j: int| 0 <= i < s.len() && 0 <= j < s.len() && i != j ==> #[trigger] s[i].id@ != #[trigger] s[j].id@,
{
    reveal_strlit("m-dau");
    reveal_strlit("m-wau");
    reveal_strlit("m-mau");
    reveal_strlit("m-mrr");
    reveal_strlit("m-signups");
    reveal_strlit("m-churn");
    reveal_strlit("m-arpu");
    reveal_strlit("m-conversion");
    assert("m-dau"@[2] != "m-wau"@[2]);
    assert("m-dau"@[2] != "m-mau"@[2]);
    assert("m-dau"@[2] != "m-mrr"@[2]);
    assert("m-dau"@.len() != "m-signups"@.len());
    assert("m-dau"@.len() != "m-churn"@.len());
    assert("m-dau"@.len() != "m-arpu"@.len());
    assert("m-dau"@.len() != "m-conversion"@.len());
    assert("m-wau"@[2] != "m-mau"@[2]);
    assert("m-wau"@[2] != "m-mrr"@[2]);
    assert("m-wau"@.len() != "m-signups"@.len());
    assert("m-wau"@.len() != "m-churn"@.len());
    assert("m-wau"@.len() != "m-arpu"@.len());
    assert("m-wau"@.len() != "m-conversion"@.len());
    assert("m-mau"@[3] != "m-mrr"@[3]);
    assert("m-mau"@.len() != "m-signups"@.len());
    assert("m-mau"@.len() != "m-churn"@.len());
    assert("m-mau"@.len() != "m-arpu"@.len());
    assert("m-mau"@.len() != "m-conversion"@.len());
    assert("m-mrr"@.len() != "m-signups"@.len());
    assert("m-mrr"@.len() != "m-churn"@.len());
    assert("m-mrr"@.len() != "m-arpu"@.len());
    assert("m-mrr"@.len() != "m-conversion"@.len());
    assert("m-signups"@.len() != "m-churn"@.len());
    assert("m-signups"@.len() != "m-arpu"@.len());
    assert("m-signups"@.len() != "m-conversion"@.len());
    assert("m-churn"@.len() != "m-arpu"@.len());
    assert("m-churn"@.len() != "m-conversion"@.len());
    assert("m-arpu"@.len() != "m-conversion"@.len());
    assert forall|i: int, j: int| 0 <= i < s.len() && 0 <= j < s.len() && i != j implies #[trigger] s[i].id@ != #[trigger] s[j].id@ by {
        assert(i == 0 || i == 1 || i == 2 || i == 3 || i == 4 || i == 5 || i == 6 || i == 7);
        assert(j == 0 || j == 1 || j == 2 || j == 3 || j == 4 || j == 5 || j == 6 || j == 7);
    }
}

proof fn distinct_seeded_segments(s: Seq<Segment>)
    requires
        seeded_segments(s),
    ensures
        forall|i: int, j: int| 0 <= i < s.len() && 0 <= j < s.len() && i != j ==> #[trigger] s[i].id@ != #[trigger] s[j].id@,
{
    reveal_strlit("seg-1");
    reveal_strlit("seg-2");
    reveal_strlit("seg-3");
    reveal_strlit("seg-4");
    reveal_strlit("seg-5");
    assert("seg-1"@[4] != "seg-2"@[4]);
    assert("seg-1"@[4] != "seg-3"@[4]);
    assert("seg-1"@[4] != "seg-4"@[4]);
    assert("seg-1"@[4] != "seg-5"@[4]);
    assert("seg-2"@[4] != "seg-3"@[4]);
    assert("seg-2"@[4] != "seg-4"@[4]);
    assert("seg-2"@[4] != "seg-5"@[4]);
    assert("seg-3"@[4] != "seg-4"@[4]);
    assert("seg-3"@[4] != "seg-5"@[4]);
    assert("seg-4"@[4] != "seg-5"@[4]);
    assert forall|i: int, j: int| 0 <= i < s.len() && 0 <= j < s.len() && i != j implies #[trigger] s[i].id@ != #[trigger] s[j].id@ by {
        assert(i == 0 || i == 1 || i == 2 || i == 3 || i == 4);
        assert(j == 0 || j == 1 || j == 2 || j == 3 || j == 4);
    }
}

proof fn distinct_seeded_funnels(s: Seq<Funnel>)
    requires
        seeded_funnels(s),
    ensures
        forall|i: int, j: int| 0 <= i < s.len() && 0 <= j < s.len() && i != j ==> #[trigger] s[i].name@ != #[trigger] s[j].name@,
{
    reveal_strlit("Signup to Purchase");
    reveal_strlit("Feature Adoption");
    assert("Signup to Purchase"@.len() != "Feature Adoption"@.len());
    assert forall|i: int, j: int| 0 <= i < s.len() && 0 <= j < s.len() && i != j implies #[trigger] s[i].name@ != #[trigger] s[j].name@ by {
        assert(i == 0 || i == 1);
        assert(j == 0 || j == 1);
    }
}

proof fn seeded_links(api: AnalyticsApi)
    requires
        seeded_data_sources(api.data_sources@),
        seeded_datasets(api.datasets@),
        seeded_metrics(api.metrics@),
        seeded_funnels(api.funnels@),
        seeded_dashboards(api.dashboards@),
    ensures
        datasets_have_sources(api.datasets@, api.data_sources@),
        metrics_have_datasets(api.metrics@, api.datasets@),
        widgets_have_metrics(api.dashboards@, api.metrics@),
        funnels_narrow(api.funnels@),
{
    let srcs = api.data_sources@;
    let ds = api.datasets@;
    let ms = api.metrics@;
    assert forall|k: int| 0 <= k < ds.len() implies exists|i: int|
        0 <= i < srcs.len() && #[trigger] srcs[i].id@ == (#[trigger] ds[k]).source_id@ by {
        assert(k == 0 || k == 1 || k == 2 || k == 3);
        if k == 0 || k == 3 {
            assert(srcs[0].id@ == ds[k].source_id@);
        } else if k == 1 {
            assert(srcs[1].id@ == ds[k].source_id@);
        } else {
            assert(srcs[2].id@ == ds[k].source_id@);
        }
    }
    assert forall|k: int| 0 <= k < ms.len() implies has_dataset(ds, (#[trigger] ms[k]).dataset_id@) by {
        assert(k == 0 || k == 1 || k == 2 || k == 3 || k == 4 || k == 5 || k == 6 || k == 7);
        if k == 3 || k == 5 {
            assert(ds[3].id@ == ms[k].dataset_id@);
        } else if k == 6 {
            assert(ds[2].id@ == ms[k].dataset_id@);
        } else {
            assert(ds[1].id@ == ms[k].dataset_id@);
        }
    }
    let dash = api.dashboards@;
    assert forall|d: int, w: int| 0 <= d < dash.len() && 0 <= w < dash[d].widgets@.len() implies
        ((#[trigger] dash[d].widgets@[w]).metric_id matches Some(m) ==> has_metric(ms, m@)) by {
        assert(d == 0);
        assert(w == 0 || w == 1 || w == 2 || w == 3);
        if w == 0 || w == 1 {
            assert(ms[0].id@ == "m-dau"@);
        } else if w == 2 {
            assert(ms[4].id@ == "m-signups"@);
        }
    }
    let fs = api.funnels@;
    assert forall|i: int| 0 <= i < fs.len() implies {
        &&& (#[trigger] fs[i]).steps@.len() > 0
        &&& forall|k: int| 0 <= k < fs[i].steps@.len() ==> #[trigger] fs[i].steps@[k].1 > 0
        &&& forall|k: int| 0 < k < fs[i].steps@.len() ==> #[trigger] fs[i].steps@[k].1 < fs[i].steps@[k - 1].1
    } by {
        assert(i == 0 || i == 1);
        assert forall|k: int| 0 <= k < fs[i].steps@.len() implies #[trigger] fs[i].steps@[k].1 > 0 by {
            assert(k == 0 || k == 1 || k == 2 || k == 3);
        }
        assert forall|k: int| 0 < k < fs[i].steps@.len() implies #[trigger] fs[i].steps@[k].1 < fs[i].steps@[k - 1].1 by {
            assert(k == 1 || k == 2 || k == 3);
        }
    }
}

impl AnalyticsApi {
    /// The demo content: 3 data sources, 4 datasets, 8 metrics, 5 segments,
    /// 2 funnels, 1 published dashboard with 4 widgets, an empty audit log and
    /// the default policy. Identifiers are distinct within each list, every
    /// dataset, metric and widget refers to a record that exists, and every
    /// funnel narrows from step to step.
    pub fn seeded() -> (api: Self)
        ensures
            seeded_data_sources(api.data_sources@),
            seeded_datasets(api.datasets@),
            seeded_metrics(api.metrics@),
            seeded_segments(api.segments@),
            seeded_funnels(api.funnels@),
            seeded_dashboards(api.dashboards@),
            api.audit_log@.len() == 0,
            is_default_policy(api.policy),
            forall|i: int, j: int| 0 <= i < 3 && 0 <= j < 3 && i != j
                ==> #[trigger] api.data_sources@[i].id@ != #[trigger] api.data_sources@[j].id@,
            forall|i: int, j: int| 0 <= i < 4 && 0 <= j < 4 && i != j
                ==> #[trigger] api.datasets@[i].id@ != #[trigger] api.datasets@[j].id@,
            forall|i: int, j: int| 0 <= i < 8 && 0 <= j < 8 && i != j
                ==> #[trigger] api.metrics@[i].id@ != #[trigger] api.metrics@[j].id@,
            forall|i: int, j: int| 0 <= i < 5 && 0 <= j < 5 && i != j
                ==> #[trigger] api.segments@[i].id@ != #[trigger] api.segments@[j].id@,
            forall|i: int, j: int| 0 <= i < 2 && 0 <= j < 2 && i != j
                ==> #[trigger] api.funnels@[i].name@ != #[trigger] api.funnels@[j].name@,
            datasets_have_sources(api.datasets@, api.data_sources@),
            metrics_have_datasets(api.metrics@, api.datasets@),
            widgets_have_metrics(api.dashboards@, api.metrics@),
            funnels_narrow(api.funnels@),
    {
        let api = AnalyticsApi {
            data_sources: seeded_data_sources_list(),
            datasets: seeded_datasets_list(),
            metrics: seeded_metrics_list(),
            segments: seeded_segments_list(),
            funnels: seeded_funnels_list(),
            dashboards: seeded_dashboards_list(),
            audit_log: Vec::new(),
            policy: Policy::default(),
        };
        proof {
            distinct_seeded_data_sources(api.data_sources@);
            distinct_seeded_datasets(api.datasets@);
            distinct_seeded_metrics(api.metrics@);
            distinct_seeded_segments(api.segments@);
            distinct_seeded_funnels(api.funnels@);
            seeded_links(api);
        }
        api
    }
}

} // verus!
