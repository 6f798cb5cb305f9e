//! Breakdowns, cohorts, funnels and the insight summary.
use vstd::prelude::*;
use crate::api::AnalyticsApi;
use crate::catalog::{is_first_funnel, has_funnel, metric_name_or_id};
use crate::domain::{BreakdownResult, CohortResult, CohortRow, Funnel, FunnelResult, FunnelStep, InsightSummary, SegmentData};
use crate::text::{owned, str_is};

verus! {

/// The segments (label and share in whole percent) that a breakdown by
/// `dimension` reports.
pub open spec fn breakdown_table(dimension: Seq<char>) -> Seq<(Seq<char>, nat)> {
    if dimension == "plan"@ {
        seq![("Free"@, 58 as nat), ("Pro"@, 28 as nat), ("Enterprise"@, 14 as nat)]
    } else if dimension == "country"@ {
        seq![("US"@, 42 as nat), ("UK"@, 18 as nat), ("DE"@, 12 as nat), ("Other"@, 28 as nat)]
    } else if dimension == "device"@ {
        seq![("Desktop"@, 62 as nat), ("Mobile"@, 30 as nat), ("Tablet"@, 8 as nat)]
    } else {
        seq![("Segment A"@, 60 as nat), ("Segment B"@, 40 as nat)]
    }
}

/// The sum of the shares of a list of segments.
pub open spec fn percent_total(s: Seq<SegmentData>) -> int
    decreases s.len(),
{
    if s.len() == 0 {
        0
    } else {
        percent_total(s.drop_last()) + s.last().percentage
    }
}

/// `segments` lists exactly the rows of `table`, each with its value equal
/// to its share.
pub open spec fn segments_match(segments: Seq<SegmentData>, table: Seq<(Seq<char>, nat)>) -> bool {
    &&& segments.len() == table.len()
    &&& forall|k: int|
        0 <= k < table.len() ==> {
            &&& (#[trigger] segments[k]).label@ == table[k].0
            &&& segments[k].value == table[k].1
            &&& segments[k].percentage == table[k].1
        }
}

impl AnalyticsApi {
    /// The breakdown of a metric by `dimension`; every breakdown's shares
    /// add up to 100.
    pub fn generate_breakdown(&self, metric_id: &str, dimension: &str) -> (r: Vec<SegmentData>)
        ensures
            segments_match(r@, breakdown_table(dimension@)),
            percent_total(r@) == 100,
            dimension@ == "plan"@ ==> {
                &&& r@.len() == 3
                &&& r@[0].label@ == "Free"@ && r@[0].value == 58 && r@[0].percentage == 58
                &&& r@[1].label@ == "Pro"@ && r@[1].value == 28 && r@[1].percentage == 28
                &&& r@[2].label@ == "Enterprise"@ && r@[2].value == 14 && r@[2].percentage == 14
            },
            dimension@ == "country"@ ==> {
                &&& r@.len() == 4
                &&& r@[0].label@ == "US"@ && r@[0].value == 42 && r@[0].percentage == 42
                &&& r@[1].label@ == "UK"@ && r@[1].value == 18 && r@[1].percentage == 18
                &&& r@[2].label@ == "DE"@ && r@[2].value == 12 && r@[2].percentage == 12
                &&& r@[3].label@ == "Other"@ && r@[3].value == 28 && r@[3].percentage == 28
            },
            dimension@ == "device"@ ==> {
                &&& r@.len() == 3
                &&& r@[0].label@ == "Desktop"@ && r@[0].value == 62 && r@[0].percentage == 62
                &&& r@[1].label@ == "Mobile"@ && r@[1].value == 30 && r@[1].percentage == 30
                &&& r@[2].label@ == "Tablet"@ && r@[2].value == 8 && r@[2].percentage == 8
            },
            dimension@ != "plan"@ && dimension@ != "country"@ && dimension@ != "device"@ ==> {
                &&& r@.len() == 2
                &&& r@[0].label@ == "Segment A"@ && r@[0].value == 60 && r@[0].percentage == 60
                &&& r@[1].label@ == "Segment B"@ && r@[1].value == 40 && r@[1].percentage == 40
            },
    {
        proof {
            reveal_strlit("plan");
            reveal_strlit("country");
            reveal_strlit("device");
            assert("plan"@.len() == 4 && "country"@.len() == 7 && "device"@.len() == 6);
        }
        let r = if str_is(dimension, "plan") {
            vec![SegmentData { label: owned("Free"), value: 58, percentage: 58 }, SegmentData { label: owned("Pro"), value: 28, percentage: 28 }, SegmentData { label: owned("Enterprise"), value: 14, percentage: 14 }]
        } else if str_is(dimension, "country") {
            vec![SegmentData { label: owned("US"), value: 42, percentage: 42 }, SegmentData { label: owned("UK"), value: 18, percentage: 18 }, SegmentData { label: owned("DE"), value: 12, percentage: 12 }, SegmentData { label: owned("Other"), value: 28, percentage: 28 }]
        } else if str_is(dimension, "device") {
            vec![SegmentData { label: owned("Desktop"), value: 62, percentage: 62 }, SegmentData { label: owned("Mobile"), value: 30, percentage: 30 }, SegmentData { label: owned("Tablet"), value: 8, percentage: 8 }]
        } else {
            vec![SegmentData { label: owned("Segment A"), value: 60, percentage: 60 }, SegmentData { label: owned("Segment B"), value: 40, percentage: 40 }]
        };
        proof {
            reveal_with_fuel(percent_total, 5);
        }
        r
    }

    /// The breakdown of a metric by `dimension`, under the metric's display
    /// name.
    pub fn metric_breakdown(&self, metric_id: &str, dimension: &str) -> (r: BreakdownResult)
        ensures
            r.metric_name@ == metric_name_or_id(self.metrics@, metric_id@),
            r.dimension@ == dimension@,
            segments_match(r.segments@, breakdown_table(dimension@)),
            percent_total(r.segments@) == 100,
    {
        let segments = self.generate_breakdown(metric_id, dimension);
        BreakdownResult {
            metric_name: self.metric_display_name(metric_id),
            dimension: dimension.to_owned(),
            segments,
        }
    }

    /// Weekly retention of the four most recent cohorts, in whole percent.
    /// Each cohort starts at 100% and its retention never rises from one
    /// period to the next.
    pub fn generate_cohort(&self) -> (r: CohortResult)
        ensures
            r.cohort_size@ == "weekly"@,
            r.cohorts@.len() == 4,
            r.cohorts@[0].cohort@ == "Week -4"@ && r.cohorts@[0].size == 380
                && r.cohorts@[0].retention@ == seq![100u64, 62, 48, 41],
            r.cohorts@[1].cohort@ == "Week -3"@ && r.cohorts@[1].size == 410
                && r.cohorts@[1].retention@ == seq![100u64, 65, 50],
            r.cohorts@[2].cohort@ == "Week -2"@ && r.cohorts@[2].size == 395
                && r.cohorts@[2].retention@ == seq![100u64, 60],
            r.cohorts@[3].cohort@ == "Week -1"@ && r.cohorts@[3].size == 430
                && r.cohorts@[3].retention@ == seq![100u64],
            forall|k: int| 0 <= k < 4 ==> retention_settles(#[trigger] r.cohorts@[k].retention@),
    {
        let r = CohortResult {
            cohort_size: owned("weekly"),
            cohorts: vec![
                CohortRow { cohort: owned("Week -4"), size: 380, retention: vec![100, 62, 48, 41] },
                CohortRow { cohort: owned("Week -3"), size: 410, retention: vec![100, 65, 50] },
                CohortRow { cohort: owned("Week -2"), size: 395, retention: vec![100, 60] },
                CohortRow { cohort: owned("Week -1"), size: 430, retention: vec![100] },
            ],
        };
        assert forall|k: int| 0 <= k < 4 implies retention_settles(#[trigger] r.cohorts@[k].retention@) by {
            if k == 0 {
                assert(r.cohorts@[0].retention@ == seq![100u64, 62, 48, 41]);
            } else if k == 1 {
                assert(r.cohorts@[1].retention@ == seq![100u64, 65, 50]);
            } else if k == 2 {
                assert(r.cohorts@[2].retention@ == seq![100u64, 60]);
            } else {
                assert(r.cohorts@[3].retention@ == seq![100u64]);
            }
        }
        r
    }

    /// The analysis of the first funnel named `funnel_name`, if there is one.
    pub fn analyze_funnel(&self, funnel_name: &str) -> (r: Option<FunnelResult>)
        requires
            forall|i: int| #[trigger] is_first_funnel(self.funnels@, funnel_name@, i)
                ==> self.funnels@[i].steps@.len() > 0,
        ensures
            r is None <==> !has_funnel(self.funnels@, funnel_name@),
            r matches Some(res) ==> exists|i: int|
                is_first_funnel(self.funnels@, funnel_name@, i) && funnel_reported(self.funnels@[i], res),
    {
        match self.find_funnel(funnel_name) {
            Some(f) => {
                proof {
                    let i = choose|i: int| is_first_funnel(self.funnels@, funnel_name@, i) && *f == self.funnels@[i];
                    assert(is_first_funnel(self.funnels@, funnel_name@, i));
                }
                Some(funnel_report(f))
            }
            None => None,
        }
    }

    /// Why a metric changed: the size of the change, the dimension that drove
    /// it, the secondary drivers, the likely cause and the confidence (in
    /// hundredths).
    pub fn explain_change(&self, metric_id: &str) -> (r: ChangeExplanation)
        ensures
            r.metric@ == metric_name_or_id(self.metrics@, metric_id@),
            r.change@ == "-26% drop"@,
            r.primary_driver@ == "Mobile traffic down 40% (device dimension)"@,
            r.secondary_drivers@.len() == 2,
            r.secondary_drivers@[0]@ == "US region down 15%"@,
            r.secondary_drivers@[1]@ == "Free tier users down 30%"@,
            r.likely_cause@ == "Mobile app crash on iOS 18.2 (deployed 3 days ago)"@,
            r.confidence_hundredths == 82,
    {
        ChangeExplanation {
            metric: self.metric_display_name(metric_id),
            change: owned("-26% drop"),
            primary_driver: owned("Mobile traffic down 40% (device dimension)"),
            secondary_drivers: vec![owned("US region down 15%"), owned("Free tier users down 30%")],
            likely_cause: owned("Mobile app crash on iOS 18.2 (deployed 3 days ago)"),
            confidence_hundredths: 82,
        }
    }

    /// Highlights, anomalies and recommendations drawn from the data.
    pub fn generate_insight_summary(&self) -> (r: InsightSummary)
        ensures
            r.highlights@.len() == 3,
            r.highlights@[0]@ == "DAU grew 8% week-over-week, driven by organic signups"@,
            r.highlights@[1]@ == "MRR reached $88K, up from $82K last month"@,
            r.highlights@[2]@ == "Enterprise segment grew 12% (156 → 175 accounts)"@,
            r.anomalies@.len() == 2,
            r.anomalies@[0]@ == "DAU dropped 26% on May 22 — correlated with iOS app crash"@,
            r.anomalies@[1]@ == "Churn rate spiked to 5.1% for free tier users"@,
            r.recommendations@.len() == 3,
            r.recommendations@[0]@ == "Investigate iOS crash — 40% of mobile DAU affected"@,
            r.recommendations@[1]@ == "Free tier churn suggests onboarding friction — review funnel"@,
            r.recommendations@[2]@ == "Enterprise growth strong — consider dedicated success team"@,
    {
        InsightSummary {
            highlights: vec![owned("DAU grew 8% week-over-week, driven by organic signups"), owned("MRR reached $88K, up from $82K last month"), owned("Enterprise segment grew 12% (156 → 175 accounts)")],
            anomalies: vec![owned("DAU dropped 26% on May 22 — correlated with iOS app crash"), owned("Churn rate spiked to 5.1% for free tier users")],
            recommendations: vec![owned("Investigate iOS crash — 40% of mobile DAU affected"), owned("Free tier churn suggests onboarding friction — review funnel"), owned("Enterprise growth strong — consider dedicated success team")],
        }
    }
}

/// The summary of a run of the saved report `report_name`.
pub open spec fn report_summary_text(report_name: Seq<char>) -> Seq<char> {
    "Report '"@ + report_name + "' executed successfully. Contains aggregated metrics for the last 30 days."@
}

pub fn report_summary(report_name: &str) -> (s: String)
    ensures
        s@ == report_summary_text(report_name@),
{
    let mut s = owned("Report '");
    s.append(report_name);
    s.append("' executed successfully. Contains aggregated metrics for the last 30 days.");
    s
}

/// Retention that starts at 100% and never rises.
pub open spec fn retention_settles(r: Seq<u64>) -> bool {
    &&& r.len() > 0
    &&& r[0] == 100
    &&& forall|a: int, b: int| #![trigger r[a], r[b]] 0 <= a <= b < r.len() ==> r[b] <= r[a]
}

/// An explanation of a change in a metric.
pub struct ChangeExplanation {
    pub metric: String,
    pub change: String,
    pub primary_driver: String,
    pub secondary_drivers: Vec<String>,
    pub likely_cause: String,
    pub confidence_hundredths: u64,
}

/// `res` is the analysis of funnel `f`: each step with its count and the
/// count of the step before it (none for the first step), and the counts of
/// the first and last steps.
pub open spec fn funnel_reported(f: Funnel, res: FunnelResult) -> bool {
    let steps = f.steps@;
    &&& res.name@ == f.name@
    &&& res.steps@.len() == steps.len()
    &&& forall|k: int|
        0 <= k < steps.len() ==> {
            &&& (#[trigger] res.steps@[k]).name@ == steps[k].0@
            &&& res.steps@[k].count == steps[k].1
            &&& res.steps@[k].previous_count == if k == 0 { None } else { Some(steps[k - 1].1) }
        }
    &&& res.first_count == steps[0].1
    &&& res.last_count == steps.last().1
}

/// The analysis of funnel `f`.
pub fn funnel_report(f: &Funnel) -> (r: FunnelResult)
    requires
        f.steps@.len() > 0,
    ensures
        funnel_reported(*f, r),
{
    let mut steps: Vec<FunnelStep> = Vec::new();
    let n = f.steps.len();
    let mut i: usize = 0;
    while i < n
        invariant
            n == f.steps@.len(),
            i <= n,
            steps@.len() == i,
            forall|k: int|
                0 <= k < i ==> {
                    &&& (#[trigger] steps@[k]).name@ == f.steps@[k].0@
                    &&& steps@[k].count == f.steps@[k].1
                    &&& steps@[k].previous_count == if k == 0 { None } else { Some(f.steps@[k - 1].1) }
                },
        decreases n - i,
    {
        let previous = if i == 0 { None } else { Some(f.steps[i - 1].1) };
        steps.push(FunnelStep { name: f.steps[i].0.clone(), count: f.steps[i].1, previous_count: previous });
        i = i + 1;
    }
    FunnelResult { name: f.name.clone(), steps, first_count: f.steps[0].1, last_count: f.steps[n - 1].1 }
}

} // verus!
