//! Calendar schedules of metric series and forecasts, anomalies found in a
//! metric, and raw events.
use vstd::prelude::*;
use crate::api::AnalyticsApi;
use crate::catalog::metric_name_or_id;
use crate::domain::{Anomaly, Event};
use crate::inputs::{EventsInput, ForecastInput, QueryMetricInput};
use crate::stamps::{is_calendar_day, shifted_date_label, calendar_date_text, unix_epoch_day, is_utc_rfc3339, today_day_number, now_rfc3339};
use crate::text::{owned, str_is, decimal, decimal_text};

verus! {

/// Whether `d` numbers a date that the calendar can hold.
pub fn calendar_day_in_range(d: i64) -> (b: bool)
    ensures
        b == is_calendar_day(d as int),
{
    -95746129 <= d && d <= 95745399
}

/// Days between two points of a series: 7 for "weekly", 30 for "monthly",
/// 1 otherwise.
pub open spec fn step_of(granularity: Seq<char>) -> u32 {
    if granularity == "weekly"@ {
        7
    } else if granularity == "monthly"@ {
        30
    } else {
        1
    }
}

pub fn granularity_step(granularity: &str) -> (step: u32)
    ensures
        step == step_of(granularity@),
{
    if str_is(granularity, "weekly") {
        7
    } else if str_is(granularity, "monthly") {
        30
    } else {
        1
    }
}

/// `s` lists the days back at which a series over `days` days is sampled
/// every `step` days: it starts `days` back and moves `step` days forward at
/// a time while it stays in the past.
pub open spec fn is_sampling(s: Seq<u32>, days: int, step: int) -> bool {
    &&& (s.len() == 0 <==> days == 0)
    &&& s.len() > 0 ==> s[0] == days && s.last() <= step
    &&& forall|k: int| 0 <= k < s.len() ==> #[trigger] s[k] > 0
    &&& forall|k: int| 0 <= k < s.len() - 1 ==> #[trigger] s[k + 1] + step == s[k]
}

/// The days back at which a series over `days` days is sampled every `step`
/// days.
pub fn sample_offsets(days: u32, step: u32) -> (r: Vec<u32>)
    requires
        step > 0,
    ensures
        is_sampling(r@, days as int, step as int),
{
    let mut r: Vec<u32> = Vec::new();
    let mut i: u32 = days;
    while i > 0
        invariant
            step > 0,
            i <= days,
            r@.len() == 0 ==> i == days,
            r@.len() > 0 ==> r@[0] == days,
            r@.len() > 0 && i > 0 ==> r@.last() == i + step,
            r@.len() > 0 && i == 0 ==> r@.last() <= step,
            forall|k: int| 0 <= k < r@.len() ==> #[trigger] r@[k] > 0,
            forall|k: int| 0 <= k < r@.len() - 1 ==> #[trigger] r@[k + 1] + step == r@[k],
        decreases i,
    {
        r.push(i);
        if i <= step {
            i = 0;
        } else {
            i = i - step;
        }
    }
    r
}

/// The sampled points of a series over the last `days` days at
/// `granularity`, each as its number of days back and its date's text,
/// counted back from the day numbered `today`.
pub fn series_dates(today: i32, days: u32, granularity: &str) -> (r: Vec<(u32, String)>)
    requires
        is_calendar_day(today as int),
        is_calendar_day(today - days),
    ensures
        is_sampling(r@.map_values(|p: (u32, String)| p.0), days as int, step_of(granularity@) as int),
        forall|k: int| 0 <= k < r@.len() ==> (#[trigger] r@[k]).1@ == calendar_date_text(today - r@[k].0),
{
    let step = granularity_step(granularity);
    let offsets = sample_offsets(days, step);
    let mut r: Vec<(u32, String)> = Vec::new();
    let mut k: usize = 0;
    while k < offsets.len()
        invariant
            is_calendar_day(today as int),
            is_calendar_day(today - days),
            is_sampling(offsets@, days as int, step as int),
            k <= offsets@.len(),
            r@.len() == k,
            forall|j: int| 0 <= j < k ==> (#[trigger] r@[j]).0 == offsets@[j],
            forall|j: int| 0 <= j < k ==> (#[trigger] r@[j]).1@ == calendar_date_text(today - r@[j].0),
        decreases offsets@.len() - k,
    {
        let back = offsets[k];
        proof {
            sampling_within(offsets@, days as int, step as int);
        }
        let label = shifted_date_label(today, -(back as i64));
        r.push((back, label));
        k = k + 1;
    }
    assert(r@.map_values(|p: (u32, String)| p.0) =~= offsets@);
    r
}

/// The dates of the `horizon` days after the day numbered `today`.
pub fn forecast_dates(today: i32, horizon: u32) -> (r: Vec<String>)
    requires
        is_calendar_day(today as int),
        is_calendar_day(today + horizon),
    ensures
        r@.len() == horizon,
        forall|k: int| 0 <= k < horizon ==> (#[trigger] r@[k])@ == calendar_date_text(today + k + 1),
{
    let mut r: Vec<String> = Vec::new();
    let mut k: u32 = 0;
    while k < horizon
        invariant
            is_calendar_day(today as int),
            is_calendar_day(today + horizon),
            k <= horizon,
            r@.len() == k,
            forall|j: int| 0 <= j < k ==> (#[trigger] r@[j])@ == calendar_date_text(today + j + 1),
        decreases horizon - k,
    {
        r.push(shifted_date_label(today, k as i64 + 1));
        k = k + 1;
    }
    r
}

/// Every point of a sampling lies between one day and `days` days back.
pub proof fn sampling_within(s: Seq<u32>, days: int, step: int)
    requires
        step > 0,
        is_sampling(s, days, step),
    ensures
        forall|k: int| 0 <= k < s.len() ==> 1 <= #[trigger] s[k] <= days,
{
    assert forall|k: int| 0 <= k < s.len() implies 1 <= #[trigger] s[k] <= days by {
        sampling_prefix_bound(s, days, step, k);
    }
}

proof fn sampling_prefix_bound(s: Seq<u32>, days: int, step: int, k: int)
    requires
        step > 0,
        is_sampling(s, days, step),
        0 <= k < s.len(),
    ensures
        s[k] <= days,
    decreases k,
{
    if k > 0 {
        sampling_prefix_bound(s, days, step, k - 1);
        assert(s[k - 1 + 1] + step == s[k - 1]);
    }
}

/// The base level of a metric's series, in hundredths.
pub open spec fn series_base(metric_id: Seq<char>) -> u64 {
    if metric_id == "m-dau"@ { 420000 }
    else if metric_id == "m-wau"@ { 1200000 }
    else if metric_id == "m-mau"@ { 3200000 }
    else if metric_id == "m-mrr"@ { 8500000 }
    else if metric_id == "m-signups"@ { 15000 }
    else if metric_id == "m-churn"@ { 320 }
    else if metric_id == "m-arpu"@ { 4200 }
    else if metric_id == "m-conversion"@ { 850 }
    else { 100000 }
}

pub fn series_base_hundredths(metric_id: &str) -> (b: u64)
    ensures
        b == series_base(metric_id@),
        metric_id@ == "m-dau"@ ==> b == 420000,
        metric_id@ == "m-wau"@ ==> b == 1200000,
        metric_id@ == "m-mau"@ ==> b == 3200000,
        metric_id@ == "m-mrr"@ ==> b == 8500000,
        metric_id@ == "m-signups"@ ==> b == 15000,
        metric_id@ == "m-churn"@ ==> b == 320,
        metric_id@ == "m-arpu"@ ==> b == 4200,
        metric_id@ == "m-conversion"@ ==> b == 850,
        metric_id@ != "m-dau"@ && metric_id@ != "m-wau"@ && metric_id@ != "m-mau"@ && metric_id@ != "m-mrr"@
            && metric_id@ != "m-signups"@ && metric_id@ != "m-churn"@ && metric_id@ != "m-arpu"@
            && metric_id@ != "m-conversion"@ ==> b == 100000,
{
    proof {
        reveal_strlit("m-dau");
        reveal_strlit("m-wau");
        reveal_strlit("m-mau");
        reveal_strlit("m-mrr");
        reveal_strlit("m-signups");
        reveal_strlit("m-churn");
        reveal_strlit("m-arpu");
        reveal_strlit("m-conversion");
        assert("m-dau"@[2] != "m-wau"@[2]);
        assert("m-dau"@[2] != "m-mau"@[2]);
        assert("m-dau"@[2] != "m-mrr"@[2]);
        assert("m-dau"@.len() != "m-signups"@.len());
        assert("m-dau"@.len() != "m-churn"@.len());
        assert("m-dau"@.len() != "m-arpu"@.len());
        assert("m-dau"@.len() != "m-conversion"@.len());
        assert("m-wau"@[2] != "m-mau"@[2]);
        assert("m-wau"@[2] != "m-mrr"@[2]);
        assert("m-wau"@.len() != "m-signups"@.len());
        assert("m-wau"@.len() != "m-churn"@.len());
        assert("m-wau"@.len() != "m-arpu"@.len());
        assert("m-wau"@.len() != "m-conversion"@.len());
        assert("m-mau"@[3] != "m-mrr"@[3]);
        assert("m-mau"@.len() != "m-signups"@.len());
        assert("m-mau"@.len() != "m-churn"@.len());
        assert("m-mau"@.len() != "m-arpu"@.len());
        assert("m-mau"@.len() != "m-conversion"@.len());
        assert("m-mrr"@.len() != "m-signups"@.len());
        assert("m-mrr"@.len() != "m-churn"@.len());
        assert("m-mrr"@.len() != "m-arpu"@.len());
        assert("m-mrr"@.len() != "m-conversion"@.len());
        assert("m-signups"@.len() != "m-churn"@.len());
        assert("m-signups"@.len() != "m-arpu"@.len());
        assert("m-signups"@.len() != "m-conversion"@.len());
        assert("m-churn"@.len() != "m-arpu"@.len());
        assert("m-churn"@.len() != "m-conversion"@.len());
        assert("m-arpu"@.len() != "m-conversion"@.len());
    }
    if str_is(metric_id, "m-dau") { 420000 }
    else if str_is(metric_id, "m-wau") { 1200000 }
    else if str_is(metric_id, "m-mau") { 3200000 }
    else if str_is(metric_id, "m-mrr") { 8500000 }
    else if str_is(metric_id, "m-signups") { 15000 }
    else if str_is(metric_id, "m-churn") { 320 }
    else if str_is(metric_id, "m-arpu") { 4200 }
    else if str_is(metric_id, "m-conversion") { 850 }
    else { 100000 }
}

/// The level a metric's forecast starts from, in hundredths.
pub open spec fn forecast_base(metric_id: Seq<char>) -> u64 {
    if metric_id == "m-dau"@ { 440000 }
    else if metric_id == "m-mrr"@ { 8800000 }
    else if metric_id == "m-signups"@ { 16000 }
    else { 100000 }
}

pub fn forecast_base_hundredths(metric_id: &str) -> (b: u64)
    ensures
        b == forecast_base(metric_id@),
        metric_id@ == "m-dau"@ ==> b == 440000,
        metric_id@ == "m-mrr"@ ==> b == 8800000,
        metric_id@ == "m-signups"@ ==> b == 16000,
        metric_id@ != "m-dau"@ && metric_id@ != "m-mrr"@ && metric_id@ != "m-signups"@ ==> b == 100000,
{
    proof {
        reveal_strlit("m-dau");
        reveal_strlit("m-mrr");
        reveal_strlit("m-signups");
        assert("m-dau"@[2] != "m-mrr"@[2]);
        assert("m-dau"@.len() != "m-signups"@.len());
        assert("m-mrr"@.len() != "m-signups"@.len());
    }
    if str_is(metric_id, "m-dau") { 440000 }
    else if str_is(metric_id, "m-mrr") { 8800000 }
    else if str_is(metric_id, "m-signups") { 16000 }
    else { 100000 }
}

impl QueryMetricInput {
    /// The number of days asked for, 30 when absent.
    pub fn days_or_default(&self) -> (d: u32)
        ensures
            d == match self.days { Some(n) => n, None => 30u32 },
    {
        match self.days {
            Some(n) => n,
            None => 30,
        }
    }

    /// The granularity asked for, "daily" when absent.
    pub fn granularity_or_default(&self) -> (g: String)
        ensures
            g@ == match self.granularity { Some(t) => t@, None => "daily"@ },
    {
        match &self.granularity {
            Some(t) => t.clone(),
            None => owned("daily"),
        }
    }
}

impl ForecastInput {
    /// The number of days to forecast, 14 when absent.
    pub fn horizon_or_default(&self) -> (h: u32)
        ensures
            h == match self.horizon_days { Some(n) => n, None => 14u32 },
    {
        match self.horizon_days {
            Some(n) => n,
            None => 14,
        }
    }
}

/// The anomalies reported for a metric: a drop three days before `today`
/// and a spike seven days before it.
pub open spec fn anomalies_reported(r: Seq<Anomaly>, name: Seq<char>, today: int) -> bool {
    &&& r.len() == 2
    &&& r[0].date@ == calendar_date_text(today - 3)
    &&& r[0].metric_name@ == name
    &&& r[0].expected == 4200 && r[0].actual == 3100
    &&& r[0].severity@ == "high"@
    &&& r[1].date@ == calendar_date_text(today - 7)
    &&& r[1].metric_name@ == name
    &&& r[1].expected == 4200 && r[1].actual == 4800
    &&& r[1].severity@ == "low"@
}

/// `r` is the anomaly report of the metric named `name` as of some day from
/// 1970-01-01 on.
pub open spec fn reported_on_some_day(r: Seq<Anomaly>, name: Seq<char>) -> bool {
    exists|today: int|
        unix_epoch_day() <= today && is_calendar_day(today) && #[trigger] anomalies_reported(r, name, today)
}

/// The event names that a query without a filter cycles through.
pub open spec fn cycled_event_name(k: int) -> Seq<char> {
    if k % 4 == 0 {
        "page_view"@
    } else if k % 4 == 1 {
        "signup"@
    } else if k % 4 == 2 {
        "purchase"@
    } else {
        "feature_used"@
    }
}

fn cycled_name(k: usize) -> (s: String)
    ensures
        s@ == cycled_event_name(k as int),
{
    if k % 4 == 0 {
        owned("page_view")
    } else if k % 4 == 1 {
        owned("signup")
    } else if k % 4 == 2 {
        owned("purchase")
    } else {
        owned("feature_used")
    }
}

/// Event `k` of a query: its name (the filter, or the cycle of names), its
/// user "user-{1000 + k}" and its page and source properties.
pub open spec fn event_reported(e: Event, filter: Option<String>, k: int) -> bool {
    &&& e.event_name@ == match filter {
        Some(n) => n@,
        None => cycled_event_name(k),
    }
    &&& e.user_id@ == "user-"@ + decimal_text((1000 + k) as nat)
    &&& is_utc_rfc3339(e.timestamp@)
    &&& e.properties@.len() == 2
    &&& e.properties@[0].0@ == "page"@ && e.properties@[0].1@ == "/home"@
    &&& e.properties@[1].0@ == "source"@ && e.properties@[1].1@ == "organic"@
}

impl AnalyticsApi {
    /// The anomalies of a metric as of the day numbered `today`.
    pub fn anomalies_on(&self, metric_id: &str, today: i32) -> (r: Vec<Anomaly>)
        requires
            is_calendar_day(today as int),
            is_calendar_day(today - 7),
        ensures
            anomalies_reported(r@, metric_name_or_id(self.metrics@, metric_id@), today as int),
    {
        let name = self.metric_display_name(metric_id);
        let first = Anomaly {
            date: shifted_date_label(today, -3),
            metric_name: name.clone(),
            expected: 4200,
            actual: 3100,
            severity: owned("high"),
        };
        let second = Anomaly {
            date: shifted_date_label(today, -7),
            metric_name: name,
            expected: 4200,
            actual: 4800,
            severity: owned("low"),
        };
        vec![first, second]
    }

    /// The anomalies of a metric as of today.
    pub fn detect_anomalies_for(&self, metric_id: &str) -> (r: Vec<Anomaly>)
        ensures
            reported_on_some_day(r@, metric_name_or_id(self.metrics@, metric_id@)),
    {
        let today = today_day_number();
        let list = self.anomalies_on(metric_id, today);
        assert(reported_on_some_day(list@, metric_name_or_id(self.metrics@, metric_id@))) by {
            assert(anomalies_reported(list@, metric_name_or_id(self.metrics@, metric_id@), today as int));
        }
        list
    }
}

/// The raw events that a query returns: `limit` of them (10 when absent),
/// each stamped with the time it was made.
pub fn raw_events(input: &EventsInput) -> (r: Vec<Event>)
    ensures
        r@.len() == match input.limit { Some(n) => n, None => 10u32 },
        forall|k: int| 0 <= k < r@.len() ==> event_reported(#[trigger] r@[k], input.event_name, k),
{
    let limit: u32 = match input.limit {
        Some(n) => n,
        None => 10,
    };
    let mut r: Vec<Event> = Vec::new();
    let mut k: u32 = 0;
    while k < limit
        invariant
            k <= limit,
            limit == match input.limit { Some(n) => n, None => 10u32 },
            r@.len() == k,
            forall|j: int| 0 <= j < k ==> event_reported(#[trigger] r@[j], input.event_name, j),
        decreases limit - k,
    {
        let name = match &input.event_name {
            Some(n) => n.clone(),
            None => cycled_name(k as usize),
        };
        let mut user = owned("user-");
        user.append(decimal(1000 + k as u64).as_str());
        let e = Event {
            timestamp: now_rfc3339(),
            event_name: name,
            user_id: user,
            properties: vec![(owned("page"), owned("/home")), (owned("source"), owned("organic"))],
        };
        r.push(e);
        k = k + 1;
    }
    r
}

} // verus!
