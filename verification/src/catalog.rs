//! Looking records up in the catalog by their identifiers.
use vstd::prelude::*;
use crate::api::AnalyticsApi;
use crate::domain::{Dataset, Funnel, MetricDefinition, Segment};
use crate::text::str_is;

verus! {

/// `i` is the first position of `s` whose id is `key`.
pub open spec fn is_first_dataset(s: Seq<Dataset>, key: Seq<char>, i: int) -> bool {
    &&& 0 <= i < s.len()
    &&& s[i].id@ == key
    &&& forall|j: int| 0 <= j < i ==> #[trigger] s[j].id@ != key
}

/// Some element of `s` has id `key`.
pub open spec fn has_dataset(s: Seq<Dataset>, key: Seq<char>) -> bool {
    exists|i: int| 0 <= i < s.len() && #[trigger] s[i].id@ == key
}

/// `i` is the first position of `s` whose id is `key`.
pub open spec fn is_first_metric(s: Seq<MetricDefinition>, key: Seq<char>, i: int) -> bool {
    &&& 0 <= i < s.len()
    &&& s[i].id@ == key
    &&& forall|j: int| 0 <= j < i ==> #[trigger] s[j].id@ != key
}

/// Some element of `s` has id `key`.
pub open spec fn has_metric(s: Seq<MetricDefinition>, key: Seq<char>) -> bool {
    exists|i: int| 0 <= i < s.len() && #[trigger] s[i].id@ == key
}

/// `i` is the first position of `s` whose id is `key`.
pub open spec fn is_first_segment(s: Seq<Segment>, key: Seq<char>, i: int) -> bool {
    &&& 0 <= i < s.len()
    &&& s[i].id@ == key
    &&& forall|j: int| 0 <= j < i ==> #[trigger] s[j].id@ != key
}

/// Some element of `s` has id `key`.
pub open spec fn has_segment(s: Seq<Segment>, key: Seq<char>) -> bool {
    exists|i: int| 0 <= i < s.len() && #[trigger] s[i].id@ == key
}

/// `i` is the first position of `s` whose name is `key`.
pub open spec fn is_first_funnel(s: Seq<Funnel>, key: Seq<char>, i: int) -> bool {
    &&& 0 <= i < s.len()
    &&& s[i].name@ == key
    &&& forall|j: int| 0 <= j < i ==> #[trigger] s[j].name@ != key
}

/// Some element of `s` has name `key`.
pub open spec fn has_funnel(s: Seq<Funnel>, key: Seq<char>) -> bool {
    exists|i: int| 0 <= i < s.len() && #[trigger] s[i].name@ == key
}
impl AnalyticsApi {    /// The first dataset whose id is `id`, if any.
    pub fn find_dataset(&self, id: &str) -> (r: Option<&Dataset>)
        ensures
            r is None <==> !has_dataset(self.datasets@, id@),
            r matches Some(x) ==> exists|i: int| is_first_dataset(self.datasets@, id@, i) && *x == self.datasets@[i],
    {
        let mut i: usize = 0;
        while i < self.datasets.len()
            invariant
                i <= self.datasets@.len(),
                forall|j: int| 0 <= j < i ==> #[trigger] self.datasets@[j].id@ != id@,
            decreases self.datasets@.len() - i,
        {
            if str_is(self.datasets[i].id.as_str(), id) {
                assert(is_first_dataset(self.datasets@, id@, i as int));
                return Some(&self.datasets[i]);
            }
            i = i + 1;
        }
        None
    }
    /// The first metric whose id is `id`, if any.
    pub fn find_metric(&self, id: &str) -> (r: Option<&MetricDefinition>)
        ensures
            r is None <==> !has_metric(self.metrics@, id@),
            r matches Some(x) ==> exists|i: int| is_first_metric(self.metrics@, id@, i) && *x == self.metrics@[i],
    {
        let mut i: usize = 0;
        while i < self.metrics.len()
            invariant
                i <= self.metrics@.len(),
                forall|j: int| 0 <= j < i ==> #[trigger] self.metrics@[j].id@ != id@,
            decreases self.metrics@.len() - i,
        {
            if str_is(self.metrics[i].id.as_str(), id) {
                assert(is_first_metric(self.metrics@, id@, i as int));
                return Some(&self.metrics[i]);
            }
            i = i + 1;
        }
        None
    }
    /// The first segment whose id is `id`, if any.
    pub fn find_segment(&self, id: &str) -> (r: Option<&Segment>)
        ensures
            r is None <==> !has_segment(self.segments@, id@),
            r matches Some(x) ==> exists|i: int| is_first_segment(self.segments@, id@, i) && *x == self.segments@[i],
    {
        let mut i: usize = 0;
        while i < self.segments.len()
            invariant
                i <= self.segments@.len(),
                forall|j: int| 0 <= j < i ==> #[trigger] self.segments@[j].id@ != id@,
            decreases self.segments@.len() - i,
        {
            if str_is(self.segments[i].id.as_str(), id) {
                assert(is_first_segment(self.segments@, id@, i as int));
                return Some(&self.segments[i]);
            }
            i = i + 1;
        }
        None
    }
    /// The first funnel whose name is `name`, if any.
    pub fn find_funnel(&self, name: &str) -> (r: Option<&Funnel>)
        ensures
            r is None <==> !has_funnel(self.funnels@, name@),
            r matches Some(x) ==> exists|i: int| is_first_funnel(self.funnels@, name@, i) && *x == self.funnels@[i],
    {
        let mut i: usize = 0;
        while i < self.funnels.len()
            invariant
                i <= self.funnels@.len(),
                forall|j: int| 0 <= j < i ==> #[trigger] self.funnels@[j].name@ != name@,
            decreases self.funnels@.len() - i,
        {
            if str_is(self.funnels[i].name.as_str(), name) {
                assert(is_first_funnel(self.funnels@, name@, i as int));
                return Some(&self.funnels[i]);
            }
            i = i + 1;
        }
        None
    }
    /// The name of the first metric with id `metric_id`, or the id itself
    /// when no metric has it.
    pub fn metric_display_name(&self, metric_id: &str) -> (r: String)
        ensures
            r@ == metric_name_or_id(self.metrics@, metric_id@),
    {
        match self.find_metric(metric_id) {
            Some(m) => {
                proof {
                    let i = choose|i: int| is_first_metric(self.metrics@, metric_id@, i) && *m == self.metrics@[i];
                    first_metric_unique(self.metrics@, metric_id@, i);
                }
                m.name.clone()
            }
            None => metric_id.to_owned(),
        }
    }
}

/// The name of the first metric with id `key`, or `key` when there is none.
pub open spec fn metric_name_or_id(ms: Seq<MetricDefinition>, key: Seq<char>) -> Seq<char> {
    if has_metric(ms, key) {
        ms[choose|i: int| is_first_metric(ms, key, i)].name@
    } else {
        key
    }
}

proof fn first_metric_unique(ms: Seq<MetricDefinition>, key: Seq<char>, i: int)
    requires
        is_first_metric(ms, key, i),
    ensures
        has_metric(ms, key),
        (choose|k: int| is_first_metric(ms, key, k)) == i,
{
    let k = choose|k: int| is_first_metric(ms, key, k);
    assert(is_first_metric(ms, key, k));
    if k < i {
        assert(ms[k].id@ != key);
    } else if i < k {
        assert(ms[i].id@ != key);
    }
}

} // verus!
