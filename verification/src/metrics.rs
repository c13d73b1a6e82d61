//! A bounded record of query timings.

use vstd::prelude::*;
use crate::text::{contains, is_substring};

verus! {

/// The timing of one query.
#[derive(Debug)]
pub struct QueryMetrics {
    pub query: String,
    pub execution_time_ms: u64,
    pub rows_affected: usize,
    pub timestamp: std::time::Instant,
}

impl Clone for QueryMetrics {
    /// A copy equal to the metric in every field.
    fn clone(&self) -> (copy: Self)
        ensures
            copy == *self,
    {
        QueryMetrics {
            query: self.query.clone(),
            execution_time_ms: self.execution_time_ms,
            rows_affected: self.rows_affected,
            timestamp: self.timestamp,
        }
    }
}

/// The buffer after recording `metric` with room for `capacity` metrics: the
/// oldest metric leaves when the buffer is full, and a buffer without room
/// records nothing.
pub open spec fn recorded(metrics: Seq<QueryMetrics>, capacity: nat, metric: QueryMetrics) -> Seq<
    QueryMetrics,
> {
    if capacity == 0 {
        metrics
    } else if metrics.len() >= capacity {
        metrics.drop_first().push(metric)
    } else {
        metrics.push(metric)
    }
}

/// Whether a metric's query text contains the pattern.
pub open spec fn matches_pattern(metric: QueryMetrics, pattern: Seq<char>) -> bool {
    is_substring(pattern, metric.query@)
}

/// The number of metrics whose query contains the pattern.
pub open spec fn matching_count(metrics: Seq<QueryMetrics>, pattern: Seq<char>) -> nat
    decreases metrics.len(),
{
    if metrics.len() == 0 {
        0
    } else if matches_pattern(metrics.last(), pattern) {
        matching_count(metrics.drop_last(), pattern) + 1
    } else {
        matching_count(metrics.drop_last(), pattern)
    }
}

/// The summed execution time of the metrics whose query contains the pattern.
pub open spec fn matching_time(metrics: Seq<QueryMetrics>, pattern: Seq<char>) -> nat
    decreases metrics.len(),
{
    if metrics.len() == 0 {
        0
    } else if matches_pattern(metrics.last(), pattern) {
        matching_time(metrics.drop_last(), pattern) + metrics.last().execution_time_ms as nat
    } else {
        matching_time(metrics.drop_last(), pattern)
    }
}

/// The mean execution time of the matching metrics, rounded down; none when
/// nothing matches.
pub open spec fn average_time(metrics: Seq<QueryMetrics>, pattern: Seq<char>) -> Option<nat> {
    if matching_count(metrics, pattern) == 0 {
        None
    } else {
        Some(matching_time(metrics, pattern) / matching_count(metrics, pattern))
    }
}

/// `metric` placed into a slowest-first sequence: behind every metric that
/// took at least as long, so that equal timings keep their order of arrival.
pub open spec fn placed(sorted: Seq<QueryMetrics>, metric: QueryMetrics) -> Seq<QueryMetrics>
    decreases sorted.len(),
{
    if sorted.len() == 0 {
        seq![metric]
    } else if sorted.last().execution_time_ms >= metric.execution_time_ms {
        sorted.push(metric)
    } else {
        placed(sorted.drop_last(), metric).push(sorted.last())
    }
}

/// The metrics ordered from the slowest to the fastest; metrics with equal
/// timings stay in their order of arrival.
pub open spec fn slowest_first(metrics: Seq<QueryMetrics>) -> Seq<QueryMetrics>
    decreases metrics.len(),
{
    if metrics.len() == 0 {
        Seq::empty()
    } else {
        placed(slowest_first(metrics.drop_last()), metrics.last())
    }
}

/// No metric is followed by a slower one.
pub open spec fn is_slowest_first(metrics: Seq<QueryMetrics>) -> bool {
    forall|i: int, j: int|
        0 <= i < j < metrics.len() ==> (#[trigger] metrics[i]).execution_time_ms >= (
        #[trigger] metrics[j]).execution_time_ms
}

/// The first `limit` metrics, or all of them if there are fewer.
pub open spec fn first_n(metrics: Seq<QueryMetrics>, limit: nat) -> Seq<QueryMetrics> {
    if limit >= metrics.len() {
        metrics
    } else {
        metrics.take(limit as int)
    }
}

/// Placing a metric adds exactly that metric.
pub proof fn lemma_placed_permutes(sorted: Seq<QueryMetrics>, metric: QueryMetrics)
    ensures
        placed(sorted, metric).len() == sorted.len() + 1,
        placed(sorted, metric).to_multiset() == sorted.to_multiset().insert(metric),
    decreases sorted.len(),
{
    broadcast use vstd::seq_lib::group_to_multiset_ensures;

    if sorted.len() == 0 {
        assert(sorted =~= Seq::empty());
        assert(seq![metric] =~= Seq::<QueryMetrics>::empty().push(metric));
    } else if sorted.last().execution_time_ms >= metric.execution_time_ms {
    } else {
        lemma_placed_permutes(sorted.drop_last(), metric);
        assert(sorted =~= sorted.drop_last().push(sorted.last()));
        assert(placed(sorted, metric).to_multiset() =~= sorted.to_multiset().insert(metric));
    }
}

/// Placing a metric into a slowest-first sequence keeps it slowest-first.
pub proof fn lemma_placed_keeps_order(sorted: Seq<QueryMetrics>, metric: QueryMetrics)
    requires
        is_slowest_first(sorted),
    ensures
        is_slowest_first(placed(sorted, metric)),
        forall|i: int|
            0 <= i < placed(sorted, metric).len() ==> (#[trigger] placed(
                sorted,
                metric,
            )[i]).execution_time_ms == metric.execution_time_ms || exists|k: int|
                0 <= k < sorted.len() && sorted[k] == placed(sorted, metric)[i],
    decreases sorted.len(),
{
    if sorted.len() == 0 {
    } else if sorted.last().execution_time_ms >= metric.execution_time_ms {
        let out = sorted.push(metric);
        assert forall|i: int, j: int| 0 <= i < j < out.len() implies (
        #[trigger] out[i]).execution_time_ms >= (#[trigger] out[j]).execution_time_ms by {
            if j == sorted.len() {
                if i < sorted.len() - 1 {
                    assert(sorted[i].execution_time_ms >= sorted[sorted.len() - 1].execution_time_ms);
                }
            } else {
                assert(sorted[i].execution_time_ms >= sorted[j].execution_time_ms);
            }
        }
        assert forall|i: int| 0 <= i < out.len() implies (#[trigger] out[i]).execution_time_ms
            == metric.execution_time_ms || exists|k: int|
            0 <= k < sorted.len() && sorted[k] == out[i] by {
            if i < sorted.len() {
                assert(sorted[i] == out[i]);
            }
        }
    } else {
        let rest = sorted.drop_last();
        assert forall|i: int, j: int| 0 <= i < j < rest.len() implies (
        #[trigger] rest[i]).execution_time_ms >= (#[trigger] rest[j]).execution_time_ms by {
            assert(sorted[i].execution_time_ms >= sorted[j].execution_time_ms);
        }
        lemma_placed_keeps_order(rest, metric);
        lemma_placed_permutes(rest, metric);
        let inner = placed(rest, metric);
        let out = inner.push(sorted.last());
        assert forall|i: int| 0 <= i < inner.len() implies (#[trigger] inner[i]).execution_time_ms
            >= sorted.last().execution_time_ms by {
            if inner[i].execution_time_ms == metric.execution_time_ms {
            } else {
                let k = choose|k: int| 0 <= k < rest.len() && rest[k] == inner[i];
                assert(sorted[k].execution_time_ms >= sorted[sorted.len() - 1].execution_time_ms);
            }
        }
        assert forall|i: int, j: int| 0 <= i < j < out.len() implies (
        #[trigger] out[i]).execution_time_ms >= (#[trigger] out[j]).execution_time_ms by {
            if j == inner.len() {
                assert(out[i] == inner[i]);
            } else {
                assert(inner[i].execution_time_ms >= inner[j].execution_time_ms);
            }
        }
        assert forall|i: int| 0 <= i < out.len() implies (#[trigger] out[i]).execution_time_ms
            == metric.execution_time_ms || exists|k: int|
            0 <= k < sorted.len() && sorted[k] == out[i] by {
            if i < inner.len() {
                assert(out[i] == inner[i]);
                if inner[i].execution_time_ms != metric.execution_time_ms {
                    let k = choose|k: int| 0 <= k < rest.len() && rest[k] == inner[i];
                    assert(sorted[k] == out[i]);
                }
            } else {
                assert(sorted[sorted.len() - 1] == out[i]);
            }
        }
    }
}

/// The slowest-first ordering is ordered, and holds exactly the metrics it
/// was given: nothing is lost, added or repeated.
pub proof fn lemma_slowest_first_sorts(metrics: Seq<QueryMetrics>)
    ensures
        is_slowest_first(slowest_first(metrics)),
        slowest_first(metrics).len() == metrics.len(),
        slowest_first(metrics).to_multiset() == metrics.to_multiset(),
    decreases metrics.len(),
{
    broadcast use vstd::seq_lib::group_to_multiset_ensures;

    if metrics.len() == 0 {
        assert(metrics =~= Seq::empty());
    } else {
        lemma_slowest_first_sorts(metrics.drop_last());
        lemma_placed_keeps_order(slowest_first(metrics.drop_last()), metrics.last());
        lemma_placed_permutes(slowest_first(metrics.drop_last()), metrics.last());
        assert(metrics =~= metrics.drop_last().push(metrics.last()));
    }
}

/// Record of the most recent query timings, up to a fixed capacity.
pub struct PerformanceMonitor {
    metrics: Vec<QueryMetrics>,
    max_metrics: usize,
}

impl View for PerformanceMonitor {
    type V = Seq<QueryMetrics>;

    closed spec fn view(&self) -> Seq<QueryMetrics> {
        self.metrics@
    }
}

impl PerformanceMonitor {
    /// The number of metrics the monitor retains.
    pub closed spec fn capacity(&self) -> nat {
        self.max_metrics as nat
    }

    /// The invariant of every monitor: it holds no more than its capacity.
    pub open spec fn wf(&self) -> bool {
        self@.len() <= self.capacity()
    }

    /// An empty monitor that retains up to `max_metrics` metrics.
    pub fn new(max_metrics: usize) -> (monitor: Self)
        ensures
            monitor@ == Seq::<QueryMetrics>::empty(),
            monitor.capacity() == max_metrics,
            monitor.wf(),
    {
        PerformanceMonitor { metrics: Vec::new(), max_metrics }
    }

    /// Records a metric. When the monitor is full the oldest metric leaves
    /// first; a monitor of capacity zero records nothing.
    pub fn record(&mut self, metric: QueryMetrics)
        requires
            old(self).wf(),
        ensures
            final(self)@ == recorded(old(self)@, old(self).capacity(), metric),
            final(self).capacity() == old(self).capacity(),
            final(self).wf(),
    {
        if self.max_metrics == 0 {
            return ;
        }
        if self.metrics.len() >= self.max_metrics {
            self.metrics.remove(0);
            assert(self.metrics@ =~= old(self)@.drop_first());
        }
        self.metrics.push(metric);
    }

    /// The mean execution time, rounded down, of the metrics whose query
    /// contains `query_pattern`; `None` when there is none.
    pub fn get_average_time(&self, query_pattern: &str) -> (average: Option<u64>)
        ensures
            match average_time(self@, query_pattern@) {
                Some(mean) => average == Some(mean as u64) && mean <= u64::MAX,
                None => average is None,
            },
    {
        let mut total: u128 = 0;
        let mut count: usize = 0;
        let mut i: usize = 0;
        while i < self.metrics.len()
            invariant
                i <= self.metrics.len(),
                count <= i,
                count == matching_count(self@.subrange(0, i as int), query_pattern@),
                total == matching_time(self@.subrange(0, i as int), query_pattern@),
                total <= count * u64::MAX,
            decreases self.metrics.len() - i,
        {
            proof {
                let next = self@.subrange(0, i + 1);
                assert(next.drop_last() =~= self@.subrange(0, i as int));
                assert(next.last() == self@[i as int]);
            }
            if contains(self.metrics[i].query.as_str(), query_pattern) {
                assert(total + u64::MAX <= (count + 1) * u64::MAX) by (nonlinear_arith)
                    requires
                        total <= count * u64::MAX,
                ;
                assert((count + 1) * u64::MAX <= usize::MAX * u64::MAX) by (nonlinear_arith)
                    requires
                        count + 1 <= usize::MAX,
                ;
                total = total + self.metrics[i].execution_time_ms as u128;
                count = count + 1;
            }
            i += 1;
        }
        assert(self@.subrange(0, i as int) =~= self@);
        if count == 0 {
            None
        } else {
            let mean: u128 = total / (count as u128);
            assert(mean <= u64::MAX) by (nonlinear_arith)
                requires
                    total <= count * u64::MAX,
                    count > 0,
                    mean == total / (count as u128),
            ;
            Some(mean as u64)
        }
    }

    /// The `limit` slowest metrics, slowest first; metrics with equal timings
    /// come in their order of arrival.
    pub fn get_slowest_queries(&self, limit: usize) -> (slowest: Vec<QueryMetrics>)
        ensures
            slowest@ == first_n(slowest_first(self@), limit as nat),
            is_slowest_first(slowest@),
            slowest@.len() == if limit <= self@.len() {
                limit as nat
            } else {
                self@.len()
            },
    {
        let mut sorted: Vec<QueryMetrics> = Vec::new();
        let mut i: usize = 0;
        while i < self.metrics.len()
            invariant
                i <= self.metrics.len(),
                sorted@ == slowest_first(self@.subrange(0, i as int)),
            decreases self.metrics.len() - i,
        {
            proof {
                let next = self@.subrange(0, i + 1);
                assert(next.drop_last() =~= self@.subrange(0, i as int));
                assert(next.last() == self@[i as int]);
            }
            place(&mut sorted, self.metrics[i].clone());
            i += 1;
        }
        assert(self@.subrange(0, i as int) =~= self@);
        proof {
            lemma_slowest_first_sorts(self@);
        }
        if limit < sorted.len() {
            sorted.truncate(limit);
        }
        assert forall|a: int, b: int| 0 <= a < b < sorted@.len() implies (
        #[trigger] sorted@[a]).execution_time_ms >= (#[trigger] sorted@[b]).execution_time_ms by {
            assert(sorted@[a] == slowest_first(self@)[a]);
            assert(sorted@[b] == slowest_first(self@)[b]);
        }
        sorted
    }

    /// Every retained metric, oldest first.
    pub fn get_all_metrics(&self) -> (all: Vec<QueryMetrics>)
        ensures
            all@ == self@,
    {
        let mut all: Vec<QueryMetrics> = Vec::new();
        let mut i: usize = 0;
        while i < self.metrics.len()
            invariant
                i <= self.metrics.len(),
                all@ == self@.subrange(0, i as int),
            decreases self.metrics.len() - i,
        {
            all.push(self.metrics[i].clone());
            assert(all@ =~= self@.subrange(0, i + 1));
            i += 1;
        }
        assert(self@.subrange(0, i as int) =~= self@);
        all
    }

    /// Forgets every metric.
    pub fn clear(&mut self)
        ensures
            final(self)@ == Seq::<QueryMetrics>::empty(),
            final(self).capacity() == old(self).capacity(),
            final(self).wf(),
    {
        self.metrics.clear();
    }
}

/// Places `metric` into the slowest-first vector.
fn place(sorted: &mut Vec<QueryMetrics>, metric: QueryMetrics)
    ensures
        final(sorted)@ == placed(old(sorted)@, metric),
{
    let mut p: usize = sorted.len();
    proof {
        assert(sorted@.take(p as int) =~= sorted@);
        assert(placed(sorted@, metric) + sorted@.skip(p as int) =~= placed(sorted@, metric));
    }
    while p > 0 && sorted[p - 1].execution_time_ms < metric.execution_time_ms
        invariant
            p <= sorted.len(),
            *sorted == *old(sorted),
            placed(sorted@, metric) == placed(sorted@.take(p as int), metric) + sorted@.skip(
                p as int,
            ),
        decreases p,
    {
        proof {
            let head = sorted@.take(p as int);
            assert(head.last() == sorted@[p - 1]);
            assert(head.drop_last() =~= sorted@.take(p - 1));
            assert(placed(head, metric) == placed(head.drop_last(), metric).push(head.last()));
            assert(placed(sorted@.take(p - 1), metric).push(sorted@[p - 1]) + sorted@.skip(
                p as int,
            ) =~= placed(sorted@.take(p - 1), metric) + sorted@.skip(p - 1));
        }
        p -= 1;
    }
    proof {
        let head = sorted@.take(p as int);
        if p > 0 {
            assert(head.last() == sorted@[p - 1]);
        }
        assert(placed(head, metric) =~= head.push(metric));
        assert(head.push(metric) + sorted@.skip(p as int) =~= sorted@.insert(p as int, metric));
    }
    sorted.insert(p, metric);
}

} // verus!
