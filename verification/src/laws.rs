//! Laws of consuming, merging and reporting, stated over what aggregates and
//! reports stand for.

use crate::aggregate::consumed_one;
use crate::aggregate::AggregateView;
use crate::aggregate::HttpAggregate;
use crate::histogram::highest_of;
use crate::histogram::lowest_of;
use crate::report::report_of;
use crate::report::HttpReport;
use crate::report::LatencyReadings;
use crate::status::bumped;
use crate::status::count_at;
use crate::status::lemma_total_empty;
use crate::status::lemma_total_insert;
use crate::status::lemma_total_merged;
use crate::status::merged;
use vstd::prelude::*;

verus! {

/// `trace` holds the states of one aggregate from metric to metric: each
/// state is the one before it with one more metric consumed.
pub open spec fn consumed_in_turn(trace: Seq<AggregateView>) -> bool {
    &&& trace.len() > 0
    &&& forall|i: int| 0 <= i < trace.len() - 1 ==> consumed_one(#[trigger] trace[i], trace[i + 1])
}

/// Merging is commutative: either aggregate may be folded into the other.
pub proof fn lemma_merge_commutative(a: AggregateView, b: AggregateView)
    ensures
        a.merged(b) == b.merged(a),
{
    assert(a.latencies.add(b.latencies) =~= b.latencies.add(a.latencies));
    assert(merged(a.status_count, b.status_count) =~= merged(b.status_count, a.status_count));
}

/// Merging is associative: three aggregates give the same whole in any tree
/// shape.
pub proof fn lemma_merge_associative(a: AggregateView, b: AggregateView, c: AggregateView)
    ensures
        a.merged(b).merged(c) == a.merged(b.merged(c)),
{
    assert(a.latencies.add(b.latencies).add(c.latencies) =~= a.latencies.add(
        b.latencies.add(c.latencies),
    ));
    assert(merged(merged(a.status_count, b.status_count), c.status_count) =~= merged(
        a.status_count,
        merged(b.status_count, c.status_count),
    ));
}

/// Merging with an aggregate that has consumed nothing changes nothing, on
/// either side.
pub proof fn lemma_merge_empty(a: AggregateView)
    ensures
        a.merged(AggregateView::empty()) == a,
        AggregateView::empty().merged(a) == a,
{
    let e = AggregateView::empty();
    assert(a.latencies.add(e.latencies) =~= a.latencies);
    assert(e.latencies.add(a.latencies) =~= a.latencies);
    assert(merged(a.status_count, e.status_count) =~= a.status_count);
    assert(merged(e.status_count, a.status_count) =~= a.status_count);
}

/// Every metric consumed counts exactly once.
pub proof fn lemma_consumed_one_counts(before: AggregateView, after: AggregateView)
    requires
        consumed_one(before, after),
    ensures
        after.count == before.count + 1,
{
}

/// After `n` metrics an aggregate that started empty has counted `n`,
/// whatever the metrics were.
pub proof fn lemma_consume_counts(trace: Seq<AggregateView>)
    requires
        consumed_in_turn(trace),
    ensures
        trace.last().count == trace[0].count + trace.len() - 1,
        trace[0] == AggregateView::empty() ==> trace.last().count == trace.len() - 1,
    decreases trace.len(),
{
    if trace.len() > 1 {
        let shorter = trace.drop_last();
        assert(consumed_in_turn(shorter)) by {
            assert forall|i: int| 0 <= i < shorter.len() - 1 implies consumed_one(
                #[trigger] shorter[i],
                shorter[i + 1],
            ) by {
                assert(consumed_one(trace[i], trace[i + 1]));
            }
        }
        lemma_consume_counts(shorter);
        assert(consumed_one(trace[trace.len() - 2], trace[trace.len() - 1]));
    }
}

/// The empty aggregate is accounted and balanced.
pub proof fn lemma_empty_accounted()
    ensures
        AggregateView::empty().accounted(),
        AggregateView::empty().balanced(),
{
    lemma_total_empty();
}

/// Consuming one metric keeps the accounts: the occurrences of all status
/// codes and the failures still add up to the count.
pub proof fn lemma_consumed_one_accounted(before: AggregateView, after: AggregateView)
    requires
        before.accounted(),
        consumed_one(before, after),
    ensures
        after.accounted(),
        before.balanced() ==> after.balanced(),
{
    if after != before.with_failure() {
        let (bin, status_code, bytes_sent, bytes_received) = choose|
            bin: u64,
            status_code: u16,
            bytes_sent: nat,
            bytes_received: nat,
        |
            after == #[trigger] before.with_response(bin, status_code, bytes_sent, bytes_received);
        lemma_total_insert(
            before.status_count,
            status_code,
            count_at(before.status_count, status_code) + 1,
        );
        assert(after.status_count == bumped(before.status_count, status_code));
    }
}

/// Merging keeps the accounts.
pub proof fn lemma_merged_accounted(a: AggregateView, b: AggregateView)
    requires
        a.accounted(),
        b.accounted(),
    ensures
        a.merged(b).accounted(),
        a.balanced() && b.balanced() ==> a.merged(b).balanced(),
{
    lemma_total_merged(a.status_count, b.status_count);
}

/// However many metrics an aggregate consumes, the occurrences of all status
/// codes and the failures add up to the count.
pub proof fn lemma_consume_accounted(trace: Seq<AggregateView>)
    requires
        consumed_in_turn(trace),
        trace[0].accounted(),
    ensures
        trace.last().accounted(),
    decreases trace.len(),
{
    if trace.len() > 1 {
        let shorter = trace.drop_last();
        assert(consumed_in_turn(shorter)) by {
            assert forall|i: int| 0 <= i < shorter.len() - 1 implies consumed_one(
                #[trigger] shorter[i],
                shorter[i + 1],
            ) by {
                assert(consumed_one(trace[i], trace[i + 1]));
            }
        }
        lemma_consume_accounted(shorter);
        assert(consumed_one(trace[trace.len() - 2], trace[trace.len() - 1]));
        lemma_consumed_one_accounted(trace[trace.len() - 2], trace[trace.len() - 1]);
    }
}

/// Reporting is repeatable: two reports of aggregates that stand for the
/// same, with histograms that answer the same and with the same readings,
/// state the same. A clone of an aggregate is such an aggregate.
pub proof fn lemma_report_repeatable(
    first: HttpAggregate,
    second: HttpAggregate,
    readings: LatencyReadings,
    report_of_first: HttpReport,
    report_of_second: HttpReport,
)
    requires
        second@ == first@,
        lowest_of(second.latency_hist) == lowest_of(first.latency_hist),
        highest_of(second.latency_hist) == highest_of(first.latency_hist),
        report_of_first@ == report_of(
            first@,
            lowest_of(first.latency_hist),
            highest_of(first.latency_hist),
            readings,
        ),
        report_of_second@ == report_of(
            second@,
            lowest_of(second.latency_hist),
            highest_of(second.latency_hist),
            readings,
        ),
    ensures
        report_of_first@ == report_of_second@,
{
}

} // verus!
