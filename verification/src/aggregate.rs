//! The running summary of one worker, and how two summaries become one.

use crate::histogram::add_histogram;
use crate::histogram::bin_of;
use crate::histogram::filled_bins;
use crate::histogram::highest_of;
use crate::histogram::lowest_of;
use crate::histogram::near_its_bin;
use crate::histogram::open_histogram;
use crate::histogram::record_value;
use crate::histogram::recorded;
use crate::histogram::LatencyHistogram;
use crate::histogram::SIGNIFICANT_DIGITS;
use crate::metric::HttpMetric;
use crate::metric::HttpResponseMetric;
use crate::status::absorb;
use crate::status::bump;
use crate::status::bumped;
use crate::status::count_at;
use crate::status::counts_of;
use crate::status::lemma_total_empty;
use crate::status::lemma_total_insert;
use crate::status::lemma_total_merged;
use crate::status::merged;
use crate::status::total_of;
use crate::timing::nanos_of;
use hdrhistogram::AdditionError;
use std::collections::HashMap;
use std::time::Duration;
use vstd::multiset::Multiset;
use vstd::prelude::*;

verus! {

/// What an aggregate stands for.
pub struct AggregateView {
    /// The recorded latencies, each as the value of its histogram bin.
    pub latencies: Multiset<u64>,
    /// Occurrences per status code.
    pub status_count: Map<u16, nat>,
    pub total_bytes_sent: nat,
    pub total_bytes_received: nat,
    /// Metrics consumed.
    pub count: nat,
    /// Metrics counted as failures.
    pub failure_count: nat,
}

impl AggregateView {
    /// The aggregate that has consumed nothing.
    pub open spec fn empty() -> AggregateView {
        AggregateView {
            latencies: Multiset::empty(),
            status_count: Map::empty(),
            total_bytes_sent: 0,
            total_bytes_received: 0,
            count: 0,
            failure_count: 0,
        }
    }

    /// Every metric consumed is either a failure or an occurrence of a status
    /// code.
    pub open spec fn accounted(self) -> bool {
        self.count == self.failure_count + total_of(self.status_count)
    }

    /// Accounted, with one recorded latency for every occurrence of a status
    /// code.
    pub open spec fn balanced(self) -> bool {
        &&& self.accounted()
        &&& self.latencies.len() == total_of(self.status_count)
    }

    /// After one more failure: a failed attempt, or a response whose latency
    /// the histogram did not take.
    pub open spec fn with_failure(self) -> AggregateView {
        AggregateView { count: self.count + 1, failure_count: self.failure_count + 1, ..self }
    }

    /// After the counters have taken one more response; the latencies are as
    /// they were.
    pub open spec fn tallied(
        self,
        status_code: u16,
        bytes_sent: nat,
        bytes_received: nat,
    ) -> AggregateView {
        AggregateView {
            status_count: bumped(self.status_count, status_code),
            total_bytes_sent: self.total_bytes_sent + bytes_sent,
            total_bytes_received: self.total_bytes_received + bytes_received,
            count: self.count + 1,
            ..self
        }
    }

    /// After one more response whose latency went into the bin `bin`.
    pub open spec fn with_response(
        self,
        bin: u64,
        status_code: u16,
        bytes_sent: nat,
        bytes_received: nat,
    ) -> AggregateView {
        AggregateView {
            latencies: self.latencies.insert(bin),
            ..self.tallied(status_code, bytes_sent, bytes_received)
        }
    }

    /// With the counters of `other` added; the latencies are as they were.
    pub open spec fn with_counters_of(self, other: AggregateView) -> AggregateView {
        AggregateView {
            latencies: self.latencies,
            status_count: merged(self.status_count, other.status_count),
            total_bytes_sent: self.total_bytes_sent + other.total_bytes_sent,
            total_bytes_received: self.total_bytes_received + other.total_bytes_received,
            count: self.count + other.count,
            failure_count: self.failure_count + other.failure_count,
        }
    }

    /// The two aggregates as one: latencies bin by bin, status codes code by
    /// code, totals added.
    pub open spec fn merged(self, other: AggregateView) -> AggregateView {
        AggregateView {
            latencies: self.latencies.add(other.latencies),
            ..self.with_counters_of(other)
        }
    }
}

/// `after` is `before` with one more metric consumed: a failure, or a
/// response in some histogram bin.
pub open spec fn consumed_one(before: AggregateView, after: AggregateView) -> bool {
    ||| after == before.with_failure()
    ||| exists|bin: u64, status_code: u16, bytes_sent: nat, bytes_received: nat|
        after == #[trigger] before.with_response(bin, status_code, bytes_sent, bytes_received)
}

/// Why two aggregates could not be merged: the latency histogram refused the
/// other one.
#[derive(Clone, Copy, Debug, PartialEq, Eq, Structural)]
pub enum MergeError {
    /// The other histogram holds values beyond the range of this one.
    ValueExceedsRange,
    /// The histogram could not grow to take the other one.
    ResizeFailed,
}

impl MergeError {
    /// The merge error that stands for an error of the histogram.
    pub open spec fn of(e: AdditionError) -> MergeError {
        match e {
            AdditionError::OtherAddendValueExceedsRange => MergeError::ValueExceedsRange,
            AdditionError::ResizeFailedUsizeTypeTooSmall => MergeError::ResizeFailed,
        }
    }

    fn from_addition(e: AdditionError) -> (r: MergeError)
        ensures
            r == MergeError::of(e),
    {
        match e {
            AdditionError::OtherAddendValueExceedsRange => MergeError::ValueExceedsRange,
            AdditionError::ResizeFailedUsizeTypeTooSmall => MergeError::ResizeFailed,
        }
    }
}

/// The accumulator of one worker: a latency histogram, the occurrences of each
/// status code, byte totals, and the numbers of metrics and of failures.
pub struct HttpAggregate {
    pub latency_hist: LatencyHistogram,
    pub status_count: HashMap<u16, u64>,
    pub total_bytes_sent: u64,
    pub total_bytes_received: u64,
    pub count: u64,
    pub failure_count: u64,
}

impl View for HttpAggregate {
    type V = AggregateView;

    open spec fn view(&self) -> AggregateView {
        AggregateView {
            latencies: recorded(self.latency_hist),
            status_count: counts_of(self.status_count@),
            total_bytes_sent: self.total_bytes_sent as nat,
            total_bytes_received: self.total_bytes_received as nat,
            count: self.count as nat,
            failure_count: self.failure_count as nat,
        }
    }
}

impl HttpAggregate {
    /// The aggregate is well formed: its counters account for every metric,
    /// and its histogram holds one latency per counted response.
    pub open spec fn wf(&self) -> bool {
        self@.balanced()
    }

    /// An aggregate that has consumed nothing.
    pub fn new() -> (r: HttpAggregate)
        ensures
            r@ == AggregateView::empty(),
            r.wf(),
    {
        let r = HttpAggregate {
            latency_hist: open_histogram(SIGNIFICANT_DIGITS),
            status_count: HashMap::new(),
            total_bytes_sent: 0,
            total_bytes_received: 0,
            count: 0,
            failure_count: 0,
        };
        proof {
            lemma_total_empty();
            assert(counts_of(r.status_count@) =~= Map::<u16, nat>::empty());
        }
        r
    }

    /// Records `latency` in the histogram and says whether it went in. A
    /// latency of up to `u64::MAX` nanoseconds goes in. A longer one is beyond
    /// the histogram, which is then not touched.
    fn record_latency(&mut self, latency: Duration) -> (went_in: bool)
        requires
            recorded(old(self).latency_hist).len() < u64::MAX,
        ensures
            went_in <==> nanos_of(latency) <= u64::MAX,
            went_in ==> near_its_bin(nanos_of(latency) as u64) && final(self)@ == (AggregateView {
                latencies: old(self)@.latencies.insert(bin_of(nanos_of(latency) as u64)),
                ..old(self)@
            }),
            !went_in ==> final(self)@ == old(self)@ && final(self).latency_hist == old(self).latency_hist,
            final(self).status_count == old(self).status_count,
    {
        let nanos: u128 = latency.as_nanos();
        if nanos > u64::MAX as u128 {
            return false;
        }
        match record_value(&mut self.latency_hist, nanos as u64) {
            Ok(()) => true,
            Err(_) => false,
        }
    }

    /// Books one response in the counters, given whether the histogram took
    /// its latency. A response whose latency was taken counts under its status
    /// code, with its bytes. One whose latency was not taken counts as a
    /// failure and leaves status codes and bytes alone. Either way one more
    /// metric is counted, and the histogram is not touched.
    pub fn account(&mut self, metric: &HttpResponseMetric, recorded: bool)
        requires
            old(self)@.accounted(),
            old(self).count < u64::MAX,
            recorded ==> old(self).total_bytes_sent + metric.bytes_sent <= u64::MAX,
            recorded ==> old(self).total_bytes_received + metric.bytes_received <= u64::MAX,
        ensures
            final(self).latency_hist == old(self).latency_hist,
            final(self)@.accounted(),
            recorded ==> final(self)@ == old(self)@.tallied(
                metric.status_code,
                metric.bytes_sent as nat,
                metric.bytes_received as nat,
            ),
            !recorded ==> final(self)@ == old(self)@.with_failure(),
    {
        if recorded {
            proof {
                lemma_total_insert(
                    self@.status_count,
                    metric.status_code,
                    count_at(self@.status_count, metric.status_code) + 1,
                );
            }
            bump(&mut self.status_count, metric.status_code);
            self.total_bytes_sent = self.total_bytes_sent + metric.bytes_sent;
            self.total_bytes_received = self.total_bytes_received + metric.bytes_received;
        } else {
            self.failure_count = self.failure_count + 1;
        }
        self.count = self.count + 1;
    }

    /// Takes one metric in. A failure counts as a failure. A response is
    /// recorded in the histogram and counted under its status code with its
    /// bytes. A response whose latency is beyond the histogram, more than
    /// `u64::MAX` nanoseconds, counts as a failure instead and nothing else of
    /// it is kept. Every call counts exactly one metric.
    pub fn consume(&mut self, metric: &HttpMetric)
        requires
            old(self).wf(),
            old(self).count < u64::MAX,
            metric matches HttpMetric::Success(m) ==> (nanos_of(m.latency) <= u64::MAX ==> old(self).total_bytes_sent + m.bytes_sent <= u64::MAX && old(self).total_bytes_received
                + m.bytes_received <= u64::MAX),
        ensures
            final(self).wf(),
            final(self)@.count == old(self)@.count + 1,
            consumed_one(old(self)@, final(self)@),
            metric is Failure ==> final(self)@ == old(self)@.with_failure()
                && final(self).latency_hist == old(self).latency_hist,
            metric matches HttpMetric::Success(m) ==> (nanos_of(m.latency) > u64::MAX ==> final(self)@ == old(self)@.with_failure() && final(self).latency_hist == old(self).latency_hist),
            metric matches HttpMetric::Success(m) ==> (nanos_of(m.latency) <= u64::MAX ==> final(self)@ == old(self)@.with_response(
                bin_of(nanos_of(m.latency) as u64),
                m.status_code,
                m.bytes_sent as nat,
                m.bytes_received as nat,
            ) && near_its_bin(nanos_of(m.latency) as u64)),
    {
        match metric {
            HttpMetric::Success(m) => {
                let went_in = self.record_latency(m.latency);
                self.account(m, went_in);
                assert(went_in ==> self@ == old(self)@.with_response(
                    bin_of(nanos_of(m.latency) as u64),
                    m.status_code,
                    m.bytes_sent as nat,
                    m.bytes_received as nat,
                ));
            },
            HttpMetric::Failure => {
                self.failure_count = self.failure_count + 1;
                self.count = self.count + 1;
            },
        }
    }

    /// Adds the counters of `other` to this aggregate, given what the
    /// histogram answered when the latencies of `other` were added to it.
    /// Where the histogram took them, status codes, bytes and counts of
    /// `other` are added. Where it refused, nothing changes and the refusal is
    /// handed on. The histogram itself is not touched.
    pub fn take_counters(&mut self, other: HttpAggregate, added: Result<(), AdditionError>) -> (r:
        Result<(), MergeError>)
        requires
            old(self)@.accounted(),
            other@.accounted(),
            old(self).count + other.count <= u64::MAX,
            old(self).total_bytes_sent + other.total_bytes_sent <= u64::MAX,
            old(self).total_bytes_received + other.total_bytes_received <= u64::MAX,
        ensures
            final(self).latency_hist == old(self).latency_hist,
            final(self)@.accounted(),
            added is Ok ==> r is Ok && final(self)@ == old(self)@.with_counters_of(other@),
            added matches Err(e) ==> r == Err::<(), MergeError>(MergeError::of(e)) && final(self)@
                == old(self)@,
    {
        match added {
            Ok(()) => {
                proof {
                    lemma_total_merged(self@.status_count, other@.status_count);
                }
                absorb(&mut self.status_count, &other.status_count);
                self.total_bytes_sent = self.total_bytes_sent + other.total_bytes_sent;
                self.total_bytes_received = self.total_bytes_received + other.total_bytes_received;
                self.failure_count = self.failure_count + other.failure_count;
                self.count = self.count + other.count;
                Ok(())
            },
            Err(e) => Err(MergeError::from_addition(e)),
        }
    }

    /// Folds `other` into this aggregate: the latencies of both bin by bin,
    /// the occurrences of each status code, the byte totals and the counts.
    /// The histogram takes the latencies of every other aggregate, so the
    /// merge always succeeds.
    pub fn merge(&mut self, other: HttpAggregate) -> (r: Result<(), MergeError>)
        requires
            old(self).wf(),
            other.wf(),
            old(self).count + other.count <= u64::MAX,
            old(self).total_bytes_sent + other.total_bytes_sent <= u64::MAX,
            old(self).total_bytes_received + other.total_bytes_received <= u64::MAX,
        ensures
            final(self).wf(),
            r is Ok,
            final(self)@ == old(self)@.merged(other@),
    {
        let added = add_histogram(&mut self.latency_hist, &other.latency_hist);
        self.take_counters(other, added)
    }

    /// The histogram bin by bin, from the lowest to the highest: for every bin
    /// that holds a latency, the value that stands for the bin and how many
    /// latencies it holds.
    pub fn latency_bins(&self) -> (r: Vec<(u64, u64)>)
        ensures
            forall|i: int, j: int|
                0 <= i < j < r@.len() ==> (#[trigger] r@[i]).0 < (#[trigger] r@[j]).0,
            forall|i: int|
                0 <= i < r@.len() ==> (#[trigger] r@[i]).1 > 0 && self@.latencies.count(r@[i].0)
                    == r@[i].1,
            forall|v: u64| #[trigger]
                self@.latencies.contains(v) ==> exists|i: int|
                    0 <= i < r@.len() && (#[trigger] r@[i]).0 == v,
    {
        filled_bins(&self.latency_hist)
    }
}

impl Clone for HttpAggregate {
    /// A copy that stands for the same and whose histogram answers the same.
    fn clone(&self) -> (r: Self)
        ensures
            r@ == self@,
            lowest_of(r.latency_hist) == lowest_of(self.latency_hist),
            highest_of(r.latency_hist) == highest_of(self.latency_hist),
    {
        HttpAggregate {
            latency_hist: self.latency_hist.clone(),
            status_count: self.status_count.clone(),
            total_bytes_sent: self.total_bytes_sent,
            total_bytes_received: self.total_bytes_received,
            count: self.count,
            failure_count: self.failure_count,
        }
    }
}

} // verus!
