//! The summary of a finished aggregate.

use crate::aggregate::AggregateView;
use crate::aggregate::HttpAggregate;
use crate::histogram::highest_of;
use crate::histogram::highest_value;
use crate::histogram::is_highest_answer;
use crate::histogram::is_lowest_answer;
use crate::histogram::lowest_of;
use crate::histogram::lowest_value;
use crate::status::counts_of;
use crate::timing::nanos_of;
use std::collections::HashMap;
use std::time::Duration;
use vstd::prelude::*;

verus! {

/// Latencies in nanoseconds that only floating-point arithmetic reads off a
/// histogram: the mean and the values at the quantiles 0.50, 0.90 and 0.95.
/// The caller reads them and hands them in.
#[derive(Clone, Copy, Debug)]
pub struct LatencyReadings {
    pub avg: u64,
    pub med: u64,
    pub p90: u64,
    pub p95: u64,
}

/// Latency statistics of a report.
#[derive(Debug)]
pub struct HttpLatencyStats {
    pub avg: Duration,
    pub min: Duration,
    pub med: Duration,
    pub max: Duration,
    pub p90: Duration,
    pub p95: Duration,
}

/// Latency statistics in nanoseconds.
pub struct LatencyStatsView {
    pub avg: nat,
    pub min: nat,
    pub med: nat,
    pub max: nat,
    pub p90: nat,
    pub p95: nat,
}

impl View for HttpLatencyStats {
    type V = LatencyStatsView;

    open spec fn view(&self) -> LatencyStatsView {
        LatencyStatsView {
            avg: nanos_of(self.avg),
            min: nanos_of(self.min),
            med: nanos_of(self.med),
            max: nanos_of(self.max),
            p90: nanos_of(self.p90),
            p95: nanos_of(self.p95),
        }
    }
}

/// The read-only summary of a finished aggregate. The failure ratio is kept
/// as the two counts it is made of.
#[derive(Debug)]
pub struct HttpReport {
    pub req_duration: HttpLatencyStats,
    pub reqs_total: u64,
    pub reqs_failed: u64,
    pub status_codes: HashMap<u16, u64>,
    pub data_sent: u64,
    pub data_received: u64,
}

/// What a report states.
pub struct ReportView {
    pub req_duration: LatencyStatsView,
    pub reqs_total: nat,
    pub reqs_failed: nat,
    pub status_codes: Map<u16, nat>,
    pub data_sent: nat,
    pub data_received: nat,
}

impl View for HttpReport {
    type V = ReportView;

    open spec fn view(&self) -> ReportView {
        ReportView {
            req_duration: self.req_duration@,
            reqs_total: self.reqs_total as nat,
            reqs_failed: self.reqs_failed as nat,
            status_codes: counts_of(self.status_codes@),
            data_sent: self.data_sent as nat,
            data_received: self.data_received as nat,
        }
    }
}

/// The report of an aggregate whose histogram answers `lowest` and `highest`
/// for its extremes and for which the caller read `readings`: the latency
/// statistics are those six values, everything else is copied from the
/// aggregate.
pub open spec fn report_of(
    aggregate: AggregateView,
    lowest: u64,
    highest: u64,
    readings: LatencyReadings,
) -> ReportView {
    ReportView {
        req_duration: LatencyStatsView {
            avg: readings.avg as nat,
            min: lowest as nat,
            med: readings.med as nat,
            max: highest as nat,
            p90: readings.p90 as nat,
            p95: readings.p95 as nat,
        },
        reqs_total: aggregate.count,
        reqs_failed: aggregate.failure_count,
        status_codes: aggregate.status_count,
        data_sent: aggregate.total_bytes_sent,
        data_received: aggregate.total_bytes_received,
    }
}

/// The failure ratio in hundredths of a percent, rounded down.
pub open spec fn ratio_of(failed: nat, total: nat) -> nat
    recommends
        total > 0,
{
    (failed * 10_000) / total
}

impl HttpReport {
    /// No more requests failed than were made.
    pub open spec fn wf(&self) -> bool {
        self.reqs_failed <= self.reqs_total
    }

    /// The report of a finished aggregate. Minimum and maximum latency come
    /// from the histogram: the lowest value of its lowest filled bin and the
    /// highest value of its highest filled bin, 0 where it holds nothing; mean, median and the two percentiles are the
    /// `readings` of the caller; totals, failures and status codes are those
    /// of the aggregate.
    pub fn from_aggregate(value: HttpAggregate, readings: LatencyReadings) -> (r: HttpReport)
        ensures
            r@ == report_of(
                value@,
                lowest_of(value.latency_hist),
                highest_of(value.latency_hist),
                readings,
            ),
            is_lowest_answer(value@.latencies, lowest_of(value.latency_hist)),
            is_highest_answer(value@.latencies, highest_of(value.latency_hist)),
            value@.accounted() ==> r.wf(),
    {
        let req_duration = HttpLatencyStats {
            avg: Duration::from_nanos(readings.avg),
            min: Duration::from_nanos(lowest_value(&value.latency_hist)),
            med: Duration::from_nanos(readings.med),
            max: Duration::from_nanos(highest_value(&value.latency_hist)),
            p90: Duration::from_nanos(readings.p90),
            p95: Duration::from_nanos(readings.p95),
        };
        HttpReport {
            req_duration,
            reqs_total: value.count,
            reqs_failed: value.failure_count,
            status_codes: value.status_count,
            data_sent: value.total_bytes_sent,
            data_received: value.total_bytes_received,
        }
    }

    /// The share of requests that failed, in hundredths of a percent and
    /// rounded down: 500 stands for 5 %. A report of no requests has no
    /// ratio.
    pub fn failure_ratio(&self) -> (r: Option<u64>)
        requires
            self.wf(),
        ensures
            self.reqs_total == 0 <==> r is None,
            r matches Some(ratio) ==> ratio == ratio_of(self@.reqs_failed, self@.reqs_total) && ratio
                <= 10_000,
    {
        if self.reqs_total == 0 {
            return None;
        }
        let failed: u128 = self.reqs_failed as u128;
        let total: u128 = self.reqs_total as u128;
        assert(failed * 10_000 <= total * 10_000) by (nonlinear_arith)
            requires
                failed <= total,
        ;
        let scaled: u128 = failed * 10_000;
        let ratio: u128 = scaled / total;
        assert(ratio <= 10_000) by (nonlinear_arith)
            requires
                ratio == scaled / total,
                scaled <= total * 10_000,
                total > 0,
        ;
        Some(ratio as u64)
    }
}

} // verus!
