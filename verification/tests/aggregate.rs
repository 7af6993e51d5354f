use karga_http::HttpAggregate;
use karga_http::HttpMetric;
use karga_http::HttpResponseMetric;
use std::time::Duration;

fn response(nanos: u64, status_code: u16, bytes_sent: u64, bytes_received: u64) -> HttpMetric {
    HttpMetric::Success(HttpResponseMetric {
        latency: Duration::from_nanos(nanos),
        status_code,
        bytes_sent,
        bytes_received,
    })
}

fn accounts_add_up(aggregate: &HttpAggregate) -> bool {
    let statuses: u64 = aggregate.status_count.values().sum();
    let latencies: u64 = aggregate.latency_bins().iter().map(|bin| bin.1).sum();
    statuses + aggregate.failure_count == aggregate.count && latencies == statuses
}

#[test]
fn new_aggregate_is_empty() {
    let aggregate = HttpAggregate::new();
    assert_eq!(aggregate.count, 0);
    assert_eq!(aggregate.failure_count, 0);
    assert_eq!(aggregate.total_bytes_sent, 0);
    assert_eq!(aggregate.total_bytes_received, 0);
    assert!(aggregate.status_count.is_empty());
    assert!(aggregate.latency_bins().is_empty());
}

#[test]
fn consume_response_counts_status_bytes_and_latency() {
    let mut aggregate = HttpAggregate::new();
    aggregate.consume(&response(1_500, 200, 7, 42));
    assert_eq!(aggregate.count, 1);
    assert_eq!(aggregate.failure_count, 0);
    assert_eq!(aggregate.total_bytes_sent, 7);
    assert_eq!(aggregate.total_bytes_received, 42);
    assert_eq!(aggregate.status_count.len(), 1);
    assert_eq!(aggregate.status_count.get(&200), Some(&1));
    assert_eq!(aggregate.latency_bins(), vec![(1_500, 1)]);
}

#[test]
fn consume_failure_counts_only_the_failure() {
    let mut aggregate = HttpAggregate::new();
    aggregate.consume(&HttpMetric::Failure);
    assert_eq!(aggregate.count, 1);
    assert_eq!(aggregate.failure_count, 1);
    assert_eq!(aggregate.total_bytes_sent, 0);
    assert_eq!(aggregate.total_bytes_received, 0);
    assert!(aggregate.status_count.is_empty());
    assert!(aggregate.latency_bins().is_empty());
}

#[test]
fn latency_beyond_the_histogram_counts_as_failure() {
    let mut aggregate = HttpAggregate::new();
    let metric = HttpMetric::Success(HttpResponseMetric {
        latency: Duration::MAX,
        status_code: 200,
        bytes_sent: 7,
        bytes_received: 42,
    });
    aggregate.consume(&metric);
    assert_eq!(aggregate.count, 1);
    assert_eq!(aggregate.failure_count, 1);
    assert_eq!(aggregate.total_bytes_sent, 0);
    assert_eq!(aggregate.total_bytes_received, 0);
    assert!(aggregate.status_count.is_empty());
    assert!(aggregate.latency_bins().is_empty());
}

#[test]
fn longest_latency_the_histogram_takes() {
    let mut aggregate = HttpAggregate::new();
    aggregate.consume(&response(u64::MAX, 200, 0, 1));
    assert_eq!(aggregate.count, 1);
    assert_eq!(aggregate.failure_count, 0);
    assert_eq!(aggregate.status_count.get(&200), Some(&1));
    assert_eq!(aggregate.latency_bins(), vec![(u64::MAX - 1, 1)]);
}

#[test]
fn account_books_a_recorded_response() {
    let mut aggregate = HttpAggregate::new();
    let metric = HttpResponseMetric {
        latency: Duration::from_nanos(10),
        status_code: 404,
        bytes_sent: 3,
        bytes_received: 9,
    };
    aggregate.account(&metric, true);
    assert_eq!(aggregate.count, 1);
    assert_eq!(aggregate.failure_count, 0);
    assert_eq!(aggregate.status_count.get(&404), Some(&1));
    assert_eq!(aggregate.total_bytes_sent, 3);
    assert_eq!(aggregate.total_bytes_received, 9);
    assert!(aggregate.latency_bins().is_empty());
}

#[test]
fn account_books_an_unrecorded_response_as_failure() {
    let mut aggregate = HttpAggregate::new();
    let metric = HttpResponseMetric {
        latency: Duration::from_nanos(10),
        status_code: 404,
        bytes_sent: 3,
        bytes_received: 9,
    };
    aggregate.account(&metric, false);
    assert_eq!(aggregate.count, 1);
    assert_eq!(aggregate.failure_count, 1);
    assert!(aggregate.status_count.is_empty());
    assert_eq!(aggregate.total_bytes_sent, 0);
    assert_eq!(aggregate.total_bytes_received, 0);
}

#[test]
fn every_consume_counts_once() {
    let mut aggregate = HttpAggregate::new();
    let mut consumed = 0;
    for round in 0..50u64 {
        aggregate.consume(&response(1_000 + round, 200, 1, 2));
        consumed += 1;
        assert_eq!(aggregate.count, consumed);
        aggregate.consume(&HttpMetric::Failure);
        consumed += 1;
        assert_eq!(aggregate.count, consumed);
        if round % 10 == 0 {
            let unrecordable = HttpMetric::Success(HttpResponseMetric {
                latency: Duration::MAX,
                status_code: 500,
                bytes_sent: 1,
                bytes_received: 1,
            });
            aggregate.consume(&unrecordable);
            consumed += 1;
            assert_eq!(aggregate.count, consumed);
        }
    }
    assert_eq!(aggregate.count, 105);
    assert_eq!(aggregate.failure_count, 55);
}

#[test]
fn statuses_and_failures_add_up_to_the_count() {
    let mut aggregate = HttpAggregate::new();
    assert!(accounts_add_up(&aggregate));
    let codes = [200u16, 200, 404, 500, 200, 301, 404];
    for (i, code) in codes.iter().enumerate() {
        aggregate.consume(&response(1_000_000 * (i as u64 + 1), *code, 0, 10));
        assert!(accounts_add_up(&aggregate));
        if i % 2 == 0 {
            aggregate.consume(&HttpMetric::Failure);
            assert!(accounts_add_up(&aggregate));
        }
    }
    assert_eq!(aggregate.count, 11);
    assert_eq!(aggregate.failure_count, 4);
    assert_eq!(aggregate.status_count.get(&200), Some(&3));
    assert_eq!(aggregate.status_count.get(&404), Some(&2));
    assert_eq!(aggregate.status_count.get(&500), Some(&1));
    assert_eq!(aggregate.status_count.get(&301), Some(&1));
    assert_eq!(aggregate.status_count.len(), 4);
}

#[test]
fn latencies_of_one_bin_are_counted_together() {
    let mut aggregate = HttpAggregate::new();
    aggregate.consume(&response(1_000_000, 200, 0, 0));
    aggregate.consume(&response(1_000_001, 200, 0, 0));
    aggregate.consume(&response(5, 200, 0, 0));
    let bins = aggregate.latency_bins();
    assert_eq!(bins.len(), 2);
    assert_eq!(bins[0], (5, 1));
    assert_eq!(bins[1].1, 2);
    assert!(bins[1].0 >= 1_000_001);
    assert!(bins[1].0 - 1_000_000 <= 1_000);
}

#[test]
fn bins_stay_within_a_thousandth() {
    for nanos in [0u64, 1, 2_047, 2_048, 2_049, 999_999, 123_456_789, 1 << 40, u64::MAX - 1] {
        let mut aggregate = HttpAggregate::new();
        aggregate.consume(&response(nanos, 200, 0, 0));
        let bins = aggregate.latency_bins();
        assert_eq!(bins.len(), 1);
        assert!(bins[0].0 >= nanos);
        assert!(bins[0].0 - nanos <= nanos / 1_000);
        if nanos < 2_048 {
            assert_eq!(bins[0].0, nanos);
        }
    }
}

#[test]
fn clone_stands_for_the_same() {
    let mut aggregate = HttpAggregate::new();
    aggregate.consume(&response(1_500, 200, 7, 42));
    aggregate.consume(&HttpMetric::Failure);
    let copy = aggregate.clone();
    assert_eq!(copy.count, 2);
    assert_eq!(copy.failure_count, 1);
    assert_eq!(copy.total_bytes_sent, 7);
    assert_eq!(copy.total_bytes_received, 42);
    assert_eq!(copy.status_count, aggregate.status_count);
    assert_eq!(copy.latency_bins(), vec![(1_500, 1)]);
}
