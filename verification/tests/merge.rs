use karga_http::HttpAggregate;
use karga_http::HttpMetric;
use karga_http::HttpResponseMetric;
use std::time::Duration;

fn built(latencies: &[u64], code: u16, failures: u32) -> HttpAggregate {
    let mut aggregate = HttpAggregate::new();
    for nanos in latencies {
        aggregate.consume(&HttpMetric::Success(HttpResponseMetric {
            latency: Duration::from_nanos(*nanos),
            status_code: code,
            bytes_sent: 2,
            bytes_received: *nanos % 97,
        }));
    }
    for _ in 0..failures {
        aggregate.consume(&HttpMetric::Failure);
    }
    aggregate
}

fn same(left: &HttpAggregate, right: &HttpAggregate) -> bool {
    left.latency_bins() == right.latency_bins()
        && left.status_count == right.status_count
        && left.total_bytes_sent == right.total_bytes_sent
        && left.total_bytes_received == right.total_bytes_received
        && left.count == right.count
        && left.failure_count == right.failure_count
}

fn a() -> HttpAggregate {
    built(&[1_000, 2_500_000, 40_000_000, 7], 200, 1)
}

fn b() -> HttpAggregate {
    built(&[1_000, 3_000_000_000, 9_999], 404, 0)
}

fn c() -> HttpAggregate {
    built(&[55, 2_500_000, 123_456_789_012], 200, 3)
}

#[test]
fn merge_adds_everything_up() {
    let mut left = a();
    assert_eq!(left.merge(b()), Ok(()));
    assert_eq!(left.count, 8);
    assert_eq!(left.failure_count, 1);
    assert_eq!(left.total_bytes_sent, 14);
    assert_eq!(left.status_count.get(&200), Some(&4));
    assert_eq!(left.status_count.get(&404), Some(&3));
    assert_eq!(left.status_count.len(), 2);
    let bins = left.latency_bins();
    assert_eq!(bins.iter().map(|bin| bin.1).sum::<u64>(), 7);
    assert_eq!(bins[0], (7, 1));
    assert_eq!(bins[1], (1_000, 2));
}

#[test]
fn merge_is_commutative() {
    let mut ab = a();
    assert_eq!(ab.merge(b()), Ok(()));
    let mut ba = b();
    assert_eq!(ba.merge(a()), Ok(()));
    assert!(same(&ab, &ba));
}

#[test]
fn merge_is_associative() {
    let mut ab_c = a();
    assert_eq!(ab_c.merge(b()), Ok(()));
    assert_eq!(ab_c.merge(c()), Ok(()));

    let mut bc = b();
    assert_eq!(bc.merge(c()), Ok(()));
    let mut a_bc = a();
    assert_eq!(a_bc.merge(bc), Ok(()));

    assert!(same(&ab_c, &a_bc));

    let mut ca = c();
    assert_eq!(ca.merge(a()), Ok(()));
    let mut b_ca = b();
    assert_eq!(b_ca.merge(ca), Ok(()));
    assert!(same(&ab_c, &b_ca));
    assert_eq!(ab_c.count, 14);
    assert_eq!(ab_c.failure_count, 4);
}

#[test]
fn merging_a_fresh_aggregate_changes_nothing() {
    let mut populated = a();
    assert_eq!(populated.merge(HttpAggregate::new()), Ok(()));
    assert!(same(&populated, &a()));
}

#[test]
fn merging_an_aggregate_of_failures_always_succeeds() {
    let mut populated = a();
    assert_eq!(populated.merge(built(&[], 200, 4)), Ok(()));
    assert_eq!(populated.count, 9);
    assert_eq!(populated.failure_count, 5);
    assert_eq!(populated.status_count, a().status_count);
    assert_eq!(populated.latency_bins(), a().latency_bins());
}

#[test]
fn merging_into_a_fresh_aggregate_gives_the_other() {
    let mut fresh = HttpAggregate::new();
    assert_eq!(fresh.merge(c()), Ok(()));
    assert!(same(&fresh, &c()));
}

#[test]
fn take_counters_hands_a_refusal_on() {
    let mut left = a();
    let refused = left.take_counters(
        b(),
        Err(hdrhistogram::AdditionError::OtherAddendValueExceedsRange),
    );
    assert_eq!(refused, Err(karga_http::MergeError::ValueExceedsRange));
    assert!(same(&left, &a()));
    let refused = left.take_counters(
        b(),
        Err(hdrhistogram::AdditionError::ResizeFailedUsizeTypeTooSmall),
    );
    assert_eq!(refused, Err(karga_http::MergeError::ResizeFailed));
    assert!(same(&left, &a()));
}

#[test]
fn take_counters_adds_counters_and_leaves_latencies() {
    let mut left = a();
    assert_eq!(left.take_counters(b(), Ok(())), Ok(()));
    assert_eq!(left.count, 8);
    assert_eq!(left.failure_count, 1);
    assert_eq!(left.status_count.get(&404), Some(&3));
    assert_eq!(left.latency_bins(), a().latency_bins());
}
