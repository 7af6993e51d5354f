use karga_http::HttpFailedRequestMetric;
use karga_http::HttpMetric;
use karga_http::HttpResponseMetric;
use std::time::Duration;

#[test]
fn attempt_with_a_response_is_a_success() {
    let metric = HttpMetric::of_attempt(Duration::from_millis(3), Some((200, Some(42))));
    let expected = HttpMetric::Success(HttpResponseMetric {
        latency: Duration::from_millis(3),
        status_code: 200,
        bytes_sent: 0,
        bytes_received: 42,
    });
    assert!(metric == expected);
}

#[test]
fn attempt_without_content_length_received_nothing() {
    let metric = HttpMetric::of_attempt(Duration::from_millis(3), Some((503, None)));
    match metric {
        HttpMetric::Success(response) => {
            assert_eq!(response.status_code, 503);
            assert_eq!(response.bytes_received, 0);
            assert_eq!(response.bytes_sent, 0);
            assert_eq!(response.latency, Duration::from_millis(3));
        }
        HttpMetric::Failure => panic!("a response is no failure"),
    }
}

#[test]
fn attempt_without_a_response_is_a_failure() {
    let metric = HttpMetric::of_attempt(Duration::from_millis(3), None);
    assert!(metric == HttpMetric::Failure);
}

#[test]
fn metrics_compare_and_clone() {
    let fast = HttpResponseMetric {
        latency: Duration::from_millis(1),
        status_code: 200,
        bytes_sent: 0,
        bytes_received: 0,
    };
    let slow = HttpResponseMetric { latency: Duration::from_millis(2), ..fast.clone() };
    assert!(fast < slow);
    assert!(fast == fast.clone());
    assert!(HttpMetric::Success(fast) < HttpMetric::Failure);
    let _marker = HttpFailedRequestMetric {};
}
