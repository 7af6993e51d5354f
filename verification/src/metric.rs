//! What one request attempt yields.

use std::time::Duration;
use vstd::prelude::*;

verus! {

/// The measurement of one request that got a response.
#[derive(Clone, PartialEq, PartialOrd)]
pub struct HttpResponseMetric {
    pub latency: Duration,
    pub status_code: u16,
    pub bytes_sent: u64,
    pub bytes_received: u64,
}

/// The outcome of one request attempt. A failed attempt carries nothing: only
/// that it failed is counted.
#[derive(Clone, PartialEq, PartialOrd)]
pub enum HttpMetric {
    Success(HttpResponseMetric),
    Failure,
}

/// Marker for an attempt that failed.
pub struct HttpFailedRequestMetric {}

impl HttpMetric {
    /// The metric of one finished attempt that took `elapsed`. `response` is
    /// the status code and the content length that the response advertised, or
    /// `None` where the transport failed. Bytes sent are not measured and
    /// count as 0; so does a content length that was not advertised.
    pub fn of_attempt(elapsed: Duration, response: Option<(u16, Option<u64>)>) -> (m: HttpMetric)
        ensures
            response is None ==> m is Failure,
            response matches Some((code, length)) ==> m == HttpMetric::Success(
                HttpResponseMetric {
                    latency: elapsed,
                    status_code: code,
                    bytes_sent: 0,
                    bytes_received: match length {
                        Some(n) => n,
                        None => 0,
                    },
                },
            ),
    {
        match response {
            Some((code, length)) => {
                let bytes_received: u64 = match length {
                    Some(n) => n,
                    None => 0,
                };
                HttpMetric::Success(
                    HttpResponseMetric {
                        latency: elapsed,
                        status_code: code,
                        bytes_sent: 0,
                        bytes_received,
                    },
                )
            },
            None => HttpMetric::Failure,
        }
    }
}

} // verus!
