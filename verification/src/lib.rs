//! Measurement and aggregation core of an HTTP load test: one metric per
//! request, an aggregate per worker that can be merged with others, and the
//! report that summarises a finished aggregate.

pub mod aggregate;
pub mod histogram;
pub mod laws;
pub mod metric;
pub mod report;
pub mod status;
pub mod timing;

pub use aggregate::AggregateView;
pub use aggregate::HttpAggregate;
pub use aggregate::MergeError;
pub use metric::HttpFailedRequestMetric;
pub use metric::HttpMetric;
pub use metric::HttpResponseMetric;
pub use report::HttpLatencyStats;
pub use report::HttpReport;
pub use report::LatencyReadings;
