//! Prometheus exporter options and the answers of the metrics endpoint.
pub mod options;

pub use crate::common::telemetry::{
    ERROR_KIND_LOGIC, ERROR_KIND_SYSTEM, LABEL_ENV, LABEL_ERROR_KIND, LABEL_METHOD, LABEL_SERVICE,
    LABEL_STATUS_CODE, METRIC_RPC_DURATION_SECONDS, METRIC_RPC_ERRORS_TOTAL, METRIC_RPC_REQUESTS_TOTAL,
};
pub use options::{metrics_response, MetricsResponse, PrometheusOptions};
