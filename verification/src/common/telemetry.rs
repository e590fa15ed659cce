use vstd::prelude::*;

use crate::text::str_eq;

verus! {

/// Label naming the service that records a metric.
pub const LABEL_SERVICE: &'static str = "service";
/// Label naming the runtime environment.
pub const LABEL_ENV: &'static str = "env";
/// Label naming the called method or route.
pub const LABEL_METHOD: &'static str = "method";
/// Label holding the status a call finished with.
pub const LABEL_STATUS_CODE: &'static str = "status_code";
/// Label holding the class of a failed call.
pub const LABEL_ERROR_KIND: &'static str = "error_kind";
/// Error class of failures caused by the caller.
pub const ERROR_KIND_LOGIC: &'static str = "logic";
/// Error class of infrastructure failures.
pub const ERROR_KIND_SYSTEM: &'static str = "system";
/// Counter of finished calls.
pub const METRIC_RPC_REQUESTS_TOTAL: &'static str = "rpc_requests_total";
/// Counter of failed calls.
pub const METRIC_RPC_ERRORS_TOTAL: &'static str = "rpc_errors_total";
/// Histogram of call durations, in seconds.
pub const METRIC_RPC_DURATION_SECONDS: &'static str = "rpc_duration_seconds";

/// gRPC status codes (as decimal text) caused by the caller: invalid
/// argument, not found, already exists, permission denied, unauthenticated,
/// failed precondition, out of range.
pub open spec fn spec_is_logic_code(s: Seq<char>) -> bool {
    s == "3"@ || s == "5"@ || s == "6"@ || s == "7"@ || s == "16"@ || s == "9"@ || s == "11"@
}

/// Classify a gRPC status code as a caller (`logic`) or infrastructure
/// (`system`) failure; unknown codes count as `system`.
pub fn classify_grpc_error_kind(grpc_status: &str) -> (r: String)
    ensures
        spec_is_logic_code(grpc_status@) ==> r@ == ERROR_KIND_LOGIC@,
        !spec_is_logic_code(grpc_status@) ==> r@ == ERROR_KIND_SYSTEM@,
{
    if str_eq(grpc_status, "3") || str_eq(grpc_status, "5") || str_eq(grpc_status, "6") || str_eq(
        grpc_status,
        "7",
    ) || str_eq(grpc_status, "16") || str_eq(grpc_status, "9") || str_eq(grpc_status, "11") {
        ERROR_KIND_LOGIC.to_owned()
    } else {
        ERROR_KIND_SYSTEM.to_owned()
    }
}

/// The error kind to count for a finished call with the given gRPC status:
/// none for status `0` (OK), otherwise its classification.
pub fn grpc_error_kind(grpc_status: &str) -> (r: Option<String>)
    ensures
        grpc_status@ == "0"@ <==> r is None,
        r matches Some(k) ==> (spec_is_logic_code(grpc_status@) ==> k@ == ERROR_KIND_LOGIC@) && (
        !spec_is_logic_code(grpc_status@) ==> k@ == ERROR_KIND_SYSTEM@),
{
    if str_eq(grpc_status, "0") {
        None
    } else {
        Some(classify_grpc_error_kind(grpc_status))
    }
}

/// The gRPC status a call finished with, read from the `grpc-status`
/// trailer's value: `unknown` when the trailer is absent or not text.
pub fn trailer_status(value: Option<&str>) -> (s: &str)
    ensures
        value matches Some(v) ==> s@ == v@,
        value is None ==> s@ == "unknown"@,
{
    match value {
        Some(v) => v,
        None => "unknown",
    }
}

/// Tower layer that records request count, duration and errors of gRPC calls.
#[derive(Clone, Copy, Default)]
pub struct GrpcMetricsLayer;

/// A gRPC service wrapped by `GrpcMetricsLayer`.
#[derive(Clone)]
pub struct GrpcMetricsService<S> {
    inner: S,
}

impl GrpcMetricsLayer {
    /// Wraps `inner` so that its calls are measured.
    pub fn layer<S>(&self, inner: S) -> (s: GrpcMetricsService<S>)
        ensures
            s.spec_inner() == inner,
    {
        GrpcMetricsService { inner }
    }
}

impl<S> GrpcMetricsService<S> {
    /// The wrapped service.
    pub closed spec fn spec_inner(&self) -> S {
        self.inner
    }

    /// The wrapped service.
    pub fn inner(&self) -> (r: &S)
        ensures
            *r == self.spec_inner(),
    {
        &self.inner
    }

    /// The wrapped service, mutably (calls are forwarded through it).
    pub fn inner_mut(&mut self) -> (r: &mut S)
        ensures
            *r == old(self).spec_inner(),
            final(self).spec_inner() == *final(r),
    {
        &mut self.inner
    }
}

} // verus!
