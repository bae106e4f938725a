use vstd::prelude::*;

verus! {

/// State of the trace-analysis read API: where the trace files live.
pub struct ApiState {
    pub trace_storage_dir: String,
}

/// Query parameters for trace listing.
pub struct TraceQueryParams {
    pub start_time: Option<String>,
    pub end_time: Option<String>,
    pub min_duration_ms: Option<u64>,
    pub has_error: Option<bool>,
    pub limit: usize,
}

/// How many traces a listing returns when the query names no limit.
pub fn default_limit() -> (n: usize)
    ensures
        n == 100,
{
    100
}

/// One event of a span, as the read API reports it: the timestamp already
/// laid out as text, the attributes as ordered pairs.
pub struct SpanEventInfo {
    pub name: String,
    pub timestamp: String,
    pub attributes: Vec<(String, String)>,
}

} // verus!
