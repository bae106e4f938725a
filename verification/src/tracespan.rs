use vstd::prelude::*;
use crate::text::{concat_strs, u64_string, spec_u64_digits, spec_digit};

verus! {

/// One timed event inside a span. Times are epoch microseconds.
#[derive(Clone)]
pub struct SpanEvent {
    pub name: String,
    pub timestamp_us: i64,
    pub attributes: Vec<(String, String)>,
}

/// Whether a span ended well. The stored text form is "OK", or "ERROR: "
/// followed by the message.
#[derive(Clone)]
pub enum SpanStatus {
    Success,
    Error { message: String },
}

/// The text a status is stored as.
pub open spec fn spec_status_text(s: SpanStatus) -> Seq<char> {
    match s {
        SpanStatus::Success => "OK"@,
        SpanStatus::Error { message } => "ERROR: "@ + message@,
    }
}

/// Lay a status out as its stored text.
pub fn status_text(s: &SpanStatus) -> (r: String)
    ensures
        r@ == spec_status_text(*s),
{
    match s {
        SpanStatus::Success => "OK".to_owned(),
        SpanStatus::Error { message } => concat_strs("ERROR: ", message.as_str()),
    }
}

/// The message an error status carries, empty for success.
pub open spec fn spec_error_message(s: SpanStatus) -> Seq<char> {
    match s {
        SpanStatus::Success => Seq::empty(),
        SpanStatus::Error { message } => message@,
    }
}

/// The stored status text tells the two cases apart: equal texts mean the
/// same case, with the same message.
pub proof fn lemma_status_text_injective(a: SpanStatus, b: SpanStatus)
    requires
        spec_status_text(a) == spec_status_text(b),
    ensures
        a is Success <==> b is Success,
        spec_error_message(a) == spec_error_message(b),
{
    reveal_strlit("OK");
    reveal_strlit("ERROR: ");
    match (a, b) {
        (SpanStatus::Success, SpanStatus::Success) => {
        },
        (SpanStatus::Error { message: m1 }, SpanStatus::Error { message: m2 }) => {
            let t = spec_status_text(a);
            assert(m1@ =~= t.subrange(7, t.len() as int));
            assert(m2@ =~= t.subrange(7, t.len() as int));
        },
        (SpanStatus::Success, SpanStatus::Error { message }) => {
            assert(spec_status_text(a).len() == 2);
            assert(spec_status_text(b).len() >= 7);
        },
        (SpanStatus::Error { message }, SpanStatus::Success) => {
            assert(spec_status_text(a).len() >= 7);
            assert(spec_status_text(b).len() == 2);
        },
    }
}

/// One span of a distributed trace. Times are epoch microseconds; attributes
/// are ordered key-value pairs.
#[derive(Clone)]
pub struct TraceSpan {
    pub trace_id: String,
    pub span_id: String,
    pub parent_span_id: Option<String>,
    pub name: String,
    pub start_time_us: i64,
    pub end_time_us: i64,
    pub duration_us: u64,
    pub attributes: Vec<(String, String)>,
    pub events: Vec<SpanEvent>,
    pub status: SpanStatus,
}

/// A counter padded to at least three digits, as trace file names carry it.
pub open spec fn spec_padded3(n: u64) -> Seq<char> {
    if n < 10 {
        seq![spec_digit(0), spec_digit(0)] + spec_u64_digits(n)
    } else if n < 100 {
        seq![spec_digit(0)] + spec_u64_digits(n)
    } else {
        spec_u64_digits(n)
    }
}

/// The name of the file a trace flush produces.
pub open spec fn spec_trace_file_name(stamp: Seq<char>, counter: u64) -> Seq<char> {
    "traces_"@ + stamp + "_"@ + spec_padded3(counter) + ".parquet"@
}

/// Relies on chrono's `Utc::now` and `format`: the current UTC time as
/// "YYYYMMDD_HHMMSS". The result depends on the clock, so nothing is claimed
/// of it.
#[verifier::external_body]
fn now_stamp_seconds() -> (r: String)
{
    chrono::Utc::now().format("%Y%m%d_%H%M%S").to_string()
}

/// Build the name of the next trace file.
fn trace_file_name(stamp: &str, counter: u64) -> (r: String)
    ensures
        r@ == spec_trace_file_name(stamp@, counter),
{
    let digits = u64_string(counter);
    let padded = if counter < 10 {
        concat_strs("00", digits.as_str())
    } else if counter < 100 {
        concat_strs("0", digits.as_str())
    } else {
        digits
    };
    proof {
        reveal_strlit("00");
        reveal_strlit("0");
        assert(padded@ =~= spec_padded3(counter));
    }
    let a = concat_strs("traces_", stamp);
    let b = concat_strs(a.as_str(), "_");
    let c = concat_strs(b.as_str(), padded.as_str());
    concat_strs(c.as_str(), ".parquet")
}

/// One batch of spans drained by a flush, to be encoded and persisted by the
/// caller under `name` inside the trace storage directory.
pub struct TraceFlush {
    pub name: String,
    pub spans: Vec<TraceSpan>,
}

/// Storage for trace spans: accumulates spans into a bounded batch and drains
/// each full batch as one file's worth of spans.
pub struct TraceStorage {
    storage_dir: String,
    compression: crate::codec::Compression,
    batch_size: usize,
    current_batch: Vec<TraceSpan>,
    file_counter: u64,
}

impl TraceStorage {
    /// The spans waiting in the current batch, in arrival order.
    pub closed spec fn batch(self) -> Seq<TraceSpan> {
        self.current_batch@
    }

    /// The configured bound on a batch.
    pub closed spec fn spec_batch_size(self) -> int {
        self.batch_size as int
    }

    /// The per-storage file counter: one step per batch drained.
    pub closed spec fn counter(self) -> u64 {
        self.file_counter
    }

    /// The batch stays strictly below its bound between operations.
    pub open spec fn inv(self) -> bool {
        &&& self.spec_batch_size() >= 1
        &&& self.batch().len() < self.spec_batch_size()
    }

    /// Create a trace storage over a directory; the directory itself is the
    /// caller's to create.
    pub fn new(storage_dir: String, compression: crate::codec::Compression, batch_size: usize) -> (r:
        Self)
        requires
            batch_size >= 1,
        ensures
            r.inv(),
            r.batch().len() == 0,
            r.counter() == 0,
            r.spec_batch_size() == batch_size,
    {
        TraceStorage {
            storage_dir,
            compression,
            batch_size,
            current_batch: Vec::new(),
            file_counter: 0,
        }
    }

    /// Append one span; when the batch reaches its bound it is drained at
    /// once and handed back as one file's worth of spans.
    pub fn add_span(&mut self, span: TraceSpan) -> (r: Option<TraceFlush>)
        requires
            old(self).inv(),
            old(self).counter() < u64::MAX,
        ensures
            final(self).inv(),
            final(self).spec_batch_size() == old(self).spec_batch_size(),
            old(self).batch().len() + 1 < old(self).spec_batch_size() ==> {
                &&& r is None
                &&& final(self).batch() =~= old(self).batch().push(span)
                &&& final(self).counter() == old(self).counter()
            },
            old(self).batch().len() + 1 >= old(self).spec_batch_size() ==> {
                &&& r matches Some(f) && f.spans@ =~= old(self).batch().push(span)
                &&& final(self).batch().len() == 0
                &&& final(self).counter() == old(self).counter() + 1
            },
    {
        self.current_batch.push(span);
        if self.current_batch.len() >= self.batch_size {
            self.flush()
        } else {
            None
        }
    }

    /// Drain the waiting batch as one file's worth of spans. An empty batch
    /// is a no-op and drains nothing.
    pub fn flush(&mut self) -> (r: Option<TraceFlush>)
        requires
            old(self).spec_batch_size() >= 1,
            old(self).batch().len() <= old(self).spec_batch_size(),
            old(self).counter() < u64::MAX,
        ensures
            final(self).inv(),
            final(self).spec_batch_size() == old(self).spec_batch_size(),
            final(self).batch().len() == 0,
            old(self).batch().len() == 0 ==> (r is None && *final(self) == *old(self)),
            old(self).batch().len() > 0 ==> {
                &&& r matches Some(f) && f.spans@ =~= old(self).batch() && (exists|stamp: Seq<char>|
                    f.name@ == #[trigger] spec_trace_file_name(stamp, old(self).counter()))
                &&& final(self).counter() == old(self).counter() + 1
            },
    {
        if self.current_batch.is_empty() {
            return None;
        }
        let stamp = now_stamp_seconds();
        let name = trace_file_name(stamp.as_str(), self.file_counter);
        self.file_counter = self.file_counter + 1;
        let mut drained: Vec<TraceSpan> = Vec::new();
        core::mem::swap(&mut self.current_batch, &mut drained);
        Some(TraceFlush { name, spans: drained })
    }
}

} // verus!
