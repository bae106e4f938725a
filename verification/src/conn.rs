use vstd::prelude::*;
use crate::entry::LogEntry;
use crate::frame::{FrameAccumulator, FrameStep, MAX_FRAME_LEN, spec_frames, spec_frame_len};
use crate::schema::{SchemaValidator, simd_raw_record_of, spec_raw_ok};
use tokio::sync::mpsc::Sender;

verus! {

/// Whether the fast path accepts a frame payload: it is well-formed JSON and
/// its raw shape fits the typed record.
pub open spec fn spec_fast_accepts(payload: Seq<u8>) -> bool {
    match simd_raw_record_of(payload) {
        Some(raw) => spec_raw_ok(raw),
        None => false,
    }
}

/// How many of these payloads the fast path accepts.
pub open spec fn spec_count_fast_accepted(frames: Seq<Seq<u8>>) -> int
    decreases frames.len(),
{
    if frames.len() == 0 {
        0
    } else {
        spec_count_fast_accepted(frames.drop_last()) + (if spec_fast_accepts(frames.last()) {
            1int
        } else {
            0int
        })
    }
}

#[verifier::external_type_specification]
#[verifier::external_body]
#[verifier::reject_recursive_types(T)]
pub struct ExSender<T>(Sender<T>);

/// Outcome of one non-blocking enqueue attempt.
pub enum SendOutcome {
    /// The record was accepted by the queue.
    Sent,
    /// The queue is full; the record comes back and is dropped, by design.
    Full(LogEntry),
    /// The consumer side is gone; the record comes back.
    Closed(LogEntry),
}

/// Relies on tokio's `Sender::try_send`: non-blocking; a rejected record
/// comes back unchanged together with the reason. The queue is shared, so
/// nothing is claimed about which outcome occurs.
#[verifier::external_body]
fn try_send_log(tx: &Sender<LogEntry>, log: LogEntry) -> (r: SendOutcome)
    ensures
        r matches SendOutcome::Full(l) ==> l == log,
        r matches SendOutcome::Closed(l) ==> l == log,
{
    match tx.try_send(log) {
        Ok(()) => SendOutcome::Sent,
        Err(tokio::sync::mpsc::error::TrySendError::Full(l)) => SendOutcome::Full(l),
        Err(tokio::sync::mpsc::error::TrySendError::Closed(l)) => SendOutcome::Closed(l),
    }
}

/// Per-connection accounting.
pub struct ConnStats {
    /// Frames that parsed and validated.
    pub accepted: u64,
    /// Frames dropped for a parse or validation failure.
    pub parse_failures: u64,
    /// Records the queue accepted.
    pub enqueued: u64,
    /// Records dropped because the queue was full.
    pub dropped: u64,
    /// Frames whose length field exceeded the bound.
    pub oversized: u64,
}

impl ConnStats {
    /// Every accepted record was either enqueued or dropped.
    pub open spec fn wf(self) -> bool {
        self.accepted as int == self.enqueued as int + self.dropped as int
    }

    pub fn new() -> (r: Self)
        ensures
            r.wf(),
            r.accepted == 0,
            r.parse_failures == 0,
            r.enqueued == 0,
            r.dropped == 0,
            r.oversized == 0,
    {
        ConnStats { accepted: 0, parse_failures: 0, enqueued: 0, dropped: 0, oversized: 0 }
    }
}

/// What one chunk of received bytes led to.
pub enum ChunkOutcome {
    /// All whole frames were processed; the connection goes on reading.
    Continue,
    /// The consumer side of the queue is gone; the handler exits cleanly.
    QueueClosed,
    /// A frame length exceeded the bound; fatal to the connection.
    FrameTooLarge,
}

/// Feed one chunk of received bytes through the per-connection pipeline:
/// reassemble frames, parse and validate each payload, and enqueue each
/// validated record with a non-blocking send, dropping on a full queue.
///
/// The accounting is exact: every whole frame consumed is counted as accepted
/// or as a parse failure (or is the one in flight when the queue closes), and
/// every accepted record is either enqueued or dropped.
pub fn handle_chunk(
    acc: &mut FrameAccumulator,
    validator: &SchemaValidator,
    tx: &Sender<LogEntry>,
    chunk: &[u8],
    stats: &mut ConnStats,
) -> (r: ChunkOutcome)
    requires
        old(acc).inv(),
        old(stats).wf(),
        old(stats).accepted as int + old(acc).pending().len() + chunk@.len() <= u64::MAX,
        old(stats).parse_failures as int + old(acc).pending().len() + chunk@.len() <= u64::MAX,
        old(stats).enqueued as int + old(acc).pending().len() + chunk@.len() <= u64::MAX,
        old(stats).dropped as int + old(acc).pending().len() + chunk@.len() <= u64::MAX,
        old(stats).oversized < u64::MAX,
    ensures
        final(acc).inv(),
        final(stats).wf(),
        final(acc).history() =~= old(acc).history() + chunk@,
        final(stats).accepted >= old(stats).accepted,
        final(stats).parse_failures >= old(stats).parse_failures,
        final(stats).enqueued >= old(stats).enqueued,
        final(stats).dropped >= old(stats).dropped,
        final(acc).delivered().len() - old(acc).delivered().len()
            == (final(stats).accepted as int - old(stats).accepted as int)
            + (final(stats).parse_failures as int - old(stats).parse_failures as int)
            + (if r is QueueClosed { 1int } else { 0int }),
        final(stats).accepted as int - old(stats).accepted as int
            == (final(stats).enqueued as int - old(stats).enqueued as int)
            + (final(stats).dropped as int - old(stats).dropped as int),
        final(stats).oversized as int == old(stats).oversized as int + (if r is FrameTooLarge {
            1int
        } else {
            0int
        }),
        r is Continue ==> spec_frames(final(acc).pending()).len() == 0,
        (r is Continue && final(acc).pending().len() >= 4) ==> spec_frame_len(
            final(acc).pending(),
        ) <= MAX_FRAME_LEN,
        validator.fast_path() ==> {
            let fresh = final(acc).delivered().skip(old(acc).delivered().len() as int);
            let counted = if r is QueueClosed {
                fresh.drop_last()
            } else {
                fresh
            };
            &&& final(stats).accepted as int - old(stats).accepted as int
                == spec_count_fast_accepted(counted)
            &&& final(stats).parse_failures as int - old(stats).parse_failures as int
                == counted.len() - spec_count_fast_accepted(counted)
            &&& (r is QueueClosed ==> (fresh.len() >= 1 && spec_fast_accepts(fresh.last())))
        },
    {
        let ghost avail = old(acc).pending().len() + chunk@.len() as int;
        acc.extend(chunk);
        loop
            invariant
                acc.inv(),
                stats.wf(),
                acc.history() =~= old(acc).history() + chunk@,
                stats.accepted >= old(stats).accepted,
                stats.parse_failures >= old(stats).parse_failures,
                stats.enqueued >= old(stats).enqueued,
                stats.dropped >= old(stats).dropped,
                stats.oversized == old(stats).oversized,
                old(stats).oversized < u64::MAX,
                old(stats).accepted as int + avail <= u64::MAX,
                old(stats).parse_failures as int + avail <= u64::MAX,
                old(stats).enqueued as int + avail <= u64::MAX,
                old(stats).dropped as int + avail <= u64::MAX,
                stats.accepted as int + acc.pending().len() <= old(stats).accepted as int + avail,
                stats.parse_failures as int + acc.pending().len()
                    <= old(stats).parse_failures as int + avail,
                stats.enqueued as int + acc.pending().len() <= old(stats).enqueued as int + avail,
                stats.dropped as int + acc.pending().len() <= old(stats).dropped as int + avail,
                acc.delivered().len() - old(acc).delivered().len()
                    == (stats.accepted as int - old(stats).accepted as int)
                    + (stats.parse_failures as int - old(stats).parse_failures as int),
                stats.accepted as int - old(stats).accepted as int
                    == (stats.enqueued as int - old(stats).enqueued as int)
                    + (stats.dropped as int - old(stats).dropped as int),
                validator.fast_path() ==> {
                    let fresh = acc.delivered().skip(old(acc).delivered().len() as int);
                    &&& stats.accepted as int - old(stats).accepted as int
                        == spec_count_fast_accepted(fresh)
                    &&& stats.parse_failures as int - old(stats).parse_failures as int
                        == fresh.len() - spec_count_fast_accepted(fresh)
                },
            decreases acc.pending().len(),
        {
            let ghost pre_fresh = acc.delivered().skip(old(acc).delivered().len() as int);
            match acc.next_frame() {
                FrameStep::Incomplete => {
                    proof {
                        assert(spec_frames(acc.pending()).len() == 0);
                    }
                    return ChunkOutcome::Continue;
                },
                FrameStep::TooLarge => {
                    stats.oversized = stats.oversized + 1;
                    return ChunkOutcome::FrameTooLarge;
                },
                FrameStep::Ready(payload) => {
                    let mut buf = payload;
                    let ghost pbytes = buf@;
                    proof {
                        let fresh = acc.delivered().skip(old(acc).delivered().len() as int);
                        assert(fresh =~= pre_fresh.push(pbytes));
                        assert(fresh.drop_last() =~= pre_fresh);
                        assert(spec_count_fast_accepted(fresh) == spec_count_fast_accepted(
                            pre_fresh,
                        ) + (if spec_fast_accepts(pbytes) {
                            1int
                        } else {
                            0int
                        }));
                    }
                    match validator.parse_fast(&mut buf) {
                        Ok(log) => {
                            proof {
                                if validator.fast_path() {
                                    assert(spec_fast_accepts(pbytes));
                                }
                            }
                            match try_send_log(tx, log) {
                                SendOutcome::Sent => {
                                    stats.accepted = stats.accepted + 1;
                                    stats.enqueued = stats.enqueued + 1;
                                },
                                SendOutcome::Full(_) => {
                                    stats.accepted = stats.accepted + 1;
                                    stats.dropped = stats.dropped + 1;
                                },
                                SendOutcome::Closed(_) => {
                                    return ChunkOutcome::QueueClosed;
                                },
                            }
                        },
                        Err(_) => {
                            proof {
                                if validator.fast_path() {
                                    assert(!spec_fast_accepts(pbytes));
                                }
                            }
                            stats.parse_failures = stats.parse_failures + 1;
                        },
                    }
                },
            }
        }
    }

} // verus!
