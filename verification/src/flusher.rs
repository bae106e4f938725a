use vstd::prelude::*;
use crate::entry::{LogEntry, spec_entries_text_bounded};
use crate::storage::{StorageEngine, StorageError, NewFile, flushed_file_post};

verus! {

/// What the flusher wakes up to: a record from the queue, the idle timer, or
/// the closed queue.
pub enum FlusherEvent {
    /// A record arrived from the queue.
    Received(LogEntry),
    /// The flush-interval timer fired with the queue idle.
    IdleTimeout,
    /// The sender side of the queue is gone; this is the final drain.
    Closed,
}

/// One decision of the flusher loop. A received record goes into the engine
/// (which flushes by itself when the batch fills); a timeout or closure
/// flushes whatever waits. The second component says whether the loop is
/// done; the first hands back exactly what the engine produced, for the
/// caller to persist.
pub fn flusher_step(engine: &mut StorageEngine, event: FlusherEvent) -> (r: (
    Result<Option<NewFile>, StorageError>,
    bool,
))
    requires
        old(engine).inv(),
        old(engine).ingested().len() < u64::MAX,
        old(engine).counter() < u64::MAX,
        event matches FlusherEvent::Received(log) ==> spec_entries_text_bounded(
            old(engine).batch().push(log@),
        ),
    ensures
        final(engine).inv(),
        final(engine).spec_batch_size() == old(engine).spec_batch_size(),
        r.0 is Ok,
        r.1 == (event is Closed),
        event matches FlusherEvent::Received(log) ==> {
            &&& final(engine).ingested() =~= old(engine).ingested().push(log@)
            &&& old(engine).batch().len() + 1 < old(engine).spec_batch_size() ==> (r.0 matches Ok(
                o,
            ) && o is None)
            &&& old(engine).batch().len() + 1 >= old(engine).spec_batch_size() ==> (r.0 matches Ok(
                o,
            ) && o matches Some(f) && flushed_file_post(
                old(engine).batch().push(log@),
                old(engine).counter(),
                f,
            ))
        },
        !(event is Received)
            ==> (final(engine).ingested() == old(engine).ingested()
                && final(engine).batch().len() == 0),
        (!(event is Received) && old(engine).batch().len() == 0) ==> (r.0 matches Ok(o)
            && o is None),
        (!(event is Received) && old(engine).batch().len() > 0) ==> (r.0 matches Ok(o)
            && o matches Some(f) && flushed_file_post(
            old(engine).batch(),
            old(engine).counter(),
            f,
        )),
{
    match event {
        FlusherEvent::Received(log) => (engine.add_log(log), false),
        FlusherEvent::IdleTimeout => (engine.flush(), false),
        FlusherEvent::Closed => (engine.flush(), true),
    }
}

} // verus!
