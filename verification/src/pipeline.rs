use vstd::prelude::*;

verus! {

/// The counters of the ingestion pipeline, as one abstract state: handlers
/// accept records and either enqueue or drop them; the flusher delivers
/// queued records into the engine, where they count as ingested.
pub ghost struct PipelineCounters {
    /// Frames that parsed and validated.
    pub accepted: nat,
    /// Records sitting in the bounded queue.
    pub queued: nat,
    /// Records dropped because the queue was full.
    pub dropped: nat,
    /// Records the flusher handed to the storage engine.
    pub ingested: nat,
}

/// One observable step of the pipeline.
pub enum PipelineEvent {
    /// A handler accepted a record and the queue took it.
    EnqueueOk,
    /// A handler accepted a record and the full queue rejected it.
    EnqueueDrop,
    /// The flusher received one queued record and gave it to the engine.
    Deliver,
}

/// The counters all zero: the state at server start.
pub open spec fn pipeline_init() -> PipelineCounters {
    PipelineCounters { accepted: 0, queued: 0, dropped: 0, ingested: 0 }
}

/// How one event moves the counters. Delivery from an empty queue cannot
/// occur and moves nothing.
pub open spec fn pipeline_step(s: PipelineCounters, e: PipelineEvent) -> PipelineCounters {
    match e {
        PipelineEvent::EnqueueOk => PipelineCounters {
            accepted: s.accepted + 1,
            queued: s.queued + 1,
            ..s
        },
        PipelineEvent::EnqueueDrop => PipelineCounters {
            accepted: s.accepted + 1,
            dropped: s.dropped + 1,
            ..s
        },
        PipelineEvent::Deliver => {
            if s.queued > 0 {
                PipelineCounters { queued: (s.queued - 1) as nat, ingested: s.ingested + 1, ..s }
            } else {
                s
            }
        },
    }
}

/// The counters after a sequence of events, from the start state.
pub open spec fn pipeline_run(evs: Seq<PipelineEvent>) -> PipelineCounters
    decreases evs.len(),
{
    if evs.len() == 0 {
        pipeline_init()
    } else {
        pipeline_step(pipeline_run(evs.drop_last()), evs.last())
    }
}

/// The pipeline's books balance: every accepted record is queued, dropped or
/// ingested, and nowhere else.
pub open spec fn pipeline_balanced(s: PipelineCounters) -> bool {
    s.accepted == s.queued + s.dropped + s.ingested
}

/// Every reachable state of the pipeline balances its books.
pub proof fn lemma_pipeline_balanced(evs: Seq<PipelineEvent>)
    ensures
        pipeline_balanced(pipeline_run(evs)),
    decreases evs.len(),
{
    if evs.len() > 0 {
        lemma_pipeline_balanced(evs.drop_last());
    }
}

/// Once the queue has drained, the ingest counter and the dropped counter
/// together account for every frame that ever parsed and validated.
pub proof fn lemma_ingest_plus_dropped_accounts_for_accepted(evs: Seq<PipelineEvent>)
    requires
        pipeline_run(evs).queued == 0,
    ensures
        pipeline_run(evs).ingested + pipeline_run(evs).dropped == pipeline_run(evs).accepted,
{
    lemma_pipeline_balanced(evs);
}

} // verus!
