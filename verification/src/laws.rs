use vstd::prelude::*;
use crate::entry::LogEntryModel;
use crate::row::{rfc3339_millis, spec_row_of_entry, spec_rows_of_entries};
use crate::pq::pq_rows;
use crate::storage::{
    StorageEngine, NewFile, files_entries_multiset, flushed_file_post, lemma_empty_to_multiset,
};

verus! {

use vstd::seq_lib::group_to_multiset_ensures;

/// After all flushes complete — the batch is empty — the multiset of records
/// in the files the engine produced equals the multiset of records ever
/// ingested, over any history of operations.
pub proof fn lemma_disk_equals_ingested(e: StorageEngine)
    requires
        e.inv_core(),
        e.batch().len() == 0,
    ensures
        files_entries_multiset(e.flushed()) =~= e.ingested().to_multiset(),
{
    broadcast use vstd::multiset::group_multiset_axioms;

    lemma_empty_to_multiset(e.batch());
    assert(files_entries_multiset(e.flushed()).add(e.batch().to_multiset())
        =~= files_entries_multiset(e.flushed()));
}

/// One sequence cut into two subsequences whose relative orders are kept:
/// the shape of one record stream split across two connections.
pub open spec fn is_interleaving<A>(c: Seq<A>, a: Seq<A>, b: Seq<A>) -> bool
    decreases c.len(),
{
    if c.len() == 0 {
        a.len() == 0 && b.len() == 0
    } else {
        ||| (a.len() > 0 && a.first() == c.first() && is_interleaving(
            c.drop_first(),
            a.drop_first(),
            b,
        ))
        ||| (b.len() > 0 && b.first() == c.first() && is_interleaving(
            c.drop_first(),
            a,
            b.drop_first(),
        ))
    }
}

/// An interleaving holds exactly the records of its two parts, as a multiset.
pub proof fn lemma_interleaving_multiset<A>(c: Seq<A>, a: Seq<A>, b: Seq<A>)
    requires
        is_interleaving(c, a, b),
    ensures
        c.to_multiset() == a.to_multiset().add(b.to_multiset()),
    decreases c.len(),
{
    broadcast use group_to_multiset_ensures;
    broadcast use vstd::multiset::group_multiset_axioms;

    if c.len() == 0 {
        lemma_empty_to_multiset(c);
        lemma_empty_to_multiset(a);
        lemma_empty_to_multiset(b);
        assert(c.to_multiset() =~= a.to_multiset().add(b.to_multiset()));
    } else {
        let x = c.first();
        assert(c.drop_first() =~= c.remove(0));
        assert(c.remove(0).to_multiset() =~= c.to_multiset().remove(x));
        assert(c.contains(x)) by {
            assert(c[0] == x);
        }
        assert(c.to_multiset().count(x) > 0);
        if a.len() > 0 && a.first() == x && is_interleaving(c.drop_first(), a.drop_first(), b) {
            lemma_interleaving_multiset(c.drop_first(), a.drop_first(), b);
            assert(a.drop_first() =~= a.remove(0));
            assert(a.remove(0).to_multiset() =~= a.to_multiset().remove(x));
            assert(a.contains(x)) by {
                assert(a[0] == x);
            }
            assert(a.to_multiset().count(x) > 0);
            assert forall|y: A|
                c.to_multiset().count(y) == a.to_multiset().add(b.to_multiset()).count(y) by {
                assert(c.to_multiset().remove(x).count(y) == a.to_multiset().remove(x).add(
                    b.to_multiset(),
                ).count(y));
            }
            assert(c.to_multiset() =~= a.to_multiset().add(b.to_multiset()));
        } else {
            lemma_interleaving_multiset(c.drop_first(), a, b.drop_first());
            assert(b.drop_first() =~= b.remove(0));
            assert(b.remove(0).to_multiset() =~= b.to_multiset().remove(x));
            assert(b.contains(x)) by {
                assert(b[0] == x);
            }
            assert(b.to_multiset().count(x) > 0);
            assert forall|y: A|
                c.to_multiset().count(y) == a.to_multiset().add(b.to_multiset()).count(y) by {
                assert(c.to_multiset().remove(x).count(y) == a.to_multiset().add(
                    b.to_multiset().remove(x),
                ).count(y));
            }
            assert(c.to_multiset() =~= a.to_multiset().add(b.to_multiset()));
        }
    }
}

/// Sending one sequence of records split across two connections yields the
/// same records on disk as sending it on one connection: an engine that
/// ingested any interleaving of the two streams and flushed everything holds
/// exactly the records of both streams.
pub proof fn lemma_split_across_connections(
    e: StorageEngine,
    a: Seq<LogEntryModel>,
    b: Seq<LogEntryModel>,
)
    requires
        e.inv_core(),
        e.batch().len() == 0,
        is_interleaving(e.ingested(), a, b),
    ensures
        files_entries_multiset(e.flushed()) == a.to_multiset().add(b.to_multiset()),
{
    lemma_disk_equals_ingested(e);
    lemma_interleaving_multiset(e.ingested(), a, b);
}

/// A flushed file read back via the query path yields exactly the rows of the
/// records that were flushed into it, in order.
pub proof fn lemma_flush_read_round_trip(batch: Seq<LogEntryModel>, counter: u64, f: NewFile)
    requires
        flushed_file_post(batch, counter, f),
    ensures
        pq_rows(f.bytes@) == Some(spec_rows_of_entries(batch)),
{
}

/// Each flushed file holds exactly the batch of the moment of its flush: one
/// row per record, in arrival order, never more rows than the batch bound.
pub proof fn lemma_file_rows_bounded(
    batch: Seq<LogEntryModel>,
    bound: int,
    counter: u64,
    f: NewFile,
)
    requires
        flushed_file_post(batch, counter, f),
        batch.len() <= bound,
    ensures
        f.rows@.len() == batch.len(),
        f.rows@.len() <= bound,
{
}

/// The row a record is stored as keeps every non-optional field byte for
/// byte, keeps the optional fields exactly as present or absent, and resolves
/// the timestamp to the milliseconds it denotes — epoch zero where it does
/// not parse.
pub proof fn lemma_row_keeps_fields(e: LogEntryModel)
    ensures
        spec_row_of_entry(e).level == e.level,
        spec_row_of_entry(e).message == e.message,
        spec_row_of_entry(e).service == e.service,
        spec_row_of_entry(e).trace_id == e.trace_id,
        spec_row_of_entry(e).metadata == e.metadata,
        rfc3339_millis(e.timestamp) matches Some(ms) ==> spec_row_of_entry(e).timestamp_millis
            == ms,
        rfc3339_millis(e.timestamp) is None ==> spec_row_of_entry(e).timestamp_millis == 0,
{
}

} // verus!
