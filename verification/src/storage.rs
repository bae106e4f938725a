use vstd::prelude::*;
use crate::codec::Compression;
use crate::entry::{LogEntry, LogEntryModel, entry_models, spec_entries_text_bounded, lemma_no_entries_text_bounded};
use crate::row::{LogRowModel, spec_rows_of_entries};
use crate::pq::{pq_rows, columns_of_entries, encode_columns, lemma_entry_text_cols};
use crate::text::{now_stamp, file_name, spec_file_name};

verus! {

use vstd::seq_lib::lemma_multiset_commutative;
use vstd::multiset::Multiset;

/// A failure of the storage engine.
#[derive(Debug)]
pub enum StorageError {
    /// The storage directory could not be created.
    CreateDir(String),
    /// The output file could not be created.
    CreateFile(String),
    /// The columnar writer could not be constructed.
    WriterInit(String),
    /// The batch could not be written or the file could not be completed.
    WriteBatch(String),
    /// The file could not be finalized.
    Finalize(String),
    /// The records could not be laid out as a columnar batch.
    ColumnBuild(String),
}

/// One complete columnar file produced by a flush, to be persisted by the
/// caller under `name` inside the storage directory.
pub struct NewFile {
    pub name: String,
    pub bytes: Vec<u8>,
    /// The rows the file holds.
    pub rows: Ghost<Seq<LogRowModel>>,
}

/// What is true of the file a flush of `batch` produces when the engine's
/// counter stands at `counter`: the file decodes to exactly the rows of the
/// batch, in order, and its name carries the counter.
pub open spec fn flushed_file_post(batch: Seq<LogEntryModel>, counter: u64, f: NewFile) -> bool {
    &&& f.rows@ == spec_rows_of_entries(batch)
    &&& pq_rows(f.bytes@) == Some(f.rows@)
    &&& exists|stamp: Seq<char>| f.name@ == spec_file_name(stamp, counter)
}

/// The records of a sequence of flushed files, as one multiset.
pub open spec fn files_entries_multiset(files: Seq<Seq<LogEntryModel>>) -> Multiset<LogEntryModel>
    decreases files.len(),
{
    if files.len() == 0 {
        Multiset::empty()
    } else {
        files_entries_multiset(files.drop_last()).add(files.last().to_multiset())
    }
}

/// The storage engine: accumulates records into a bounded batch and turns
/// each full batch into one complete columnar file.
pub struct StorageEngine {
    storage_dir: String,
    compression: Compression,
    batch_size: usize,
    current_batch: Vec<LogEntry>,
    file_counter: u64,
    ingest_count: u64,
    ingested: Ghost<Seq<LogEntryModel>>,
    flushed: Ghost<Seq<Seq<LogEntryModel>>>,
}

impl StorageEngine {
    /// The records waiting in the current batch, in arrival order.
    pub closed spec fn batch(self) -> Seq<LogEntryModel> {
        entry_models(self.current_batch@)
    }

    /// The configured bound on a batch.
    pub closed spec fn spec_batch_size(self) -> int {
        self.batch_size as int
    }

    /// Every record ever given to `add_log`, in order.
    pub closed spec fn ingested(self) -> Seq<LogEntryModel> {
        self.ingested@
    }

    /// The records of each file produced so far, in flush order.
    pub closed spec fn flushed(self) -> Seq<Seq<LogEntryModel>> {
        self.flushed@
    }

    /// The per-engine file counter: one step per file produced.
    pub closed spec fn counter(self) -> u64 {
        self.file_counter
    }

    /// The value of the ingest counter.
    pub closed spec fn spec_ingest_count(self) -> u64 {
        self.ingest_count
    }

    /// Conservation: every record ever ingested is in exactly one of the
    /// flushed files or the current batch; and the waiting batch stays small
    /// enough for the columnar layout's 31-bit offsets.
    pub open spec fn inv_core(self) -> bool {
        &&& self.spec_batch_size() >= 1
        &&& self.spec_ingest_count() as int == self.ingested().len()
        &&& self.counter() as int == self.flushed().len()
        &&& spec_entries_text_bounded(self.batch())
        &&& self.ingested().to_multiset() == files_entries_multiset(self.flushed()).add(
            self.batch().to_multiset(),
        )
    }

    /// The engine's invariant: conservation, and a batch strictly below its
    /// bound (a full batch is flushed before any operation returns).
    pub open spec fn inv(self) -> bool {
        &&& self.inv_core()
        &&& self.batch().len() < self.spec_batch_size()
    }

    /// Create an engine over a storage directory. The directory itself is the
    /// caller's to create; `rotation_size` is accepted but unused, every
    /// flush rotates.
    pub fn new(
        storage_dir: String,
        compression: Compression,
        batch_size: usize,
        _rotation_size: u64,
    ) -> (r: Self)
        requires
            batch_size >= 1,
        ensures
            r.inv(),
            r.batch().len() == 0,
            r.ingested().len() == 0,
            r.flushed().len() == 0,
            r.counter() == 0,
            r.spec_batch_size() == batch_size,
    {
        let e = StorageEngine {
            storage_dir,
            compression,
            batch_size,
            current_batch: Vec::new(),
            file_counter: 0,
            ingest_count: 0,
            ingested: Ghost(Seq::empty()),
            flushed: Ghost(Seq::empty()),
        };
        proof {
            lemma_empty_to_multiset(e.batch());
            lemma_empty_to_multiset(e.ingested());
            lemma_no_entries_text_bounded(e.batch());
            assert(e.ingested().to_multiset() =~= files_entries_multiset(e.flushed()).add(
                e.batch().to_multiset(),
            ));
        }
        e
    }

    /// Number of records ingested so far; under the invariant this equals the
    /// number of records ever given to `add_log`.
    pub fn ingest_count(&self) -> (n: u64)
        ensures
            n == self.spec_ingest_count(),
            self.inv_core() ==> n as int == self.ingested().len(),
    {
        self.ingest_count
    }

    /// Number of records waiting in the current batch.
    pub fn batch_len(&self) -> (n: usize)
        ensures
            n == self.batch().len(),
    {
        self.current_batch.len()
    }

    /// Append one record to the batch; when the batch reaches its bound it is
    /// flushed at once and the finished file is handed back. The byte bound on
    /// the grown batch is a machine limit: the columnar layout addresses each
    /// text column with 31-bit offsets.
    pub fn add_log(&mut self, log: LogEntry) -> (r: Result<Option<NewFile>, StorageError>)
        requires
            old(self).inv(),
            old(self).ingested().len() < u64::MAX,
            old(self).counter() < u64::MAX,
            spec_entries_text_bounded(old(self).batch().push(log@)),
        ensures
            final(self).inv(),
            final(self).spec_batch_size() == old(self).spec_batch_size(),
            final(self).ingested() =~= old(self).ingested().push(log@),
            r is Ok,
            old(self).batch().len() + 1 < old(self).spec_batch_size() ==> {
                &&& r matches Ok(o) && o is None
                &&& final(self).batch() =~= old(self).batch().push(log@)
                &&& final(self).flushed() == old(self).flushed()
                &&& final(self).counter() == old(self).counter()
            },
            old(self).batch().len() + 1 >= old(self).spec_batch_size() ==> {
                &&& final(self).batch().len() == 0
                &&& r matches Ok(o) && o matches Some(f) && flushed_file_post(
                    old(self).batch().push(log@),
                    old(self).counter(),
                    f,
                )
                &&& final(self).flushed() =~~= old(self).flushed().push(
                    old(self).batch().push(log@),
                )
                &&& final(self).counter() == old(self).counter() + 1
            },
    {
        let ghost pre_batch = self.batch();
        let ghost pre_ingested = self.ingested@;
        proof {
            lemma_multiset_commutative(pre_ingested, seq![log@]);
            lemma_multiset_commutative(pre_batch, seq![log@]);
        }
        self.current_batch.push(log);
        self.ingest_count = self.ingest_count + 1;
        proof {
            self.ingested@ = self.ingested@.push(log@);
            assert(self.batch() =~= pre_batch.push(log@));
            assert(self.ingested@ =~= pre_ingested.push(log@));
            assert(pre_ingested.push(log@) =~= pre_ingested + seq![log@]);
            assert(pre_batch.push(log@) =~= pre_batch + seq![log@]);
            assert(self.ingested@.to_multiset() =~= files_entries_multiset(self.flushed@).add(
                self.batch().to_multiset(),
            ));
        }
        if self.current_batch.len() >= self.batch_size {
            self.flush()
        } else {
            Ok(None)
        }
    }

    /// Turn the waiting batch into one complete columnar file. An empty batch
    /// is a no-op and produces no file; a second flush right after a first is
    /// therefore a no-op too. Under the invariant's byte bound the in-memory
    /// encoding cannot fail; what can still fail — persisting the returned
    /// file — is the caller's, and a discarded file loses its records, by
    /// design.
    pub fn flush(&mut self) -> (r: Result<Option<NewFile>, StorageError>)
        requires
            old(self).inv_core(),
            old(self).batch().len() <= old(self).spec_batch_size(),
            old(self).counter() < u64::MAX,
        ensures
            final(self).inv(),
            final(self).spec_batch_size() == old(self).spec_batch_size(),
            final(self).ingested() == old(self).ingested(),
            final(self).batch().len() == 0,
            r is Ok,
            old(self).batch().len() == 0 ==> (*final(self) == *old(self) && (r matches Ok(o)
                && o is None)),
            old(self).batch().len() > 0 ==> {
                &&& r matches Ok(o) && o matches Some(f) && flushed_file_post(
                    old(self).batch(),
                    old(self).counter(),
                    f,
                )
                &&& final(self).flushed() =~~= old(self).flushed().push(old(self).batch())
                &&& final(self).counter() == old(self).counter() + 1
            },
    {
        if self.current_batch.is_empty() {
            return Ok(None);
        }
        let ghost pre = *self;
        let cols = columns_of_entries(&self.current_batch);
        proof {
            lemma_entry_text_cols(pre.batch());
            assert(cols.text_bytes_bounded());
        }
        let stamp = now_stamp();
        let name = file_name(stamp.as_str(), self.file_counter);
        let bytes = encode_columns(&cols, &self.compression);
        let ghost rows = cols.spec_rows();
        self.file_counter = self.file_counter + 1;
        self.current_batch.clear();
        proof {
            self.flushed@ = self.flushed@.push(pre.batch());
            assert(self.flushed@.drop_last() =~= pre.flushed@);
            assert(files_entries_multiset(self.flushed@) =~= files_entries_multiset(
                pre.flushed@,
            ).add(pre.batch().to_multiset()));
            lemma_empty_to_multiset(self.batch());
            lemma_no_entries_text_bounded(self.batch());
            assert(self.ingested@.to_multiset() =~= files_entries_multiset(self.flushed@).add(
                self.batch().to_multiset(),
            ));
        }
        Ok(Some(NewFile { name, bytes, rows: Ghost(rows) }))
    }
}

/// A sequence with nothing in it holds the empty multiset.
pub proof fn lemma_empty_to_multiset<A>(s: Seq<A>)
    requires
        s.len() == 0,
    ensures
        s.to_multiset() =~= Multiset::empty(),
{
    broadcast use vstd::seq_lib::group_to_multiset_ensures;

    assert forall|x: A| s.to_multiset().count(x) == 0 by {
        if s.to_multiset().count(x) > 0 {
            assert(s.contains(x));
        }
    }
}

} // verus!
