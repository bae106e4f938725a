use vstd::prelude::*;
use crate::codec::Compression;
use crate::entry::{LogEntry, LogEntryModel, opt_str_model, entry_models, spec_texts_bytes, spec_entry_text_col, spec_entries_text_bounded};
use crate::row::{LogRow, LogRowModel, spec_rows_of_entries, spec_row_of_entry, row_of_entry};
use arrow::array::{ArrayRef, RecordBatch, StringArray, TimestampMillisecondArray};
use arrow::datatypes::{DataType, Field, Schema, TimeUnit};
use parquet::arrow::ArrowWriter;
use parquet::arrow::arrow_reader::ParquetRecordBatchReaderBuilder;
use parquet::file::properties::WriterProperties;
use std::sync::Arc;

verus! {

use vstd::pervasive::unreached;

#[verifier::external_type_specification]
#[verifier::external_body]
pub struct ExArrowSchema(Schema);

/// Whether a schema value is the fixed six-column log schema.
pub uninterp spec fn is_log_schema(s: Schema) -> bool;

/// Relies on arrow's `Schema::new`: the fixed log schema of six columns;
/// `timestamp` in epoch milliseconds non-null, `level` and `message` non-null
/// text, `service`, `trace_id` and `metadata` nullable text.
#[verifier::external_body]
fn log_schema() -> (s: Schema)
    ensures
        is_log_schema(s),
{
    Schema::new(vec![
        Field::new("timestamp", DataType::Timestamp(TimeUnit::Millisecond, None), false),
        Field::new("level", DataType::Utf8, false),
        Field::new("message", DataType::Utf8, false),
        Field::new("service", DataType::Utf8, true),
        Field::new("trace_id", DataType::Utf8, true),
        Field::new("metadata", DataType::Utf8, true),
    ])
}

/// An in-memory columnar batch. The batch itself is opaque; the two names
/// below say what it holds.
#[verifier::external_body]
pub struct LogBatch {
    inner: RecordBatch,
}

/// Whether an in-memory batch carries the six-column log schema.
pub uninterp spec fn batch_is_log(b: LogBatch) -> bool;

/// The rows an in-memory log batch holds, in order.
pub uninterp spec fn batch_rows(b: LogBatch) -> Seq<LogRowModel>;

/// The rows a byte buffer decodes to, `None` where the buffer is not one
/// complete, readable columnar file of the log schema.
pub uninterp spec fn pq_rows(bytes: Seq<u8>) -> Option<Seq<LogRowModel>>;


/// The columns of one batch, as plain vectors of equal length.
pub struct LogColumns {
    pub timestamps: Vec<i64>,
    pub levels: Vec<String>,
    pub messages: Vec<String>,
    pub services: Vec<Option<String>>,
    pub trace_ids: Vec<Option<String>>,
    pub metadatas: Vec<Option<String>>,
}

impl LogColumns {
    /// All six columns have the same number of entries.
    pub open spec fn wf(self) -> bool {
        &&& self.levels@.len() == self.timestamps@.len()
        &&& self.messages@.len() == self.timestamps@.len()
        &&& self.services@.len() == self.timestamps@.len()
        &&& self.trace_ids@.len() == self.timestamps@.len()
        &&& self.metadatas@.len() == self.timestamps@.len()
    }

    /// Every text column fits the columnar layout's 31-bit offsets.
    pub open spec fn text_bytes_bounded(self) -> bool {
        spec_rows_text_bounded(self.spec_rows())
    }

    /// The rows the columns hold, read across.
    pub open spec fn spec_rows(self) -> Seq<LogRowModel> {
        Seq::new(
            self.timestamps@.len(),
            |i: int|
                LogRowModel {
                    timestamp_millis: self.timestamps@[i],
                    level: self.levels@[i]@,
                    message: self.messages@[i]@,
                    service: opt_str_model(self.services@[i]),
                    trace_id: opt_str_model(self.trace_ids@[i]),
                    metadata: opt_str_model(self.metadatas@[i]),
                },
        )
    }
}

/// Relies on arrow's `RecordBatch::try_new` and the array `From` impls for
/// plain vectors: with equal-length columns under the log schema the batch is
/// built and holds exactly the given columns, row for row. The byte bound
/// keeps each text column inside arrow's 31-bit offsets, where the array
/// constructors would otherwise panic.
#[verifier::external_body]
fn log_batch(schema: Schema, cols: &LogColumns) -> (r: Result<LogBatch, String>)
    requires
        is_log_schema(schema),
        cols.wf(),
        cols.text_bytes_bounded(),
    ensures
        r is Ok,
        r matches Ok(b) ==> batch_is_log(b) && batch_rows(b) == cols.spec_rows(),
{
    let arrays: Vec<ArrayRef> = vec![
        Arc::new(TimestampMillisecondArray::from(cols.timestamps.clone())),
        Arc::new(StringArray::from(cols.levels.clone())),
        Arc::new(StringArray::from(cols.messages.clone())),
        Arc::new(StringArray::from(cols.services.clone())),
        Arc::new(StringArray::from(cols.trace_ids.clone())),
        Arc::new(StringArray::from(cols.metadatas.clone())),
    ];
    let inner = RecordBatch::try_new(Arc::new(schema), arrays).map_err(|e| e.to_string())?;
    Ok(LogBatch { inner })
}

/// Relies on parquet's `ArrowWriter` over an in-memory buffer: writing a
/// bounded log batch to memory cannot fail, closing the writer completes the
/// file, and the finished buffer reads back as exactly the rows written.
#[verifier::external_body]
fn pq_write(batch: &LogBatch, codec: &Compression) -> (r: Result<Vec<u8>, String>)
    requires
        batch_is_log(*batch),
        spec_rows_text_bounded(batch_rows(*batch)),
    ensures
        r is Ok,
        r matches Ok(out) ==> pq_rows(out@) == Some(batch_rows(*batch)),
{
    let compression = match codec {
        Compression::Snappy => parquet::basic::Compression::SNAPPY,
        Compression::Zstd => parquet::basic::Compression::ZSTD(Default::default()),
        Compression::Gzip => parquet::basic::Compression::GZIP(Default::default()),
        Compression::Uncompressed => parquet::basic::Compression::UNCOMPRESSED,
    };
    let props = WriterProperties::builder().set_compression(compression).build();
    let mut out: Vec<u8> = Vec::new();
    let mut w = ArrowWriter::try_new(&mut out, batch.inner.schema(), Some(props)).map_err(|e| e.to_string())?;
    w.write(&batch.inner).map_err(|e| e.to_string())?;
    w.close().map_err(|e| e.to_string())?;
    Ok(out)
}

/// Relies on parquet's reader and arrow's `concat_batches`: a buffer holding
/// one complete, readable file of the log schema decodes to one batch of
/// exactly its rows; of any other buffer nothing is claimed beyond the error.
#[verifier::external_body]
fn pq_read(bytes: &Vec<u8>) -> (r: Result<LogBatch, String>)
    ensures
        r matches Ok(b) ==> (pq_rows(bytes@) matches Some(rows) ==> batch_is_log(b)
            && batch_rows(b) == rows),
        r matches Ok(b) ==> (batch_is_log(b) ==> pq_rows(bytes@) is Some),
        r is Err ==> pq_rows(bytes@) is None,
{
    let data = bytes::Bytes::copy_from_slice(bytes.as_slice());
    let builder = ParquetRecordBatchReaderBuilder::try_new(data).map_err(|e| e.to_string())?;
    let schema = builder.schema().clone();
    let reader = builder.build().map_err(|e| e.to_string())?;
    let batches: Vec<RecordBatch> = reader.collect::<Result<Vec<_>, _>>().map_err(|e| e.to_string())?;
    if batches.is_empty() {
        return Ok(LogBatch { inner: RecordBatch::new_empty(schema) });
    }
    let inner = arrow::compute::concat_batches(&schema, &batches).map_err(|e| e.to_string())?;
    Ok(LogBatch { inner })
}

/// Relies on arrow's schema equality: whether a batch carries the log
/// schema. Every batch value comes out of `log_batch` or `pq_read`, neither
/// of which slices its arrays, so schema equality decides `batch_is_log`.
#[verifier::external_body]
fn check_log_batch(b: &LogBatch) -> (r: bool)
    ensures
        r == batch_is_log(*b),
{
    b.inner.schema().as_ref() == &log_schema()
}

/// Relies on arrow's downcast to `TimestampMillisecondArray`: the timestamp
/// column of a log batch, in row order.
#[verifier::external_body]
fn batch_timestamps(b: &LogBatch) -> (r: Result<Vec<i64>, String>)
    ensures
        r is Err ==> !batch_is_log(*b),
        r matches Ok(v) ==> (batch_is_log(*b) ==> v@ == batch_rows(*b).map_values(
            |row: LogRowModel| row.timestamp_millis,
        )),
{
    match b.inner.columns().first().and_then(|c| c.as_any().downcast_ref::<TimestampMillisecondArray>()) {
        Some(a) => Ok(a.values().to_vec()),
        None => Err("missing timestamp column".to_owned()),
    }
}

/// Which of the five text columns an index selects of a row.
pub open spec fn spec_log_col(row: LogRowModel, idx: int) -> Option<Seq<char>>
    recommends
        1 <= idx <= 5,
{
    if idx == 1 {
        Some(row.level)
    } else if idx == 2 {
        Some(row.message)
    } else if idx == 3 {
        row.service
    } else if idx == 4 {
        row.trace_id
    } else {
        row.metadata
    }
}

/// Every text column of these rows fits the columnar layout's 31-bit
/// offsets: at most 0x7fffffff bytes per column.
pub open spec fn spec_rows_text_bounded(rows: Seq<LogRowModel>) -> bool {
    &&& spec_texts_bytes(rows.map_values(|r: LogRowModel| spec_log_col(r, 1))) <= 0x7fffffff
    &&& spec_texts_bytes(rows.map_values(|r: LogRowModel| spec_log_col(r, 2))) <= 0x7fffffff
    &&& spec_texts_bytes(rows.map_values(|r: LogRowModel| spec_log_col(r, 3))) <= 0x7fffffff
    &&& spec_texts_bytes(rows.map_values(|r: LogRowModel| spec_log_col(r, 4))) <= 0x7fffffff
    &&& spec_texts_bytes(rows.map_values(|r: LogRowModel| spec_log_col(r, 5))) <= 0x7fffffff
}

/// The text columns of the rows a record sequence is stored as are exactly
/// the records' own text fields, so the byte bound carries over.
pub proof fn lemma_entry_text_cols(es: Seq<LogEntryModel>)
    ensures
        spec_entries_text_bounded(es) == spec_rows_text_bounded(spec_rows_of_entries(es)),
{
    let rows = spec_rows_of_entries(es);
    assert(rows.map_values(|r: LogRowModel| spec_log_col(r, 1)) =~= es.map_values(
        |e: LogEntryModel| spec_entry_text_col(e, 1),
    ));
    assert(rows.map_values(|r: LogRowModel| spec_log_col(r, 2)) =~= es.map_values(
        |e: LogEntryModel| spec_entry_text_col(e, 2),
    ));
    assert(rows.map_values(|r: LogRowModel| spec_log_col(r, 3)) =~= es.map_values(
        |e: LogEntryModel| spec_entry_text_col(e, 3),
    ));
    assert(rows.map_values(|r: LogRowModel| spec_log_col(r, 4)) =~= es.map_values(
        |e: LogEntryModel| spec_entry_text_col(e, 4),
    ));
    assert(rows.map_values(|r: LogRowModel| spec_log_col(r, 5)) =~= es.map_values(
        |e: LogEntryModel| spec_entry_text_col(e, 5),
    ));
}

/// Relies on arrow's downcast to `StringArray`: text column `idx` of a log
/// batch, in row order, with nulls as `None`.
#[verifier::external_body]
fn batch_strings(b: &LogBatch, idx: usize) -> (r: Result<Vec<Option<String>>, String>)
    requires
        1 <= idx <= 5,
    ensures
        r is Err ==> !batch_is_log(*b),
        r matches Ok(v) ==> (batch_is_log(*b) ==> v.deep_view() == batch_rows(*b).map_values(
            |row: LogRowModel| spec_log_col(row, idx as int),
        )),
{
    match b.inner.columns().get(idx).and_then(|c| c.as_any().downcast_ref::<StringArray>()) {
        Some(a) => Ok(a.iter().map(|o| o.map(|s| s.to_owned())).collect()),
        None => Err("missing string column".to_owned()),
    }
}

/// Lay a sequence of records out as columns, row for row.
pub fn columns_of_entries(entries: &Vec<LogEntry>) -> (c: LogColumns)
    ensures
        c.wf(),
        c.spec_rows() =~= spec_rows_of_entries(entry_models(entries@)),
{
    let n = entries.len();
    let mut c = LogColumns {
        timestamps: Vec::new(),
        levels: Vec::new(),
        messages: Vec::new(),
        services: Vec::new(),
        trace_ids: Vec::new(),
        metadatas: Vec::new(),
    };
    let mut i: usize = 0;
    while i < n
        invariant
            n == entries@.len(),
            i <= n,
            c.wf(),
            c.timestamps@.len() == i,
            forall|j: int|
                0 <= j < i ==> c.timestamps@[j] == spec_row_of_entry(entries@[j]@).timestamp_millis,
            forall|j: int| 0 <= j < i ==> c.levels@[j]@ == spec_row_of_entry(entries@[j]@).level,
            forall|j: int| 0 <= j < i ==> c.messages@[j]@ == spec_row_of_entry(entries@[j]@).message,
            forall|j: int|
                0 <= j < i ==> opt_str_model(c.services@[j]) == spec_row_of_entry(
                    entries@[j]@,
                ).service,
            forall|j: int|
                0 <= j < i ==> opt_str_model(c.trace_ids@[j]) == spec_row_of_entry(
                    entries@[j]@,
                ).trace_id,
            forall|j: int|
                0 <= j < i ==> opt_str_model(c.metadatas@[j]) == spec_row_of_entry(
                    entries@[j]@,
                ).metadata,
        decreases n - i,
    {
        let row = row_of_entry(&entries[i]);
        c.timestamps.push(row.timestamp_millis);
        c.levels.push(row.level);
        c.messages.push(row.message);
        c.services.push(row.service);
        c.trace_ids.push(row.trace_id);
        c.metadatas.push(row.metadata);
        i += 1;
    }
    assert(c.spec_rows() =~= spec_rows_of_entries(entry_models(entries@)));
    c
}

/// Encode one batch of columns as one complete columnar file. Under the
/// column byte bound the in-memory encoding cannot fail.
pub fn encode_columns(cols: &LogColumns, codec: &Compression) -> (r: Vec<u8>)
    requires
        cols.wf(),
        cols.text_bytes_bounded(),
    ensures
        pq_rows(r@) == Some(cols.spec_rows()),
{
    let schema = log_schema();
    let batch = match log_batch(schema, cols) {
        Ok(b) => b,
        Err(_) => unreached(),
    };
    match pq_write(&batch, codec) {
        Ok(bytes) => bytes,
        Err(_) => unreached(),
    }
}

/// Decode one columnar file back into its rows. A buffer that holds one
/// complete, readable file of the log schema yields exactly its rows, in
/// order; any other buffer is rejected.
pub fn decode_file(bytes: &Vec<u8>) -> (r: Result<Vec<LogRow>, String>)
    ensures
        r matches Ok(v) ==> pq_rows(bytes@) == Some(v@.map_values(|x: LogRow| x@)),
        r is Err ==> pq_rows(bytes@) is None,
        pq_rows(bytes@) is Some ==> r is Ok,
{
    let batch = match pq_read(bytes) {
        Ok(b) => b,
        Err(e) => {
            return Err(e);
        },
    };
    if !check_log_batch(&batch) {
        return Err("not a file of the log schema".to_owned());
    }
    let timestamps = match batch_timestamps(&batch) {
        Ok(v) => v,
        Err(_) => unreached(),
    };
    let levels = match batch_strings(&batch, 1) {
        Ok(v) => v,
        Err(_) => unreached(),
    };
    let messages = match batch_strings(&batch, 2) {
        Ok(v) => v,
        Err(_) => unreached(),
    };
    let services = match batch_strings(&batch, 3) {
        Ok(v) => v,
        Err(_) => unreached(),
    };
    let trace_ids = match batch_strings(&batch, 4) {
        Ok(v) => v,
        Err(_) => unreached(),
    };
    let metadatas = match batch_strings(&batch, 5) {
        Ok(v) => v,
        Err(_) => unreached(),
    };
    let n = timestamps.len();
    proof {
        let rows = batch_rows(batch);
        assert(timestamps@.len() == rows.len());
        assert(levels.deep_view().len() == levels@.len());
        assert(messages.deep_view().len() == messages@.len());
        assert(services.deep_view().len() == services@.len());
        assert(trace_ids.deep_view().len() == trace_ids@.len());
        assert(metadatas.deep_view().len() == metadatas@.len());
    }
    let mut out: Vec<LogRow> = Vec::new();
    let mut i: usize = 0;
    while i < n
        invariant
            i <= n,
            n == timestamps@.len(),
            n == levels@.len() && n == messages@.len() && n == services@.len() && n
                == trace_ids@.len() && n == metadatas@.len(),
            out@.len() == i,
            batch_is_log(batch),
            timestamps@ == batch_rows(batch).map_values(|row: LogRowModel| row.timestamp_millis),
            levels.deep_view() == batch_rows(batch).map_values(
                |row: LogRowModel| spec_log_col(row, 1),
            ),
            messages.deep_view() == batch_rows(batch).map_values(
                |row: LogRowModel| spec_log_col(row, 2),
            ),
            services.deep_view() == batch_rows(batch).map_values(
                |row: LogRowModel| spec_log_col(row, 3),
            ),
            trace_ids.deep_view() == batch_rows(batch).map_values(
                |row: LogRowModel| spec_log_col(row, 4),
            ),
            metadatas.deep_view() == batch_rows(batch).map_values(
                |row: LogRowModel| spec_log_col(row, 5),
            ),
            forall|j: int| 0 <= j < i ==> out@[j]@ == batch_rows(batch)[j],
        decreases n - i,
    {
        let level = match &levels[i] {
            Some(s) => s.clone(),
            None => String::new(),
        };
        let message = match &messages[i] {
            Some(s) => s.clone(),
            None => String::new(),
        };
        let row = LogRow {
            timestamp_millis: timestamps[i],
            level,
            message,
            service: clone_opt(&services[i]),
            trace_id: clone_opt(&trace_ids[i]),
            metadata: clone_opt(&metadatas[i]),
        };
        proof {
            assert(levels.deep_view()[i as int] == spec_log_col(batch_rows(batch)[i as int], 1));
            assert(messages.deep_view()[i as int] == spec_log_col(batch_rows(batch)[i as int], 2));
            assert(services.deep_view()[i as int] == spec_log_col(batch_rows(batch)[i as int], 3));
            assert(trace_ids.deep_view()[i as int] == spec_log_col(batch_rows(batch)[i as int], 4));
            assert(metadatas.deep_view()[i as int] == spec_log_col(batch_rows(batch)[i as int], 5));
            assert(row@ == batch_rows(batch)[i as int]);
        }
        out.push(row);
        i += 1;
    }
    proof {
        assert(out@.map_values(|x: LogRow| x@) =~= batch_rows(batch));
    }
    Ok(out)
}

fn clone_opt(s: &Option<String>) -> (r: Option<String>)
    ensures
        opt_str_model(r) == opt_str_model(*s),
{
    match s {
        Some(x) => Some(x.clone()),
        None => None,
    }
}

} // verus!
