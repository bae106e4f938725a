use vstd::prelude::*;
use crate::config::spec_str_bytes;

verus! {

/// A validated log record: the unit of ingestion.
///
/// `timestamp`, `level` and `message` are always present after validation;
/// the other three fields are optional. `metadata` holds the serialized
/// textual form of an arbitrary JSON value.
#[derive(Debug)]
pub struct LogEntry {
    pub timestamp: String,
    pub level: String,
    pub message: String,
    pub service: Option<String>,
    pub trace_id: Option<String>,
    pub metadata: Option<String>,
}

/// Mathematical model of a `LogEntry`.
pub ghost struct LogEntryModel {
    pub timestamp: Seq<char>,
    pub level: Seq<char>,
    pub message: Seq<char>,
    pub service: Option<Seq<char>>,
    pub trace_id: Option<Seq<char>>,
    pub metadata: Option<Seq<char>>,
}

/// Model of an optional string field.
pub open spec fn opt_str_model(s: Option<String>) -> Option<Seq<char>> {
    match s {
        Some(x) => Some(x@),
        None => None,
    }
}

impl View for LogEntry {
    type V = LogEntryModel;

    open spec fn view(&self) -> LogEntryModel {
        LogEntryModel {
            timestamp: self.timestamp@,
            level: self.level@,
            message: self.message@,
            service: opt_str_model(self.service),
            trace_id: opt_str_model(self.trace_id),
            metadata: opt_str_model(self.metadata),
        }
    }
}

impl Clone for LogEntry {
    fn clone(&self) -> (r: Self)
        ensures
            r@ == self@,
    {
        LogEntry {
            timestamp: self.timestamp.clone(),
            level: self.level.clone(),
            message: self.message.clone(),
            service: clone_opt_string(&self.service),
            trace_id: clone_opt_string(&self.trace_id),
            metadata: clone_opt_string(&self.metadata),
        }
    }
}

fn clone_opt_string(s: &Option<String>) -> (r: Option<String>)
    ensures
        opt_str_model(r) == opt_str_model(*s),
{
    match s {
        Some(x) => Some(x.clone()),
        None => None,
    }
}

/// The models of a vector of records, in order.
pub open spec fn entry_models(v: Seq<LogEntry>) -> Seq<LogEntryModel> {
    v.map_values(|e: LogEntry| e@)
}

/// The UTF-8 byte weight of one optional text value.
pub open spec fn spec_text_bytes(t: Option<Seq<char>>) -> int {
    match t {
        Some(s) => spec_str_bytes(s).len() as int,
        None => 0,
    }
}

/// Total UTF-8 bytes of one column of optional text values.
pub open spec fn spec_texts_bytes(ts: Seq<Option<Seq<char>>>) -> int
    decreases ts.len(),
{
    if ts.len() == 0 {
        0
    } else {
        spec_texts_bytes(ts.drop_last()) + spec_text_bytes(ts.last())
    }
}

/// Which of the five text columns an index selects of a record.
pub open spec fn spec_entry_text_col(e: LogEntryModel, idx: int) -> Option<Seq<char>>
    recommends
        1 <= idx <= 5,
{
    if idx == 1 {
        Some(e.level)
    } else if idx == 2 {
        Some(e.message)
    } else if idx == 3 {
        e.service
    } else if idx == 4 {
        e.trace_id
    } else {
        e.metadata
    }
}

/// Every text column of these records fits the columnar layout's 31-bit
/// offsets: at most 0x7fffffff bytes per column.
pub open spec fn spec_entries_text_bounded(es: Seq<LogEntryModel>) -> bool {
    &&& spec_texts_bytes(es.map_values(|e: LogEntryModel| spec_entry_text_col(e, 1))) <= 0x7fffffff
    &&& spec_texts_bytes(es.map_values(|e: LogEntryModel| spec_entry_text_col(e, 2))) <= 0x7fffffff
    &&& spec_texts_bytes(es.map_values(|e: LogEntryModel| spec_entry_text_col(e, 3))) <= 0x7fffffff
    &&& spec_texts_bytes(es.map_values(|e: LogEntryModel| spec_entry_text_col(e, 4))) <= 0x7fffffff
    &&& spec_texts_bytes(es.map_values(|e: LogEntryModel| spec_entry_text_col(e, 5))) <= 0x7fffffff
}

/// Records that are no longer there have no text columns to bound.
pub proof fn lemma_no_entries_text_bounded(es: Seq<LogEntryModel>)
    requires
        es.len() == 0,
    ensures
        spec_entries_text_bounded(es),
{
    assert(es.map_values(|e: LogEntryModel| spec_entry_text_col(e, 1)) =~= Seq::<
        Option<Seq<char>>,
    >::empty());
    assert(es.map_values(|e: LogEntryModel| spec_entry_text_col(e, 2)) =~= Seq::<
        Option<Seq<char>>,
    >::empty());
    assert(es.map_values(|e: LogEntryModel| spec_entry_text_col(e, 3)) =~= Seq::<
        Option<Seq<char>>,
    >::empty());
    assert(es.map_values(|e: LogEntryModel| spec_entry_text_col(e, 4)) =~= Seq::<
        Option<Seq<char>>,
    >::empty());
    assert(es.map_values(|e: LogEntryModel| spec_entry_text_col(e, 5)) =~= Seq::<
        Option<Seq<char>>,
    >::empty());
}

} // verus!
