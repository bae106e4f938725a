use vstd::prelude::*;
use crate::entry::{LogEntry, LogEntryModel, opt_str_model};

verus! {

/// One row of a columnar log file: a record with its timestamp resolved to
/// epoch milliseconds.
#[derive(Debug)]
pub struct LogRow {
    pub timestamp_millis: i64,
    pub level: String,
    pub message: String,
    pub service: Option<String>,
    pub trace_id: Option<String>,
    pub metadata: Option<String>,
}

/// Mathematical model of a `LogRow`.
pub ghost struct LogRowModel {
    pub timestamp_millis: i64,
    pub level: Seq<char>,
    pub message: Seq<char>,
    pub service: Option<Seq<char>>,
    pub trace_id: Option<Seq<char>>,
    pub metadata: Option<Seq<char>>,
}

impl View for LogRow {
    type V = LogRowModel;

    open spec fn view(&self) -> LogRowModel {
        LogRowModel {
            timestamp_millis: self.timestamp_millis,
            level: self.level@,
            message: self.message@,
            service: opt_str_model(self.service),
            trace_id: opt_str_model(self.trace_id),
            metadata: opt_str_model(self.metadata),
        }
    }
}

/// What an RFC-3339 timestamp string denotes in epoch milliseconds, `None`
/// where the string is not a valid RFC-3339 timestamp. The result depends on
/// the characters alone.
pub uninterp spec fn rfc3339_millis(s: Seq<char>) -> Option<i64>;

/// Relies on chrono's `DateTime::parse_from_rfc3339` and `timestamp_millis`:
/// the epoch milliseconds a timestamp string denotes, a function of the
/// characters alone.
#[verifier::external_body]
pub fn parse_rfc3339_millis(s: &str) -> (r: Option<i64>)
    ensures
        r == rfc3339_millis(s@),
{
    match chrono::DateTime::parse_from_rfc3339(s) {
        Ok(dt) => Some(dt.timestamp_millis()),
        Err(_) => None,
    }
}

/// The row a record is stored as: the timestamp parsed as RFC-3339, or epoch
/// zero where it does not parse; the optional fields kept as they are.
pub open spec fn spec_row_of_entry(e: LogEntryModel) -> LogRowModel {
    LogRowModel {
        timestamp_millis: match rfc3339_millis(e.timestamp) {
            Some(ms) => ms,
            None => 0,
        },
        level: e.level,
        message: e.message,
        service: e.service,
        trace_id: e.trace_id,
        metadata: e.metadata,
    }
}

/// The rows a sequence of records is stored as, in order.
pub open spec fn spec_rows_of_entries(es: Seq<LogEntryModel>) -> Seq<LogRowModel> {
    es.map_values(|e: LogEntryModel| spec_row_of_entry(e))
}

/// Turn one validated record into the row it is stored as.
pub fn row_of_entry(e: &LogEntry) -> (r: LogRow)
    ensures
        r@ == spec_row_of_entry(e@),
{
    let ts = match parse_rfc3339_millis(e.timestamp.as_str()) {
        Some(ms) => ms,
        None => 0,
    };
    let c = e.clone();
    LogRow {
        timestamp_millis: ts,
        level: c.level,
        message: c.message,
        service: c.service,
        trace_id: c.trace_id,
        metadata: c.metadata,
    }
}

} // verus!
