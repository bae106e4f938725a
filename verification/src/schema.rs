use vstd::prelude::*;
use crate::entry::{LogEntry, LogEntryModel, opt_str_model};
use jsonschema::JSONSchema;
use serde_json::Value;

verus! {

#[verifier::external_type_specification]
#[verifier::external_body]
pub struct ExValue(Value);

#[verifier::external_type_specification]
#[verifier::external_body]
pub struct ExJSONSchema(JSONSchema);

/// A failure of parsing or validation.
#[derive(Debug)]
pub enum SchemaError {
    /// The schema document could not be read or did not compile.
    SchemaLoad(String),
    /// The payload is not well-formed JSON.
    Parse(String),
    /// The document violates the schema; all diagnostics, concatenated.
    ValidationFailed(String),
    /// The validated document does not fit the typed record.
    Projection(String),
}

/// The built-in schema: the three required fields, `timestamp` constrained to
/// `date-time`, under draft-07 semantics.
fn default_schema_text() -> &'static str {
    "{\"$schema\":\"http://json-schema.org/draft-07/schema#\",\"type\":\"object\",\"required\":[\"timestamp\",\"level\",\"message\"],\"properties\":{\"timestamp\":{\"type\":\"string\",\"format\":\"date-time\"},\"level\":{\"type\":\"string\"},\"message\":{\"type\":\"string\"},\"metadata\":{\"type\":\"object\"},\"service\":{\"type\":\"string\"},\"trace_id\":{\"type\":\"string\"}}}"
}

/// How one field reads out of a parsed document.
#[derive(Debug)]
pub enum JsonField {
    /// The key is not present.
    Absent,
    /// The key holds a string.
    Text(String),
    /// The key holds JSON null.
    Null,
    /// The key holds something that is neither a string nor null.
    Other,
}

/// Mathematical model of a `JsonField`.
pub ghost enum JsonFieldModel {
    Absent,
    Text(Seq<char>),
    Null,
    Other,
}

impl View for JsonField {
    type V = JsonFieldModel;

    open spec fn view(&self) -> JsonFieldModel {
        match self {
            JsonField::Absent => JsonFieldModel::Absent,
            JsonField::Text(s) => JsonFieldModel::Text(s@),
            JsonField::Null => JsonFieldModel::Null,
            JsonField::Other => JsonFieldModel::Other,
        }
    }
}

/// The raw shape of a parsed document, read field by field.
pub struct RawRecord {
    pub timestamp: JsonField,
    pub level: JsonField,
    pub message: JsonField,
    pub service: JsonField,
    pub trace_id: JsonField,
    /// The serialized text of the `metadata` value, where present and not
    /// null.
    pub metadata: Option<String>,
}

/// Mathematical model of a `RawRecord`.
pub ghost struct RawRecordModel {
    pub timestamp: JsonFieldModel,
    pub level: JsonFieldModel,
    pub message: JsonFieldModel,
    pub service: JsonFieldModel,
    pub trace_id: JsonFieldModel,
    pub metadata: Option<Seq<char>>,
}

impl View for RawRecord {
    type V = RawRecordModel;

    open spec fn view(&self) -> RawRecordModel {
        RawRecordModel {
            timestamp: self.timestamp@,
            level: self.level@,
            message: self.message@,
            service: self.service@,
            trace_id: self.trace_id@,
            metadata: opt_str_model(self.metadata),
        }
    }
}

/// What the fast path reads out of a frame payload: the raw shape of the
/// document, `None` where the bytes are not well-formed JSON. The result
/// depends on the bytes alone.
pub uninterp spec fn simd_raw_record_of(bytes: Seq<u8>) -> Option<RawRecordModel>;

/// What the slow path reads out of a frame payload, `None` where the bytes
/// are not well-formed JSON. The result depends on the bytes alone.
pub uninterp spec fn serde_raw_record_of(bytes: Seq<u8>) -> Option<RawRecordModel>;

/// Relies on simd_json's serde bridge and serde_json's `Value` accessors, in
/// one step: parse the buffer in place (rewritten destructively, not to be
/// reused) and read the six fields out of the document, each key reported as
/// absent, a string, null, or something else; `metadata` as its serialized
/// text. An empty buffer is not JSON.
#[verifier::external_body]
fn simd_raw_record(data: &mut Vec<u8>) -> (r: Result<RawRecord, String>)
    ensures
        r matches Ok(raw) ==> simd_raw_record_of(old(data)@) == Some(raw@) && old(data)@.len() > 0,
        r is Err ==> simd_raw_record_of(old(data)@) is None,
{
    let v: Value = simd_json::serde::from_slice(data.as_mut_slice()).map_err(|e| e.to_string())?;
    let f = |k: &str| match v.get(k) {
        None => JsonField::Absent,
        Some(Value::Null) => JsonField::Null,
        Some(Value::String(s)) => JsonField::Text(s.clone()),
        Some(_) => JsonField::Other,
    };
    let metadata = match v.get("metadata") {
        None | Some(Value::Null) => None,
        Some(m) => serde_json::to_string(m).ok(),
    };
    Ok(RawRecord { timestamp: f("timestamp"), level: f("level"), message: f("message"),
        service: f("service"), trace_id: f("trace_id"), metadata })
}

/// Relies on serde_json's `from_slice` and `Value` accessors, in one step:
/// parse the buffer and read the six fields out as `simd_raw_record` does,
/// handing the parsed document back alongside for schema validation. An
/// empty buffer is not JSON.
#[verifier::external_body]
fn serde_raw_record(data: &Vec<u8>) -> (r: Result<(Value, RawRecord), String>)
    ensures
        r matches Ok(p) ==> serde_raw_record_of(data@) == Some(p.1@) && data@.len() > 0,
        r is Err ==> serde_raw_record_of(data@) is None,
{
    let v: Value = serde_json::from_slice(data.as_slice()).map_err(|e| e.to_string())?;
    let f = |k: &str| match v.get(k) {
        None => JsonField::Absent,
        Some(Value::Null) => JsonField::Null,
        Some(Value::String(s)) => JsonField::Text(s.clone()),
        Some(_) => JsonField::Other,
    };
    let metadata = match v.get("metadata") {
        None | Some(Value::Null) => None,
        Some(m) => serde_json::to_string(m).ok(),
    };
    let raw = RawRecord { timestamp: f("timestamp"), level: f("level"), message: f("message"),
        service: f("service"), trace_id: f("trace_id"), metadata };
    Ok((v, raw))
}

/// Relies on jsonschema's `JSONSchema::compile`: compile a schema document
/// (draft-07 by default).
#[verifier::external_body]
fn compile_schema(schema: &Value) -> (r: Result<JSONSchema, String>)
{
    JSONSchema::compile(schema).map_err(|e| e.to_string())
}

/// Relies on serde_json's `from_str` and jsonschema's `JSONSchema::compile`
/// on the fixed built-in schema document, which is valid JSON and a valid
/// draft-07 schema, so neither call can fail.
#[verifier::external_body]
fn compile_default_schema() -> (r: JSONSchema)
{
    let doc: Value = serde_json::from_str(default_schema_text()).expect("the built-in schema is well-formed JSON");
    JSONSchema::compile(&doc).expect("the built-in schema compiles")
}

/// Relies on jsonschema's `JSONSchema::validate`: `None` where the document
/// conforms to the schema, otherwise every diagnostic joined into one line.
#[verifier::external_body]
fn run_validation(schema: &JSONSchema, doc: &Value) -> (r: Option<String>)
{
    match schema.validate(doc) {
        Ok(()) => None,
        Err(errors) => {
            let msgs: Vec<String> = errors.map(|e| format!("{} at {}", e, e.instance_path)).collect();
            Some(msgs.join(", "))
        },
    }
}

/// The text a field holds, `None` where absent, null or no string.
pub open spec fn spec_field_text(f: JsonFieldModel) -> Option<Seq<char>> {
    match f {
        JsonFieldModel::Text(s) => Some(s),
        _ => None,
    }
}

/// Whether a raw document fits the typed record: the three required fields
/// hold strings, and the optional string fields are absent, null, or hold
/// strings.
pub open spec fn spec_raw_ok(raw: RawRecordModel) -> bool {
    &&& raw.timestamp is Text
    &&& raw.level is Text
    &&& raw.message is Text
    &&& !(raw.service is Other)
    &&& !(raw.trace_id is Other)
}

/// The record a fitting raw document projects to.
pub open spec fn spec_projected(raw: RawRecordModel) -> LogEntryModel
    recommends
        spec_raw_ok(raw),
{
    LogEntryModel {
        timestamp: spec_text_or_empty(raw.timestamp),
        level: spec_text_or_empty(raw.level),
        message: spec_text_or_empty(raw.message),
        service: spec_field_text(raw.service),
        trace_id: spec_field_text(raw.trace_id),
        metadata: raw.metadata,
    }
}

/// The text a field holds, empty where it holds none.
pub open spec fn spec_text_or_empty(f: JsonFieldModel) -> Seq<char> {
    match f {
        JsonFieldModel::Text(s) => s,
        _ => Seq::empty(),
    }
}

/// What a parse step returns for a payload whose raw shape is known: the
/// projected record exactly where the document fits, a projection failure
/// otherwise.
pub open spec fn spec_projection_outcome(
    raw: RawRecordModel,
    r: Result<LogEntry, SchemaError>,
) -> bool {
    &&& spec_raw_ok(raw) ==> (r matches Ok(e) && e@ == spec_projected(raw))
    &&& !spec_raw_ok(raw) ==> (r matches Err(x) && x is Projection)
}

/// Project a raw document into the typed record: exactly the documents that
/// fit are accepted, field for field; anything else is a projection failure.
pub fn project_record(raw: RawRecord) -> (r: Result<LogEntry, SchemaError>)
    ensures
        spec_projection_outcome(raw@, r),
{
    let timestamp = match raw.timestamp {
        JsonField::Text(s) => s,
        JsonField::Absent => {
            return Err(SchemaError::Projection("missing field timestamp".to_owned()));
        },
        _ => {
            return Err(SchemaError::Projection("timestamp is not a string".to_owned()));
        },
    };
    let level = match raw.level {
        JsonField::Text(s) => s,
        JsonField::Absent => {
            return Err(SchemaError::Projection("missing field level".to_owned()));
        },
        _ => {
            return Err(SchemaError::Projection("level is not a string".to_owned()));
        },
    };
    let message = match raw.message {
        JsonField::Text(s) => s,
        JsonField::Absent => {
            return Err(SchemaError::Projection("missing field message".to_owned()));
        },
        _ => {
            return Err(SchemaError::Projection("message is not a string".to_owned()));
        },
    };
    let service = match raw.service {
        JsonField::Text(s) => Some(s),
        JsonField::Absent | JsonField::Null => None,
        JsonField::Other => {
            return Err(SchemaError::Projection("service is not a string".to_owned()));
        },
    };
    let trace_id = match raw.trace_id {
        JsonField::Text(s) => Some(s),
        JsonField::Absent | JsonField::Null => None,
        JsonField::Other => {
            return Err(SchemaError::Projection("trace_id is not a string".to_owned()));
        },
    };
    Ok(LogEntry { timestamp, level, message, service, trace_id, metadata: raw.metadata })
}

/// Schema validator shared read-only by all connection handlers.
pub struct SchemaValidator {
    schema: JSONSchema,
    use_fast_path: bool,
}

impl SchemaValidator {
    /// Whether this validator takes the fast path: typed checks fused into
    /// the parse, no general schema walk.
    pub closed spec fn fast_path(self) -> bool {
        self.use_fast_path
    }

    /// Compile a validator from a schema document. The fast path is sound
    /// only for the built-in schema, whose checks the typed projection makes.
    pub fn from_value(schema: Value, use_fast_path: bool) -> (r: Result<Self, SchemaError>)
        ensures
            r matches Ok(v) ==> v.fast_path() == use_fast_path,
            r matches Err(e) ==> e is SchemaLoad,
    {
        match compile_schema(&schema) {
            Ok(compiled) => Ok(SchemaValidator { schema: compiled, use_fast_path }),
            Err(m) => Err(SchemaError::SchemaLoad(m)),
        }
    }

    /// The validator over the built-in schema; this enables the fast path.
    /// The built-in schema always compiles, so construction cannot fail.
    pub fn default_schema() -> (r: Result<Self, SchemaError>)
        ensures
            r matches Ok(v) && v.fast_path(),
    {
        Ok(SchemaValidator { schema: compile_default_schema(), use_fast_path: true })
    }

    /// Validate a parsed document against the schema: `Ok` where it
    /// conforms, otherwise every diagnostic in one `ValidationFailed`.
    pub fn validate(&self, doc: &Value) -> (r: Result<(), SchemaError>)
        ensures
            r matches Err(e) ==> e is ValidationFailed,
    {
        match run_validation(&self.schema, doc) {
            None => Ok(()),
            Some(diag) => Err(SchemaError::ValidationFailed(diag)),
        }
    }

    /// Parse one frame payload into a validated record.
    ///
    /// On the fast path the buffer is parsed in place (and consumed
    /// destructively); the outcome is a function of the bytes alone: the
    /// projection of the document's raw shape, a parse failure where the
    /// bytes are not JSON. On the slow path the document is parsed, checked
    /// against the schema — whose verdict is the compiled schema's — and then
    /// projected the same way. An empty payload is not JSON and is always
    /// rejected.
    pub fn parse_fast(&self, data: &mut Vec<u8>) -> (r: Result<LogEntry, SchemaError>)
        ensures
            old(data)@.len() == 0 ==> r is Err,
            r matches Err(e) ==> ((e is Parse || e is ValidationFailed || e is Projection) && (
            self.fast_path() ==> (e is Parse || e is Projection))),
            self.fast_path() ==> match simd_raw_record_of(old(data)@) {
                Some(raw) => spec_projection_outcome(raw, r),
                None => r matches Err(e) && e is Parse,
            },
            !self.fast_path() ==> match serde_raw_record_of(old(data)@) {
                Some(raw) => ((r matches Err(e) && e is ValidationFailed)
                    || spec_projection_outcome(raw, r)),
                None => r matches Err(e) && e is Parse,
            },
    {
        if self.use_fast_path {
            match simd_raw_record(data) {
                Ok(raw) => project_record(raw),
                Err(m) => Err(SchemaError::Parse(m)),
            }
        } else {
            match serde_raw_record(data) {
                Ok((doc, raw)) => match self.validate(&doc) {
                    Ok(()) => project_record(raw),
                    Err(e) => Err(e),
                },
                Err(m) => Err(SchemaError::Parse(m)),
            }
        }
    }
}

} // verus!
