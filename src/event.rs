use vstd::prelude::*;
use std::collections::HashMap;

verus! {

/// One record of a trace.
#[derive(Debug)]
pub struct Event {
    pub schema_version: u32,
    pub trace_id: String,
    pub seq: u64,
    pub ts_unix_ns: u64,
    pub kind: String,
    pub span_id: Option<String>,
    pub parent_span_id: Option<String>,
    pub level: String,
    pub attrs: HashMap<String, serde_json::Value>,
    pub payload: serde_json::Value,
}

/// The level that a record made by `Event::new` carries.
pub const DEFAULT_LEVEL: &'static str = "info";

/// The schema version of a record that names none.
pub fn default_schema_version() -> (r: u32)
    ensures
        r == 1,
{
    1
}

/// Relies on std::time::SystemTime::now: the wall clock, in nanoseconds since
/// the Unix epoch (zero for a clock set before it). Nothing is known of the
/// value it reads.
#[verifier::external_body]
fn now_unix_ns() -> (r: u64) {
    std::time::SystemTime::now().duration_since(std::time::UNIX_EPOCH).unwrap_or_default().as_nanos() as u64
}

impl Event {
    /// A record stamped with the current time, at level `info`, with no span
    /// and no attributes.
    pub fn new(trace_id: String, seq: u64, kind: String, payload: serde_json::Value) -> (r: Event)
        ensures
            r.schema_version == 1,
            r.trace_id == trace_id,
            r.seq == seq,
            r.kind == kind,
            r.span_id is None,
            r.parent_span_id is None,
            r.level@ == DEFAULT_LEVEL@,
            r.attrs@ == Map::<String, serde_json::Value>::empty(),
            r.payload == payload,
    {
        Event {
            schema_version: default_schema_version(),
            trace_id,
            seq,
            ts_unix_ns: now_unix_ns(),
            kind,
            span_id: None,
            parent_span_id: None,
            level: String::from_str(DEFAULT_LEVEL),
            attrs: HashMap::new(),
            payload,
        }
    }
}

} // verus!
