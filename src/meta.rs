use vstd::prelude::*;
use vstd::multiset::Multiset;
use crate::json::{is_json, json_member_of, json_str_of, json_u64_of, json_value_of, member, parse_json};
use crate::reader::{json_part, strip_crc, views};
use crate::text::{is_blank, trim, trim_text};

verus! {

/// The `kind` of the record that opens a trace.
pub const START_KIND: &'static str = "trace_start";

/// The name of a trace whose start record gives none.
pub const UNTITLED: &'static str = "Untitled";

/// A summary of one trace, as a listing shows it.
#[derive(Debug)]
pub struct TraceMeta {
    pub id: String,
    pub name: String,
    pub project: Option<String>,
    /// Nanoseconds since the Unix epoch.
    pub ts_unix_ns: u64,
    pub event_count: u64,
}

/// What a listing reads from the first record of a trace.
#[derive(Debug)]
pub struct FirstRecord {
    /// The record's `kind`, where it is a string.
    pub kind: Option<String>,
    /// `payload.trace_name`, where it is a string.
    pub trace_name: Option<String>,
    /// `payload.project`, where it is a string.
    pub project: Option<String>,
    /// `ts_unix_ns`, where it is an unsigned integer.
    pub ts_unix_ns: Option<u64>,
}

/// The view of an optional text.
pub open spec fn opt_view(o: Option<String>) -> Option<Seq<char>> {
    match o {
        Some(s) => Some(s@),
        None => None,
    }
}

/// Whether the record opens a trace.
pub open spec fn is_start(rec: FirstRecord) -> bool {
    rec.kind matches Some(k) && k@ == START_KIND@
}

/// Whether `m` is the summary of trace `id` whose directory was modified at
/// `modified_ns`, with `count` records, and whose first record is `rec`: a
/// start record gives the name (or the placeholder), the project and the
/// time; anything else leaves the directory's id and time.
pub open spec fn meta_of(
    m: TraceMeta,
    id: Seq<char>,
    modified_ns: u64,
    rec: Option<FirstRecord>,
    count: nat,
) -> bool {
    &&& m.id@ == id
    &&& m.event_count == count
    &&& match rec {
        Some(f) if is_start(f) => {
            &&& m.name@ == (match f.trace_name {
                Some(n) => n@,
                None => UNTITLED@,
            })
            &&& opt_view(m.project) == opt_view(f.project)
            &&& m.ts_unix_ns == (match f.ts_unix_ns {
                Some(t) => t,
                None => modified_ns,
            })
        },
        _ => {
            &&& m.name@ == id
            &&& m.project is None
            &&& m.ts_unix_ns == modified_ns
        },
    }
}

fn copy_text(o: &Option<String>) -> (r: Option<String>)
    ensures
        opt_view(r) == opt_view(*o),
{
    match o {
        Some(s) => Some(s.clone()),
        None => None,
    }
}

/// Builds the summary of a trace from its first record, where there is one.
pub fn meta_from_record(
    id: &str,
    modified_ns: u64,
    rec: &Option<FirstRecord>,
    event_count: u64,
) -> (r: TraceMeta)
    ensures
        meta_of(r, id@, modified_ns, *rec, event_count as nat),
{
    let start = String::from_str(START_KIND);
    match rec {
        Some(f) => {
            let is_start_kind = match &f.kind {
                Some(k) => *k == start,
                None => false,
            };
            if is_start_kind {
                let name = match &f.trace_name {
                    Some(n) => n.clone(),
                    None => String::from_str(UNTITLED),
                };
                let ts = match f.ts_unix_ns {
                    Some(t) => t,
                    None => modified_ns,
                };
                return TraceMeta {
                    id: String::from_str(id),
                    name,
                    project: copy_text(&f.project),
                    ts_unix_ns: ts,
                    event_count,
                };
            }
        },
        None => {},
    }
    TraceMeta {
        id: String::from_str(id),
        name: String::from_str(id),
        project: None,
        ts_unix_ns: modified_ns,
        event_count,
    }
}

/// The text of a document's member under a key, where it is a string.
pub open spec fn text_member_of(v: serde_json::Value, key: Seq<char>) -> Option<Seq<char>> {
    match json_member_of(v, key) {
        Some(m) => json_str_of(m),
        None => None,
    }
}

/// The text of a member of the document's `payload`, where it is a string.
pub open spec fn payload_text_of(doc: serde_json::Value, key: Seq<char>) -> Option<Seq<char>> {
    match json_member_of(doc, "payload"@) {
        Some(p) => text_member_of(p, key),
        None => None,
    }
}

/// The document's `ts_unix_ns`, where it is an unsigned integer.
pub open spec fn doc_ts_of(doc: serde_json::Value) -> Option<u64> {
    match json_member_of(doc, "ts_unix_ns"@) {
        Some(t) => json_u64_of(t),
        None => None,
    }
}

/// Whether `rec` holds what the document gives for the four fields that a
/// listing reads.
pub open spec fn record_of_doc(rec: FirstRecord, doc: serde_json::Value) -> bool {
    &&& opt_view(rec.kind) == text_member_of(doc, "kind"@)
    &&& opt_view(rec.trace_name) == payload_text_of(doc, "trace_name"@)
    &&& opt_view(rec.project) == payload_text_of(doc, "project"@)
    &&& rec.ts_unix_ns == doc_ts_of(doc)
}

/// Whether `m` is the summary of trace `id` whose directory was modified at
/// `modified_ns`, with `count` records, and whose first record is the
/// document `doc`: a start record gives the name (or the placeholder), the
/// project and the time; anything else leaves the directory's id and time.
pub open spec fn meta_of_doc(
    m: TraceMeta,
    id: Seq<char>,
    modified_ns: u64,
    doc: Option<serde_json::Value>,
    count: nat,
) -> bool {
    &&& m.id@ == id
    &&& m.event_count == count
    &&& match doc {
        Some(d) if text_member_of(d, "kind"@) == Some(START_KIND@) => {
            &&& m.name@ == (match payload_text_of(d, "trace_name"@) {
                Some(n) => n,
                None => UNTITLED@,
            })
            &&& opt_view(m.project) == payload_text_of(d, "project"@)
            &&& m.ts_unix_ns == (match doc_ts_of(d) {
                Some(t) => t,
                None => modified_ns,
            })
        },
        _ => {
            &&& m.name@ == id
            &&& m.project is None
            &&& m.ts_unix_ns == modified_ns
        },
    }
}

fn text_member(v: &serde_json::Value, key: &str) -> (r: Option<String>)
    ensures
        opt_view(r) == text_member_of(*v, key@),
{
    match member(v, key) {
        Some(m) => match m.as_str() {
            Some(s) => Some(String::from_str(s)),
            None => None,
        },
        None => None,
    }
}

/// Reads the first record of a trace from its line: the checksum suffix, if
/// any, is dropped unchecked, and a line that is not JSON gives nothing.
pub fn read_first_record(line: &str) -> (r: Option<FirstRecord>)
    ensures
        match r {
            Some(rec) => is_json(json_part(line@)) && record_of_doc(
                rec,
                json_value_of(json_part(line@)),
            ),
            None => !is_json(json_part(line@)),
        },
{
    let json = strip_crc(line);
    match parse_json(json) {
        Ok(v) => {
            let kind = text_member(&v, "kind");
            let (trace_name, project) = match member(&v, "payload") {
                Some(p) => (text_member(p, "trace_name"), text_member(p, "project")),
                None => (None, None),
            };
            let ts_unix_ns = match member(&v, "ts_unix_ns") {
                Some(t) => t.as_u64(),
                None => None,
            };
            Some(FirstRecord { kind, trace_name, project, ts_unix_ns })
        },
        Err(_) => None,
    }
}

/// What a listing learns of one directory under the storage root.
#[derive(Debug)]
pub struct TraceDir {
    /// The directory's name, which is the trace id.
    pub id: String,
    /// When the directory was last modified, in nanoseconds since the Unix epoch.
    pub modified_ns: u64,
    /// The lines of the trace's log file, where it exists and could be read.
    pub lines: Option<Vec<String>>,
}

/// The number of records in a log: its lines that are not blank.
pub open spec fn count_records(lines: Seq<Seq<char>>) -> nat
    decreases lines.len(),
{
    if lines.len() == 0 {
        0
    } else {
        count_records(lines.drop_last()) + if is_blank(lines.last()) {
            0nat
        } else {
            1nat
        }
    }
}

/// Whether line `f` is the first line of the log that is not blank.
pub open spec fn first_record_line(lines: Seq<Seq<char>>, f: int) -> bool {
    &&& 0 <= f < lines.len()
    &&& !is_blank(lines[f])
    &&& forall|i: int| 0 <= i < f ==> is_blank(#[trigger] lines[i])
}

/// The document on the first line of the log that is not blank, where there
/// is such a line and its JSON text (a checksum suffix dropped) parses.
pub open spec fn first_doc(lines: Seq<Seq<char>>) -> Option<serde_json::Value> {
    if exists|f: int| first_record_line(lines, f) {
        let f = choose|f: int| first_record_line(lines, f);
        let text = json_part(trim(lines[f]));
        if is_json(text) {
            Some(json_value_of(text))
        } else {
            None
        }
    } else {
        None
    }
}

/// Whether `m` summarises the directory `d`. Without a readable log file the
/// directory's id and time stand, with no records. Otherwise every record is
/// counted, and the document on the first record line, where it parses,
/// decides the name, project and time.
pub open spec fn is_summary(m: TraceMeta, d: TraceDir) -> bool {
    match d.lines {
        None => meta_of_doc(m, d.id@, d.modified_ns, None, 0),
        Some(ls) => meta_of_doc(
            m,
            d.id@,
            d.modified_ns,
            first_doc(views(ls@)),
            count_records(views(ls@)),
        ),
    }
}

/// A trace whose first record is a start record is listed under the
/// `trace_name` of its payload (the placeholder where it has none); a trace
/// whose first record is no start record, does not parse, or is missing, is
/// listed under its directory id.
pub proof fn lemma_listed_name(m: TraceMeta, d: TraceDir)
    requires
        is_summary(m, d),
    ensures
        match d.lines {
            Some(ls) => match first_doc(views(ls@)) {
                Some(doc) if text_member_of(doc, "kind"@) == Some(START_KIND@) => m.name@ == (
                match payload_text_of(doc, "trace_name"@) {
                    Some(n) => n,
                    None => UNTITLED@,
                }),
                _ => m.name@ == d.id@,
            },
            None => m.name@ == d.id@,
        },
{
}

/// A trace's summary depends on its own directory alone: any two summaries
/// of one directory agree in every field, whatever other traces hold.
pub proof fn lemma_summary_depends_on_directory(m1: TraceMeta, m2: TraceMeta, d: TraceDir)
    requires
        is_summary(m1, d),
        is_summary(m2, d),
    ensures
        m1.id@ == m2.id@,
        m1.name@ == m2.name@,
        opt_view(m1.project) == opt_view(m2.project),
        m1.ts_unix_ns == m2.ts_unix_ns,
        m1.event_count == m2.event_count,
{
}

/// Summarises one trace directory: counts the records of its log and reads
/// the trace's name, project and time from the first of them.
pub fn summarize_trace(d: &TraceDir) -> (r: TraceMeta)
    ensures
        is_summary(r, *d),
{
    match &d.lines {
        None => {
            let r = meta_from_record(d.id.as_str(), d.modified_ns, &None, 0);
            r
        },
        Some(lines) => {
            let ghost vs = views(lines@);
            let mut count: u64 = 0;
            let mut first: Option<usize> = None;
            let mut i: usize = 0;
            while i < lines.len()
                invariant
                    vs == views(lines@),
                    i <= lines@.len(),
                    count as nat == count_records(vs.take(i as int)),
                    count <= i,
                    first is None ==> forall|j: int| 0 <= j < i ==> is_blank(#[trigger] vs[j]),
                    first matches Some(f) ==> f < i && first_record_line(vs, f as int),
                decreases lines.len() - i,
            {
                assert(vs.take(i + 1).drop_last() =~= vs.take(i as int));
                assert(vs.take(i + 1).last() == lines@[i as int]@);
                let t = trim_text(lines[i].as_str());
                if t.unicode_len() > 0 {
                    count = count + 1;
                    if first.is_none() {
                        first = Some(i);
                    }
                }
                i = i + 1;
            }
            assert(vs.take(i as int) =~= vs);
            let rec = match first {
                Some(f) => {
                    let t = trim_text(lines[f].as_str());
                    read_first_record(t)
                },
                None => None,
            };
            let r = meta_from_record(d.id.as_str(), d.modified_ns, &rec, count);
            assert(forall|f1: int, f2: int|
                first_record_line(vs, f1) && first_record_line(vs, f2) ==> f1 == f2);
            proof {
                if let Some(f) = first {
                    assert(first_record_line(vs, f as int));
                    let c = choose|c: int| first_record_line(vs, c);
                    assert(c == f as int);
                } else {
                    assert(!exists|f: int| first_record_line(vs, f));
                }
            }
            r
        },
    }
}

/// Whether the summaries run from the most recent to the oldest.
pub open spec fn newest_first(s: Seq<TraceMeta>) -> bool {
    forall|i: int, j: int| 0 <= i < j < s.len() ==> s[i].ts_unix_ns >= s[j].ts_unix_ns
}

/// Orders summaries from the most recent to the oldest.
pub fn order_newest_first(metas: Vec<TraceMeta>) -> (r: Vec<TraceMeta>)
    ensures
        r@.to_multiset() == metas@.to_multiset(),
        newest_first(r@),
{
    broadcast use vstd::seq_lib::group_to_multiset_ensures, vstd::multiset::group_multiset_axioms;

    let mut rest = metas;
    let mut r: Vec<TraceMeta> = Vec::new();
    while rest.len() > 0
        invariant
            r@.to_multiset().add(rest@.to_multiset()) == metas@.to_multiset(),
            newest_first(r@),
        decreases rest.len(),
    {
        let ghost before = rest@;
        let m = rest.pop().unwrap();
        assert(before == rest@.push(m));
        let mut p: usize = 0;
        while p < r.len() && r[p].ts_unix_ns >= m.ts_unix_ns
            invariant
                p <= r@.len(),
                forall|k: int| 0 <= k < p ==> r@[k].ts_unix_ns >= m.ts_unix_ns,
            decreases r.len() - p,
        {
            p = p + 1;
        }
        let ghost old_r = r@;
        r.insert(p, m);
        assert(r@ == old_r.insert(p as int, m));
        assert(newest_first(r@)) by {
            assert forall|i: int, j: int| 0 <= i < j < r@.len() implies r@[i].ts_unix_ns
                >= r@[j].ts_unix_ns by {
                if p < old_r.len() {
                    assert(old_r[p as int].ts_unix_ns < m.ts_unix_ns);
                }
            }
        }
        proof {
            vstd::seq_lib::to_multiset_insert(old_r, p as int, m);
            vstd::seq_lib::to_multiset_build(rest@, m);
            assert(r@.to_multiset().add(rest@.to_multiset()) =~= old_r.to_multiset().add(
                before.to_multiset(),
            ));
        }
    }
    assert(rest@.to_multiset() =~= Multiset::empty());
    assert(r@.to_multiset() =~= r@.to_multiset().add(rest@.to_multiset()));
    r
}

} // verus!
