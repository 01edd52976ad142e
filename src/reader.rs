use vstd::prelude::*;
use vstd::utf8::encode_utf8;
use crate::crc::{calculate, checksum_text, crc32c_of, format_hex};
use crate::json::{is_json, json_value_of, parse_json};
use crate::meta::{is_summary, newest_first, order_newest_first, summarize_trace, TraceDir, TraceMeta};
use crate::storage::StorageLayout;
use crate::text::{is_blank, trim, trim_text};

verus! {

/// An I/O failure reported by the operating system.
#[verifier::external_type_specification]
#[verifier::external_body]
pub struct ExIoError(std::io::Error);

/// Why reading a trace failed.
#[derive(Debug)]
pub enum ReadError {
    /// A framed line whose checksum suffix does not match its JSON text.
    CrcMismatch { line: usize, expected: String, actual: String },
    /// No log file exists for the trace id.
    TraceNotFound(String),
    /// Opening or reading the log file failed.
    Io(std::io::Error),
    /// A line's JSON text could not be parsed.
    Json(serde_json::Error),
}

/// Whether the line ends in a tab followed by exactly eight characters, none
/// of them a tab: the last tab of the line then starts a checksum suffix.
pub open spec fn is_framed(line: Seq<char>) -> bool {
    &&& line.len() >= 9
    &&& line[line.len() - 9] == '\t'
    &&& forall|i: int| line.len() - 8 <= i < line.len() ==> line[i] != '\t'
}

/// The JSON text of a line: what stands before the checksum suffix of a
/// framed line, or the whole line in the legacy form.
pub open spec fn json_part(line: Seq<char>) -> Seq<char> {
    if is_framed(line) {
        line.subrange(0, line.len() - 9)
    } else {
        line
    }
}

/// The eight characters after the last tab of a framed line.
pub open spec fn crc_part(line: Seq<char>) -> Seq<char> {
    line.subrange(line.len() - 8, line.len() as int)
}

/// The checksum text computed over the UTF-8 bytes of a JSON text.
pub open spec fn computed_crc(json: Seq<char>) -> Seq<char> {
    checksum_text(crc32c_of(encode_utf8(json)))
}

/// Whether the line passes the checksum check: a legacy line always does, a
/// framed one when its suffix equals the checksum of its JSON text.
pub open spec fn crc_ok(line: Seq<char>) -> bool {
    is_framed(line) ==> crc_part(line) == computed_crc(json_part(line))
}

/// The JSON text of a line, with a checksum suffix dropped unchecked.
pub fn strip_crc(line: &str) -> (r: &str)
    ensures
        r@ == json_part(line@),
{
    let n = line.unicode_len();
    if n < 9 || line.get_char(n - 9) != '\t' {
        return line;
    }
    let mut i: usize = n - 8;
    while i < n
        invariant
            n == line@.len(),
            n >= 9,
            n - 8 <= i <= n,
            forall|j: int| n - 8 <= j < i ==> line@[j] != '\t',
        decreases n - i,
    {
        if line.get_char(i) == '\t' {
            return line;
        }
        i = i + 1;
    }
    line.substring_char(0, n - 9)
}

/// Splits a line into its JSON text and checks the checksum suffix when there
/// is one; a line without one is returned whole.
pub fn split_and_verify(line: &str, line_num: usize) -> (r: Result<&str, ReadError>)
    ensures
        match r {
            Ok(json) => crc_ok(line@) && json@ == json_part(line@),
            Err(ReadError::CrcMismatch { line: k, expected, actual }) => {
                &&& !crc_ok(line@)
                &&& k == line_num
                &&& expected@ == crc_part(line@)
                &&& actual@ == computed_crc(json_part(line@))
            },
            Err(_) => false,
        },
{
    let n = line.unicode_len();
    let json = strip_crc(line);
    if json.unicode_len() == n {
        return Ok(line);
    }
    let suffix = String::from_str(line.substring_char(n - 8, n));
    let actual = format_hex(calculate(json.as_bytes()));
    if suffix == actual {
        Ok(json)
    } else {
        Err(ReadError::CrcMismatch { line: line_num, expected: suffix, actual })
    }
}

/// The views of a sequence of lines.
pub open spec fn views(lines: Seq<String>) -> Seq<Seq<char>> {
    lines.map_values(|l: String| l@)
}

/// Whether a line is read without error: it is blank, or it passes the
/// checksum check and its JSON text parses.
pub open spec fn line_ok(line: Seq<char>) -> bool {
    is_blank(line) || (crc_ok(trim(line)) && is_json(json_part(trim(line))))
}

/// Whether every line is read without error.
pub open spec fn all_lines_ok(lines: Seq<Seq<char>>) -> bool {
    forall|i: int| 0 <= i < lines.len() ==> line_ok(#[trigger] lines[i])
}

/// Whether line `k` (counted from zero) is the first that cannot be read.
pub open spec fn first_bad_line(lines: Seq<Seq<char>>, k: int) -> bool {
    &&& 0 <= k < lines.len()
    &&& !line_ok(lines[k])
    &&& all_lines_ok(lines.take(k))
}

/// The records of the lines in file order, one for each line that is not blank.
pub open spec fn records(lines: Seq<Seq<char>>) -> Seq<serde_json::Value>
    decreases lines.len(),
{
    if lines.len() == 0 {
        Seq::empty()
    } else {
        let rest = records(lines.drop_last());
        if is_blank(lines.last()) {
            rest
        } else {
            rest.push(json_value_of(json_part(trim(lines.last()))))
        }
    }
}

/// Reads the records of a log file's lines, in order: blank lines are
/// skipped, each other line is checked against its checksum suffix and parsed.
/// The first line that fails ends the read with its error, numbered from one.
pub fn decode_events(lines: &Vec<String>) -> (r: Result<Vec<serde_json::Value>, ReadError>)
    ensures
        match r {
            Ok(events) => all_lines_ok(views(lines@)) && events@ == records(views(lines@)),
            Err(ReadError::CrcMismatch { line, expected, actual }) => exists|k: int|
                {
                    &&& #[trigger] first_bad_line(views(lines@), k)
                    &&& line == k + 1
                    &&& !crc_ok(trim(lines@[k]@))
                    &&& expected@ == crc_part(trim(lines@[k]@))
                    &&& actual@ == computed_crc(json_part(trim(lines@[k]@)))
                },
            Err(ReadError::Json(_)) => exists|k: int|
                {
                    &&& #[trigger] first_bad_line(views(lines@), k)
                    &&& crc_ok(trim(lines@[k]@))
                },
            Err(_) => false,
        },
{
    let mut events: Vec<serde_json::Value> = Vec::new();
    let mut i: usize = 0;
    while i < lines.len()
        invariant
            i <= lines@.len(),
            all_lines_ok(views(lines@).take(i as int)),
            events@ == records(views(lines@).take(i as int)),
        decreases lines.len() - i,
    {
        let ghost ls = views(lines@);
        assert(ls.take(i + 1).drop_last() =~= ls.take(i as int));
        assert(ls.take(i + 1).last() == lines@[i as int]@);
        let t = trim_text(lines[i].as_str());
        if t.unicode_len() == 0 {
            i = i + 1;
            continue;
        }
        match split_and_verify(t, i + 1) {
            Ok(json) => {
                match parse_json(json) {
                    Ok(v) => {
                        events.push(v);
                    },
                    Err(e) => {
                        assert(first_bad_line(ls, i as int));
                        return Err(ReadError::Json(e));
                    },
                }
            },
            Err(e) => {
                assert(first_bad_line(ls, i as int));
                return Err(e);
            },
        }
        i = i + 1;
    }
    assert(views(lines@).take(i as int) =~= views(lines@));
    Ok(events)
}

/// Reads the traces stored under one root directory.
pub struct TraceReader {
    pub layout: StorageLayout,
}

impl TraceReader {
    /// A reader over the given storage root.
    pub fn new(root: &str) -> (r: TraceReader)
        ensures
            r.layout.root@ == root@,
    {
        TraceReader { layout: StorageLayout::new(root) }
    }

    /// Lists the traces found under the root, one summary for each trace
    /// directory, the most recent first. No directories give an empty list.
    pub fn list_traces(&self, dirs: Vec<TraceDir>) -> (r: Vec<TraceMeta>)
        ensures
            r@.len() == dirs@.len(),
            newest_first(r@),
            exists|s: Seq<TraceMeta>|
                {
                    &&& s.len() == dirs@.len()
                    &&& forall|i: int| 0 <= i < s.len() ==> is_summary(#[trigger] s[i], dirs@[i])
                    &&& r@.to_multiset() == #[trigger] s.to_multiset()
                },
    {
        let mut metas: Vec<TraceMeta> = Vec::new();
        let mut i: usize = 0;
        while i < dirs.len()
            invariant
                i <= dirs@.len(),
                metas@.len() == i,
                forall|k: int| 0 <= k < i ==> is_summary(#[trigger] metas@[k], dirs@[k]),
            decreases dirs.len() - i,
        {
            metas.push(summarize_trace(&dirs[i]));
            i = i + 1;
        }
        let ghost s = metas@;
        let r = order_newest_first(metas);
        proof {
            vstd::seq_lib::to_multiset_len(r@);
            vstd::seq_lib::to_multiset_len(s);
        }
        r
    }

    /// Reads every record of a trace in file order, given the lines of its log
    /// file, or nothing where the trace has no log file.
    pub fn get_events(&self, trace_id: &str, lines: Option<&Vec<String>>) -> (r: Result<
        Vec<serde_json::Value>,
        ReadError,
    >)
        ensures
            lines is None ==> (r matches Err(ReadError::TraceNotFound(id)) && id@ == trace_id@),
            lines matches Some(ls) ==> match r {
                Ok(events) => all_lines_ok(views(ls@)) && events@ == records(views(ls@)),
                Err(ReadError::CrcMismatch { line, expected, actual }) => exists|k: int|
                    {
                        &&& #[trigger] first_bad_line(views(ls@), k)
                        &&& line == k + 1
                        &&& !crc_ok(trim(ls@[k]@))
                        &&& expected@ == crc_part(trim(ls@[k]@))
                        &&& actual@ == computed_crc(json_part(trim(ls@[k]@)))
                    },
                Err(ReadError::Json(_)) => exists|k: int|
                    {
                        &&& #[trigger] first_bad_line(views(ls@), k)
                        &&& crc_ok(trim(ls@[k]@))
                    },
                Err(_) => false,
            },
    {
        match lines {
            None => Err(ReadError::TraceNotFound(String::from_str(trace_id))),
            Some(ls) => decode_events(ls),
        }
    }
}

} // verus!
