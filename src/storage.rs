use vstd::prelude::*;

verus! {

/// The name of the log file inside each trace directory.
pub const EVENTS_FILE_NAME: &'static str = "events.jsonl";

/// A path extended by one more part, as a Unix path is: an absolute part
/// replaces the path, and a separator is put between the two where the path
/// does not already end in one.
pub open spec fn join_path(base: Seq<char>, part: Seq<char>) -> Seq<char> {
    if part.len() > 0 && part[0] == '/' {
        part
    } else if base.len() == 0 || base.last() == '/' {
        base + part
    } else {
        base + seq!['/'] + part
    }
}

/// Where the traces under one storage root live: `<root>/<trace_id>/events.jsonl`.
pub struct StorageLayout {
    pub root: String,
}

/// Extends a path by one more part.
fn join(base: &str, part: &str) -> (r: String)
    ensures
        r@ == join_path(base@, part@),
{
    let n = base.unicode_len();
    if part.unicode_len() > 0 && part.get_char(0) == '/' {
        return String::from_str(part);
    }
    let mut r = String::from_str(base);
    if n > 0 && base.get_char(n - 1) != '/' {
        proof {
            reveal_strlit("/");
        }
        r.append("/");
    }
    r.append(part);
    r
}

impl StorageLayout {
    /// A layout over the given root directory.
    pub fn new(root: &str) -> (r: StorageLayout)
        ensures
            r.root@ == root@,
    {
        StorageLayout { root: String::from_str(root) }
    }

    /// The path of a trace's directory: the root joined with the trace id.
    pub open spec fn spec_trace_dir(&self, trace_id: Seq<char>) -> Seq<char> {
        join_path(self.root@, trace_id)
    }

    /// The path of a trace's log file.
    pub open spec fn spec_events_file(&self, trace_id: Seq<char>) -> Seq<char> {
        join_path(self.spec_trace_dir(trace_id), EVENTS_FILE_NAME@)
    }

    /// The path of a trace's directory: the root joined with the trace id.
    pub fn trace_dir(&self, trace_id: &str) -> (r: String)
        ensures
            r@ == self.spec_trace_dir(trace_id@),
    {
        join(self.root.as_str(), trace_id)
    }

    /// The path of a trace's log file inside its directory.
    pub fn events_file(&self, trace_id: &str) -> (r: String)
        ensures
            r@ == self.spec_events_file(trace_id@),
    {
        let dir = self.trace_dir(trace_id);
        join(dir.as_str(), EVENTS_FILE_NAME)
    }
}

} // verus!
