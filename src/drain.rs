//! Classification of the worker's output lines.
//!
//! The host drains the worker's streams on a background task and turns each
//! event into a record with `classify`, stopping once the worker terminates.

use vstd::prelude::*;

verus! {

/// Substrings of the worker's startup banner. The worker's runtime prints
/// them on its error stream although they report no error.
pub const BENIGN_MARKERS: [&'static str; 3] = [
    "Uvicorn running on",
    "Application startup complete",
    "Started server process",
];

/// Whether `needle` occurs in `hay` as a contiguous run.
pub open spec fn occurs_in(needle: Seq<char>, hay: Seq<char>) -> bool {
    exists|i: int|
        0 <= i && i + needle.len() <= hay.len() && #[trigger] hay.subrange(i, i + needle.len())
            == needle
}

/// Whether a line of the error stream holds one of the benign markers.
pub open spec fn is_benign_spec(line: Seq<char>) -> bool {
    ||| occurs_in(BENIGN_MARKERS[0]@, line)
    ||| occurs_in(BENIGN_MARKERS[1]@, line)
    ||| occurs_in(BENIGN_MARKERS[2]@, line)
}

/// One event of the worker's output.
#[derive(Debug)]
pub enum OutputEvent {
    StdoutLine(String),
    StderrLine(String),
    /// The worker exited, with its status code if it had one.
    Terminated(Option<i32>),
}

/// What the drain records for an event.
#[derive(Debug)]
pub enum DrainRecord {
    Info(String),
    Error(String),
    Exited(Option<i32>),
}

/// The record that an event yields.
pub enum RecordView {
    Info(Seq<char>),
    Error(Seq<char>),
    Exited(Option<i32>),
}

impl View for DrainRecord {
    type V = RecordView;

    open spec fn view(&self) -> RecordView {
        match self {
            DrainRecord::Info(s) => RecordView::Info(s@),
            DrainRecord::Error(s) => RecordView::Error(s@),
            DrainRecord::Exited(c) => RecordView::Exited(*c),
        }
    }
}

/// The record of an event: standard output is informational, the error
/// stream is an error unless it holds a benign marker, and termination
/// records the exit status.
pub open spec fn classify_spec(e: OutputEvent) -> RecordView {
    match e {
        OutputEvent::StdoutLine(s) => RecordView::Info(s@),
        OutputEvent::StderrLine(s) => if is_benign_spec(s@) {
            RecordView::Info(s@)
        } else {
            RecordView::Error(s@)
        },
        OutputEvent::Terminated(c) => RecordView::Exited(c),
    }
}

/// The characters of `s`.
pub fn chars_of(s: &str) -> (r: Vec<char>)
    ensures
        r@ == s@,
{
    let n = s.unicode_len();
    let mut r: Vec<char> = Vec::new();
    let mut i: usize = 0;
    while i < n
        invariant
            n == s@.len(),
            i <= n,
            r@ == s@.subrange(0, i as int),
        decreases n - i,
    {
        r.push(s.get_char(i));
        i = i + 1;
        assert(r@ =~= s@.subrange(0, i as int));
    }
    assert(s@.subrange(0, n as int) =~= s@);
    r
}

/// Whether `needle` matches `hay` at position `at`.
fn matches_at(needle: &Vec<char>, hay: &Vec<char>, at: usize) -> (r: bool)
    requires
        at + needle@.len() <= hay@.len(),
    ensures
        r == (hay@.subrange(at as int, at + needle@.len()) == needle@),
{
    let hay_len = hay.len();
    let mut j: usize = 0;
    while j < needle.len()
        invariant
            hay_len == hay@.len(),
            j <= needle@.len(),
            at + needle@.len() <= hay@.len(),
            forall|k: int| 0 <= k < j ==> hay@[at + k] == needle@[k],
        decreases needle.len() - j,
    {
        if hay[at + j] != needle[j] {
            assert(hay@.subrange(at as int, at + needle@.len())[j as int] != needle@[j as int]);
            return false;
        }
        j = j + 1;
    }
    assert(hay@.subrange(at as int, at + needle@.len()) =~= needle@);
    true
}

/// Whether `needle` occurs in `hay`.
pub fn contains(hay: &str, needle: &str) -> (r: bool)
    ensures
        r == occurs_in(needle@, hay@),
{
    let h = chars_of(hay);
    let n = chars_of(needle);
    if n.len() > h.len() {
        return false;
    }
    let last = h.len() - n.len();
    let mut i: usize = 0;
    while i < last
        invariant
            h@ == hay@,
            n@ == needle@,
            last == h@.len() - n@.len(),
            i <= last,
            forall|k: int| 0 <= k < i ==> #[trigger] h@.subrange(k, k + n@.len()) != n@,
        decreases last - i,
    {
        if matches_at(&n, &h, i) {
            return true;
        }
        i = i + 1;
    }
    if matches_at(&n, &h, last) {
        return true;
    }
    assert forall|k: int| 0 <= k && k + n@.len() <= h@.len() implies #[trigger] h@.subrange(
        k,
        k + n@.len(),
    ) != n@ by {
        assert(k <= last);
    }
    false
}

/// Whether a line of the error stream is benign startup output.
pub fn is_benign(line: &str) -> (r: bool)
    ensures
        r == is_benign_spec(line@),
{
    contains(line, BENIGN_MARKERS[0]) || contains(line, BENIGN_MARKERS[1]) || contains(
        line,
        BENIGN_MARKERS[2],
    )
}

/// The record of one output event, and whether draining goes on after it.
pub fn classify(e: OutputEvent) -> (r: (DrainRecord, bool))
    ensures
        r.0@ == classify_spec(e),
        r.1 == !(e is Terminated),
{
    match e {
        OutputEvent::StdoutLine(s) => (DrainRecord::Info(s), true),
        OutputEvent::StderrLine(s) => {
            if is_benign(s.as_str()) {
                (DrainRecord::Info(s), true)
            } else {
                (DrainRecord::Error(s), true)
            }
        },
        OutputEvent::Terminated(c) => (DrainRecord::Exited(c), false),
    }
}

} // verus!
