//! The log bridge: classifies the engine's log lines and reconstructs the
//! text that a command printed.
//!
//! The engine reports a command's result only through its log. Lines of
//! "print" severity are gathered, with nothing between them, until the
//! completion marker arrives; the gathered text then becomes one finished
//! output, queued in order of completion.
use vstd::prelude::*;
use std::collections::VecDeque;

verus! {

/// Severity of a log line.
#[derive(Debug, PartialEq, Eq, Structural, Clone, Copy)]
pub enum LogLevel {
    Fatal,
    Error,
    Print,
    Verbose,
    VeryVerbose,
    Debug,
    /// A severity that this table does not know.
    Unknown,
}

/// The table from the engine's numeric severities to levels.
pub open spec fn level_meaning(v: i32) -> LogLevel {
    if v == 2 {
        LogLevel::Fatal
    } else if v == 3 {
        LogLevel::Error
    } else if v == 4 {
        LogLevel::Print
    } else if v == 5 {
        LogLevel::Verbose
    } else if v == 6 {
        LogLevel::VeryVerbose
    } else if v == 7 {
        LogLevel::Debug
    } else {
        LogLevel::Unknown
    }
}

impl LogLevel {
    /// Maps the engine's numeric severity to a level.
    pub fn from_code(v: i32) -> (r: LogLevel)
        ensures
            r == level_meaning(v),
    {
        match v {
            2 => LogLevel::Fatal,
            3 => LogLevel::Error,
            4 => LogLevel::Print,
            5 => LogLevel::Verbose,
            6 => LogLevel::VeryVerbose,
            7 => LogLevel::Debug,
            _ => LogLevel::Unknown,
        }
    }
}

/// The source tag of the line that marks the end of a command.
pub const MARKER_SOURCE: &'static str = "lvmcmdline.c";

/// The start of the message of the line that marks the end of a command.
pub const MARKER_PREFIX: &'static str = "Completed:";

/// The document that stands for a command that printed nothing.
pub const NO_OUTPUT_DOCUMENT: &'static str = "{\"rust_logger\": \"no messages from command\"}";

pub open spec fn marker_source() -> Seq<char> {
    MARKER_SOURCE@
}

pub open spec fn marker_prefix() -> Seq<char> {
    MARKER_PREFIX@
}

pub open spec fn no_output_document() -> Seq<char> {
    NO_OUTPUT_DOCUMENT@
}

/// Whether `p` is a prefix of `s`.
pub open spec fn starts_with(s: Seq<char>, p: Seq<char>) -> bool {
    p.len() <= s.len() && s.subrange(0, p.len() as int) == p
}

/// Whether a log line is the engine's completion marker.
pub open spec fn is_completion_marker(level: LogLevel, file: Seq<char>, message: Seq<char>) -> bool {
    level == LogLevel::Debug && file == marker_source() && starts_with(message, marker_prefix())
}

/// The text that a finished command hands on: what it printed, or the
/// placeholder document where it printed nothing.
pub open spec fn finished_text(printed: Seq<char>) -> Seq<char> {
    if printed.len() == 0 {
        no_output_document()
    } else {
        printed
    }
}

/// Whether `s` starts with `p`.
fn has_prefix(s: &str, p: &str) -> (r: bool)
    ensures
        r == starts_with(s@, p@),
{
    let n = p.unicode_len();
    if n > s.unicode_len() {
        return false;
    }
    let mut i: usize = 0;
    while i < n
        invariant
            n == p@.len(),
            n <= s@.len(),
            i <= n,
            forall|j: int| 0 <= j < i ==> s@[j] == p@[j],
        decreases n - i,
    {
        if s.get_char(i) != p.get_char(i) {
            assert(s@.subrange(0, n as int)[i as int] != p@[i as int]);
            return false;
        }
        i = i + 1;
    }
    assert(s@.subrange(0, n as int) =~= p@);
    true
}

/// Whether `s` and `p` hold the same characters.
fn same_text(s: &str, p: &str) -> (r: bool)
    ensures
        r == (s@ == p@),
{
    if s.unicode_len() != p.unicode_len() {
        return false;
    }
    let r = has_prefix(s, p);
    assert(s@.subrange(0, p@.len() as int) =~= s@);
    r
}

/// Whether the line with this severity, source tag and message is the
/// engine's completion marker.
pub fn completion_marker(level: LogLevel, file: &str, message: &str) -> (r: bool)
    ensures
        r == is_completion_marker(level, file@, message@),
{
    match level {
        LogLevel::Debug => same_text(file, MARKER_SOURCE) && has_prefix(message, MARKER_PREFIX),
        _ => false,
    }
}

/// The gathered print lines of the command that runs, and the outputs of
/// finished commands that nobody has taken yet, oldest first.
pub struct LogCapture {
    buffer: String,
    ready: VecDeque<String>,
}

impl LogCapture {
    /// The text gathered for the command that runs.
    pub closed spec fn gathered(&self) -> Seq<char> {
        self.buffer@
    }

    /// Finished outputs not yet taken, oldest first.
    pub closed spec fn pending(&self) -> Seq<Seq<char>> {
        self.ready@.map_values(|s: String| s@)
    }

    /// A capture with nothing gathered and nothing pending.
    pub fn new() -> (r: LogCapture)
        ensures
            r.gathered() == Seq::<char>::empty(),
            r.pending() == Seq::<Seq<char>>::empty(),
    {
        let r = LogCapture { buffer: String::new(), ready: VecDeque::new() };
        assert(r.pending() =~= Seq::<Seq<char>>::empty());
        r
    }

    /// Takes in one log line. A print line is appended to the gathered text
    /// as it is; the completion marker moves the gathered text (or the
    /// placeholder, where there is none) to the end of the pending outputs
    /// and empties the gathered text; every other line is ignored. Returns
    /// whether the line was the completion marker.
    pub fn on_log(&mut self, level: i32, file: &str, message: &str) -> (r: bool)
        ensures
            r == is_completion_marker(level_meaning(level), file@, message@),
            r ==> final(self).gathered() == Seq::<char>::empty()
                && final(self).pending() == old(self).pending().push(finished_text(old(self).gathered())),
            !r && level_meaning(level) == LogLevel::Print ==> final(self).gathered() == old(self).gathered() + message@
                && final(self).pending() == old(self).pending(),
            !r && level_meaning(level) != LogLevel::Print ==> final(self).gathered() == old(self).gathered()
                && final(self).pending() == old(self).pending(),
    {
        let level = LogLevel::from_code(level);
        if completion_marker(level, file, message) {
            let mut out = String::new();
            std::mem::swap(&mut out, &mut self.buffer);
            if out.as_str().is_empty() {
                out = NO_OUTPUT_DOCUMENT.to_owned();
            }
            let ghost before = self.ready@;
            self.ready.push_back(out);
            assert(self.ready@.map_values(|s: String| s@) =~= before.map_values(|s: String| s@).push(out@));
            true
        } else {
            if level == LogLevel::Print {
                self.buffer.append(message);
            }
            false
        }
    }

    /// Takes the oldest finished output, if there is one.
    pub fn take_output(&mut self) -> (r: Option<String>)
        ensures
            old(self).pending().len() == 0 ==> r is None && final(self).pending() == old(self).pending(),
            old(self).pending().len() > 0 ==> (r matches Some(s) && s@ == old(self).pending()[0]
                && final(self).pending() == old(self).pending().drop_first()),
            final(self).gathered() == old(self).gathered(),
    {
        let ghost before = self.ready@;
        let r = self.ready.pop_front();
        if r.is_some() {
            assert(self.ready@.map_values(|s: String| s@) =~= before.map_values(|s: String| s@).drop_first());
        }
        r
    }
}

} // verus!
