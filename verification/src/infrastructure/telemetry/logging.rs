//! The technical log: how large its files grow, and how its lines are redacted before they are
//! written.

use vstd::prelude::*;
use vstd::string::*;

use crate::infrastructure::telemetry::redaction;
use crate::infrastructure::telemetry::redaction::SecretRedactor;
use crate::infrastructure::windows::paths::{PathProblem, WindowsPathError};
use crate::text;

verus! {

/// How large a file of the log grows: 10 MiB.
pub const LOG_FILE_SIZE_BYTES: usize = 10_485_760;

/// How many files of the log are kept, the one that is written among them.
pub const LOG_FILE_COUNT: usize = 5;

/// What `String::from_utf8_lossy` makes of bytes.
pub uninterp spec fn lossy_text(bytes: Seq<u8>) -> Seq<char>;

/// Calls `String::from_utf8_lossy`, whose result is a function of the bytes alone: valid UTF-8 is read
/// as it is, and what is not valid is replaced.
#[verifier::external_body]
pub(crate) fn read_lossy(bytes: &[u8]) -> (result: String)
    ensures
        result@ == lossy_text(bytes@),
        vstd::utf8::valid_utf8(bytes@) ==> result@ == vstd::utf8::decode_utf8(bytes@),
{
    String::from_utf8_lossy(bytes).into_owned()
}

/// A line as it is written to the log: redacted, with its line feed where it has one.
pub open spec fn written_line(secrets: Seq<Seq<char>>, line: Seq<u8>) -> Seq<u8> {
    if line.len() > 0 && line.last() == 0x0a {
        vstd::utf8::encode_utf8(
            redaction::redacted(secrets, lossy_text(line.drop_last())),
        ).push(0x0a)
    } else {
        vstd::utf8::encode_utf8(redaction::redacted(secrets, lossy_text(line)))
    }
}

/// The position of the first line feed at or after `from`, or the length.
pub open spec fn first_feed(bytes: Seq<u8>, from: int) -> int
    decreases bytes.len() - from,
{
    if from >= bytes.len() {
        bytes.len() as int
    } else if bytes[from] == 0x0a {
        from
    } else {
        first_feed(bytes, from + 1)
    }
}

/// What is written of bytes from position `from` on, line by line, and where the last, unfinished
/// line begins.
pub open spec fn complete_lines(secrets: Seq<Seq<char>>, bytes: Seq<u8>, from: int) -> (Seq<u8>, int)
    decreases bytes.len() - from,
{
    let at = first_feed(bytes, from);
    if from < 0 || at < from || at >= bytes.len() {
        (Seq::empty(), from)
    } else {
        let rest = complete_lines(secrets, bytes, at + 1);
        (written_line(secrets, bytes.subrange(from, at + 1)) + rest.0, rest.1)
    }
}

fn find_feed(bytes: &Vec<u8>, from: usize) -> (result: usize)
    requires
        from <= bytes@.len(),
    ensures
        result == first_feed(bytes@, from as int),
        from <= result <= bytes@.len(),
{
    let mut at: usize = from;
    while at < bytes.len() && bytes[at] != 0x0a
        invariant
            from <= at <= bytes.len(),
            first_feed(bytes@, from as int) == first_feed(bytes@, at as int),
        decreases bytes.len() - at,
    {
        at = at + 1;
    }
    at
}

fn cut(bytes: &Vec<u8>, from: usize, to: usize) -> (result: Vec<u8>)
    requires
        from <= to <= bytes@.len(),
    ensures
        result@ == bytes@.subrange(from as int, to as int),
{
    let mut result: Vec<u8> = Vec::new();
    let mut i: usize = from;
    while i < to
        invariant
            from <= i <= to <= bytes@.len(),
            result@ == bytes@.subrange(from as int, i as int),
        decreases to - i,
    {
        assert(bytes@.subrange(from as int, i as int).push(bytes@[i as int]) =~= bytes@.subrange(
            from as int,
            i + 1,
        ));
        result.push(bytes[i]);
        i = i + 1;
    }
    result
}

/// Redacts one line.
pub fn redact_line(redactor: &SecretRedactor, line: &Vec<u8>) -> (result: Vec<u8>)
    ensures
        result@ == written_line(redactor@, line@),
{
    let ends = line.len() > 0 && line[line.len() - 1] == 0x0a;
    let content = if ends {
        cut(line, 0, line.len() - 1)
    } else {
        cut(line, 0, line.len())
    };
    assert(content@ =~= if ends { line@.drop_last() } else { line@ });
    let shown = redactor.redact(read_lossy(content.as_slice()).as_str());
    let mut result: Vec<u8> = Vec::new();
    result.extend_from_slice(shown.as_str().as_bytes());
    assert(result@ =~= vstd::utf8::encode_utf8(shown@));
    if ends {
        result.push(0x0a);
    }
    result
}

/// Bytes on their way to the log: complete lines are redacted and passed on, an unfinished one waits.
pub struct RedactingBuffer {
    pending: Vec<u8>,
}

impl View for RedactingBuffer {
    type V = Seq<u8>;

    closed spec fn view(&self) -> Seq<u8> {
        self.pending@
    }
}

impl RedactingBuffer {
    pub fn new() -> (result: Self)
        ensures
            result@ == Seq::<u8>::empty(),
    {
        RedactingBuffer { pending: Vec::new() }
    }

    /// Takes bytes in and gives out what can be written: the complete lines, redacted. The rest
    /// waits.
    pub fn write(&mut self, redactor: &SecretRedactor, buffer: &[u8]) -> (result: Vec<u8>)
        ensures
            ({
                let bytes = old(self)@ + buffer@;
                let lines = complete_lines(redactor@, bytes, 0);
                &&& result@ == lines.0
                &&& final(self)@ == bytes.skip(lines.1)
            }),
    {
        self.pending.extend_from_slice(buffer);
        assert(self.pending@ =~= old(self)@ + buffer@);
        let ghost bytes = self.pending@;
        let mut result: Vec<u8> = Vec::new();
        let mut from: usize = 0;
        assert(Seq::<u8>::empty() + complete_lines(redactor@, bytes, 0).0 =~= complete_lines(
            redactor@,
            bytes,
            0,
        ).0);
        loop
            invariant_except_break
                self.pending@ == bytes,
                from <= bytes.len(),
                result@ + complete_lines(redactor@, bytes, from as int).0 == complete_lines(
                    redactor@,
                    bytes,
                    0,
                ).0,
                complete_lines(redactor@, bytes, from as int).1 == complete_lines(
                    redactor@,
                    bytes,
                    0,
                ).1,
            ensures
                self.pending@ == bytes,
                from <= bytes.len(),
                result@ == complete_lines(redactor@, bytes, 0).0,
                from == complete_lines(redactor@, bytes, 0).1,
            decreases bytes.len() - from,
        {
            let at: usize = find_feed(&self.pending, from);
            if at >= self.pending.len() {
                assert(result@ + Seq::<u8>::empty() =~= result@);
                break;
            }
            let ghost done = result@;
            let line = cut(&self.pending, from, at + 1);
            let shown = redact_line(redactor, &line);
            result.extend_from_slice(shown.as_slice());
            let ghost rest = complete_lines(redactor@, bytes, at + 1).0;
            assert(done + (shown@ + rest) =~= result@ + rest);
            from = at + 1;
        }
        self.pending = cut(&self.pending, from, self.pending.len());
        assert(self@ =~= bytes.skip(from as int));
        result
    }

    /// Gives out the unfinished line, redacted.
    pub fn flush(&mut self, redactor: &SecretRedactor) -> (result: Vec<u8>)
        ensures
            result@ == (if old(self)@.len() == 0 {
                Seq::<u8>::empty()
            } else {
                written_line(redactor@, old(self)@)
            }),
            final(self)@ == Seq::<u8>::empty(),
    {
        let mut pending: Vec<u8> = Vec::new();
        std::mem::swap(&mut pending, &mut self.pending);
        if pending.len() == 0 {
            return Vec::new();
        }
        redact_line(redactor, &pending)
    }
}

proof fn lemma_complete_lines(secrets: Seq<Seq<char>>, bytes: Seq<u8>, from: int)
    requires
        0 <= from <= bytes.len(),
    ensures
        from <= complete_lines(secrets, bytes, from).1 <= bytes.len(),
        forall|i: int|
            complete_lines(secrets, bytes, from).1 <= i < bytes.len() ==> bytes[i] != 0x0a,
    decreases bytes.len() - from,
{
    let at = first_feed(bytes, from);
    lemma_first_feed(bytes, from);
    if at < bytes.len() {
        lemma_complete_lines(secrets, bytes, at + 1);
    }
}

proof fn lemma_first_feed(bytes: Seq<u8>, from: int)
    requires
        0 <= from <= bytes.len(),
    ensures
        from <= first_feed(bytes, from) <= bytes.len(),
        forall|i: int| from <= i < first_feed(bytes, from) ==> bytes[i] != 0x0a,
    decreases bytes.len() - from,
{
    if from < bytes.len() && bytes[from] != 0x0a {
        lemma_first_feed(bytes, from + 1);
    }
}

/// Nothing waits but the bytes behind the last line feed, so no part of a line is written before the
/// whole line has been redacted.
pub proof fn law_only_unfinished_lines_wait(secrets: Seq<Seq<char>>, bytes: Seq<u8>)
    ensures
        !bytes.skip(complete_lines(secrets, bytes, 0).1).contains(0x0au8),
{
    lemma_complete_lines(secrets, bytes, 0);
    let start = complete_lines(secrets, bytes, 0).1;
    let rest = bytes.skip(start);
    if rest.contains(0x0au8) {
        let i = choose|i: int| 0 <= i < rest.len() && rest[i] == 0x0au8;
        assert(bytes[start + i] == 0x0au8);
    }
}


/// Why the technical log cannot be written.
#[derive(Debug, PartialEq, Eq)]
pub enum LoggingError {
    WindowsPath { error: WindowsPathError },
    CreateDirectory { path: String, source: String },
    OpenLog { path: String, source: String },
    InvalidFilter { filter: String, details: String },
    InstallSubscriber { details: String },
}

pub enum LoggingProblem {
    WindowsPath { error: PathProblem },
    CreateDirectory { path: Seq<char>, source: Seq<char> },
    OpenLog { path: Seq<char>, source: Seq<char> },
    InvalidFilter { filter: Seq<char>, details: Seq<char> },
    InstallSubscriber { details: Seq<char> },
}

impl View for LoggingError {
    type V = LoggingProblem;

    open spec fn view(&self) -> LoggingProblem {
        match self {
            LoggingError::WindowsPath { error } => LoggingProblem::WindowsPath { error: error@ },
            LoggingError::CreateDirectory { path, source } => LoggingProblem::CreateDirectory {
                path: path@,
                source: source@,
            },
            LoggingError::OpenLog { path, source } => LoggingProblem::OpenLog {
                path: path@,
                source: source@,
            },
            LoggingError::InvalidFilter { filter, details } => LoggingProblem::InvalidFilter {
                filter: filter@,
                details: details@,
            },
            LoggingError::InstallSubscriber { details } => LoggingProblem::InstallSubscriber {
                details: details@,
            },
        }
    }
}

impl LoggingProblem {
    pub open spec fn message(self) -> Seq<char> {
        match self {
            LoggingProblem::WindowsPath { error } => "не удалось определить каталог технического лога: "@
                + error.message(),
            LoggingProblem::CreateDirectory { path, source } => "не удалось создать каталог технического лога "@
                + text::shown(path) + ": "@ + source,
            LoggingProblem::OpenLog { path, source } => "не удалось открыть технический лог "@
                + text::shown(path) + ": "@ + source,
            LoggingProblem::InvalidFilter { filter, details } => "некорректный фильтр уровня технического лога "@
                + text::shown(filter) + ": "@ + details,
            LoggingProblem::InstallSubscriber { details } => "не удалось установить глобальный tracing subscriber: "@
                + details,
        }
    }
}

fn with_place(prefix: &str, place: &str, reason: &str) -> (result: String)
    ensures
        result@ == prefix@ + text::shown(place@) + ": "@ + reason@,
{
    let mut result = prefix.to_owned();
    result.push_str(text::show(place).as_str());
    result.push_str(": ");
    result.push_str(reason);
    result
}

impl LoggingError {
    /// The text shown to the operator.
    pub fn message(&self) -> (result: String)
        ensures
            result@ == self@.message(),
    {
        match self {
            LoggingError::WindowsPath { error } => {
                let mut result = "не удалось определить каталог технического лога: ".to_owned();
                result.push_str(error.message().as_str());
                result
            },
            LoggingError::CreateDirectory { path, source } => with_place(
                "не удалось создать каталог технического лога ",
                path.as_str(),
                source.as_str(),
            ),
            LoggingError::OpenLog { path, source } => with_place(
                "не удалось открыть технический лог ",
                path.as_str(),
                source.as_str(),
            ),
            LoggingError::InvalidFilter { filter, details } => with_place(
                "некорректный фильтр уровня технического лога ",
                filter.as_str(),
                details.as_str(),
            ),
            LoggingError::InstallSubscriber { details } => {
                let mut result = "не удалось установить глобальный tracing subscriber: ".to_owned();
                result.push_str(details.as_str());
                result
            },
        }
    }
}

} // verus!
