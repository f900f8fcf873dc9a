//! Runs of the `rac` utility: arguments, what a log may show of them, and how a run ends.

use vstd::prelude::*;
use vstd::string::*;

use crate::number;
use crate::outcome;
use crate::text;

verus! {

/// The largest output of one stream that is kept: 32 MiB.
pub const MAX_CAPTURED_OUTPUT_BYTES: u64 = 33_554_432;

/// What stands in a log for a secret.
pub open spec fn redaction() -> Seq<char> {
    "<redacted>"@
}

/// The options whose value is a password.
pub open spec fn secret_options() -> Seq<Seq<char>> {
    seq![
        "--cluster-pwd"@,
        "--cluster-password"@,
        "--infobase-pwd"@,
        "--infobase-password"@,
        "--password"@,
        "--pwd"@,
    ]
}

/// Whether an option takes a password, without regard to ASCII case.
pub open spec fn is_secret_name(option: Seq<char>) -> bool {
    secret_options().contains(text::lower(option))
}

/// The option of `option=value`, if the argument has that form.
pub open spec fn assigned_option(argument: Seq<char>) -> Option<Seq<char>> {
    let at = text::first_index(argument, '=', 0);
    if at < argument.len() {
        Some(argument.take(at))
    } else {
        None
    }
}

/// Whether the argument assigns a password to an option.
pub open spec fn is_secret_assignment(argument: Seq<char>) -> bool {
    match assigned_option(argument) {
        Some(option) => is_secret_name(option),
        None => false,
    }
}

/// An argument that is not itself a separate secret, as a log may show it.
pub open spec fn shown_argument(argument: Seq<char>) -> Seq<char> {
    match assigned_option(argument) {
        Some(option) if is_secret_name(option) => option + "="@ + redaction(),
        _ => argument,
    }
}

/// Whether the argument at `i` is the value of the secret option before it.
pub open spec fn is_hidden(arguments: Seq<Seq<char>>, i: int) -> bool
    decreases i,
{
    0 < i <= arguments.len() && !is_hidden(arguments, i - 1) && !is_secret_assignment(arguments[i - 1])
        && is_secret_name(arguments[i - 1])
}

/// The arguments as a log may show them.
pub open spec fn redacted_arguments(arguments: Seq<Seq<char>>) -> Seq<Seq<char>> {
    Seq::new(
        arguments.len(),
        |i: int|
            if is_hidden(arguments, i) {
                redaction()
            } else {
                shown_argument(arguments[i])
            },
    )
}

pub struct ArgumentsView {
    pub raw: Seq<Seq<char>>,
    pub redacted: Seq<Seq<char>>,
}

impl ArgumentsView {
    pub open spec fn empty() -> ArgumentsView {
        ArgumentsView { raw: Seq::empty(), redacted: Seq::empty() }
    }

    /// With an argument that a log may show.
    pub open spec fn with_public(self, argument: Seq<char>) -> ArgumentsView {
        ArgumentsView { raw: self.raw.push(argument), redacted: self.redacted.push(argument) }
    }

    /// With an argument of which a log may show the option alone.
    pub open spec fn with_secret(self, argument: Seq<char>, option: Seq<char>) -> ArgumentsView {
        ArgumentsView {
            raw: self.raw.push(argument),
            redacted: self.redacted.push(option + "="@ + redaction()),
        }
    }

    /// What a log shows: the redacted arguments alone.
    pub open spec fn debug_text(self) -> Seq<char> {
        "RacArguments("@ + list_text(self.redacted) + ")"@
    }
}

/// A list as a log shows it, between brackets.
pub open spec fn list_text(items: Seq<Seq<char>>) -> Seq<char> {
    "["@ + joined(items, items.len() as int) + "]"@
}

/// The first `count` items as a log shows them, separated by commas.
pub open spec fn joined(items: Seq<Seq<char>>, count: int) -> Seq<char>
    decreases count,
{
    if count <= 0 {
        Seq::empty()
    } else if count == 1 {
        text::shown(items[0])
    } else {
        joined(items, count - 1) + ", "@ + text::shown(items[count - 1])
    }
}

fn write_list(items: &Vec<String>) -> (result: String)
    ensures
        result@ == list_text(text::views(items@)),
{
    let ghost all = text::views(items@);
    let mut result = "[".to_owned();
    let mut i: usize = 0;
    assert("["@ + joined(all, 0) =~= "["@);
    while i < items.len()
        invariant
            i <= items.len(),
            all == text::views(items@),
            result@ == "["@ + joined(all, i as int),
        decreases items.len() - i,
    {
        let ghost before = result@;
        if i == 0 {
            assert(joined(all, 0) =~= Seq::<char>::empty());
        } else {
            result.push_str(", ");
        }
        result.push_str(text::show(items[i].as_str()).as_str());
        assert(all[i as int] == items@[i as int]@);
        assert(result@ =~= "["@ + joined(all, i + 1));
        i = i + 1;
    }
    result.push_str("]");
    result
}

/// The arguments of one run, beside what a log may show of them.
pub struct RacArguments {
    raw: Vec<String>,
    redacted: Vec<String>,
}

impl View for RacArguments {
    type V = ArgumentsView;

    closed spec fn view(&self) -> ArgumentsView {
        ArgumentsView { raw: text::views(self.raw@), redacted: text::views(self.redacted@) }
    }
}

/// Clones a list of texts.
pub(crate) fn clone_texts(items: &Vec<String>) -> (result: Vec<String>)
    ensures
        text::views(result@) == text::views(items@),
        result@ == items@,
{
    let mut result: Vec<String> = Vec::new();
    let mut i: usize = 0;
    while i < items.len()
        invariant
            i <= items.len(),
            result@ == items@.take(i as int),
        decreases items.len() - i,
    {
        assert(items@.take(i as int).push(items@[i as int]) =~= items@.take(i + 1));
        result.push(items[i].clone());
        i = i + 1;
    }
    assert(items@.take(items@.len() as int) =~= items@);
    result
}

/// Whether an option takes a password.
fn is_secret_option(value: &str) -> (result: bool)
    ensures
        result == is_secret_name(value@),
{
    let lowered = text::to_ascii_lowercase(value);
    let name = lowered.as_str();
    let ghost names = secret_options();
    assert(names[0] == "--cluster-pwd"@ && names[1] == "--cluster-password"@ && names[2]
        == "--infobase-pwd"@ && names[3] == "--infobase-password"@ && names[4] == "--password"@
        && names[5] == "--pwd"@);
    let result = text::same(name, "--cluster-pwd") || text::same(name, "--cluster-password")
        || text::same(name, "--infobase-pwd") || text::same(name, "--infobase-password")
        || text::same(name, "--password") || text::same(name, "--pwd");
    proof {
        if is_secret_name(value@) {
            let i = choose|i: int| 0 <= i < names.len() && names[i] == name@;
            assert(0 <= i < 6);
        }
    }
    result
}

/// Replaces every password among the arguments.
pub fn redact_arguments(arguments: &[String]) -> (result: Vec<String>)
    ensures
        text::views(result@) == redacted_arguments(text::views(arguments@)),
{
    let ghost all = text::views(arguments@);
    let mut result: Vec<String> = Vec::new();
    let mut redact_next = false;
    let mut i: usize = 0;
    assert(text::views(result@) =~= redacted_arguments(all).take(0));
    while i < arguments.len()
        invariant
            i <= arguments@.len(),
            all == text::views(arguments@),
            redact_next == is_hidden(all, i as int),
            text::views(result@) == redacted_arguments(all).take(i as int),
        decreases arguments.len() - i,
    {
        let argument = arguments[i].as_str();
        let ghost before = text::views(result@);
        assert(all[i as int] == argument@);
        assert(redacted_arguments(all).take(i + 1) =~= redacted_arguments(all).take(i as int).push(
            redacted_arguments(all)[i as int],
        ));
        if redact_next {
            let shown = "<redacted>".to_owned();
            let ghost added = shown@;
            result.push(shown);
            assert(text::views(result@) =~= before.push(added));
            redact_next = false;
        } else {
            let source = text::chars(argument);
            let at: usize = text::find_char(&source, '=', 0);
            let option = text::text_of(&source, 0, at);
            assert(option@ =~= argument@.take(at as int));
            if at < source.len() && is_secret_option(option.as_str()) {
                let mut shown = option;
                shown.push_str("=");
                shown.push_str("<redacted>");
                let ghost added = shown@;
                result.push(shown);
                assert(text::views(result@) =~= before.push(added));
            } else {
                redact_next = is_secret_option(argument);
                let shown = argument.to_owned();
                let ghost added = shown@;
                result.push(shown);
                assert(text::views(result@) =~= before.push(added));
            }
        }
        i = i + 1;
    }
    assert(redacted_arguments(all).take(all.len() as int) =~= redacted_arguments(all));
    result
}

impl RacArguments {
    /// Arguments as given; the passwords among them are found by their options.
    pub fn plain(arguments: &[&str]) -> (result: Self)
        ensures
            result@.raw == text::str_views(arguments@),
            result@.redacted == redacted_arguments(text::str_views(arguments@)),
    {
        let mut raw: Vec<String> = Vec::new();
        let mut i: usize = 0;
        assert(text::views(raw@) =~= text::str_views(arguments@).take(0));
        while i < arguments.len()
            invariant
                i <= arguments@.len(),
                text::views(raw@) == text::str_views(arguments@).take(i as int),
            decreases arguments.len() - i,
        {
            let ghost before = text::views(raw@);
            let argument = arguments[i].to_owned();
            let ghost added = argument@;
            raw.push(argument);
            assert(text::views(raw@) =~= before.push(added));
            assert(text::str_views(arguments@).take(i + 1) =~= text::str_views(arguments@).take(
                i as int,
            ).push(text::str_views(arguments@)[i as int]));
            i = i + 1;
        }
        assert(text::str_views(arguments@).take(arguments@.len() as int) =~= text::str_views(
            arguments@,
        ));
        let redacted = redact_arguments(raw.as_slice());
        RacArguments { raw, redacted }
    }

    pub fn is_empty(&self) -> (result: bool)
        ensures
            result == (self@.raw.len() == 0),
    {
        self.raw.len() == 0
    }

    pub fn len(&self) -> (result: usize)
        ensures
            result == self@.raw.len(),
    {
        self.raw.len()
    }

    /// The arguments as a log may show them.
    pub fn redacted(&self) -> (result: &Vec<String>)
        ensures
            text::views(result@) == self@.redacted,
    {
        &self.redacted
    }

    /// The arguments for the process itself.
    pub fn raw(&self) -> (result: &Vec<String>)
        ensures
            text::views(result@) == self@.raw,
    {
        &self.raw
    }

    pub(crate) fn empty() -> (result: Self)
        ensures
            result@ == ArgumentsView::empty(),
    {
        let result = RacArguments { raw: Vec::new(), redacted: Vec::new() };
        assert(result@.raw =~= Seq::<Seq<char>>::empty());
        assert(result@.redacted =~= Seq::<Seq<char>>::empty());
        result
    }

    pub(crate) fn push_public(&mut self, argument: &str)
        ensures
            final(self)@ == old(self)@.with_public(argument@),
    {
        self.redacted.push(argument.to_owned());
        self.raw.push(argument.to_owned());
        assert(self@.raw =~= old(self)@.raw.push(argument@));
        assert(self@.redacted =~= old(self)@.redacted.push(argument@));
    }

    pub(crate) fn push_secret(&mut self, argument: String, option: &str)
        ensures
            final(self)@ == old(self)@.with_secret(argument@, option@),
    {
        let ghost added = argument@;
        let mut shown = option.to_owned();
        shown.push_str("=");
        shown.push_str("<redacted>");
        self.raw.push(argument);
        self.redacted.push(shown);
        assert(self@.raw =~= old(self)@.raw.push(added));
        assert(self@.redacted =~= old(self)@.redacted.push(option@ + "="@ + redaction()));
    }

    /// What a log may show of the arguments.
    pub fn debug_text(&self) -> (result: String)
        ensures
            result@ == self@.debug_text(),
    {
        let mut result = "RacArguments(".to_owned();
        result.push_str(write_list(&self.redacted).as_str());
        result.push_str(")");
        result
    }
}

impl Clone for RacArguments {
    fn clone(&self) -> (result: Self)
        ensures
            result@ == self@,
    {
        RacArguments { raw: clone_texts(&self.raw), redacted: clone_texts(&self.redacted) }
    }
}

/// Redaction keeps the number of arguments.
pub proof fn law_redaction_keeps_length(arguments: Seq<Seq<char>>)
    ensures
        redacted_arguments(arguments).len() == arguments.len(),
{
}

/// Whether two lists of arguments are the same but for their passwords: at each position the same
/// argument, or two assignments to the same secret option, or two values of a secret option.
pub open spec fn differ_in_secrets_alone(left: Seq<Seq<char>>, right: Seq<Seq<char>>) -> bool {
    &&& left.len() == right.len()
    &&& forall|i: int|
        0 <= i < left.len() ==> {
            ||| #[trigger] left[i] == right[i]
            ||| is_hidden(left, i)
            ||| is_secret_assignment(left[i]) && is_secret_assignment(right[i]) && assigned_option(
                left[i],
            ) == assigned_option(right[i])
        }
}

proof fn lemma_hidden_alike(left: Seq<Seq<char>>, right: Seq<Seq<char>>, i: int)
    requires
        differ_in_secrets_alone(left, right),
        0 <= i <= left.len(),
    ensures
        is_hidden(left, i) == is_hidden(right, i),
    decreases i,
{
    if i > 0 {
        lemma_hidden_alike(left, right, i - 1);
        assert(left[i - 1] == right[i - 1] || is_hidden(left, i - 1) || is_secret_assignment(
            left[i - 1],
        ));
    }
}

/// What a log shows of the arguments tells nothing of the passwords: lists that differ in their
/// passwords alone are shown alike.
pub proof fn law_redaction_hides_passwords(left: Seq<Seq<char>>, right: Seq<Seq<char>>)
    requires
        differ_in_secrets_alone(left, right),
    ensures
        redacted_arguments(left) == redacted_arguments(right),
{
    assert forall|i: int| 0 <= i < left.len() implies redacted_arguments(left)[i]
        == redacted_arguments(right)[i] by {
        lemma_hidden_alike(left, right, i);
        assert(left[i] == right[i] || is_hidden(left, i) || is_secret_assignment(left[i]));
    }
    assert(redacted_arguments(left) =~= redacted_arguments(right));
}

/// A text with a backslash before every quote.
pub open spec fn escaped_quotes(s: Seq<char>) -> Seq<char>
    decreases s.len(),
{
    if s.len() == 0 {
        Seq::empty()
    } else if s.last() == '"' {
        escaped_quotes(s.drop_last()) + "\\\""@
    } else {
        escaped_quotes(s.drop_last()).push(s.last())
    }
}

/// Whether an argument is shown in quotes: it is empty or holds whitespace or a quote.
pub open spec fn needs_quotes(s: Seq<char>) -> bool {
    s.len() == 0 || exists|i: int|
        0 <= i < s.len() && (text::is_whitespace(#[trigger] s[i]) || s[i] == '"')
}

/// An argument as a command line shows it.
pub open spec fn quoted(s: Seq<char>) -> Seq<char> {
    if needs_quotes(s) {
        "\""@ + escaped_quotes(s) + "\""@
    } else {
        s
    }
}

fn quote_for_diagnostics(value: &str) -> (result: String)
    ensures
        result@ == quoted(value@),
{
    let source = text::chars(value);
    let mut special = false;
    let mut escaped = String::new();
    let mut i: usize = 0;
    while i < source.len()
        invariant
            source@ == value@,
            i <= source.len(),
            special == (exists|j: int|
                0 <= j < i && (text::is_whitespace(#[trigger] value@[j]) || value@[j] == '"')),
            escaped@ == escaped_quotes(value@.take(i as int)),
        decreases source.len() - i,
    {
        assert(value@.take(i + 1).drop_last() =~= value@.take(i as int));
        let c = source[i];
        assert(value@[i as int] == c);
        if c == '"' {
            escaped.push_str("\\\"");
        } else {
            escaped.push(c);
        }
        if text::char_is_whitespace(c) || c == '"' {
            special = true;
        }
        i = i + 1;
    }
    assert(value@.take(value@.len() as int) =~= value@);
    if source.len() == 0 || special {
        let mut result = "\"".to_owned();
        result.push_str(escaped.as_str());
        result.push_str("\"");
        result
    } else {
        value.to_owned()
    }
}

/// A run as a log may show it.
pub struct InvocationView {
    pub executable: Seq<char>,
    pub arguments: Seq<Seq<char>>,
}

impl InvocationView {
    /// The first `count` arguments, each after a space.
    pub open spec fn tail(self, count: int) -> Seq<char>
        decreases count,
    {
        if count <= 0 {
            Seq::empty()
        } else {
            self.tail(count - 1) + " "@ + quoted(self.arguments[count - 1])
        }
    }

    /// The command line.
    pub open spec fn text(self) -> Seq<char> {
        quoted(self.executable) + self.tail(self.arguments.len() as int)
    }
}

/// A run of a program with its passwords hidden.
#[derive(Debug, PartialEq, Eq)]
pub struct RedactedInvocation {
    executable: String,
    arguments: Vec<String>,
}

impl View for RedactedInvocation {
    type V = InvocationView;

    closed spec fn view(&self) -> InvocationView {
        InvocationView { executable: self.executable@, arguments: text::views(self.arguments@) }
    }
}

impl RedactedInvocation {
    pub fn new(executable: &str, arguments: &RacArguments) -> (result: Self)
        ensures
            result@ == (InvocationView {
                executable: executable@,
                arguments: arguments@.redacted,
            }),
    {
        RedactedInvocation {
            executable: executable.to_owned(),
            arguments: clone_texts(&arguments.redacted),
        }
    }

    pub fn executable(&self) -> (result: &str)
        ensures
            result@ == self@.executable,
    {
        self.executable.as_str()
    }

    pub fn arguments(&self) -> (result: &Vec<String>)
        ensures
            text::views(result@) == self@.arguments,
    {
        &self.arguments
    }

    /// The command line with its passwords hidden.
    pub fn to_text(&self) -> (result: String)
        ensures
            result@ == self@.text(),
    {
        let mut result = quote_for_diagnostics(self.executable.as_str());
        let mut i: usize = 0;
        assert(self@.tail(0) =~= Seq::<char>::empty());
        assert(quoted(self@.executable) + self@.tail(0) =~= quoted(self@.executable));
        while i < self.arguments.len()
            invariant
                i <= self.arguments.len(),
                result@ == quoted(self@.executable) + self@.tail(i as int),
            decreases self.arguments.len() - i,
        {
            assert(self@.arguments[i as int] == self.arguments@[i as int]@);
            result.push_str(" ");
            result.push_str(quote_for_diagnostics(self.arguments[i].as_str()).as_str());
            assert(result@ =~= quoted(self@.executable) + self@.tail(i + 1));
            i = i + 1;
        }
        result
    }
}

impl Clone for RedactedInvocation {
    fn clone(&self) -> (result: Self)
        ensures
            result@ == self@,
    {
        RedactedInvocation {
            executable: self.executable.clone(),
            arguments: clone_texts(&self.arguments),
        }
    }
}

/// How a process ended: its exit code, which a process ended by a signal lacks.
#[derive(Clone, Copy, Debug, PartialEq, Eq, Structural)]
pub struct ProcessStatus {
    pub code: Option<i32>,
}

impl ProcessStatus {
    pub fn new(code: Option<i32>) -> (result: Self)
        ensures
            result.code == code,
    {
        ProcessStatus { code }
    }

    pub fn success(self) -> (result: bool)
        ensures
            result == (self.code == Some(0i32)),
    {
        match self.code {
            Some(code) => code == 0,
            None => false,
        }
    }

    pub fn code(self) -> (result: Option<i32>)
        ensures
            result == self.code,
    {
        self.code
    }
}

/// What a finished process wrote, neither stream over the limit.
pub struct RacProcessOutput {
    status: ProcessStatus,
    stdout: Vec<u8>,
    stderr: Vec<u8>,
    invocation: RedactedInvocation,
}

pub struct OutputView {
    pub status: ProcessStatus,
    pub stdout: Seq<u8>,
    pub stderr: Seq<u8>,
    pub invocation: InvocationView,
}

impl View for RacProcessOutput {
    type V = OutputView;

    closed spec fn view(&self) -> OutputView {
        OutputView {
            status: self.status,
            stdout: self.stdout@,
            stderr: self.stderr@,
            invocation: self.invocation@,
        }
    }
}

impl RacProcessOutput {
    #[verifier::type_invariant]
    spec fn within_limit(self) -> bool {
        &&& self.stdout@.len() <= MAX_CAPTURED_OUTPUT_BYTES
        &&& self.stderr@.len() <= MAX_CAPTURED_OUTPUT_BYTES
    }

    pub fn new(
        status: ProcessStatus,
        stdout: Vec<u8>,
        stderr: Vec<u8>,
        invocation: RedactedInvocation,
    ) -> (result: Self)
        requires
            stdout@.len() <= MAX_CAPTURED_OUTPUT_BYTES,
            stderr@.len() <= MAX_CAPTURED_OUTPUT_BYTES,
        ensures
            result@ == (OutputView {
                status,
                stdout: stdout@,
                stderr: stderr@,
                invocation: invocation@,
            }),
    {
        RacProcessOutput { status, stdout, stderr, invocation }
    }

    pub fn status(&self) -> (result: ProcessStatus)
        ensures
            result == self@.status,
    {
        self.status
    }

    pub fn stdout(&self) -> (result: &[u8])
        ensures
            result@ == self@.stdout,
            result@.len() <= MAX_CAPTURED_OUTPUT_BYTES,
    {
        proof {
            use_type_invariant(self);
        }
        self.stdout.as_slice()
    }

    pub fn stderr(&self) -> (result: &[u8])
        ensures
            result@ == self@.stderr,
            result@.len() <= MAX_CAPTURED_OUTPUT_BYTES,
    {
        proof {
            use_type_invariant(self);
        }
        self.stderr.as_slice()
    }

    pub fn invocation(&self) -> (result: &RedactedInvocation)
        ensures
            result@ == self@.invocation,
    {
        &self.invocation
    }
}

#[derive(Clone, Copy, Debug, PartialEq, Eq, Structural)]
pub enum ProcessIoStage {
    Spawn,
    CapturePipes,
    Wait,
    ReadStdout,
    ReadStderr,
}

impl ProcessIoStage {
    pub open spec fn text(self) -> Seq<char> {
        match self {
            ProcessIoStage::Spawn => "Spawn"@,
            ProcessIoStage::CapturePipes => "CapturePipes"@,
            ProcessIoStage::Wait => "Wait"@,
            ProcessIoStage::ReadStdout => "ReadStdout"@,
            ProcessIoStage::ReadStderr => "ReadStderr"@,
        }
    }

    pub fn as_str(self) -> (result: &'static str)
        ensures
            result@ == self.text(),
    {
        match self {
            ProcessIoStage::Spawn => "Spawn",
            ProcessIoStage::CapturePipes => "CapturePipes",
            ProcessIoStage::Wait => "Wait",
            ProcessIoStage::ReadStdout => "ReadStdout",
            ProcessIoStage::ReadStderr => "ReadStderr",
        }
    }
}

/// A failed call of the operating system: the name of the kind of failure, as the standard library
/// shows it, and the code of the system.
pub struct IoFailure {
    pub kind: String,
    pub raw_os_error: Option<i32>,
}

pub struct IoFailureView {
    pub kind: Seq<char>,
    pub raw_os_error: Option<i32>,
}

impl View for IoFailure {
    type V = IoFailureView;

    open spec fn view(&self) -> IoFailureView {
        IoFailureView { kind: self.kind@, raw_os_error: self.raw_os_error }
    }
}

impl IoFailure {
    pub fn new(kind: &str, raw_os_error: Option<i32>) -> (result: Self)
        ensures
            result@ == (IoFailureView { kind: kind@, raw_os_error }),
    {
        IoFailure { kind: kind.to_owned(), raw_os_error }
    }
}

/// Why a run gave no output.
pub enum RacProcessError {
    Io { stage: ProcessIoStage, failure: IoFailure, invocation: RedactedInvocation },
    Timeout { invocation: RedactedInvocation },
    Cancelled { invocation: RedactedInvocation },
}

pub enum ProcessErrorView {
    Io { stage: ProcessIoStage, failure: IoFailureView, invocation: InvocationView },
    Timeout { invocation: InvocationView },
    Cancelled { invocation: InvocationView },
}

impl View for RacProcessError {
    type V = ProcessErrorView;

    open spec fn view(&self) -> ProcessErrorView {
        match self {
            RacProcessError::Io { stage, failure, invocation } => ProcessErrorView::Io {
                stage: *stage,
                failure: failure@,
                invocation: invocation@,
            },
            RacProcessError::Timeout { invocation } => ProcessErrorView::Timeout {
                invocation: invocation@,
            },
            RacProcessError::Cancelled { invocation } => ProcessErrorView::Cancelled {
                invocation: invocation@,
            },
        }
    }
}

/// An optional code of the system, as a log shows it.
pub open spec fn code_text(code: Option<i32>) -> Seq<char> {
    match code {
        Some(value) => "Some("@ + number::signed_decimal(value as int) + ")"@,
        None => "None"@,
    }
}

impl ProcessErrorView {
    pub open spec fn invocation(self) -> InvocationView {
        match self {
            ProcessErrorView::Io { invocation, .. } => invocation,
            ProcessErrorView::Timeout { invocation } => invocation,
            ProcessErrorView::Cancelled { invocation } => invocation,
        }
    }

    /// The text shown to the operator.
    pub open spec fn text(self) -> Seq<char> {
        match self {
            ProcessErrorView::Io { stage, failure, invocation } => "ошибка запуска RAC ("@
                + stage.text() + ", "@ + failure.kind + ", OS "@ + code_text(failure.raw_os_error)
                + "): "@ + invocation.text(),
            ProcessErrorView::Timeout { invocation } => "превышено время ожидания RAC: "@
                + invocation.text(),
            ProcessErrorView::Cancelled { invocation } => "вызов RAC отменен: "@
                + invocation.text(),
        }
    }
}

impl RacProcessError {
    pub fn invocation(&self) -> (result: &RedactedInvocation)
        ensures
            result@ == self@.invocation(),
    {
        match self {
            RacProcessError::Io { invocation, .. } => invocation,
            RacProcessError::Timeout { invocation } => invocation,
            RacProcessError::Cancelled { invocation } => invocation,
        }
    }

    /// The name of the kind of failure, for a failed call of the system.
    pub fn io_kind(&self) -> (result: Option<&str>)
        ensures
            outcome::option_view(result) == (match self@ {
                ProcessErrorView::Io { failure, .. } => Some(failure.kind),
                _ => None,
            }),
    {
        match self {
            RacProcessError::Io { failure, .. } => Some(failure.kind.as_str()),
            RacProcessError::Timeout { .. } => None,
            RacProcessError::Cancelled { .. } => None,
        }
    }

    pub fn is_timeout(&self) -> (result: bool)
        ensures
            result == (self@ is Timeout),
    {
        matches!(self, RacProcessError::Timeout { .. })
    }

    pub fn is_cancelled(&self) -> (result: bool)
        ensures
            result == (self@ is Cancelled),
    {
        matches!(self, RacProcessError::Cancelled { .. })
    }

    /// The text shown to the operator.
    pub fn to_text(&self) -> (result: String)
        ensures
            result@ == self@.text(),
    {
        match self {
            RacProcessError::Io { stage, failure, invocation } => {
                let mut result = "ошибка запуска RAC (".to_owned();
                result.push_str(stage.as_str());
                result.push_str(", ");
                result.push_str(failure.kind.as_str());
                result.push_str(", OS ");
                match failure.raw_os_error {
                    Some(code) => {
                        let mut shown = "Some(".to_owned();
                        shown.push_str(number::format_i64(code as i64).as_str());
                        shown.push_str(")");
                        result.push_str(shown.as_str());
                    },
                    None => {
                        result.push_str("None");
                    },
                }
                result.push_str("): ");
                result.push_str(invocation.to_text().as_str());
                result
            },
            RacProcessError::Timeout { invocation } => {
                let mut result = "превышено время ожидания RAC: ".to_owned();
                result.push_str(invocation.to_text().as_str());
                result
            },
            RacProcessError::Cancelled { invocation } => {
                let mut result = "вызов RAC отменен: ".to_owned();
                result.push_str(invocation.to_text().as_str());
                result
            },
        }
    }
}

/// What a run waits for, or how it ended.
pub enum RunState {
    Starting,
    Waiting,
    ReadingStdout { status: ProcessStatus },
    ReadingStderr { status: ProcessStatus, stdout: Vec<u8> },
    Finished(Result<RacProcessOutput, RacProcessError>),
}

pub enum RunStateView {
    Starting,
    Waiting,
    ReadingStdout { status: ProcessStatus },
    ReadingStderr { status: ProcessStatus, stdout: Seq<u8> },
    Finished(Result<OutputView, ProcessErrorView>),
}

impl View for RunState {
    type V = RunStateView;

    open spec fn view(&self) -> RunStateView {
        match self {
            RunState::Starting => RunStateView::Starting,
            RunState::Waiting => RunStateView::Waiting,
            RunState::ReadingStdout { status } => RunStateView::ReadingStdout { status: *status },
            RunState::ReadingStderr { status, stdout } => RunStateView::ReadingStderr {
                status: *status,
                stdout: stdout@,
            },
            RunState::Finished(result) => RunStateView::Finished(outcome::result_view(*result)),
        }
    }
}

/// What happened to a run.
pub enum RunEvent {
    /// The process runs and both of its output streams are held.
    Spawned,
    SpawnFailed(IoFailure),
    /// The process runs without the streams that were asked for.
    StreamsMissing,
    Exited(ProcessStatus),
    WaitFailed(IoFailure),
    /// The time for the run is over.
    DeadlinePassed,
    Cancelled,
    StreamRead(Vec<u8>),
    StreamFailed(IoFailure),
    /// The task that read the stream did not end.
    ReaderLost,
}

pub enum RunEventView {
    Spawned,
    SpawnFailed(IoFailureView),
    StreamsMissing,
    Exited(ProcessStatus),
    WaitFailed(IoFailureView),
    DeadlinePassed,
    Cancelled,
    StreamRead(Seq<u8>),
    StreamFailed(IoFailureView),
    ReaderLost,
}

impl View for RunEvent {
    type V = RunEventView;

    open spec fn view(&self) -> RunEventView {
        match self {
            RunEvent::Spawned => RunEventView::Spawned,
            RunEvent::SpawnFailed(failure) => RunEventView::SpawnFailed(failure@),
            RunEvent::StreamsMissing => RunEventView::StreamsMissing,
            RunEvent::Exited(status) => RunEventView::Exited(*status),
            RunEvent::WaitFailed(failure) => RunEventView::WaitFailed(failure@),
            RunEvent::DeadlinePassed => RunEventView::DeadlinePassed,
            RunEvent::Cancelled => RunEventView::Cancelled,
            RunEvent::StreamRead(bytes) => RunEventView::StreamRead(bytes@),
            RunEvent::StreamFailed(failure) => RunEventView::StreamFailed(failure@),
            RunEvent::ReaderLost => RunEventView::ReaderLost,
        }
    }
}

/// What the caller does next.
#[derive(Clone, Copy, Debug, PartialEq, Eq, Structural)]
pub enum RunAction {
    /// Wait for the exit of the process, the deadline or a cancellation.
    AwaitExit,
    AwaitStdout,
    AwaitStderr,
    /// Kill the process and wait for its end.
    StopProcess,
    /// Kill the process, wait for its end and give up both readers.
    StopProcessAndReaders,
    /// Give up both readers.
    StopReaders,
    /// Take the result.
    Finish,
    /// The event does not belong here.
    Ignore,
}

/// A failure that no call of the system explains.
pub open spec fn unexplained() -> IoFailureView {
    IoFailureView { kind: "Other"@, raw_os_error: None }
}

/// The failure of a stream that holds too much.
pub open spec fn too_large() -> IoFailureView {
    IoFailureView { kind: "InvalidData"@, raw_os_error: None }
}

pub open spec fn failed(
    stage: ProcessIoStage,
    failure: IoFailureView,
    invocation: InvocationView,
) -> RunStateView {
    RunStateView::Finished(Err(ProcessErrorView::Io { stage, failure, invocation }))
}

/// The stage at which a stream is read.
pub open spec fn reading_stage(state: RunStateView) -> ProcessIoStage {
    match state {
        RunStateView::ReadingStdout { .. } => ProcessIoStage::ReadStdout,
        _ => ProcessIoStage::ReadStderr,
    }
}

/// The state after an event, and what to do then.
pub open spec fn next(state: RunStateView, event: RunEventView, invocation: InvocationView) -> (
    RunStateView,
    RunAction,
) {
    match (state, event) {
        (RunStateView::Starting, RunEventView::Spawned) => (
            RunStateView::Waiting,
            RunAction::AwaitExit,
        ),
        (RunStateView::Starting, RunEventView::SpawnFailed(failure)) => (
            failed(ProcessIoStage::Spawn, failure, invocation),
            RunAction::Finish,
        ),
        (RunStateView::Starting, RunEventView::StreamsMissing) => (
            failed(ProcessIoStage::CapturePipes, unexplained(), invocation),
            RunAction::StopProcess,
        ),
        (RunStateView::Waiting, RunEventView::Cancelled) => (
            RunStateView::Finished(Err(ProcessErrorView::Cancelled { invocation })),
            RunAction::StopProcessAndReaders,
        ),
        (RunStateView::Waiting, RunEventView::DeadlinePassed) => (
            RunStateView::Finished(Err(ProcessErrorView::Timeout { invocation })),
            RunAction::StopProcessAndReaders,
        ),
        (RunStateView::Waiting, RunEventView::WaitFailed(failure)) => (
            failed(ProcessIoStage::Wait, failure, invocation),
            RunAction::StopProcessAndReaders,
        ),
        (RunStateView::Waiting, RunEventView::Exited(status)) => (
            RunStateView::ReadingStdout { status },
            RunAction::AwaitStdout,
        ),
        (
            RunStateView::ReadingStdout { .. } | RunStateView::ReadingStderr { .. },
            RunEventView::DeadlinePassed,
        ) => (
            RunStateView::Finished(Err(ProcessErrorView::Timeout { invocation })),
            RunAction::StopReaders,
        ),
        (
            RunStateView::ReadingStdout { .. } | RunStateView::ReadingStderr { .. },
            RunEventView::StreamFailed(failure),
        ) => (failed(reading_stage(state), failure, invocation), RunAction::Finish),
        (
            RunStateView::ReadingStdout { .. } | RunStateView::ReadingStderr { .. },
            RunEventView::ReaderLost,
        ) => (failed(reading_stage(state), unexplained(), invocation), RunAction::Finish),
        (RunStateView::ReadingStdout { status }, RunEventView::StreamRead(bytes)) => {
            if bytes.len() > MAX_CAPTURED_OUTPUT_BYTES {
                (failed(ProcessIoStage::ReadStdout, too_large(), invocation), RunAction::Finish)
            } else {
                (
                    RunStateView::ReadingStderr { status, stdout: bytes },
                    RunAction::AwaitStderr,
                )
            }
        },
        (RunStateView::ReadingStderr { status, stdout }, RunEventView::StreamRead(bytes)) => {
            if bytes.len() > MAX_CAPTURED_OUTPUT_BYTES {
                (failed(ProcessIoStage::ReadStderr, too_large(), invocation), RunAction::Finish)
            } else {
                (
                    RunStateView::Finished(
                        Ok(OutputView { status, stdout, stderr: bytes, invocation }),
                    ),
                    RunAction::Finish,
                )
            }
        },
        _ => (state, RunAction::Ignore),
    }
}

fn fail(
    stage: ProcessIoStage,
    failure: IoFailure,
    invocation: RedactedInvocation,
) -> (result: RunState)
    ensures
        result@ == failed(stage, failure@, invocation@),
{
    RunState::Finished(Err(RacProcessError::Io { stage, failure, invocation }))
}

/// One run of the utility, driven by what happens to the process.
pub struct RacProcessRun {
    invocation: RedactedInvocation,
    state: RunState,
}

impl RacProcessRun {
    #[verifier::type_invariant]
    spec fn within_limit(self) -> bool {
        self.state matches RunState::ReadingStderr { stdout, .. } ==> stdout@.len()
            <= MAX_CAPTURED_OUTPUT_BYTES
    }

    pub closed spec fn invocation_view(self) -> InvocationView {
        self.invocation@
    }

    pub closed spec fn state_view(self) -> RunStateView {
        self.state@
    }

    /// A run that is about to start.
    pub fn new(executable: &str, arguments: &RacArguments) -> (result: Self)
        ensures
            result.state_view() == RunStateView::Starting,
            result.invocation_view() == (InvocationView {
                executable: executable@,
                arguments: arguments@.redacted,
            }),
    {
        RacProcessRun {
            invocation: RedactedInvocation::new(executable, arguments),
            state: RunState::Starting,
        }
    }

    /// Takes in what happened and says what to do next.
    pub fn advance(&mut self, event: RunEvent) -> (result: RunAction)
        ensures
            final(self).invocation_view() == old(self).invocation_view(),
            (final(self).state_view(), result) == next(
                old(self).state_view(),
                event@,
                old(self).invocation_view(),
            ),
    {
        proof {
            use_type_invariant(&*self);
        }
        let mut state = RunState::Starting;
        std::mem::swap(&mut state, &mut self.state);
        let invocation = self.invocation.clone();
        let (after, action) = match (state, event) {
            (RunState::Starting, RunEvent::Spawned) => (RunState::Waiting, RunAction::AwaitExit),
            (RunState::Starting, RunEvent::SpawnFailed(failure)) => (
                fail(ProcessIoStage::Spawn, failure, invocation),
                RunAction::Finish,
            ),
            (RunState::Starting, RunEvent::StreamsMissing) => (
                fail(ProcessIoStage::CapturePipes, IoFailure::new("Other", None), invocation),
                RunAction::StopProcess,
            ),
            (RunState::Waiting, RunEvent::Cancelled) => (
                RunState::Finished(Err(RacProcessError::Cancelled { invocation })),
                RunAction::StopProcessAndReaders,
            ),
            (RunState::Waiting, RunEvent::DeadlinePassed) => (
                RunState::Finished(Err(RacProcessError::Timeout { invocation })),
                RunAction::StopProcessAndReaders,
            ),
            (RunState::Waiting, RunEvent::WaitFailed(failure)) => (
                fail(ProcessIoStage::Wait, failure, invocation),
                RunAction::StopProcessAndReaders,
            ),
            (RunState::Waiting, RunEvent::Exited(status)) => (
                RunState::ReadingStdout { status },
                RunAction::AwaitStdout,
            ),
            (RunState::ReadingStdout { .. }, RunEvent::DeadlinePassed) => (
                RunState::Finished(Err(RacProcessError::Timeout { invocation })),
                RunAction::StopReaders,
            ),
            (RunState::ReadingStderr { .. }, RunEvent::DeadlinePassed) => (
                RunState::Finished(Err(RacProcessError::Timeout { invocation })),
                RunAction::StopReaders,
            ),
            (RunState::ReadingStdout { .. }, RunEvent::StreamFailed(failure)) => (
                fail(ProcessIoStage::ReadStdout, failure, invocation),
                RunAction::Finish,
            ),
            (RunState::ReadingStderr { .. }, RunEvent::StreamFailed(failure)) => (
                fail(ProcessIoStage::ReadStderr, failure, invocation),
                RunAction::Finish,
            ),
            (RunState::ReadingStdout { .. }, RunEvent::ReaderLost) => (
                fail(ProcessIoStage::ReadStdout, IoFailure::new("Other", None), invocation),
                RunAction::Finish,
            ),
            (RunState::ReadingStderr { .. }, RunEvent::ReaderLost) => (
                fail(ProcessIoStage::ReadStderr, IoFailure::new("Other", None), invocation),
                RunAction::Finish,
            ),
            (RunState::ReadingStdout { status }, RunEvent::StreamRead(bytes)) => {
                if bytes.len() as u64 > MAX_CAPTURED_OUTPUT_BYTES {
                    (
                        fail(
                            ProcessIoStage::ReadStdout,
                            IoFailure::new("InvalidData", None),
                            invocation,
                        ),
                        RunAction::Finish,
                    )
                } else {
                    (RunState::ReadingStderr { status, stdout: bytes }, RunAction::AwaitStderr)
                }
            },
            (RunState::ReadingStderr { status, stdout }, RunEvent::StreamRead(bytes)) => {
                if bytes.len() as u64 > MAX_CAPTURED_OUTPUT_BYTES {
                    (
                        fail(
                            ProcessIoStage::ReadStderr,
                            IoFailure::new("InvalidData", None),
                            invocation,
                        ),
                        RunAction::Finish,
                    )
                } else {
                    (
                        RunState::Finished(
                            Ok(RacProcessOutput::new(status, stdout, bytes, invocation)),
                        ),
                        RunAction::Finish,
                    )
                }
            },
            (unchanged, _) => (unchanged, RunAction::Ignore),
        };
        self.state = after;
        action
    }

    /// The result of the run, once it has ended.
    pub fn into_result(self) -> (result: Option<Result<RacProcessOutput, RacProcessError>>)
        ensures
            match result {
                Some(ended) => self.state_view() == RunStateView::Finished(
                    outcome::result_view(ended),
                ),
                None => !(self.state_view() is Finished),
            },
    {
        match self.state {
            RunState::Finished(result) => Some(result),
            _ => None,
        }
    }
}

/// How long a run of the utility may take, in milliseconds.
#[derive(Clone, Copy, Debug, PartialEq, Eq, Structural)]
pub struct RacProcessRunner {
    timeout: u64,
}

impl RacProcessRunner {
    pub const DEFAULT_TIMEOUT: u64 = 30_000;

    pub closed spec fn timeout_view(self) -> u64 {
        self.timeout
    }

    pub fn new(timeout: u64) -> (result: Self)
        ensures
            result.timeout_view() == timeout,
    {
        RacProcessRunner { timeout }
    }

    pub fn timeout(&self) -> (result: u64)
        ensures
            result == self.timeout_view(),
    {
        self.timeout
    }
}

impl Default for RacProcessRunner {
    fn default() -> (result: Self)
        ensures
            result.timeout_view() == RacProcessRunner::DEFAULT_TIMEOUT,
    {
        RacProcessRunner::new(RacProcessRunner::DEFAULT_TIMEOUT)
    }
}

/// A process that still runs when its run ends by cancellation, by the deadline or by a failed wait
/// is stopped; and a run that ended stays as it is.
pub proof fn law_unfinished_process_is_stopped(
    state: RunStateView,
    event: RunEventView,
    invocation: InvocationView,
)
    ensures
        state is Waiting && next(state, event, invocation).0 is Finished ==> next(
            state,
            event,
            invocation,
        ).1 == RunAction::StopProcessAndReaders,
        state is Finished ==> next(state, event, invocation) == (state, RunAction::Ignore),
{
}

/// A run gives output only after the process exited, with the status it exited with and what both
/// streams held, neither of them over the limit.
pub proof fn law_output_is_what_was_read(
    status: ProcessStatus,
    stdout: Seq<u8>,
    stderr: Seq<u8>,
    invocation: InvocationView,
)
    ensures
        ({
            let exited = next(RunStateView::Waiting, RunEventView::Exited(status), invocation).0;
            let first = next(exited, RunEventView::StreamRead(stdout), invocation).0;
            let ended = next(first, RunEventView::StreamRead(stderr), invocation).0;
            ended == RunStateView::Finished(Ok(OutputView { status, stdout, stderr, invocation }))
                <==> stdout.len() <= MAX_CAPTURED_OUTPUT_BYTES && stderr.len()
                <= MAX_CAPTURED_OUTPUT_BYTES
        }),
{
}

} // verus!
