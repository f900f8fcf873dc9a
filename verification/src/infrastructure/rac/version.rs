//! Versions of the platform that the `rac` utility reports.

use std::str::FromStr;

use vstd::prelude::*;
use vstd::string::*;

use crate::domain::version;
use crate::domain::version::VersionView;
use crate::infrastructure::rac::encoding;
use crate::infrastructure::rac::encoding::RacOutputDecoder;
use crate::infrastructure::rac::error;
use crate::infrastructure::rac::error::{RacError, RacErrorKind, RacErrorView};
use crate::infrastructure::rac::process::{
    InvocationView, ProcessStatus, RacArguments, RacProcessOutput, RacProcessRunner,
    RedactedInvocation,
};
use crate::order::Order;
use crate::outcome;
use crate::text;

verus! {

/// Four numbers. This is deliberately not a semantic version.
#[derive(Clone, Copy, Debug, PartialEq, Eq, PartialOrd, Ord, Hash, Structural)]
pub struct PlatformVersion {
    major: u32,
    minor: u32,
    patch: u32,
    build: u32,
}

impl View for PlatformVersion {
    type V = VersionView;

    closed spec fn view(&self) -> VersionView {
        VersionView { major: self.major, minor: self.minor, patch: self.patch, build: self.build }
    }
}

/// A text is no version of the platform.
#[derive(Clone, Copy, Debug, PartialEq, Eq, Structural)]
pub struct PlatformVersionParseError {}

impl PlatformVersionParseError {
    /// The text shown to the operator.
    pub fn message(self) -> (result: &'static str)
        ensures
            result@ == "ожидалась версия платформы из четырех числовых компонентов"@,
    {
        "ожидалась версия платформы из четырех числовых компонентов"
    }
}

/// A character that a version may hold.
pub open spec fn is_version_char(c: char) -> bool {
    text::is_digit(c) || c == '.'
}

/// Where the run of digits and dots that begins at `from` ends.
pub open spec fn run_end(s: Seq<char>, from: int) -> int
    decreases s.len() - from,
{
    if from >= s.len() {
        s.len() as int
    } else if is_version_char(s[from]) {
        run_end(s, from + 1)
    } else {
        from
    }
}

/// The version that the first run of digits and dots at or after `from` denotes that denotes one.
pub open spec fn first_version(s: Seq<char>, from: int) -> Option<VersionView>
    decreases s.len() - from,
{
    let end = run_end(s, from);
    if from < 0 || from > s.len() || end < from {
        None
    } else {
        match version::version_of(s.subrange(from, end)) {
            Some(found) => Some(found),
            None => if end >= s.len() {
                None
            } else {
                first_version(s, end + 1)
            },
        }
    }
}

/// A version, or the error that stands for its lack.
pub open spec fn parsed(version: Option<VersionView>) -> Result<
    VersionView,
    PlatformVersionParseError,
> {
    match version {
        Some(found) => Ok(found),
        None => Err(PlatformVersionParseError {  }),
    }
}

pub open spec fn version_result(
    result: Result<PlatformVersion, PlatformVersionParseError>,
) -> Result<VersionView, PlatformVersionParseError> {
    match result {
        Ok(found) => Ok(found@),
        Err(error) => Err(error),
    }
}

impl PlatformVersion {
    pub fn new(major: u32, minor: u32, patch: u32, build: u32) -> (result: Self)
        ensures
            result@ == (VersionView { major, minor, patch, build }),
    {
        PlatformVersion { major, minor, patch, build }
    }

    /// The oldest version that the tool supports.
    pub fn min_supported() -> (result: Self)
        ensures
            result@ == version::min_supported(),
    {
        PlatformVersion::new(8, 3, 20, 0)
    }

    pub fn major(self) -> (result: u32)
        ensures
            result == self@.major,
    {
        self.major
    }

    pub fn minor(self) -> (result: u32)
        ensures
            result == self@.minor,
    {
        self.minor
    }

    pub fn patch(self) -> (result: u32)
        ensures
            result == self@.patch,
    {
        self.patch
    }

    pub fn build(self) -> (result: u32)
        ensures
            result == self@.build,
    {
        self.build
    }

    pub fn components(self) -> (result: [u32; 4])
        ensures
            result@ == seq![self@.major, self@.minor, self@.patch, self@.build],
    {
        let result = [self.major, self.minor, self.patch, self.build];
        assert(result@ =~= seq![self@.major, self@.minor, self@.patch, self@.build]);
        result
    }

    /// Orders versions by their numbers, the first difference deciding.
    pub fn compare(self, other: PlatformVersion) -> (result: Order)
        ensures
            result == self@.compare(other@),
    {
        version::compare_components(
            (self.major, self.minor, self.patch, self.build),
            (other.major, other.minor, other.patch, other.build),
        )
    }

    /// Whether the version is not older than the oldest supported one.
    pub fn is_supported(self) -> (result: bool)
        ensures
            result == (self@.compare(version::min_supported()) != Order::Less),
    {
        self.major > 8 || (self.major == 8 && (self.minor > 3 || (self.minor == 3 && self.patch
            >= 20)))
    }

    /// The four numbers separated by dots.
    pub fn to_text(self) -> (result: String)
        ensures
            result@ == self@.text(),
    {
        version::write_components(self.major, self.minor, self.patch, self.build)
    }

    /// Reads exactly four numbers separated by dots, with or without whitespace around them.
    pub fn parse(value: &str) -> (result: Result<Self, PlatformVersionParseError>)
        ensures
            version_result(result) == parsed(version::version_of(text::trim(value@))),
    {
        let trimmed = text::trim_text(value);
        match version::read_components(trimmed.as_str()) {
            Some((major, minor, patch, build)) => Ok(PlatformVersion { major, minor, patch, build }),
            None => Err(PlatformVersionParseError {  }),
        }
    }

    /// The first version in the output of `rac --version`.
    pub fn from_rac_output(output: &str) -> (result: Result<Self, PlatformVersionParseError>)
        ensures
            version_result(result) == parsed(first_version(output@, 0)),
    {
        let source = text::chars(output);
        let mut from: usize = 0;
        loop
            invariant
                source@ == output@,
                from <= source.len(),
                first_version(output@, from as int) == first_version(output@, 0),
            decreases source.len() - from,
        {
            let mut end: usize = from;
            while end < source.len() && (source[end] == '.' || ('0' <= source[end] && source[end]
                <= '9'))
                invariant
                    source@ == output@,
                    from <= end <= source.len(),
                    run_end(output@, from as int) == run_end(output@, end as int),
                decreases source.len() - end,
            {
                end = end + 1;
            }
            let token = text::text_of(&source, from, end);
            match version::read_components(token.as_str()) {
                Some((major, minor, patch, build)) => {
                    return Ok(PlatformVersion { major, minor, patch, build });
                },
                None => {},
            }
            if end >= source.len() {
                return Err(PlatformVersionParseError {  });
            }
            from = end + 1;
        }
    }
}

impl FromStr for PlatformVersion {
    type Err = PlatformVersionParseError;

    fn from_str(value: &str) -> (result: Result<Self, PlatformVersionParseError>)
        ensures
            version_result(result) == parsed(version::version_of(text::trim(value@))),
    {
        PlatformVersion::parse(value)
    }
}

/// What a run of `rac --version` says, its output taken as text.
pub open spec fn probed(
    status: ProcessStatus,
    stdout: Seq<char>,
    stderr: Seq<char>,
    invocation: InvocationView,
) -> Result<VersionView, RacErrorView> {
    if status.code != Some(0i32) {
        Err(
            RacErrorView {
                kind: error::kind_of(error::folded(stderr)),
                invocation: Some(invocation),
                exit_code: status.code,
            },
        )
    } else {
        match (first_version(stdout, 0), first_version(stderr, 0)) {
            (Some(found), _) => Ok(found),
            (None, Some(found)) => Ok(found),
            (None, None) => Err(
                RacErrorView::of_run(RacErrorKind::UnsupportedVersion, invocation),
            ),
        }
    }
}

/// The version that a run of `rac --version` reports, or why it reports none.
pub fn probed_version(
    status: ProcessStatus,
    stdout: &str,
    stderr: &str,
    invocation: &RedactedInvocation,
) -> (result: Result<PlatformVersion, RacError>)
    ensures
        outcome::result_view(result) == probed(status, stdout@, stderr@, invocation@),
{
    if !status.success() {
        let kind = error::classify_diagnostic(stderr);
        return Err(RacError::command_failed(kind, status.code(), invocation.clone()));
    }
    match PlatformVersion::from_rac_output(stdout) {
        Ok(found) => Ok(found),
        Err(_) => match PlatformVersion::from_rac_output(stderr) {
            Ok(found) => Ok(found),
            Err(_) => Err(
                RacError::with_invocation(RacErrorKind::UnsupportedVersion, invocation.clone()),
            ),
        },
    }
}

/// Asks the utility for its version.
#[derive(Clone, Copy, Debug)]
pub struct RacVersionProbe {
    runner: RacProcessRunner,
}

impl RacVersionProbe {
    pub closed spec fn runner_view(self) -> RacProcessRunner {
        self.runner
    }

    pub fn new(runner: RacProcessRunner) -> (result: Self)
        ensures
            result.runner_view() == runner,
    {
        RacVersionProbe { runner }
    }

    pub fn runner(&self) -> (result: &RacProcessRunner)
        ensures
            *result == self.runner_view(),
    {
        &self.runner
    }

    /// The arguments of the run that asks for the version.
    pub fn arguments(&self) -> (result: RacArguments)
        ensures
            result@.raw == seq!["--version"@],
    {
        let arguments = ["--version"];
        assert(text::str_views(arguments@) =~= seq!["--version"@]);
        RacArguments::plain(&arguments)
    }

    /// The version that the run reported.
    pub fn interpret(&self, output: &RacProcessOutput) -> (result: Result<PlatformVersion, RacError>)
        ensures
            outcome::result_view(result) == probed(
                output@.status,
                encoding::decoded_output(output@.stdout).text,
                encoding::decoded_output(output@.stderr).text,
                output@.invocation,
            ),
    {
        let stdout = RacOutputDecoder::decode(output.stdout());
        let stderr = RacOutputDecoder::decode(output.stderr());
        probed_version(output.status(), stdout.text(), stderr.text(), output.invocation())
    }
}

} // verus!
