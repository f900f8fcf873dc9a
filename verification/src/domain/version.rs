//! Platform versions: four numbers in lexicographic order.

use std::str::FromStr;

use vstd::prelude::*;
use vstd::string::*;

use crate::domain::error::{DomainError, DomainErrorView};
use crate::number;
use crate::order::Order;
use crate::outcome;
use crate::text;

verus! {

#[derive(Clone, Copy, Debug, PartialEq, Eq, PartialOrd, Ord, Hash, Structural)]
pub struct PlatformVersion {
    major: u32,
    minor: u32,
    patch: u32,
    build: u32,
}

pub struct VersionView {
    pub major: u32,
    pub minor: u32,
    pub patch: u32,
    pub build: u32,
}

impl View for PlatformVersion {
    type V = VersionView;

    closed spec fn view(&self) -> VersionView {
        VersionView { major: self.major, minor: self.minor, patch: self.patch, build: self.build }
    }
}

impl VersionView {
    /// The four numbers separated by dots.
    pub open spec fn text(self) -> Seq<char> {
        number::decimal(self.major as nat) + "."@ + number::decimal(self.minor as nat) + "."@
            + number::decimal(self.patch as nat) + "."@ + number::decimal(self.build as nat)
    }

    /// Lexicographic order of the four numbers.
    pub open spec fn compare(self, other: VersionView) -> Order {
        if self.major != other.major {
            crate::order::compare_int(self.major as int, other.major as int)
        } else if self.minor != other.minor {
            crate::order::compare_int(self.minor as int, other.minor as int)
        } else if self.patch != other.patch {
            crate::order::compare_int(self.patch as int, other.patch as int)
        } else {
            crate::order::compare_int(self.build as int, other.build as int)
        }
    }
}

/// The oldest version that the tool supports: 8.3.20.0.
pub open spec fn min_supported() -> VersionView {
    VersionView { major: 8, minor: 3, patch: 20, build: 0 }
}

/// A component: digits that denote a number of 32 bits.
pub open spec fn component(s: Seq<char>) -> Option<u32> {
    match number::natural(s) {
        Some(value) if value <= u32::MAX => Some(value as u32),
        _ => None,
    }
}

/// The version that a text of exactly four components denotes.
pub open spec fn version_of(value: Seq<char>) -> Option<VersionView> {
    let parts = text::split(value, '.');
    if parts.len() == 4 {
        match (component(parts[0]), component(parts[1]), component(parts[2]), component(parts[3])) {
            (Some(major), Some(minor), Some(patch), Some(build)) => Some(
                VersionView { major, minor, patch, build },
            ),
            _ => None,
        }
    } else {
        None
    }
}

/// Reads four numbers separated by dots.
pub(crate) fn read_components(value: &str) -> (result: Option<(u32, u32, u32, u32)>)
    ensures
        match result {
            Some((major, minor, patch, build)) => version_of(value@) == Some(
                VersionView { major, minor, patch, build },
            ),
            None => version_of(value@) is None,
        },
{
    let parts = text::split_text(value, '.');
    let ghost split = text::split(value@, '.');
    assert(text::views(parts@).len() == split.len());
    if parts.len() != 4 {
        return None;
    }
    assert(split[0] == parts@[0]@);
    assert(split[1] == parts@[1]@);
    assert(split[2] == parts@[2]@);
    assert(split[3] == parts@[3]@);
    match (
        read_component(parts[0].as_str()),
        read_component(parts[1].as_str()),
        read_component(parts[2].as_str()),
        read_component(parts[3].as_str()),
    ) {
        (Some(major), Some(minor), Some(patch), Some(build)) => Some((major, minor, patch, build)),
        _ => None,
    }
}

fn read_component(part: &str) -> (result: Option<u32>)
    ensures
        result == component(part@),
{
    let source = text::chars(part);
    assert(part@.subrange(0, part@.len() as int) =~= part@);
    match number::parse_natural(&source, 0, 0xffff_ffff) {
        Some(value) => Some(value as u32),
        None => None,
    }
}

/// The dotted text of four numbers.
pub(crate) fn write_components(major: u32, minor: u32, patch: u32, build: u32) -> (result: String)
    ensures
        result@ == (VersionView { major, minor, patch, build }).text(),
{
    let mut result = number::format_u64(major as u64);
    result.push_str(".");
    result.push_str(number::format_u64(minor as u64).as_str());
    result.push_str(".");
    result.push_str(number::format_u64(patch as u64).as_str());
    result.push_str(".");
    result.push_str(number::format_u64(build as u64).as_str());
    result
}

fn compare_u32(left: u32, right: u32) -> (result: Order)
    ensures
        result == crate::order::compare_int(left as int, right as int),
{
    if left < right {
        Order::Less
    } else if left == right {
        Order::Equal
    } else {
        Order::Greater
    }
}

/// Compares two lists of four numbers, the first difference deciding.
pub(crate) fn compare_components(
    left: (u32, u32, u32, u32),
    right: (u32, u32, u32, u32),
) -> (result: Order)
    ensures
        result == (VersionView {
            major: left.0,
            minor: left.1,
            patch: left.2,
            build: left.3,
        }).compare(
            VersionView { major: right.0, minor: right.1, patch: right.2, build: right.3 },
        ),
{
    if left.0 != right.0 {
        compare_u32(left.0, right.0)
    } else if left.1 != right.1 {
        compare_u32(left.1, right.1)
    } else if left.2 != right.2 {
        compare_u32(left.2, right.2)
    } else {
        compare_u32(left.3, right.3)
    }
}

impl PlatformVersion {
    pub fn new(major: u32, minor: u32, patch: u32, build: u32) -> (result: Self)
        ensures
            result@ == (VersionView { major, minor, patch, build }),
    {
        PlatformVersion { major, minor, patch, build }
    }

    pub fn components(self) -> (result: [u32; 4])
        ensures
            result@ == seq![self@.major, self@.minor, self@.patch, self@.build],
    {
        let result = [self.major, self.minor, self.patch, self.build];
        assert(result@ =~= seq![self@.major, self@.minor, self@.patch, self@.build]);
        result
    }

    pub fn major(self) -> (result: u32)
        ensures
            result == self@.major,
    {
        self.major
    }

    pub fn minor(self) -> (result: u32)
        ensures
            result == self@.minor,
    {
        self.minor
    }

    pub fn patch(self) -> (result: u32)
        ensures
            result == self@.patch,
    {
        self.patch
    }

    pub fn build(self) -> (result: u32)
        ensures
            result == self@.build,
    {
        self.build
    }

    /// Orders versions by their numbers, the first difference deciding.
    pub fn compare(self, other: PlatformVersion) -> (result: Order)
        ensures
            result == self@.compare(other@),
    {
        compare_components(
            (self.major, self.minor, self.patch, self.build),
            (other.major, other.minor, other.patch, other.build),
        )
    }

    /// Whether the version is 8.3.20.0 or newer.
    pub fn is_supported(self) -> (result: bool)
        ensures
            result == (self@.compare(min_supported()) != Order::Less),
    {
        self.compare(PlatformVersion::new(8, 3, 20, 0)) != Order::Less
    }

    /// The four numbers separated by dots.
    pub fn to_text(self) -> (result: String)
        ensures
            result@ == self@.text(),
    {
        write_components(self.major, self.minor, self.patch, self.build)
    }

    /// Reads exactly four numbers separated by dots.
    pub fn parse(value: &str) -> (result: Result<Self, DomainError>)
        ensures
            outcome::result_view(result) == (match version_of(value@) {
                Some(version) => Ok(version),
                None => Err(DomainErrorView::InvalidPlatformVersion { value: value@ }),
            }),
    {
        match read_components(value) {
            Some((major, minor, patch, build)) => Ok(PlatformVersion { major, minor, patch, build }),
            None => Err(DomainError::InvalidPlatformVersion { value: value.to_owned() }),
        }
    }
}

impl FromStr for PlatformVersion {
    type Err = DomainError;

    fn from_str(value: &str) -> (result: Result<Self, DomainError>)
        ensures
            outcome::result_view(result) == (match version_of(value@) {
                Some(version) => Ok(version),
                None => Err(DomainErrorView::InvalidPlatformVersion { value: value@ }),
            }),
    {
        PlatformVersion::parse(value)
    }
}

proof fn lemma_component_round_trip(value: u32)
    ensures
        component(number::decimal(value as nat)) == Some(value),
        !number::decimal(value as nat).contains('.'),
{
    number::lemma_decimal_round_trip(value as nat);
    let digits = number::decimal(value as nat);
    if digits.contains('.') {
        let i = choose|i: int| 0 <= i < digits.len() && digits[i] == '.';
        assert(text::is_digit(digits[i]));
    }
}

/// The text of a version reads back as the same version.
pub proof fn law_version_round_trip(version: VersionView)
    ensures
        version_of(version.text()) == Some(version),
{
    let a = number::decimal(version.major as nat);
    let b = number::decimal(version.minor as nat);
    let c = number::decimal(version.patch as nat);
    let d = number::decimal(version.build as nat);
    lemma_component_round_trip(version.major);
    lemma_component_round_trip(version.minor);
    lemma_component_round_trip(version.patch);
    lemma_component_round_trip(version.build);
    reveal_strlit(".");
    assert("."@ =~= seq!['.']);
    let cd = c + seq!['.'] + d;
    let bcd = b + seq!['.'] + cd;
    assert(version.text() =~= a + seq!['.'] + bcd);
    text::lemma_split_head(a, '.', bcd);
    text::lemma_split_head(b, '.', cd);
    text::lemma_split_head(c, '.', d);
    text::lemma_split_single(d, '.');
    assert(text::split(version.text(), '.') =~= seq![a, b, c, d]);
}

/// Versions are totally ordered: the order is antisymmetric, transitive, and equal only for equal
/// versions.
pub proof fn law_version_order(a: VersionView, b: VersionView, c: VersionView)
    ensures
        b.compare(a) == a.compare(b).flipped(),
        a.compare(b) == Order::Equal <==> a == b,
        a.compare(b) != Order::Greater && b.compare(c) != Order::Greater ==> a.compare(c)
            != Order::Greater,
{
}

} // verus!
