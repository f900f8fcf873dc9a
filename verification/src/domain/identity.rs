//! UUIDs and the identities of cluster entities.

use std::str::FromStr;

use vstd::prelude::*;
use vstd::string::*;

use crate::domain::error::{DomainError, DomainErrorView};
use crate::outcome;

verus! {

/// A 128-bit universally unique identifier.
#[derive(Clone, Copy, Debug, PartialEq, Eq, PartialOrd, Ord, Hash, Structural)]
pub struct Uuid {
    value: u128,
}

impl View for Uuid {
    type V = u128;

    closed spec fn view(&self) -> u128 {
        self.value
    }
}

/// What `uuid::Uuid::parse_str` makes of a text: the identifier, or nothing where it fails.
pub uninterp spec fn uuid_of(text: Seq<char>) -> Option<u128>;

pub open spec fn hex_digit(value: nat) -> char {
    if value < 10 {
        (48 + value) as char
    } else {
        (87 + value) as char
    }
}

/// The last `count` hexadecimal digits of a number, lowercase.
pub open spec fn hex(value: nat, count: nat) -> Seq<char>
    decreases count,
{
    if count == 0 {
        Seq::empty()
    } else {
        hex(value / 16, (count - 1) as nat).push(hex_digit(value % 16))
    }
}

/// The hyphenated text of an identifier: groups of 8, 4, 4, 4 and 12 hexadecimal digits.
pub open spec fn uuid_text(value: u128) -> Seq<char> {
    let digits = hex(value as nat, 32);
    digits.subrange(0, 8) + seq!['-'] + digits.subrange(8, 12) + seq!['-'] + digits.subrange(12, 16)
        + seq!['-'] + digits.subrange(16, 20) + seq!['-'] + digits.subrange(20, 32)
}

/// Calls `uuid::Uuid::parse_str`. It accepts the simple, hyphenated, braced and URN forms, the shortest
/// of which has 32 digits; its result is a function of the text alone.
#[verifier::external_body]
fn parse_uuid(value: &str) -> (result: Option<u128>)
    ensures
        result == uuid_of(value@),
        result is Some ==> value@.len() >= 32,
{
    match uuid::Uuid::parse_str(value) {
        Ok(parsed) => Some(parsed.as_u128()),
        Err(_) => None,
    }
}

/// Calls the formatting of `uuid::Uuid`, which writes the lowercase hyphenated form. That form is
/// one that `uuid::Uuid::parse_str` reads back.
#[verifier::external_body]
fn format_uuid(value: u128) -> (result: String)
    ensures
        result@ == uuid_text(value),
        uuid_of(result@) == Some(value),
{
    uuid::Uuid::from_u128(value).hyphenated().to_string()
}

/// Whether an identifier has the version digit of random ones and the variant bits of RFC 4122.
pub open spec fn is_version_4(value: u128) -> bool {
    &&& (value / 0x1000_0000_0000_0000_0000) % 16 == 4
    &&& (value / 0x4000_0000_0000_0000) % 4 == 2
}

/// Calls `uuid::Uuid::new_v4`. The identifier is random but for its version digit, which is always 4,
/// and its variant bits, which are always those of RFC 4122.
#[verifier::external_body]
fn random_uuid() -> (result: u128)
    ensures
        is_version_4(result),
{
    uuid::Uuid::new_v4().as_u128()
}

impl Uuid {
    pub fn from_u128(value: u128) -> (result: Uuid)
        ensures
            result@ == value,
    {
        Uuid { value }
    }

    pub fn as_u128(&self) -> (result: u128)
        ensures
            result == self@,
    {
        self.value
    }

    pub fn is_nil(&self) -> (result: bool)
        ensures
            result == (self@ == 0),
    {
        self.value == 0
    }

    /// Reads an identifier in any of its textual forms.
    pub fn parse_str(value: &str) -> (result: Option<Uuid>)
        ensures
            outcome::option_view(result) == uuid_of(value@),
            result is Some ==> value@.len() >= 32,
    {
        match parse_uuid(value) {
            Some(value) => Some(Uuid { value }),
            None => None,
        }
    }

    /// The hyphenated lowercase text, which reads back as the same identifier.
    pub fn to_text(&self) -> (result: String)
        ensures
            result@ == uuid_text(self@),
            uuid_of(result@) == Some(self@),
    {
        format_uuid(self.value)
    }

    /// A random identifier, which is of version 4 and never nil.
    pub fn new_v4() -> (result: Uuid)
        ensures
            is_version_4(result@),
            result@ != 0,
    {
        Uuid { value: random_uuid() }
    }
}

/// The identity of a cluster.
#[derive(Clone, Copy, Debug, PartialEq, Eq, PartialOrd, Ord, Hash, Structural)]
pub struct ClusterUuid {
    value: Uuid,
}

impl View for ClusterUuid {
    type V = u128;

    closed spec fn view(&self) -> u128 {
        self.value@
    }
}

impl ClusterUuid {
    pub fn new(value: Uuid) -> (result: Self)
        ensures
            result@ == value@,
    {
        ClusterUuid { value }
    }

    pub fn as_uuid(&self) -> (result: &Uuid)
        ensures
            result@ == self@,
    {
        &self.value
    }

    pub fn into_uuid(self) -> (result: Uuid)
        ensures
            result@ == self@,
    {
        self.value
    }

    pub fn is_nil(self) -> (result: bool)
        ensures
            result == (self@ == 0),
    {
        self.value.is_nil()
    }

    /// Whether both name the same cluster.
    pub fn same(self, other: Self) -> (result: bool)
        ensures
            result == (self@ == other@),
            result == (self == other),
    {
        self == other
    }

    pub fn to_text(self) -> (result: String)
        ensures
            result@ == uuid_text(self@),
            uuid_of(result@) == Some(self@),
    {
        self.value.to_text()
    }

    pub fn parse(value: &str) -> (result: Result<Self, DomainError>)
        ensures
            outcome::result_view(result) == (match uuid_of(value@) {
                Some(parsed) => Ok(parsed),
                None => Err(
                    DomainErrorView::InvalidUuid { entity: "cluster"@, value: value@ },
                ),
            }),
    {
        match Uuid::parse_str(value) {
            Some(parsed) => Ok(ClusterUuid { value: parsed }),
            None => Err(
                DomainError::InvalidUuid { entity: "cluster", value: value.to_owned() },
            ),
        }
    }
}

impl FromStr for ClusterUuid {
    type Err = DomainError;

    fn from_str(value: &str) -> (result: Result<Self, DomainError>)
        ensures
            outcome::result_view(result) == (match uuid_of(value@) {
                Some(parsed) => Ok(parsed),
                None => Err(
                    DomainErrorView::InvalidUuid { entity: "cluster"@, value: value@ },
                ),
            }),
    {
        ClusterUuid::parse(value)
    }
}

/// The identity of a infobase.
#[derive(Clone, Copy, Debug, PartialEq, Eq, PartialOrd, Ord, Hash, Structural)]
pub struct InfobaseUuid {
    value: Uuid,
}

impl View for InfobaseUuid {
    type V = u128;

    closed spec fn view(&self) -> u128 {
        self.value@
    }
}

impl InfobaseUuid {
    pub fn new(value: Uuid) -> (result: Self)
        ensures
            result@ == value@,
    {
        InfobaseUuid { value }
    }

    pub fn as_uuid(&self) -> (result: &Uuid)
        ensures
            result@ == self@,
    {
        &self.value
    }

    pub fn into_uuid(self) -> (result: Uuid)
        ensures
            result@ == self@,
    {
        self.value
    }

    pub fn is_nil(self) -> (result: bool)
        ensures
            result == (self@ == 0),
    {
        self.value.is_nil()
    }

    /// Whether both name the same infobase.
    pub fn same(self, other: Self) -> (result: bool)
        ensures
            result == (self@ == other@),
            result == (self == other),
    {
        self == other
    }

    pub fn to_text(self) -> (result: String)
        ensures
            result@ == uuid_text(self@),
            uuid_of(result@) == Some(self@),
    {
        self.value.to_text()
    }

    pub fn parse(value: &str) -> (result: Result<Self, DomainError>)
        ensures
            outcome::result_view(result) == (match uuid_of(value@) {
                Some(parsed) => Ok(parsed),
                None => Err(
                    DomainErrorView::InvalidUuid { entity: "infobase"@, value: value@ },
                ),
            }),
    {
        match Uuid::parse_str(value) {
            Some(parsed) => Ok(InfobaseUuid { value: parsed }),
            None => Err(
                DomainError::InvalidUuid { entity: "infobase", value: value.to_owned() },
            ),
        }
    }
}

impl FromStr for InfobaseUuid {
    type Err = DomainError;

    fn from_str(value: &str) -> (result: Result<Self, DomainError>)
        ensures
            outcome::result_view(result) == (match uuid_of(value@) {
                Some(parsed) => Ok(parsed),
                None => Err(
                    DomainErrorView::InvalidUuid { entity: "infobase"@, value: value@ },
                ),
            }),
    {
        InfobaseUuid::parse(value)
    }
}

/// The identity of a session.
#[derive(Clone, Copy, Debug, PartialEq, Eq, PartialOrd, Ord, Hash, Structural)]
pub struct SessionUuid {
    value: Uuid,
}

impl View for SessionUuid {
    type V = u128;

    closed spec fn view(&self) -> u128 {
        self.value@
    }
}

impl SessionUuid {
    pub fn new(value: Uuid) -> (result: Self)
        ensures
            result@ == value@,
    {
        SessionUuid { value }
    }

    pub fn as_uuid(&self) -> (result: &Uuid)
        ensures
            result@ == self@,
    {
        &self.value
    }

    pub fn into_uuid(self) -> (result: Uuid)
        ensures
            result@ == self@,
    {
        self.value
    }

    pub fn is_nil(self) -> (result: bool)
        ensures
            result == (self@ == 0),
    {
        self.value.is_nil()
    }

    /// Whether both name the same session.
    pub fn same(self, other: Self) -> (result: bool)
        ensures
            result == (self@ == other@),
            result == (self == other),
    {
        self == other
    }

    pub fn to_text(self) -> (result: String)
        ensures
            result@ == uuid_text(self@),
            uuid_of(result@) == Some(self@),
    {
        self.value.to_text()
    }

    pub fn parse(value: &str) -> (result: Result<Self, DomainError>)
        ensures
            outcome::result_view(result) == (match uuid_of(value@) {
                Some(parsed) => Ok(parsed),
                None => Err(
                    DomainErrorView::InvalidUuid { entity: "session"@, value: value@ },
                ),
            }),
    {
        match Uuid::parse_str(value) {
            Some(parsed) => Ok(SessionUuid { value: parsed }),
            None => Err(
                DomainError::InvalidUuid { entity: "session", value: value.to_owned() },
            ),
        }
    }
}

impl FromStr for SessionUuid {
    type Err = DomainError;

    fn from_str(value: &str) -> (result: Result<Self, DomainError>)
        ensures
            outcome::result_view(result) == (match uuid_of(value@) {
                Some(parsed) => Ok(parsed),
                None => Err(
                    DomainErrorView::InvalidUuid { entity: "session"@, value: value@ },
                ),
            }),
    {
        SessionUuid::parse(value)
    }
}

/// The identity of a connection.
#[derive(Clone, Copy, Debug, PartialEq, Eq, PartialOrd, Ord, Hash, Structural)]
pub struct ConnectionUuid {
    value: Uuid,
}

impl View for ConnectionUuid {
    type V = u128;

    closed spec fn view(&self) -> u128 {
        self.value@
    }
}

impl ConnectionUuid {
    pub fn new(value: Uuid) -> (result: Self)
        ensures
            result@ == value@,
    {
        ConnectionUuid { value }
    }

    pub fn as_uuid(&self) -> (result: &Uuid)
        ensures
            result@ == self@,
    {
        &self.value
    }

    pub fn into_uuid(self) -> (result: Uuid)
        ensures
            result@ == self@,
    {
        self.value
    }

    pub fn is_nil(self) -> (result: bool)
        ensures
            result == (self@ == 0),
    {
        self.value.is_nil()
    }

    /// Whether both name the same connection.
    pub fn same(self, other: Self) -> (result: bool)
        ensures
            result == (self@ == other@),
            result == (self == other),
    {
        self == other
    }

    pub fn to_text(self) -> (result: String)
        ensures
            result@ == uuid_text(self@),
            uuid_of(result@) == Some(self@),
    {
        self.value.to_text()
    }

    pub fn parse(value: &str) -> (result: Result<Self, DomainError>)
        ensures
            outcome::result_view(result) == (match uuid_of(value@) {
                Some(parsed) => Ok(parsed),
                None => Err(
                    DomainErrorView::InvalidUuid { entity: "connection"@, value: value@ },
                ),
            }),
    {
        match Uuid::parse_str(value) {
            Some(parsed) => Ok(ConnectionUuid { value: parsed }),
            None => Err(
                DomainError::InvalidUuid { entity: "connection", value: value.to_owned() },
            ),
        }
    }
}

impl FromStr for ConnectionUuid {
    type Err = DomainError;

    fn from_str(value: &str) -> (result: Result<Self, DomainError>)
        ensures
            outcome::result_view(result) == (match uuid_of(value@) {
                Some(parsed) => Ok(parsed),
                None => Err(
                    DomainErrorView::InvalidUuid { entity: "connection"@, value: value@ },
                ),
            }),
    {
        ConnectionUuid::parse(value)
    }
}

/// The identity of a process.
#[derive(Clone, Copy, Debug, PartialEq, Eq, PartialOrd, Ord, Hash, Structural)]
pub struct ProcessUuid {
    value: Uuid,
}

impl View for ProcessUuid {
    type V = u128;

    closed spec fn view(&self) -> u128 {
        self.value@
    }
}

impl ProcessUuid {
    pub fn new(value: Uuid) -> (result: Self)
        ensures
            result@ == value@,
    {
        ProcessUuid { value }
    }

    pub fn as_uuid(&self) -> (result: &Uuid)
        ensures
            result@ == self@,
    {
        &self.value
    }

    pub fn into_uuid(self) -> (result: Uuid)
        ensures
            result@ == self@,
    {
        self.value
    }

    pub fn is_nil(self) -> (result: bool)
        ensures
            result == (self@ == 0),
    {
        self.value.is_nil()
    }

    /// Whether both name the same process.
    pub fn same(self, other: Self) -> (result: bool)
        ensures
            result == (self@ == other@),
            result == (self == other),
    {
        self == other
    }

    pub fn to_text(self) -> (result: String)
        ensures
            result@ == uuid_text(self@),
            uuid_of(result@) == Some(self@),
    {
        self.value.to_text()
    }

    pub fn parse(value: &str) -> (result: Result<Self, DomainError>)
        ensures
            outcome::result_view(result) == (match uuid_of(value@) {
                Some(parsed) => Ok(parsed),
                None => Err(
                    DomainErrorView::InvalidUuid { entity: "process"@, value: value@ },
                ),
            }),
    {
        match Uuid::parse_str(value) {
            Some(parsed) => Ok(ProcessUuid { value: parsed }),
            None => Err(
                DomainError::InvalidUuid { entity: "process", value: value.to_owned() },
            ),
        }
    }
}

impl FromStr for ProcessUuid {
    type Err = DomainError;

    fn from_str(value: &str) -> (result: Result<Self, DomainError>)
        ensures
            outcome::result_view(result) == (match uuid_of(value@) {
                Some(parsed) => Ok(parsed),
                None => Err(
                    DomainErrorView::InvalidUuid { entity: "process"@, value: value@ },
                ),
            }),
    {
        ProcessUuid::parse(value)
    }
}

} // verus!
