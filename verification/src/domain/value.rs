//! Aliases, endpoints and versions: the validated values of the domain.

use std::hash::{Hash, Hasher};
use std::str::FromStr;

use vstd::prelude::*;
use vstd::string::*;

use crate::domain::address;
use crate::domain::error::{DomainError, DomainErrorView};
use crate::number;
use crate::order;
use crate::order::Order;
use crate::outcome;
use crate::text;

verus! {

/// The name under which a cluster is configured.
#[derive(Debug)]
pub struct ClusterAlias {
    value: String,
}

impl View for ClusterAlias {
    type V = Seq<char>;

    closed spec fn view(&self) -> Seq<char> {
        self.value@
    }
}

pub open spec fn is_alias_char(c: char) -> bool {
    text::is_ascii_alphanumeric(c) || c == '.' || c == '_' || c == '-' || c == ':'
}

/// A non-empty text of ASCII letters, digits and `.`, `_`, `-`, `:`.
pub open spec fn is_alias(s: Seq<char>) -> bool {
    s.len() > 0 && forall|i: int| 0 <= i < s.len() ==> is_alias_char(#[trigger] s[i])
}

/// What an alias text stands for.
pub open spec fn alias_of(s: Seq<char>) -> Result<Seq<char>, DomainErrorView> {
    if s.len() == 0 {
        Err(
            DomainErrorView::InvalidClusterAlias {
                value: s,
                reason: "alias не может быть пустым"@,
            },
        )
    } else if !is_alias(s) {
        Err(
            DomainErrorView::InvalidClusterAlias {
                value: s,
                reason: "разрешены только латинские буквы, цифры и символы . _ - :"@,
            },
        )
    } else {
        Ok(s)
    }
}

fn check_alias(value: &str) -> (result: bool)
    requires
        value@.len() > 0,
    ensures
        result == is_alias(value@),
{
    let source = text::chars(value);
    let mut i: usize = 0;
    while i < source.len()
        invariant
            source@ == value@,
            value@.len() > 0,
            i <= source@.len(),
            forall|j: int| 0 <= j < i ==> is_alias_char(#[trigger] source@[j]),
        decreases source.len() - i,
    {
        let c = source[i];
        if !(('0' <= c && c <= '9') || ('a' <= c && c <= 'z') || ('A' <= c && c <= 'Z') || c == '.'
            || c == '_' || c == '-' || c == ':') {
            assert(!is_alias_char(value@[i as int]));
            return false;
        }
        i = i + 1;
    }
    true
}

impl ClusterAlias {
    /// Every alias satisfies its grammar.
    #[verifier::type_invariant]
    spec fn well_formed(self) -> bool {
        is_alias(self.value@)
    }

    pub fn new(value: &str) -> (result: Result<Self, DomainError>)
        ensures
            outcome::result_view(result) == alias_of(value@),
    {
        if value.is_empty() {
            return Err(
                DomainError::InvalidClusterAlias {
                    value: value.to_owned(),
                    reason: "alias не может быть пустым",
                },
            );
        }
        if !check_alias(value) {
            return Err(
                DomainError::InvalidClusterAlias {
                    value: value.to_owned(),
                    reason: "разрешены только латинские буквы, цифры и символы . _ - :",
                },
            );
        }
        Ok(ClusterAlias { value: value.to_owned() })
    }

    pub fn as_str(&self) -> (result: &str)
        ensures
            result@ == self@,
            is_alias(self@),
    {
        proof {
            use_type_invariant(self);
        }
        self.value.as_str()
    }

    /// Orders aliases without regard to ASCII case.
    pub fn compare(&self, other: &ClusterAlias) -> (result: Order)
        ensures
            result == order::compare_text(text::lower(self@), text::lower(other@)),
    {
        let left = text::to_ascii_lowercase(self.value.as_str());
        let right = text::to_ascii_lowercase(other.value.as_str());
        order::compare_texts(left.as_str(), right.as_str())
    }
}

impl Clone for ClusterAlias {
    fn clone(&self) -> (result: Self)
        ensures
            result == *self,
    {
        proof {
            use_type_invariant(self);
        }
        ClusterAlias { value: self.value.clone() }
    }
}

impl PartialEq for ClusterAlias {
    fn eq(&self, other: &Self) -> (result: bool) {
        text::eq_ignore_ascii_case(self.value.as_str(), other.value.as_str())
    }
}

impl vstd::std_specs::cmp::PartialEqSpecImpl for ClusterAlias {
    open spec fn obeys_eq_spec() -> bool {
        true
    }

    open spec fn eq_spec(&self, other: &Self) -> bool {
        text::same_ignoring_ascii_case(self@, other@)
    }
}

impl Eq for ClusterAlias {

}

/// `String::hash` feeds the text to the hasher; nothing is claimed of the hasher's state.
pub assume_specification<H: Hasher>[ <String as Hash>::hash ](s: &String, state: &mut H);

impl Hash for ClusterAlias {
    fn hash<H: Hasher>(&self, state: &mut H) {
        text::to_ascii_lowercase(self.value.as_str()).hash(state)
    }
}

impl FromStr for ClusterAlias {
    type Err = DomainError;

    fn from_str(value: &str) -> (result: Result<Self, DomainError>)
        ensures
            outcome::result_view(result) == alias_of(value@),
    {
        ClusterAlias::new(value)
    }
}

/// The address of a cluster's administration server: a host and a port.
#[derive(Debug, PartialEq, Eq)]
pub struct RasEndpoint {
    host: String,
    port: u16,
    address: String,
}

pub struct EndpointView {
    pub host: Seq<char>,
    pub port: u16,
}

impl View for RasEndpoint {
    type V = EndpointView;

    closed spec fn view(&self) -> EndpointView {
        EndpointView { host: self.host@, port: self.port }
    }
}

pub open spec fn is_host_char(c: char) -> bool {
    &&& !text::is_whitespace(c)
    &&& !text::is_control(c)
    &&& c != '['
    &&& c != ']'
    &&& c != '/'
    &&& c != '\\'
    &&& c != '"'
    &&& c != ';'
}

/// Why a host is refused, where it is.
pub open spec fn host_problem(host: Seq<char>) -> Option<Seq<char>> {
    if host.len() == 0 {
        Some("имя хоста не может быть пустым"@)
    } else if exists|i: int| 0 <= i < host.len() && !is_host_char(#[trigger] host[i]) {
        Some("имя хоста содержит недопустимые символы"@)
    } else if host.contains(':') && !address::is_ipv6(host) {
        Some("адрес с двоеточиями должен быть корректным IPv6-адресом"@)
    } else {
        None
    }
}

/// `host:port`, with brackets round a host that holds colons.
pub open spec fn endpoint_text(host: Seq<char>, port: nat) -> Seq<char> {
    if host.contains(':') {
        "["@ + host + "]:"@ + number::decimal(port)
    } else {
        host + ":"@ + number::decimal(port)
    }
}

pub open spec fn endpoint_error(value: Seq<char>, reason: Seq<char>) -> DomainErrorView {
    DomainErrorView::InvalidRasEndpoint { value, reason }
}

/// The endpoint with the given host and port, or why there is none.
pub open spec fn endpoint_of(host: Seq<char>, port: u16) -> Result<EndpointView, DomainErrorView> {
    match host_problem(host) {
        Some(reason) => Err(endpoint_error(host, reason)),
        None => if port == 0 {
            Err(
                endpoint_error(
                    endpoint_text(host, 0),
                    "порт должен быть в диапазоне 1..=65535"@,
                ),
            )
        } else {
            Ok(EndpointView { host, port })
        },
    }
}

/// The host and the port of an endpoint text, or why they cannot be told apart.
pub open spec fn endpoint_parts(value: Seq<char>) -> Result<(Seq<char>, Seq<char>), Seq<char>> {
    if value.len() > 0 && value[0] == '[' {
        let rest = value.drop_first();
        let at = text::first_pair(rest, ']', ':', 0);
        let port = rest.skip(at + 2);
        if at >= rest.len() || port.contains(':') || port.contains(' ') {
            Err("ожидается адрес вида [IPv6]:port"@)
        } else {
            Ok((rest.take(at), port))
        }
    } else {
        let at = text::first_index(value, ':', 0);
        if at >= value.len() {
            Err("ожидается адрес вида host:port"@)
        } else if value.skip(at + 1).contains(':') {
            Err("IPv6-адрес должен быть заключен в квадратные скобки"@)
        } else {
            Ok((value.take(at), value.skip(at + 1)))
        }
    }
}

/// What an endpoint text stands for.
pub open spec fn parsed_endpoint(value: Seq<char>) -> Result<EndpointView, DomainErrorView> {
    match endpoint_parts(value) {
        Err(reason) => Err(endpoint_error(value, reason)),
        Ok((host, port)) => match number::unsigned(port, 65535) {
            None => Err(
                endpoint_error(value, "порт должен быть числом в диапазоне 1..=65535"@),
            ),
            Some(port) => endpoint_of(host, port as u16),
        },
    }
}

fn find_host_problem(host: &str) -> (result: Option<&'static str>)
    ensures
        match result {
            Some(reason) => host_problem(host@) == Some(reason@),
            None => host_problem(host@) is None,
        },
{
    if host.is_empty() {
        return Some("имя хоста не может быть пустым");
    }
    let source = text::chars(host);
    let mut i: usize = 0;
    while i < source.len()
        invariant
            source@ == host@,
            i <= source@.len(),
            forall|j: int| 0 <= j < i ==> is_host_char(#[trigger] host@[j]),
        decreases source.len() - i,
    {
        let c = source[i];
        if text::char_is_whitespace(c) || text::char_is_control(c) || c == '[' || c == ']' || c
            == '/' || c == '\\' || c == '"' || c == ';' {
            assert(!is_host_char(host@[i as int]));
            return Some("имя хоста содержит недопустимые символы");
        }
        i = i + 1;
    }
    if text::contains_char(host, ':') && !address::check_ipv6(host) {
        return Some("адрес с двоеточиями должен быть корректным IPv6-адресом");
    }
    None
}

fn format_endpoint(host: &str, port: u16) -> (result: String)
    ensures
        result@ == endpoint_text(host@, port as nat),
{
    let number = number::format_u64(port as u64);
    if text::contains_char(host, ':') {
        let mut result = "[".to_owned();
        result.push_str(host);
        result.push_str("]:");
        result.push_str(number.as_str());
        result
    } else {
        let mut result = host.to_owned();
        result.push_str(":");
        result.push_str(number.as_str());
        result
    }
}

/// The host and the port text of an endpoint.
fn split_endpoint(value: &str) -> (result: Result<(String, String), &'static str>)
    ensures
        match result {
            Ok((host, port)) => endpoint_parts(value@) == Ok::<_, Seq<char>>((host@, port@)),
            Err(reason) => endpoint_parts(value@) == Err::<(Seq<char>, Seq<char>), _>(reason@),
        },
{
    let source = text::chars(value);
    if source.len() > 0 && source[0] == '[' {
        let rest_text = text::text_of(&source, 1, source.len());
        assert(rest_text@ =~= value@.drop_first());
        let rest = text::chars(rest_text.as_str());
        let at: usize = text::find_pair(&rest, ']', ':');
        if at >= rest.len() {
            return Err("ожидается адрес вида [IPv6]:port");
        }
        let host = text::text_of(&rest, 0, at);
        let port = text::text_of(&rest, at + 2, rest.len());
        assert(host@ =~= rest@.take(at as int));
        assert(port@ =~= rest@.skip(at + 2));
        if text::contains_char(port.as_str(), ':') || text::contains_char(port.as_str(), ' ') {
            return Err("ожидается адрес вида [IPv6]:port");
        }
        Ok((host, port))
    } else {
        let at: usize = text::find_char(&source, ':', 0);
        if at >= source.len() {
            return Err("ожидается адрес вида host:port");
        }
        let host = text::text_of(&source, 0, at);
        let port = text::text_of(&source, at + 1, source.len());
        assert(host@ =~= value@.take(at as int));
        assert(port@ =~= value@.skip(at + 1));
        if text::contains_char(port.as_str(), ':') {
            return Err("IPv6-адрес должен быть заключен в квадратные скобки");
        }
        Ok((host, port))
    }
}

impl RasEndpoint {
    /// Every endpoint has an acceptable host, a non-zero port and the text made of them.
    #[verifier::type_invariant]
    spec fn well_formed(self) -> bool {
        &&& host_problem(self.host@) is None
        &&& self.port != 0
        &&& self.address@ == endpoint_text(self.host@, self.port as nat)
    }

    pub fn new(host: &str, port: u16) -> (result: Result<Self, DomainError>)
        ensures
            outcome::result_view(result) == endpoint_of(host@, port),
    {
        if let Some(reason) = find_host_problem(host) {
            return Err(DomainError::InvalidRasEndpoint { value: host.to_owned(), reason });
        }
        if port == 0 {
            return Err(
                DomainError::InvalidRasEndpoint {
                    value: format_endpoint(host, port),
                    reason: "порт должен быть в диапазоне 1..=65535",
                },
            );
        }
        let address = format_endpoint(host, port);
        Ok(RasEndpoint { host: host.to_owned(), port, address })
    }

    /// Reads `host:port` or `[IPv6]:port`.
    pub fn parse(value: &str) -> (result: Result<Self, DomainError>)
        ensures
            outcome::result_view(result) == parsed_endpoint(value@),
    {
        match split_endpoint(value) {
            Err(reason) => Err(DomainError::InvalidRasEndpoint { value: value.to_owned(), reason }),
            Ok((host, port)) => match number::parse_unsigned(port.as_str(), 65535) {
                None => Err(
                    DomainError::InvalidRasEndpoint {
                        value: value.to_owned(),
                        reason: "порт должен быть числом в диапазоне 1..=65535",
                    },
                ),
                Some(number) => RasEndpoint::new(host.as_str(), number as u16),
            },
        }
    }

    pub fn host(&self) -> (result: &str)
        ensures
            result@ == self@.host,
            host_problem(self@.host) is None,
    {
        proof {
            use_type_invariant(self);
        }
        self.host.as_str()
    }

    pub fn port(&self) -> (result: u16)
        ensures
            result == self@.port,
            result != 0,
    {
        proof {
            use_type_invariant(self);
        }
        self.port
    }

    pub fn as_str(&self) -> (result: &str)
        ensures
            result@ == endpoint_text(self@.host, self@.port as nat),
    {
        proof {
            use_type_invariant(self);
        }
        self.address.as_str()
    }
}

impl Clone for RasEndpoint {
    fn clone(&self) -> (result: Self)
        ensures
            result == *self,
    {
        proof {
            use_type_invariant(self);
        }
        RasEndpoint { host: self.host.clone(), port: self.port, address: self.address.clone() }
    }
}

impl FromStr for RasEndpoint {
    type Err = DomainError;

    fn from_str(value: &str) -> (result: Result<Self, DomainError>)
        ensures
            outcome::result_view(result) == parsed_endpoint(value@),
    {
        RasEndpoint::parse(value)
    }
}

proof fn lemma_digits_hold_no_separator(port: nat)
    ensures
        !number::decimal(port).contains(':'),
        !number::decimal(port).contains(' '),
{
    number::lemma_decimal_round_trip(port);
    let digits = number::decimal(port);
    if digits.contains(':') {
        let i = choose|i: int| 0 <= i < digits.len() && digits[i] == ':';
        assert(text::is_digit(digits[i]));
    }
    if digits.contains(' ') {
        let i = choose|i: int| 0 <= i < digits.len() && digits[i] == ' ';
        assert(text::is_digit(digits[i]));
    }
}

/// The text of an endpoint reads back as the same endpoint.
pub proof fn law_endpoint_round_trip(host: Seq<char>, port: u16)
    requires
        endpoint_of(host, port) is Ok,
    ensures
        parsed_endpoint(endpoint_text(host, port as nat)) == Ok::<_, DomainErrorView>(
            EndpointView { host, port },
        ),
{
    let value = endpoint_text(host, port as nat);
    let digits = number::decimal(port as nat);
    lemma_digits_hold_no_separator(port as nat);
    number::lemma_unsigned_round_trip(port as nat, 65535);
    reveal_strlit("[");
    reveal_strlit("]:");
    reveal_strlit(":");
    assert("["@ =~= seq!['[']);
    assert("]:"@ =~= seq![']', ':']);
    assert(":"@ =~= seq![':']);
    if host.contains(':') {
        assert(!host.contains(']')) by {
            if host.contains(']') {
                let i = choose|i: int| 0 <= i < host.len() && host[i] == ']';
                assert(!is_host_char(host[i]));
            }
        }
        assert(value[0] == '[');
        let rest = value.drop_first();
        assert(rest =~= host + seq![']', ':'] + digits);
        text::lemma_first_pair_head(host, ']', ':', digits, 0);
        assert(rest.take(host.len() as int) =~= host);
        assert(rest.skip(host.len() as int + 2) =~= digits);
    } else {
        assert(value =~= host + seq![':'] + digits);
        assert(value[0] == host[0]);
        assert(is_host_char(host[0]));
        text::lemma_first_index_after(host, ':', digits);
        assert(value.take(host.len() as int) =~= host);
        assert(value.skip(host.len() as int + 1) =~= digits);
    }
}

/// Equality of aliases disregards ASCII case and is an equivalence.
pub proof fn law_alias_equality(a: ClusterAlias, b: ClusterAlias, c: ClusterAlias)
    ensures
        text::same_ignoring_ascii_case(a@, a@),
        text::same_ignoring_ascii_case(a@, b@) ==> text::same_ignoring_ascii_case(b@, a@),
        text::same_ignoring_ascii_case(a@, b@) && text::same_ignoring_ascii_case(b@, c@) ==> text::same_ignoring_ascii_case(a@, c@),
        text::same_ignoring_ascii_case(a@, b@) <==> order::compare_text(text::lower(a@), text::lower(b@)) == Order::Equal,
{
    order::lemma_compare_text_flips(text::lower(a@), text::lower(b@));
}

} // verus!
