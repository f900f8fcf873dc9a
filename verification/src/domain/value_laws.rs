//! What aliases, addresses and endpoints are made of.

use vstd::prelude::*;
use vstd::string::*;

use crate::domain::address;
use crate::domain::error::DomainError;
use crate::domain::value;
use crate::domain::value::ClusterAlias;
use crate::number;
use crate::outcome;
use crate::text;

verus! {

/// A letter or a digit of ASCII.
pub open spec fn is_plain(c: char) -> bool {
    'a' <= c <= 'z' || 'A' <= c <= 'Z' || '0' <= c <= '9'
}

/// An alias is kept as it is written, and is one exactly where it is a text of ASCII letters, digits, dots,
/// underscores, hyphens and colons.
pub proof fn law_aliases_are_plain_texts(text: &str, result: Result<ClusterAlias, DomainError>)
    requires
        call_ensures(ClusterAlias::new, (text,), result),
    ensures
        result is Ok <==> {
            &&& text@.len() > 0
            &&& forall|i: int|
                0 <= i < text@.len() ==> {
                    let c = #[trigger] text@[i];
                    is_plain(c) || c == '.' || c == '_' || c == '-' || c == ':'
                }
        },
        result is Ok ==> result->Ok_0@ == text@,
{
    assert(outcome::result_view(result) == value::alias_of(text@));
    if text@.len() > 0 {
        assert forall|i: int| 0 <= i < text@.len() implies value::is_alias_char(#[trigger] text@[i])
            == ({
            let c = text@[i];
            is_plain(c) || c == '.' || c == '_' || c == '-' || c == ':'
        }) by {}
    }
}

proof fn lemma_plain_host(host: Seq<char>)
    requires
        host.len() > 0,
        forall|i: int|
            0 <= i < host.len() ==> is_plain(#[trigger] host[i]) || host[i] == '.' || host[i] == '-',
    ensures
        value::host_problem(host) is None,
        !host.contains(':'),
{
    assert forall|i: int| 0 <= i < host.len() implies value::is_host_char(#[trigger] host[i]) by {
        assert(is_plain(host[i]) || host[i] == '.' || host[i] == '-');
    }
    if host.contains(':') {
        let i = choose|i: int| 0 <= i < host.len() && host[i] == ':';
        assert(is_plain(host[i]) || host[i] == '.' || host[i] == '-');
    }
}

proof fn lemma_no_colon(port: nat)
    ensures
        !number::decimal(port).contains(':'),
{
    number::lemma_decimal_round_trip(port);
    let digits = number::decimal(port);
    if digits.contains(':') {
        let i = choose|i: int| 0 <= i < digits.len() && digits[i] == ':';
        assert(text::is_digit(digits[i]));
    }
}

/// The name of a host and a port behind a colon are the endpoint with that host and that port, exactly
/// where the port is one from 1 to 65535.
pub proof fn law_hosts_and_ports_are_endpoints(host: Seq<char>, port: nat)
    requires
        host.len() > 0,
        forall|i: int|
            0 <= i < host.len() ==> is_plain(#[trigger] host[i]) || host[i] == '.' || host[i] == '-',
    ensures
        ({
            let read = value::parsed_endpoint(host + seq![':'] + number::decimal(port));
            &&& read is Ok <==> 1 <= port <= 65535
            &&& read is Ok ==> read->Ok_0.host == host && read->Ok_0.port == port
        }),
{
    let digits = number::decimal(port);
    let whole = host + seq![':'] + digits;
    lemma_plain_host(host);
    lemma_no_colon(port);
    number::lemma_decimal_round_trip(port);
    assert(text::is_digit(digits[0]));
    assert(whole[0] == host[0]);
    assert(whole[0] != '[');
    text::lemma_first_index_after(host, ':', digits);
    assert(whole.take(host.len() as int) =~= host);
    assert(whole.skip(host.len() as int + 1) =~= digits);
}

/// An endpoint names a host without blanks, quotes and separators, and a port that is not zero.
pub proof fn law_endpoints_are_sound(text: Seq<char>)
    requires
        value::parsed_endpoint(text) is Ok,
    ensures
        ({
            let endpoint = value::parsed_endpoint(text)->Ok_0;
            &&& endpoint.host.len() > 0
            &&& endpoint.port > 0
            &&& !endpoint.host.contains(' ')
            &&& !endpoint.host.contains('\n')
            &&& !endpoint.host.contains('"')
            &&& !endpoint.host.contains(';')
            &&& !endpoint.host.contains('/')
            &&& !endpoint.host.contains('\\')
            &&& !endpoint.host.contains('[')
            &&& !endpoint.host.contains(']')
        }),
{
    let host = value::parsed_endpoint(text)->Ok_0.host;
    assert(forall|i: int| 0 <= i < host.len() ==> value::is_host_char(#[trigger] host[i]));
}

proof fn lemma_octet(value: nat)
    ensures
        address::is_octet(number::decimal(value)) == (value <= 255),
        !number::decimal(value).contains('.'),
{
    number::lemma_decimal_round_trip(value);
    let digits = number::decimal(value);
    if value <= 255 {
        reveal_with_fuel(number::decimal, 4);
        if value >= 10 {
            let first = if value >= 100 {
                value / 100
            } else {
                value / 10
            };
            assert(1 <= first <= 9);
            assert(digits[0] == number::digit(first));
        }
    }
    if digits.contains('.') {
        let i = choose|i: int| 0 <= i < digits.len() && digits[i] == '.';
        assert(text::is_digit(digits[i]));
    }
}

/// Four numbers with dots between them are an address exactly where each of them fits in a byte.
pub proof fn law_addresses_are_four_bytes(a: nat, b: nat, c: nat, d: nat)
    ensures
        address::is_ipv4(
            number::decimal(a) + seq!['.'] + (number::decimal(b) + seq!['.'] + (number::decimal(c)
                + seq!['.'] + number::decimal(d))),
        ) <==> a <= 255 && b <= 255 && c <= 255 && d <= 255,
{
    let last = number::decimal(c) + seq!['.'] + number::decimal(d);
    let middle = number::decimal(b) + seq!['.'] + last;
    let whole = number::decimal(a) + seq!['.'] + middle;
    lemma_octet(a);
    lemma_octet(b);
    lemma_octet(c);
    lemma_octet(d);
    text::lemma_split_single(number::decimal(d), '.');
    text::lemma_split_head(number::decimal(c), '.', number::decimal(d));
    text::lemma_split_head(number::decimal(b), '.', last);
    text::lemma_split_head(number::decimal(a), '.', middle);
    let parts = text::split(whole, '.');
    assert(parts[0] == number::decimal(a));
    assert(parts[1] == number::decimal(b));
    assert(parts[2] == number::decimal(c));
    assert(parts[3] == number::decimal(d));
    assert(parts.len() == 4);
}

/// One to four hexadecimal digits behind a double colon are an address, and alone they are none.
pub proof fn law_zeros_may_be_left_out(group: Seq<char>)
    requires
        1 <= group.len() <= 4,
        forall|i: int|
            0 <= i < group.len() ==> {
                let c = #[trigger] group[i];
                '0' <= c <= '9' || 'a' <= c <= 'f' || 'A' <= c <= 'F'
            },
    ensures
        address::is_ipv6(seq![':', ':'] + group),
        !address::is_ipv6(group),
{
    assert(address::is_group(group));
    if group.contains(':') {
        let i = choose|i: int| 0 <= i < group.len() && group[i] == ':';
        assert(address::is_hex_digit(group[i]));
    }
    text::lemma_split_single(group, ':');
    let whole = seq![':', ':'] + group;
    text::lemma_first_pair_head(Seq::empty(), ':', ':', group, 0);
    assert(Seq::<char>::empty() + seq![':', ':'] + group =~= whole);
    assert(whole.take(0).len() == 0);
    assert(whole.skip(2) =~= group);
    lemma_no_pair(group, 0);
}

proof fn lemma_no_pair(s: Seq<char>, from: int)
    requires
        !s.contains(':'),
        0 <= from <= s.len(),
    ensures
        text::first_pair(s, ':', ':', from) >= s.len(),
    decreases s.len() - from,
{
    if from < s.len() {
        assert(s.contains(s[from]));
        lemma_no_pair(s, from + 1);
    }
}

} // verus!
