//! The textual form of IPv6 addresses.

use vstd::prelude::*;
use vstd::string::*;

use crate::number;
use crate::text;

verus! {

pub open spec fn is_hex_digit(c: char) -> bool {
    '0' <= c <= '9' || 'a' <= c <= 'f' || 'A' <= c <= 'F'
}

/// One to four hexadecimal digits.
pub open spec fn is_group(s: Seq<char>) -> bool {
    1 <= s.len() <= 4 && forall|i: int| 0 <= i < s.len() ==> is_hex_digit(#[trigger] s[i])
}

/// A decimal number of at most 255 without leading zeros.
pub open spec fn is_octet(s: Seq<char>) -> bool {
    &&& s.len() <= 3
    &&& number::natural(s) is Some
    &&& number::natural(s)->0 <= 255
    &&& s.len() > 1 ==> s[0] != '0'
}

/// Four octets separated by dots.
pub open spec fn is_ipv4(s: Seq<char>) -> bool {
    let parts = text::split(s, '.');
    parts.len() == 4 && forall|i: int| 0 <= i < 4 ==> is_octet(#[trigger] parts[i])
}

/// How many 16-bit groups a colon-separated list holds. An IPv4 address may stand last, where it
/// is allowed, and counts as two groups.
pub open spec fn group_count(s: Seq<char>, ipv4_allowed: bool) -> Option<nat> {
    let parts = text::split(s, ':');
    if s.len() == 0 {
        Some(0)
    } else if exists|i: int| 0 <= i < parts.len() - 1 && !is_group(#[trigger] parts[i]) {
        None
    } else if is_group(parts.last()) {
        Some(parts.len())
    } else if ipv4_allowed && is_ipv4(parts.last()) {
        Some(parts.len() + 1)
    } else {
        None
    }
}

/// Eight groups, or fewer with one `::` that stands for at least one group of zeros.
pub open spec fn is_ipv6(s: Seq<char>) -> bool {
    let at = text::first_pair(s, ':', ':', 0);
    if at >= s.len() {
        group_count(s, true) == Some(8nat)
    } else {
        match (group_count(s.take(at), false), group_count(s.skip(at + 2), true)) {
            (Some(head), Some(tail)) => head + tail <= 7,
            _ => false,
        }
    }
}

fn check_group(part: &str) -> (result: bool)
    ensures
        result == is_group(part@),
{
    let source = text::chars(part);
    if source.len() == 0 || source.len() > 4 {
        return false;
    }
    let mut i: usize = 0;
    while i < source.len()
        invariant
            source@ == part@,
            1 <= part@.len() <= 4,
            i <= source@.len(),
            forall|j: int| 0 <= j < i ==> is_hex_digit(#[trigger] source@[j]),
        decreases source.len() - i,
    {
        let c = source[i];
        if !(('0' <= c && c <= '9') || ('a' <= c && c <= 'f') || ('A' <= c && c <= 'F')) {
            assert(!is_hex_digit(part@[i as int]));
            return false;
        }
        i = i + 1;
    }
    true
}

fn check_octet(part: &str) -> (result: bool)
    ensures
        result == is_octet(part@),
{
    let source = text::chars(part);
    assert(part@.subrange(0, part@.len() as int) =~= part@);
    if source.len() > 3 {
        return false;
    }
    if source.len() > 1 && source[0] == '0' {
        return false;
    }
    number::parse_natural(&source, 0, 255).is_some()
}

fn check_ipv4(part: &str) -> (result: bool)
    ensures
        result == is_ipv4(part@),
{
    let parts = text::split_text(part, '.');
    let ghost split = text::split(part@, '.');
    assert(text::views(parts@).len() == split.len());
    if parts.len() != 4 {
        return false;
    }
    let mut i: usize = 0;
    while i < 4
        invariant
            i <= 4,
            parts@.len() == 4,
            split == text::split(part@, '.'),
            text::views(parts@) == split,
            forall|j: int| 0 <= j < i ==> is_octet(#[trigger] split[j]),
        decreases 4 - i,
    {
        assert(split[i as int] == parts@[i as int]@);
        if !check_octet(parts[i].as_str()) {
            return false;
        }
        i = i + 1;
    }
    true
}

fn count_groups(part: &str, ipv4_allowed: bool) -> (result: Option<usize>)
    ensures
        match result {
            Some(count) => group_count(part@, ipv4_allowed) == Some(count as nat),
            None => group_count(part@, ipv4_allowed) is None || group_count(part@, ipv4_allowed)->0
                > usize::MAX,
        },
{
    if part.is_empty() {
        return Some(0);
    }
    let parts = text::split_text(part, ':');
    let ghost split = text::split(part@, ':');
    assert(text::views(parts@).len() == split.len());
    let last: usize = parts.len() - 1;
    let mut i: usize = 0;
    while i < last
        invariant
            last == parts.len() - 1,
            i <= last,
            part@.len() > 0,
            split == text::split(part@, ':'),
            text::views(parts@) == split,
            forall|j: int| 0 <= j < i ==> is_group(#[trigger] split[j]),
        decreases last - i,
    {
        assert(split[i as int] == parts@[i as int]@);
        if !check_group(parts[i].as_str()) {
            return None;
        }
        i = i + 1;
    }
    assert(split.last() == parts@[last as int]@);
    if check_group(parts[last].as_str()) {
        Some(parts.len())
    } else if ipv4_allowed && check_ipv4(parts[last].as_str()) {
        if parts.len() < usize::MAX {
            Some(parts.len() + 1)
        } else {
            None
        }
    } else {
        None
    }
}

/// Whether a text is an IPv6 address.
pub fn check_ipv6(address: &str) -> (result: bool)
    ensures
        result == is_ipv6(address@),
{
    let source = text::chars(address);
    let at: usize = text::find_pair(&source, ':', ':');
    if at >= source.len() {
        match count_groups(address, true) {
            Some(count) => count == 8,
            None => false,
        }
    } else {
        let head = text::text_of(&source, 0, at);
        let tail = text::text_of(&source, at + 2, source.len());
        assert(address@.take(at as int) =~= head@);
        assert(address@.skip(at + 2) =~= tail@);
        match (count_groups(head.as_str(), false), count_groups(tail.as_str(), true)) {
            (Some(head_count), Some(tail_count)) => head_count <= 7 && tail_count <= 7 - head_count,
            _ => false,
        }
    }
}

} // verus!
