//! Decimal notation of integers: formatting, parsing and their round trip.

use vstd::prelude::*;
use vstd::string::*;

use crate::text;

verus! {

pub open spec fn digit(value: nat) -> char {
    (48 + value) as char
}

pub open spec fn digit_value(c: char) -> nat {
    (c as u32 - 48) as nat
}

/// The decimal digits of a natural number, without leading zeros.
pub open spec fn decimal(value: nat) -> Seq<char>
    decreases value,
{
    if value < 10 {
        seq![digit(value)]
    } else {
        decimal(value / 10).push(digit(value % 10))
    }
}

/// The decimal notation of an integer, with `-` before a negative one.
pub open spec fn signed_decimal(value: int) -> Seq<char> {
    if value < 0 {
        seq!['-'] + decimal((-value) as nat)
    } else {
        decimal(value as nat)
    }
}

/// The number that a run of digits denotes.
pub open spec fn value_of(digits: Seq<char>) -> nat
    decreases digits.len(),
{
    if digits.len() == 0 {
        0
    } else {
        value_of(digits.drop_last()) * 10 + digit_value(digits.last())
    }
}

/// The number that a non-empty run of digits denotes; nothing else is a natural number.
pub open spec fn natural(s: Seq<char>) -> Option<nat> {
    if s.len() > 0 && text::all_digits(s) {
        Some(value_of(s))
    } else {
        None
    }
}

/// A natural number of at most `max`, with an optional `+` before it.
pub open spec fn unsigned(s: Seq<char>, max: nat) -> Option<nat> {
    let body = if s.len() > 0 && s[0] == '+' {
        s.drop_first()
    } else {
        s
    };
    match natural(body) {
        Some(value) if value <= max => Some(value),
        _ => None,
    }
}

/// An integer in the range of `i64`, with an optional sign before it.
pub open spec fn signed(s: Seq<char>) -> Option<int> {
    let negative = s.len() > 0 && s[0] == '-';
    let body = if s.len() > 0 && (s[0] == '-' || s[0] == '+') {
        s.drop_first()
    } else {
        s
    };
    match natural(body) {
        Some(value) if negative && value <= 0x8000_0000_0000_0000 => Some(-(value as int)),
        Some(value) if !negative && value <= 0x7fff_ffff_ffff_ffff => Some(value as int),
        _ => None,
    }
}

/// Reading the decimal notation of a number gives the number back.
pub proof fn lemma_decimal_round_trip(value: nat)
    ensures
        decimal(value).len() > 0,
        text::all_digits(decimal(value)),
        value_of(decimal(value)) == value,
        natural(decimal(value)) == Some(value),
    decreases value,
{
    if value < 10 {
        let s = decimal(value);
        assert(s.drop_last() =~= Seq::<char>::empty());
        assert(value_of(s.drop_last()) == 0);
        assert(s.last() == digit(value));
    } else {
        lemma_decimal_round_trip(value / 10);
        let s = decimal(value);
        assert(s.drop_last() =~= decimal(value / 10));
        assert(s.last() == digit(value % 10));
        assert forall|i: int| 0 <= i < s.len() implies text::is_digit(#[trigger] s[i]) by {
            if i < s.len() - 1 {
                assert(s[i] == decimal(value / 10)[i]);
            }
        }
    }
}

fn push_decimal(value: u128, out: &mut String)
    ensures
        final(out)@ == old(out)@ + decimal(value as nat),
    decreases value,
{
    if value >= 10 {
        push_decimal(value / 10, out);
    }
    let code: u8 = 48 + (value % 10) as u8;
    let c = code as char;
    let ghost before = out@;
    out.push(c);
    proof {
        assert(c == digit((value % 10) as nat));
        if value >= 10 {
            assert(before.push(c) =~= old(out)@ + decimal(value as nat));
        } else {
            assert(before.push(c) =~= old(out)@ + decimal(value as nat));
        }
    }
}

/// The decimal notation of a natural number.
pub fn format_u64(value: u64) -> (result: String)
    ensures
        result@ == decimal(value as nat),
{
    let mut result = String::new();
    push_decimal(value as u128, &mut result);
    assert(Seq::<char>::empty() + decimal(value as nat) =~= decimal(value as nat));
    result
}

/// The decimal notation of a natural number of 128 bits.
pub fn format_u128(value: u128) -> (result: String)
    ensures
        result@ == decimal(value as nat),
{
    let mut result = String::new();
    push_decimal(value, &mut result);
    assert(Seq::<char>::empty() + decimal(value as nat) =~= decimal(value as nat));
    result
}

/// The decimal notation of an integer.
pub fn format_i64(value: i64) -> (result: String)
    ensures
        result@ == signed_decimal(value as int),
{
    if value >= 0 {
        format_u64(value as u64)
    } else {
        let mut result = String::new();
        result.push('-');
        let magnitude: u64 = if value == i64::MIN {
            0x8000_0000_0000_0000
        } else {
            (-value) as u64
        };
        push_decimal(magnitude as u128, &mut result);
        assert(Seq::<char>::empty().push('-') =~= seq!['-']);
        result
    }
}

/// Reads the digits from position `from` on as a number of at most `max`.
pub fn parse_natural(source: &Vec<char>, from: usize, max: u64) -> (result: Option<u64>)
    requires
        from <= source@.len(),
    ensures
        ({
            let body = source@.subrange(from as int, source@.len() as int);
            match result {
                Some(value) => natural(body) == Some(value as nat) && value <= max,
                None => natural(body) is None || natural(body)->0 > max,
            }
        }),
{
    let ghost body = source@.subrange(from as int, source@.len() as int);
    if from >= source.len() {
        return None;
    }
    let mut value: u64 = 0;
    let mut overflow = false;
    let mut i: usize = from;
    while i < source.len()
        invariant
            from <= i <= source@.len(),
            body == source@.subrange(from as int, source@.len() as int),
            text::all_digits(body.take(i - from)),
            !overflow ==> value == value_of(body.take(i - from)) && value <= max,
            overflow ==> value_of(body.take(i - from)) > max,
        decreases source.len() - i,
    {
        let c = source[i];
        assert(c == body[i - from]);
        if c < '0' || c > '9' {
            assert(!text::is_digit(body[i - from]));
            return None;
        }
        let d: u64 = (c as u32 - 48) as u64;
        proof {
            let next = body.take(i + 1 - from);
            assert(next.drop_last() =~= body.take(i - from));
            assert(next.last() == c);
            assert forall|j: int| 0 <= j < next.len() implies text::is_digit(#[trigger] next[j]) by {
                if j < i - from {
                    assert(next[j] == body.take(i - from)[j]);
                }
            }
        }
        if !overflow {
            if max < d || value > (max - d) / 10 {
                overflow = true;
            } else {
                value = value * 10 + d;
            }
        }
        i = i + 1;
    }
    assert(body.take(body.len() as int) =~= body);
    if overflow {
        None
    } else {
        Some(value)
    }
}

/// Reads a natural number of at most `max`, with an optional `+` before it.
pub fn parse_unsigned(input: &str, max: u64) -> (result: Option<u64>)
    ensures
        match result {
            Some(value) => unsigned(input@, max as nat) == Some(value as nat) && value <= max,
            None => unsigned(input@, max as nat) is None,
        },
{
    let source = text::chars(input);
    let from: usize = if source.len() > 0 && source[0] == '+' {
        1
    } else {
        0
    };
    assert(input@.subrange(0, input@.len() as int) =~= input@);
    if from == 1 {
        assert(input@.subrange(1, input@.len() as int) =~= input@.drop_first());
    }
    parse_natural(&source, from, max)
}

/// Reads an integer in the range of `i64`, with an optional sign before it.
pub fn parse_i64(input: &str) -> (result: Option<i64>)
    ensures
        match result {
            Some(value) => signed(input@) == Some(value as int),
            None => signed(input@) is None,
        },
{
    let source = text::chars(input);
    assert(input@.subrange(0, input@.len() as int) =~= input@);
    if source.len() > 0 {
        assert(input@.subrange(1, input@.len() as int) =~= input@.drop_first());
    }
    if source.len() > 0 && source[0] == '-' {
        match parse_natural(&source, 1, 0x8000_0000_0000_0000) {
            None => None,
            Some(value) => {
                if value == 0x8000_0000_0000_0000 {
                    Some(i64::MIN)
                } else {
                    Some(-(value as i64))
                }
            },
        }
    } else {
        let from: usize = if source.len() > 0 && source[0] == '+' {
            1
        } else {
            0
        };
        match parse_natural(&source, from, 0x7fff_ffff_ffff_ffff) {
            None => None,
            Some(value) => Some(value as i64),
        }
    }
}

/// Reading the decimal notation of an `i64` gives the number back.
pub proof fn lemma_signed_round_trip(value: int)
    requires
        i64::MIN <= value <= i64::MAX,
    ensures
        signed(signed_decimal(value)) == Some(value),
{
    let s = signed_decimal(value);
    if value < 0 {
        lemma_decimal_round_trip((-value) as nat);
        assert(s.drop_first() =~= decimal((-value) as nat));
    } else {
        lemma_decimal_round_trip(value as nat);
        assert(text::is_digit(s[0]));
    }
}

/// Reading the decimal notation of a bounded natural number gives the number back.
pub proof fn lemma_unsigned_round_trip(value: nat, max: nat)
    requires
        value <= max,
    ensures
        unsigned(decimal(value), max) == Some(value),
{
    lemma_decimal_round_trip(value);
    assert(text::is_digit(decimal(value)[0]));
}

/// A number of 64 bits is written in at most 20 characters.
pub proof fn lemma_signed_length(value: i64)
    ensures
        signed_decimal(value as int).len() <= 20,
{
    reveal_with_fuel(decimal, 20);
}

} // verus!
