//! Text primitives: characters, splitting, trimming and case folding over `Seq<char>`.

use vstd::prelude::*;
use vstd::string::*;

verus! {

/// `String::push` appends one character to the end of the string.
pub assume_specification[ String::push ](s: &mut String, c: char)
    ensures
        final(s)@ == old(s)@.push(c),
;

/// `String::push_str` appends the characters of `other` to the end of the string.
pub assume_specification[ String::push_str ](s: &mut String, other: &str)
    ensures
        final(s)@ == old(s)@ + other@,
;

/// What `str::to_lowercase` returns: the Unicode lowercase mapping of a text.
pub uninterp spec fn lowercase(text: Seq<char>) -> Seq<char>;

/// The small letters of the Latin and the Russian alphabet.
pub open spec fn is_small_letter(c: char) -> bool {
    'a' <= c <= 'z' || 'а' <= c <= 'я' || c == 'ё'
}

/// Whether every character of a text stands in another or is a small letter.
pub open spec fn made_of(text: Seq<char>, other: Seq<char>) -> bool {
    forall|i: int|
        0 <= i < text.len() ==> other.contains(#[trigger] text[i]) || is_small_letter(text[i])
}

/// Whether a text is in lower case: a text of its characters and of small letters is its own lower case.
pub open spec fn is_lowercase(text: Seq<char>) -> bool {
    forall|other: Seq<char>| made_of(other, text) ==> #[trigger] lowercase(other) == other
}

pub open spec fn is_ascii(text: Seq<char>) -> bool {
    forall|i: int| 0 <= i < text.len() ==> (#[trigger] text[i] as u32) < 0x80
}

/// Calls `str::to_lowercase`, whose result is a function of the text alone. Of an ASCII text it is the
/// ASCII lower case. It is in lower case itself: what has been mapped to lower case has no other lower
/// case, nor has a small letter, and a text of such characters is left as it is.
#[verifier::external_body]
pub(crate) fn to_lowercase(text: &str) -> (result: String)
    ensures
        result@ == lowercase(text@),
        is_lowercase(result@),
        is_ascii(text@) ==> result@ == lower(text@),
{
    text.to_lowercase()
}

/// The characters with the Unicode `White_Space` property.
pub open spec fn is_whitespace(c: char) -> bool {
    ||| 0x9 <= c as u32 <= 0xd
    ||| c as u32 == 0x20
    ||| c as u32 == 0x85
    ||| c as u32 == 0xa0
    ||| c as u32 == 0x1680
    ||| 0x2000 <= c as u32 <= 0x200a
    ||| c as u32 == 0x2028
    ||| c as u32 == 0x2029
    ||| c as u32 == 0x202f
    ||| c as u32 == 0x205f
    ||| c as u32 == 0x3000
}

/// Whether `c` has the Unicode `White_Space` property.
pub fn char_is_whitespace(c: char) -> (result: bool)
    ensures
        result == is_whitespace(c),
{
    let code: u32 = c as u32;
    (0x9 <= code && code <= 0xd) || code == 0x20 || code == 0x85 || code == 0xa0 || code == 0x1680
        || (0x2000 <= code && code <= 0x200a) || code == 0x2028 || code == 0x2029 || code == 0x202f
        || code == 0x205f || code == 0x3000
}

/// The control characters: Unicode general category `Cc`.
pub open spec fn is_control(c: char) -> bool {
    c as u32 <= 0x1f || 0x7f <= c as u32 <= 0x9f
}

/// Whether `c` is a control character.
pub fn char_is_control(c: char) -> (result: bool)
    ensures
        result == is_control(c),
{
    let code: u32 = c as u32;
    code <= 0x1f || (0x7f <= code && code <= 0x9f)
}

pub open spec fn is_digit(c: char) -> bool {
    '0' <= c <= '9'
}

pub open spec fn is_ascii_alphanumeric(c: char) -> bool {
    is_digit(c) || 'a' <= c <= 'z' || 'A' <= c <= 'Z'
}

pub open spec fn all_digits(s: Seq<char>) -> bool {
    forall|i: int| 0 <= i < s.len() ==> is_digit(#[trigger] s[i])
}

/// ASCII lowercase of one character; everything but `A..=Z` stays.
pub open spec fn lower_char(c: char) -> char {
    if 'A' <= c <= 'Z' {
        ((c as u32 + 32) as u32) as char
    } else {
        c
    }
}

/// ASCII lowercase of a text, character by character.
pub open spec fn lower(s: Seq<char>) -> Seq<char> {
    s.map_values(|c: char| lower_char(c))
}

/// Equality without regard to ASCII case.
pub open spec fn same_ignoring_ascii_case(left: Seq<char>, right: Seq<char>) -> bool {
    lower(left) == lower(right)
}

pub fn char_to_ascii_lowercase(c: char) -> (result: char)
    ensures
        result == lower_char(c),
{
    if 'A' <= c && c <= 'Z' {
        (c as u8 + 32) as char
    } else {
        c
    }
}

/// The characters of a text.
pub fn chars(text: &str) -> (result: Vec<char>)
    ensures
        result@ == text@,
{
    let mut result: Vec<char> = Vec::new();
    for c in it: text.chars()
        invariant
            it.seq() == text@,
            result@ == text@.take(it.index() as int),
    {
        proof {
            assert(text@.take(it.index() as int).push(c) =~= text@.take(it.index() + 1));
        }
        result.push(c);
    }
    assert(text@.take(text@.len() as int) =~= text@);
    result
}

/// The text made of the characters at `from..to`.
pub fn text_of(chars: &Vec<char>, from: usize, to: usize) -> (result: String)
    requires
        from <= to <= chars@.len(),
    ensures
        result@ == chars@.subrange(from as int, to as int),
{
    let mut result = String::new();
    let mut i: usize = from;
    while i < to
        invariant
            from <= i <= to <= chars@.len(),
            result@ == chars@.subrange(from as int, i as int),
        decreases to - i,
    {
        assert(chars@.subrange(from as int, i as int).push(chars@[i as int]) =~= chars@.subrange(
            from as int,
            i + 1,
        ));
        result.push(chars[i]);
        i = i + 1;
    }
    result
}

/// Whether two texts are equal.
pub fn same(left: &str, right: &str) -> (result: bool)
    ensures
        result == (left@ == right@),
{
    let a = chars(left);
    let b = chars(right);
    if a.len() != b.len() {
        return false;
    }
    let mut i: usize = 0;
    while i < a.len()
        invariant
            a@ == left@,
            b@ == right@,
            a.len() == b.len(),
            i <= a.len(),
            forall|j: int| 0 <= j < i ==> a@[j] == b@[j],
        decreases a.len() - i,
    {
        if a[i] != b[i] {
            assert(left@[i as int] != right@[i as int]);
            return false;
        }
        i = i + 1;
    }
    assert(left@ =~= right@);
    true
}

/// Whether two texts are equal without regard to ASCII case.
pub fn eq_ignore_ascii_case(left: &str, right: &str) -> (result: bool)
    ensures
        result == same_ignoring_ascii_case(left@, right@),
{
    let a = chars(left);
    let b = chars(right);
    if a.len() != b.len() {
        assert(lower(left@).len() != lower(right@).len());
        return false;
    }
    let mut i: usize = 0;
    while i < a.len()
        invariant
            a@ == left@,
            b@ == right@,
            a.len() == b.len(),
            i <= a.len(),
            forall|j: int| 0 <= j < i ==> lower_char(a@[j]) == lower_char(b@[j]),
        decreases a.len() - i,
    {
        if char_to_ascii_lowercase(a[i]) != char_to_ascii_lowercase(b[i]) {
            assert(lower(left@)[i as int] != lower(right@)[i as int]);
            return false;
        }
        i = i + 1;
    }
    assert(lower(left@) =~= lower(right@));
    true
}

/// ASCII lowercase of a text.
pub fn to_ascii_lowercase(text: &str) -> (result: String)
    ensures
        result@ == lower(text@),
{
    let source = chars(text);
    let mut result = String::new();
    let mut i: usize = 0;
    while i < source.len()
        invariant
            source@ == text@,
            i <= source.len(),
            result@ == lower(text@.take(i as int)),
        decreases source.len() - i,
    {
        assert(lower(text@.take(i + 1)) =~= lower(text@.take(i as int)).push(
            lower_char(text@[i as int]),
        ));
        result.push(char_to_ascii_lowercase(source[i]));
        i = i + 1;
    }
    assert(text@.take(text@.len() as int) =~= text@);
    result
}

/// The first position at or after `from` that holds `c`, or the length where none does.
pub open spec fn first_index(s: Seq<char>, c: char, from: int) -> int
    decreases s.len() - from,
{
    if from >= s.len() {
        s.len() as int
    } else if s[from] == c {
        from
    } else {
        first_index(s, c, from + 1)
    }
}

pub proof fn lemma_first_index(s: Seq<char>, c: char, from: int)
    requires
        0 <= from <= s.len(),
    ensures
        from <= first_index(s, c, from) <= s.len(),
        first_index(s, c, from) < s.len() ==> s[first_index(s, c, from)] == c,
        forall|i: int| from <= i < first_index(s, c, from) ==> s[i] != c,
    decreases s.len() - from,
{
    if from < s.len() && s[from] != c {
        lemma_first_index(s, c, from + 1);
    }
}

/// The first position at or after `from` that holds `c`.
pub fn find_char(chars: &Vec<char>, c: char, from: usize) -> (result: usize)
    requires
        from <= chars@.len(),
    ensures
        result == first_index(chars@, c, from as int),
        from <= result <= chars@.len(),
{
    let mut i: usize = from;
    while i < chars.len() && chars[i] != c
        invariant
            from <= i <= chars@.len(),
            first_index(chars@, c, from as int) == first_index(chars@, c, i as int),
        decreases chars.len() - i,
    {
        i = i + 1;
    }
    i
}

/// Whether the text holds the character.
pub fn contains_char(text: &str, c: char) -> (result: bool)
    ensures
        result == text@.contains(c),
{
    let source = chars(text);
    let position: usize = find_char(&source, c, 0);
    proof {
        lemma_first_index(text@, c, 0);
    }
    position < source.len()
}

/// The pieces of a text between occurrences of `c`; a text without `c` is its only piece.
pub open spec fn split_from(s: Seq<char>, c: char, start: int) -> Seq<Seq<char>>
    decreases s.len() - start,
{
    let end = first_index(s, c, start);
    if start < 0 || start >= s.len() || end < start || end >= s.len() {
        seq![s.subrange(start, s.len() as int)]
    } else {
        seq![s.subrange(start, end)] + split_from(s, c, end + 1)
    }
}

pub open spec fn split(s: Seq<char>, c: char) -> Seq<Seq<char>> {
    split_from(s, c, 0)
}

/// The views of a list of strings.
pub open spec fn views(items: Seq<String>) -> Seq<Seq<char>> {
    items.map_values(|item: String| item@)
}

/// Splits a text at every occurrence of `c`.
pub fn split_text(text: &str, c: char) -> (result: Vec<String>)
    ensures
        views(result@) == split(text@, c),
        result@.len() >= 1,
{
    let source = chars(text);
    let mut result: Vec<String> = Vec::new();
    let mut start: usize = 0;
    loop
        invariant_except_break
            source@ == text@,
            start <= source.len(),
            views(result@) + split_from(text@, c, start as int) == split(text@, c),
        ensures
            views(result@) == split(text@, c),
            result@.len() >= 1,
        decreases source.len() - start,
    {
        let end: usize = find_char(&source, c, start);
        let piece = text_of(&source, start, end);
        let ghost before = views(result@);
        let ghost piece_view = piece@;
        result.push(piece);
        assert(views(result@) =~= before.push(piece_view));
        if end >= source.len() {
            assert(split_from(text@, c, start as int) =~= seq![piece_view]);
            assert(views(result@) =~= before + seq![piece_view]);
            break;
        }
        assert(before + (seq![piece_view] + split_from(text@, c, end + 1)) =~= before.push(
            piece_view,
        ) + split_from(text@, c, end + 1));
        start = end + 1;
    }
    result
}

pub open spec fn trim_start(s: Seq<char>) -> Seq<char>
    decreases s.len(),
{
    if s.len() > 0 && is_whitespace(s[0]) {
        trim_start(s.drop_first())
    } else {
        s
    }
}

pub open spec fn trim_end(s: Seq<char>) -> Seq<char>
    decreases s.len(),
{
    if s.len() > 0 && is_whitespace(s.last()) {
        trim_end(s.drop_last())
    } else {
        s
    }
}

/// A text without leading and trailing whitespace.
pub open spec fn trim(s: Seq<char>) -> Seq<char> {
    trim_end(trim_start(s))
}

/// Removes leading and trailing whitespace.
pub fn trim_text(text: &str) -> (result: String)
    ensures
        result@ == trim(text@),
{
    let source = chars(text);
    let mut from: usize = 0;
    assert(text@.subrange(0, text@.len() as int) =~= text@);
    while from < source.len() && char_is_whitespace(source[from])
        invariant
            source@ == text@,
            from <= source.len(),
            trim_start(text@) == trim_start(text@.subrange(from as int, text@.len() as int)),
        decreases source.len() - from,
    {
        assert(text@.subrange(from as int, text@.len() as int).drop_first() =~= text@.subrange(
            from + 1,
            text@.len() as int,
        ));
        from = from + 1;
    }
    let ghost body = text@.subrange(from as int, text@.len() as int);
    let mut to: usize = source.len();
    while to > from && char_is_whitespace(source[to - 1])
        invariant
            source@ == text@,
            from <= to <= source.len(),
            trim_end(body) == trim_end(text@.subrange(from as int, to as int)),
        decreases to,
    {
        assert(text@.subrange(from as int, to as int).drop_last() =~= text@.subrange(
            from as int,
            to - 1,
        ));
        to = to - 1;
    }
    text_of(&source, from, to)
}

/// Whether `needle` occurs in `haystack` as a run of consecutive characters.
pub open spec fn contains(haystack: Seq<char>, needle: Seq<char>) -> bool {
    exists|i: int|
        0 <= i <= haystack.len() - needle.len() && #[trigger] haystack.subrange(
            i,
            i + needle.len(),
        ) == needle
}

/// Whether `needle` occurs at position `at`.
pub fn occurs_at(haystack: &Vec<char>, needle: &Vec<char>, at: usize) -> (result: bool)
    requires
        at <= haystack@.len(),
    ensures
        result == (at + needle@.len() <= haystack@.len() && haystack@.subrange(
            at as int,
            at + needle@.len(),
        ) == needle@),
{
    if haystack.len() - at < needle.len() {
        return false;
    }
    let mut i: usize = 0;
    while i < needle.len()
        invariant
            i <= needle@.len(),
            at + needle@.len() <= haystack.len(),
            forall|j: int| 0 <= j < i ==> haystack@[at + j] == needle@[j],
        decreases needle.len() - i,
    {
        if haystack[at + i] != needle[i] {
            assert(haystack@.subrange(at as int, at + needle@.len())[i as int] != needle@[i as int]);
            return false;
        }
        i = i + 1;
    }
    assert(haystack@.subrange(at as int, at + needle@.len()) =~= needle@);
    true
}

/// Whether `needle` occurs in `haystack`.
pub fn contains_text(haystack: &str, needle: &str) -> (result: bool)
    ensures
        result == contains(haystack@, needle@),
{
    let hay = chars(haystack);
    let pin = chars(needle);
    let mut at: usize = 0;
    while at < hay.len()
        invariant
            hay@ == haystack@,
            pin@ == needle@,
            at <= hay.len(),
            forall|i: int|
                0 <= i < at && i <= haystack@.len() - needle@.len() ==> #[trigger] haystack@.subrange(
                    i,
                    i + needle@.len(),
                ) != needle@,
        decreases hay.len() - at,
    {
        if occurs_at(&hay, &pin, at) {
            assert(haystack@.subrange(at as int, at + needle@.len()) == needle@);
            return true;
        }
        at = at + 1;
    }
    let found = occurs_at(&hay, &pin, at);
    found
}

/// Whether `text` begins with `prefix`.
pub fn starts_with(text: &str, prefix: &str) -> (result: bool)
    ensures
        result == prefix@.is_prefix_of(text@),
{
    let hay = chars(text);
    let pin = chars(prefix);
    let found = occurs_at(&hay, &pin, 0);
    proof {
        if pin@.len() <= hay@.len() {
            assert(prefix@.is_prefix_of(text@) <==> text@.subrange(0, prefix@.len() as int) =~= prefix@);
        }
    }
    found
}

proof fn lemma_first_index_shift(prefix: Seq<char>, s: Seq<char>, c: char, i: int)
    requires
        0 <= i <= s.len(),
    ensures
        first_index(prefix + s, c, prefix.len() + i) == prefix.len() + first_index(s, c, i),
    decreases s.len() - i,
{
    if i < s.len() {
        assert((prefix + s)[prefix.len() + i] == s[i]);
        if s[i] != c {
            lemma_first_index_shift(prefix, s, c, i + 1);
        }
    }
}

proof fn lemma_split_shift(prefix: Seq<char>, s: Seq<char>, c: char, i: int)
    requires
        0 <= i <= s.len(),
    ensures
        split_from(prefix + s, c, prefix.len() + i) == split_from(s, c, i),
    decreases s.len() - i,
{
    let whole = prefix + s;
    let end = first_index(s, c, i);
    lemma_first_index_shift(prefix, s, c, i);
    lemma_first_index(s, c, i);
    assert(whole.subrange(prefix.len() + i, whole.len() as int) =~= s.subrange(i, s.len() as int));
    if i < s.len() && end < s.len() {
        assert(whole.subrange(prefix.len() + i, prefix.len() + end) =~= s.subrange(i, end));
        lemma_split_shift(prefix, s, c, end + 1);
    }
}

proof fn lemma_first_index_head(head: Seq<char>, c: char, rest: Seq<char>, i: int)
    requires
        !head.contains(c),
        0 <= i <= head.len(),
    ensures
        first_index(head + seq![c] + rest, c, i) == head.len(),
    decreases head.len() - i,
{
    let whole = head + seq![c] + rest;
    if i < head.len() {
        assert(whole[i] == head[i]);
        assert(head.contains(head[i]));
        lemma_first_index_head(head, c, rest, i + 1);
    } else {
        assert(whole[i] == c);
    }
}

/// The first piece ends at the first separator.
pub proof fn lemma_split_head(head: Seq<char>, c: char, rest: Seq<char>)
    requires
        !head.contains(c),
    ensures
        split(head + seq![c] + rest, c) == seq![head] + split(rest, c),
{
    let whole = head + seq![c] + rest;
    lemma_first_index_head(head, c, rest, 0);
    assert(whole.subrange(0, head.len() as int) =~= head);
    assert(whole =~= (head + seq![c]) + rest);
    lemma_split_shift(head + seq![c], rest, c, 0);
}

/// A text without the separator is its only piece.
pub proof fn lemma_split_single(s: Seq<char>, c: char)
    requires
        !s.contains(c),
    ensures
        split(s, c) == seq![s],
{
    lemma_first_index(s, c, 0);
    assert(s.subrange(0, s.len() as int) =~= s);
    if first_index(s, c, 0) < s.len() {
        assert(s.contains(s[first_index(s, c, 0)]));
    }
}

/// The first position at or after `from` where `a` is followed by `b`, or the length where there is
/// none.
pub open spec fn first_pair(s: Seq<char>, a: char, b: char, from: int) -> int
    decreases s.len() - from,
{
    if from + 1 >= s.len() {
        s.len() as int
    } else if s[from] == a && s[from + 1] == b {
        from
    } else {
        first_pair(s, a, b, from + 1)
    }
}

/// Finds the first place where `a` is followed by `b`.
pub fn find_pair(chars: &Vec<char>, a: char, b: char) -> (result: usize)
    ensures
        result == first_pair(chars@, a, b, 0),
        result < chars@.len() ==> result + 2 <= chars@.len(),
        result <= chars@.len(),
{
    let mut at: usize = 0;
    while at < chars.len() && !(chars.len() - at >= 2 && chars[at] == a && chars[at + 1] == b)
        invariant
            at <= chars.len(),
            first_pair(chars@, a, b, 0) == first_pair(chars@, a, b, at as int),
        decreases chars.len() - at,
    {
        at = at + 1;
    }
    at
}

/// A pair is found right after a text that does not hold its first character.
pub proof fn lemma_first_pair_head(head: Seq<char>, a: char, b: char, rest: Seq<char>, i: int)
    requires
        !head.contains(a),
        0 <= i <= head.len(),
    ensures
        first_pair(head + seq![a, b] + rest, a, b, i) == head.len(),
    decreases head.len() - i,
{
    let whole = head + seq![a, b] + rest;
    if i < head.len() {
        assert(whole[i] == head[i]);
        assert(head.contains(head[i]));
        lemma_first_pair_head(head, a, b, rest, i + 1);
    } else {
        assert(whole[i] == a);
        assert(whole[i + 1] == b);
    }
}

/// The first separator stands right after a text that does not hold it.
pub proof fn lemma_first_index_after(head: Seq<char>, c: char, rest: Seq<char>)
    requires
        !head.contains(c),
    ensures
        first_index(head + seq![c] + rest, c, 0) == head.len(),
{
    lemma_first_index_head(head, c, rest, 0);
}

/// How many bytes a text takes in UTF-8.
pub open spec fn byte_len(s: Seq<char>) -> nat {
    vstd::utf8::encode_utf8(s).len()
}

pub open spec fn char_width(c: char) -> nat {
    vstd::utf8::encode_scalar(c as u32).len()
}

/// How many bytes a character takes in UTF-8.
pub fn utf8_width(c: char) -> (result: usize)
    ensures
        result == char_width(c),
        1 <= result <= 4,
{
    let code: u32 = c as u32;
    if code <= 0x7f {
        1
    } else if code <= 0x7ff {
        2
    } else if code <= 0xffff {
        3
    } else {
        4
    }
}

pub proof fn lemma_byte_len_push(s: Seq<char>, c: char)
    ensures
        byte_len(s.push(c)) == byte_len(s) + char_width(c),
    decreases s.len(),
{
    if s.len() == 0 {
        assert(s.push(c).drop_first() =~= Seq::<char>::empty());
        assert(vstd::utf8::encode_utf8(Seq::<char>::empty()).len() == 0);
        assert(s.push(c)[0] == c);
    } else {
        assert(s.push(c).drop_first() =~= s.drop_first().push(c));
        assert(s.push(c)[0] == s[0]);
        lemma_byte_len_push(s.drop_first(), c);
    }
}

pub proof fn lemma_byte_len_take(s: Seq<char>, k: int)
    requires
        0 <= k <= s.len(),
    ensures
        byte_len(s.take(k)) <= byte_len(s),
    decreases s.len() - k,
{
    if k == s.len() {
        assert(s.take(k) =~= s);
    } else {
        assert(s.take(k + 1) =~= s.take(k).push(s[k]));
        lemma_byte_len_push(s.take(k), s[k]);
        lemma_byte_len_take(s, k + 1);
    }
}

proof fn lemma_trim_start(s: Seq<char>)
    ensures
        trim_start(s).len() <= s.len(),
        trim_start(s).len() > 0 ==> !is_whitespace(trim_start(s)[0]),
        trim_start(s).len() > 0 ==> trim_start(s).last() == s.last(),
    decreases s.len(),
{
    if s.len() > 0 && is_whitespace(s[0]) {
        lemma_trim_start(s.drop_first());
    }
}

proof fn lemma_trim_end(s: Seq<char>)
    ensures
        trim_end(s).len() <= s.len(),
        trim_end(s).len() > 0 ==> !is_whitespace(trim_end(s).last()),
        trim_end(s).len() > 0 ==> trim_end(s)[0] == s[0],
    decreases s.len(),
{
    if s.len() > 0 && is_whitespace(s.last()) {
        lemma_trim_end(s.drop_last());
    }
}

/// A trimmed text neither begins nor ends with whitespace, and trimming it again changes nothing.
pub proof fn lemma_trim(s: Seq<char>)
    ensures
        trim(s).len() > 0 ==> !is_whitespace(trim(s)[0]) && !is_whitespace(trim(s).last()),
        trim(trim(s)) == trim(s),
{
    lemma_trim_start(s);
    lemma_trim_end(trim_start(s));
}

/// The views of a list of string slices.
pub open spec fn str_views(items: Seq<&str>) -> Seq<Seq<char>> {
    items.map_values(|item: &str| item@)
}

/// A text with every `from` replaced by `to`.
pub open spec fn replaced(s: Seq<char>, from: char, to: char) -> Seq<char> {
    s.map_values(|c: char| if c == from { to } else { c })
}

/// Replaces every `from` by `to`.
pub fn replace_char(text: &str, from: char, to: char) -> (result: String)
    ensures
        result@ == replaced(text@, from, to),
{
    let source = chars(text);
    let mut result = String::new();
    let mut i: usize = 0;
    while i < source.len()
        invariant
            source@ == text@,
            i <= source.len(),
            result@ == replaced(text@.take(i as int), from, to),
        decreases source.len() - i,
    {
        assert(replaced(text@.take(i + 1), from, to) =~= replaced(text@.take(i as int), from, to).push(
            if text@[i as int] == from { to } else { text@[i as int] },
        ));
        result.push(if source[i] == from { to } else { source[i] });
        i = i + 1;
    }
    assert(text@.take(text@.len() as int) =~= text@);
    result
}

/// Whether one of the needles occurs in the text.
pub open spec fn contains_some(haystack: Seq<char>, needles: Seq<Seq<char>>) -> bool {
    exists|i: int| 0 <= i < needles.len() && contains(haystack, #[trigger] needles[i])
}

/// Whether one of the needles occurs in the text.
pub fn contains_any(haystack: &str, needles: &[&str]) -> (result: bool)
    ensures
        result == contains_some(haystack@, str_views(needles@)),
{
    let mut i: usize = 0;
    while i < needles.len()
        invariant
            i <= needles@.len(),
            forall|j: int|
                0 <= j < i ==> !contains(haystack@, #[trigger] str_views(needles@)[j]),
        decreases needles.len() - i,
    {
        assert(str_views(needles@)[i as int] == needles@[i as int]@);
        if contains_text(haystack, needles[i]) {
            return true;
        }
        i = i + 1;
    }
    false
}

/// Removes leading whitespace.
pub fn trim_start_text(text: &str) -> (result: String)
    ensures
        result@ == trim_start(text@),
{
    let source = chars(text);
    let mut from: usize = 0;
    assert(text@.subrange(0, text@.len() as int) =~= text@);
    while from < source.len() && char_is_whitespace(source[from])
        invariant
            source@ == text@,
            from <= source.len(),
            trim_start(text@) == trim_start(text@.subrange(from as int, text@.len() as int)),
        decreases source.len() - from,
    {
        assert(text@.subrange(from as int, text@.len() as int).drop_first() =~= text@.subrange(
            from + 1,
            text@.len() as int,
        ));
        from = from + 1;
    }
    text_of(&source, from, source.len())
}

/// What follows a prefix.
pub open spec fn without_prefix(s: Seq<char>, prefix: Seq<char>) -> Option<Seq<char>> {
    if prefix.is_prefix_of(s) {
        Some(s.skip(prefix.len() as int))
    } else {
        None
    }
}

/// What follows a prefix, if the text begins with it.
pub fn strip_prefix(text: &str, prefix: &str) -> (result: Option<String>)
    ensures
        crate::outcome::option_view(result) == without_prefix(text@, prefix@),
{
    if starts_with(text, prefix) {
        let source = chars(text);
        let head = chars(prefix);
        let rest = text_of(&source, head.len(), source.len());
        assert(rest@ =~= text@.skip(prefix@.len() as int));
        Some(rest)
    } else {
        None
    }
}

/// A line without the carriage return before its line feed.
pub open spec fn without_return(line: Seq<char>) -> Seq<char> {
    if line.len() > 0 && line.last() == '\r' {
        line.drop_last()
    } else {
        line
    }
}

/// The lines of a text from position `start`: each ends with a line feed, with or without a carriage
/// return before it, or with the text.
pub open spec fn lines_from(s: Seq<char>, start: int) -> Seq<Seq<char>>
    decreases s.len() - start,
{
    let end = first_index(s, '\n', start);
    if start < 0 || start >= s.len() || end < start {
        Seq::empty()
    } else if end >= s.len() {
        seq![s.subrange(start, s.len() as int)]
    } else {
        seq![without_return(s.subrange(start, end))] + lines_from(s, end + 1)
    }
}

pub open spec fn lines(s: Seq<char>) -> Seq<Seq<char>> {
    lines_from(s, 0)
}

/// The lines of a text.
pub fn lines_of(text: &str) -> (result: Vec<String>)
    ensures
        views(result@) == lines(text@),
{
    let source = chars(text);
    let mut result: Vec<String> = Vec::new();
    let mut start: usize = 0;
    assert(views(result@) + lines_from(text@, 0) =~= lines(text@));
    while start < source.len()
        invariant
            source@ == text@,
            start <= source.len(),
            views(result@) + lines_from(text@, start as int) == lines(text@),
        decreases source.len() - start,
    {
        let end: usize = find_char(&source, '\n', start);
        let ghost before = views(result@);
        if end >= source.len() {
            let line = text_of(&source, start, end);
            let ghost added = line@;
            result.push(line);
            assert(views(result@) =~= before.push(added));
            assert(before.push(added) + lines_from(text@, end as int) =~= before + seq![added]);
            start = end;
        } else {
            let stop: usize = if end > start && source[end - 1] == '\r' {
                end - 1
            } else {
                end
            };
            let line = text_of(&source, start, stop);
            let ghost added = line@;
            assert(added =~= without_return(text@.subrange(start as int, end as int)));
            result.push(line);
            assert(views(result@) =~= before.push(added));
            assert(before.push(added) + lines_from(text@, end + 1) =~= before + (seq![added]
                + lines_from(text@, end + 1)));
            start = end + 1;
        }
    }
    assert(views(result@) + lines_from(text@, start as int) =~= views(result@));
    result
}

/// How often `a` followed by `b` occurs from position `from` on, counting no character twice.
pub open spec fn pair_count(s: Seq<char>, a: char, b: char, from: int) -> nat
    decreases s.len() - from,
{
    if from + 1 >= s.len() {
        0
    } else if s[from] == a && s[from + 1] == b {
        1 + pair_count(s, a, b, from + 2)
    } else {
        pair_count(s, a, b, from + 1)
    }
}

/// How often `a` followed by `b` occurs, counting no character twice.
pub fn count_pair(chars: &Vec<char>, a: char, b: char) -> (result: usize)
    ensures
        result == pair_count(chars@, a, b, 0),
        result <= chars@.len(),
{
    let mut count: usize = 0;
    let mut at: usize = 0;
    while at < chars.len() && chars.len() - at >= 2
        invariant
            at <= chars.len(),
            count <= at,
            count + pair_count(chars@, a, b, at as int) == pair_count(chars@, a, b, 0),
        decreases chars.len() - at,
    {
        if chars[at] == a && chars[at + 1] == b {
            count = count + 1;
            at = at + 2;
        } else {
            at = at + 1;
        }
    }
    count
}

/// The first position at or after `from` where `needle` occurs, or one past the length where it does
/// not.
pub open spec fn first_occurrence(s: Seq<char>, needle: Seq<char>, from: int) -> int
    decreases s.len() + 1 - from,
{
    if from + needle.len() > s.len() {
        s.len() as int + 1
    } else if s.subrange(from, from + needle.len()) == needle {
        from
    } else {
        first_occurrence(s, needle, from + 1)
    }
}

/// The first position where `needle` occurs.
pub fn find_text(source: &Vec<char>, needle: &Vec<char>) -> (result: Option<usize>)
    ensures
        match result {
            Some(at) => at == first_occurrence(source@, needle@, 0) && at + needle@.len()
                <= source@.len(),
            None => first_occurrence(source@, needle@, 0) == source@.len() + 1,
        },
{
    let mut at: usize = 0;
    while at < source.len()
        invariant
            at <= source.len(),
            first_occurrence(source@, needle@, 0) == first_occurrence(source@, needle@, at as int),
        decreases source.len() - at,
    {
        if occurs_at(source, needle, at) {
            return Some(at);
        }
        if needle.len() > source.len() - at {
            return None;
        }
        at = at + 1;
    }
    let found = occurs_at(source, needle, at);
    assert(needle@.len() == 0 ==> source@.subrange(at as int, at as int) =~= needle@);
    if found {
        Some(at)
    } else {
        None
    }
}

/// A text without the characters `c` at its beginning.
pub open spec fn trim_char_start(s: Seq<char>, c: char) -> Seq<char>
    decreases s.len(),
{
    if s.len() > 0 && s[0] == c {
        trim_char_start(s.drop_first(), c)
    } else {
        s
    }
}

/// A text without the characters `c` at its end.
pub open spec fn trim_char_end(s: Seq<char>, c: char) -> Seq<char>
    decreases s.len(),
{
    if s.len() > 0 && s.last() == c {
        trim_char_end(s.drop_last(), c)
    } else {
        s
    }
}

fn skip_char(source: &Vec<char>, c: char) -> (result: usize)
    ensures
        result <= source@.len(),
        trim_char_start(source@, c) == source@.subrange(result as int, source@.len() as int),
{
    let mut from: usize = 0;
    assert(source@.subrange(0, source@.len() as int) =~= source@);
    while from < source.len() && source[from] == c
        invariant
            from <= source.len(),
            trim_char_start(source@, c) == trim_char_start(
                source@.subrange(from as int, source@.len() as int),
                c,
            ),
        decreases source.len() - from,
    {
        assert(source@.subrange(from as int, source@.len() as int).drop_first() =~= source@.subrange(
            from + 1,
            source@.len() as int,
        ));
        from = from + 1;
    }
    from
}

/// Removes the characters `c` at both ends.
pub fn trim_char(text: &str, c: char) -> (result: String)
    ensures
        result@ == trim_char_end(trim_char_start(text@, c), c),
{
    let source = chars(text);
    let from: usize = skip_char(&source, c);
    let ghost body = trim_char_start(text@, c);
    let mut to: usize = source.len();
    while to > from && source[to - 1] == c
        invariant
            source@ == text@,
            from <= to <= source.len(),
            trim_char_end(body, c) == trim_char_end(text@.subrange(from as int, to as int), c),
        decreases to,
    {
        assert(text@.subrange(from as int, to as int).drop_last() =~= text@.subrange(
            from as int,
            to - 1,
        ));
        to = to - 1;
    }
    text_of(&source, from, to)
}

/// What the `Debug` of `str` shows: the text in quotes with its special characters escaped.
pub uninterp spec fn shown(text: Seq<char>) -> Seq<char>;

/// Calls the `Debug` of `str`, whose result is a function of the text alone.
#[verifier::external_body]
pub(crate) fn show(text: &str) -> (result: String)
    ensures
        result@ == shown(text@),
{
    format!("{text:?}")
}

/// A text with every occurrence of `needle` from position `from` on replaced, from left to right.
pub open spec fn substituted(s: Seq<char>, needle: Seq<char>, with: Seq<char>, from: int) -> Seq<char>
    decreases s.len() - from,
{
    let at = first_occurrence(s, needle, from);
    if from < 0 || at < from || at + needle.len() > s.len() || needle.len() == 0 {
        s.skip(from)
    } else {
        s.subrange(from, at) + with + substituted(s, needle, with, at + needle.len())
    }
}

fn find_from(source: &Vec<char>, needle: &Vec<char>, from: usize) -> (result: Option<usize>)
    requires
        from <= source@.len(),
        needle@.len() > 0,
    ensures
        match result {
            Some(at) => at == first_occurrence(source@, needle@, from as int) && from <= at && at
                + needle@.len() <= source@.len(),
            None => first_occurrence(source@, needle@, from as int) == source@.len() + 1,
        },
{
    let mut at: usize = from;
    while at < source.len()
        invariant
            from <= at <= source.len(),
            needle@.len() > 0,
            first_occurrence(source@, needle@, from as int) == first_occurrence(
                source@,
                needle@,
                at as int,
            ),
        decreases source.len() - at,
    {
        if occurs_at(source, needle, at) {
            return Some(at);
        }
        if needle.len() > source.len() - at {
            return None;
        }
        at = at + 1;
    }
    None
}

/// Replaces every occurrence of `needle`, from left to right.
pub fn replace_text(text: &str, needle: &str, with: &str) -> (result: String)
    requires
        needle@.len() > 0,
    ensures
        result@ == substituted(text@, needle@, with@, 0),
{
    let source = chars(text);
    let pin = chars(needle);
    let mut result = String::new();
    let mut from: usize = 0;
    assert(Seq::<char>::empty() + substituted(text@, needle@, with@, 0) =~= substituted(
        text@,
        needle@,
        with@,
        0,
    ));
    loop
        invariant
            source@ == text@,
            pin@ == needle@,
            needle@.len() > 0,
            from <= source.len(),
            result@ + substituted(text@, needle@, with@, from as int) == substituted(
                text@,
                needle@,
                with@,
                0,
            ),
        decreases source.len() - from,
    {
        let ghost before = result@;
        match find_from(&source, &pin, from) {
            Some(at) => {
                result.push_str(text_of(&source, from, at).as_str());
                result.push_str(with);
                assert(at + pin.len() <= source.len());
                let ghost piece = text@.subrange(from as int, at as int);
                let ghost rest = substituted(text@, needle@, with@, at + needle@.len());
                assert(before + (piece + with@ + rest) =~= before + piece + with@ + rest);
                from = at + pin.len();
            },
            None => {
                let rest = text_of(&source, from, source.len());
                assert(rest@ =~= text@.skip(from as int));
                result.push_str(rest.as_str());
                return result;
            },
        }
    }
}

/// Whether a text holds neither the first nor the last character of a marker and is no part of it.
pub open spec fn apart(needle: Seq<char>, marker: Seq<char>) -> bool {
    &&& !needle.contains(marker.first())
    &&& !needle.contains(marker.last())
    &&& !contains(marker, needle)
}

/// A needle that is apart from a marker occurs around the marker only on one of its sides.
pub proof fn lemma_marker_separates(
    before: Seq<char>,
    marker: Seq<char>,
    after: Seq<char>,
    needle: Seq<char>,
)
    requires
        marker.len() > 0,
        needle.len() > 0,
        apart(needle, marker),
        contains(before + marker + after, needle),
    ensures
        contains(before, needle) || contains(after, needle),
{
    let whole = before + marker + after;
    let i = choose|i: int|
        0 <= i <= whole.len() - needle.len() && #[trigger] whole.subrange(i, i + needle.len())
            == needle;
    let n = needle.len() as int;
    let a = before.len() as int;
    let m = marker.len() as int;
    if i + n <= a {
        assert(before.subrange(i, i + n) =~= whole.subrange(i, i + n));
    } else if i >= a + m {
        assert(after.subrange(i - a - m, i - a - m + n) =~= whole.subrange(i, i + n));
    } else if i <= a {
        assert(whole[a] == marker.first());
        assert(whole.subrange(i, i + n)[a - i] == whole[a]);
        assert(needle.contains(marker.first()));
    } else if i + n >= a + m {
        assert(whole[a + m - 1] == marker.last());
        assert(whole.subrange(i, i + n)[a + m - 1 - i] == whole[a + m - 1]);
        assert(needle.contains(marker.last()));
    } else {
        assert(marker.subrange(i - a, i - a + n) =~= whole.subrange(i, i + n));
    }
}

/// What occurs in a part of a text occurs in the text.
pub proof fn lemma_contains_part(s: Seq<char>, from: int, to: int, needle: Seq<char>)
    requires
        0 <= from <= to <= s.len(),
        contains(s.subrange(from, to), needle),
    ensures
        contains(s, needle),
{
    let part = s.subrange(from, to);
    let i = choose|i: int|
        0 <= i <= part.len() - needle.len() && #[trigger] part.subrange(i, i + needle.len())
            == needle;
    assert(s.subrange(from + i, from + i + needle.len()) =~= part.subrange(i, i + needle.len()));
}

proof fn lemma_first_occurrence(s: Seq<char>, needle: Seq<char>, from: int)
    requires
        0 <= from <= s.len(),
    ensures
        from <= first_occurrence(s, needle, from) <= s.len() + 1,
        first_occurrence(s, needle, from) <= s.len() ==> first_occurrence(s, needle, from)
            + needle.len() <= s.len(),
        forall|k: int|
            from <= k < first_occurrence(s, needle, from) && k + needle.len() <= s.len()
                ==> #[trigger] s.subrange(k, k + needle.len()) != needle,
    decreases s.len() + 1 - from,
{
    if from + needle.len() <= s.len() && s.subrange(from, from + needle.len()) != needle {
        if from < s.len() {
            lemma_first_occurrence(s, needle, from + 1);
        } else {
            assert(s.subrange(from, from + needle.len()) =~= needle);
        }
    }
}

/// Replacing a text by a marker that a needle is apart from leaves no needle that was not there before,
/// and none at all where it is the needle that is replaced.
pub proof fn lemma_substituted(
    s: Seq<char>,
    replaced_text: Seq<char>,
    marker: Seq<char>,
    from: int,
    needle: Seq<char>,
)
    requires
        0 <= from <= s.len(),
        replaced_text.len() > 0,
        marker.len() > 0,
        needle.len() > 0,
        apart(needle, marker),
        contains(substituted(s, replaced_text, marker, from), needle),
    ensures
        contains(s.skip(from), needle),
        replaced_text != needle,
    decreases s.len() - from,
{
    let at = first_occurrence(s, replaced_text, from);
    lemma_first_occurrence(s, replaced_text, from);
    if at > s.len() {
        assert(substituted(s, replaced_text, marker, from) == s.skip(from));
        if replaced_text == needle {
            let i = choose|i: int|
                0 <= i <= s.skip(from).len() - needle.len() && #[trigger] s.skip(from).subrange(
                    i,
                    i + needle.len(),
                ) == needle;
            assert(s.subrange(from + i, from + i + needle.len()) =~= s.skip(from).subrange(
                i,
                i + needle.len(),
            ));
        }
    } else {
        let next = at + replaced_text.len();
        let piece = s.subrange(from, at);
        let rest = substituted(s, replaced_text, marker, next);
        lemma_marker_separates(piece, marker, rest, needle);
        if contains(rest, needle) {
            lemma_substituted(s, replaced_text, marker, next, needle);
            assert(s.skip(next) =~= s.skip(from).subrange(next - from, s.skip(from).len() as int));
            lemma_contains_part(s.skip(from), next - from, s.skip(from).len() as int, needle);
        } else {
            assert(piece =~= s.skip(from).subrange(0, at - from));
            lemma_contains_part(s.skip(from), 0, at - from, needle);
            if replaced_text == needle {
                let i = choose|i: int|
                    0 <= i <= piece.len() - needle.len() && #[trigger] piece.subrange(
                        i,
                        i + needle.len(),
                    ) == needle;
                assert(s.subrange(from + i, from + i + needle.len()) =~= piece.subrange(
                    i,
                    i + needle.len(),
                ));
            }
        }
    }
}

} // verus!
