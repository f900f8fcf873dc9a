//! SQL-style masks: `%` stands for any run of characters, `_` for any one, `\` escapes.

use vstd::prelude::*;
use vstd::string::*;

use crate::domain::error::{DomainError, DomainErrorView};
use crate::outcome;
use crate::text;

verus! {

pub enum MaskToken {
    AnyRun,
    AnyChar,
    Literal(char),
}

/// A malformed escape: its position in characters, and the character after the backslash.
pub struct MaskProblem {
    pub at: int,
    pub escaped: Option<char>,
}

pub open spec fn prepend(token: MaskToken, rest: Result<Seq<MaskToken>, MaskProblem>) -> Result<
    Seq<MaskToken>,
    MaskProblem,
> {
    match rest {
        Ok(tokens) => Ok(seq![token] + tokens),
        Err(problem) => Err(problem),
    }
}

/// The tokens of a mask from a position on, or its first malformed escape.
pub open spec fn tokens_from(s: Seq<char>, from: int) -> Result<Seq<MaskToken>, MaskProblem>
    decreases s.len() - from,
{
    if from >= s.len() {
        Ok(Seq::empty())
    } else if s[from] == '%' {
        prepend(MaskToken::AnyRun, tokens_from(s, from + 1))
    } else if s[from] == '_' {
        prepend(MaskToken::AnyChar, tokens_from(s, from + 1))
    } else if s[from] == '\\' {
        if from + 1 >= s.len() {
            Err(MaskProblem { at: from, escaped: None })
        } else if s[from + 1] == '%' || s[from + 1] == '_' || s[from + 1] == '\\' {
            prepend(MaskToken::Literal(s[from + 1]), tokens_from(s, from + 2))
        } else {
            Err(MaskProblem { at: from, escaped: Some(s[from + 1]) })
        }
    } else {
        prepend(MaskToken::Literal(s[from]), tokens_from(s, from + 1))
    }
}

pub open spec fn mask_tokens(s: Seq<char>) -> Result<Seq<MaskToken>, MaskProblem> {
    tokens_from(s, 0)
}

/// The characters that a regular expression does not take literally.
pub open spec fn is_meta(c: char) -> bool {
    c == '\\' || c == '.' || c == '+' || c == '*' || c == '?' || c == '(' || c == ')' || c == '|'
        || c == '[' || c == ']' || c == '{' || c == '}' || c == '^' || c == '$' || c == '#' || c
        == '&' || c == '-' || c == '~'
}

pub open spec fn escaped_char(c: char) -> Seq<char> {
    if is_meta(c) {
        seq!['\\', c]
    } else {
        seq![c]
    }
}

/// A literal text with a backslash before every special character.
pub open spec fn escaped(s: Seq<char>) -> Seq<char>
    decreases s.len(),
{
    if s.len() == 0 {
        Seq::empty()
    } else {
        escaped(s.drop_last()) + escaped_char(s.last())
    }
}

pub open spec fn token_expression(token: MaskToken) -> Seq<char> {
    match token {
        MaskToken::AnyRun => "(?s:.*)"@,
        MaskToken::AnyChar => "(?s:.)"@,
        MaskToken::Literal(c) => escaped_char(c),
    }
}

pub open spec fn tokens_expression(tokens: Seq<MaskToken>) -> Seq<char>
    decreases tokens.len(),
{
    if tokens.len() == 0 {
        Seq::empty()
    } else {
        tokens_expression(tokens.drop_last()) + token_expression(tokens.last())
    }
}

/// The regular expression of a mask: case-insensitive and anchored at both ends.
pub open spec fn mask_expression(tokens: Seq<MaskToken>) -> Seq<char> {
    "(?i)\\A"@ + tokens_expression(tokens) + "\\z"@
}

/// What `regex::Regex::new` reports of an expression it refuses; nothing where it accepts it.
pub uninterp spec fn regex_problem(expression: Seq<char>) -> Option<Seq<char>>;

/// Whether `regex::Regex::is_match`, in its case-insensitive mode, takes two different characters
/// for the same letter.
pub uninterp spec fn same_letter(left: char, right: char) -> bool;

pub open spec fn is_ascii(c: char) -> bool {
    c as u32 <= 0x7f
}

/// Case-insensitive equality of characters, given whether they are the same letter. Among ASCII
/// characters it is ASCII case folding.
pub open spec fn folds(left: char, right: char, same: bool) -> bool {
    text::lower_char(left) == text::lower_char(right) || (!(is_ascii(left) && is_ascii(right))
        && same)
}

/// Whether a mask covers the whole of a text.
pub open spec fn covers(
    tokens: Seq<MaskToken>,
    s: Seq<char>,
    same: spec_fn(char, char) -> bool,
) -> bool
    decreases tokens.len(),
{
    if tokens.len() == 0 {
        s.len() == 0
    } else {
        match tokens[0] {
            MaskToken::AnyRun => exists|k: int|
                0 <= k <= s.len() && covers(tokens.drop_first(), #[trigger] s.skip(k), same),
            MaskToken::AnyChar => s.len() > 0 && covers(tokens.drop_first(), s.drop_first(), same),
            MaskToken::Literal(c) => s.len() > 0 && same(c, s[0]) && covers(
                tokens.drop_first(),
                s.drop_first(),
                same,
            ),
        }
    }
}

/// Calls `regex::escape`, which puts a backslash before every special character.
#[verifier::external_body]
fn escape_literal(literal: &str) -> (result: String)
    ensures
        result@ == escaped(literal@),
{
    regex::escape(literal)
}

/// Calls `regex::Regex::new`, which refuses an expression with a message. Whether it does, and with
/// which message, is a function of the expression alone.
#[verifier::external_body]
fn find_regex_problem(expression: &str) -> (result: Option<String>)
    ensures
        match result {
            Some(message) => regex_problem(expression@) == Some(message@),
            None => regex_problem(expression@) is None,
        },
{
    match regex::Regex::new(expression) {
        Ok(_) => None,
        Err(error) => Some(error.to_string()),
    }
}

/// Calls `regex::Regex::is_match`. On the expression of a mask it tells whether the mask covers the
/// candidate: `(?s:.*)` takes any run of characters, `(?s:.)` any one, an escaped character itself
/// in either case, and the anchors leave nothing out.
#[verifier::external_body]
fn regex_is_match(expression: &str, candidate: &str) -> (result: bool)
    ensures
        forall|tokens: Seq<MaskToken>|
            #![trigger mask_expression(tokens)]
            expression@ == mask_expression(tokens) && regex_problem(expression@) is None ==> result
                == covers(
                tokens,
                candidate@,
                |left: char, right: char| folds(left, right, same_letter(left, right)),
            ),
{
    match regex::Regex::new(expression) {
        Ok(compiled) => compiled.is_match(candidate),
        Err(_) => false,
    }
}

pub open spec fn is_wildcard(token: MaskToken) -> bool {
    !(token is Literal)
}

/// Whether a mask holds an unescaped `%` or `_`.
pub open spec fn wildcards(tokens: Seq<MaskToken>) -> bool {
    exists|i: int| 0 <= i < tokens.len() && is_wildcard(#[trigger] tokens[i])
}

/// What is wrong with an escape.
pub open spec fn escape_reason(escaped: Option<char>) -> Seq<char> {
    match escaped {
        Some(c) => "escape `\\"@ + seq![c] + "` не поддерживается; разрешены \\%, \\_ и \\\\"@,
        None => "обратная косая черта без экранируемого символа"@,
    }
}

/// What a mask text stands for: itself, where its escapes are sound and its expression compiles.
pub open spec fn mask_of(input: Seq<char>) -> Result<Seq<char>, DomainErrorView> {
    match mask_tokens(input) {
        Err(problem) => Err(
            DomainErrorView::InvalidMask {
                position: text::byte_len(input.take(problem.at)),
                reason: escape_reason(problem.escaped),
            },
        ),
        Ok(tokens) => match regex_problem(mask_expression(tokens)) {
            Some(message) => Err(
                DomainErrorView::InvalidMask {
                    position: 0,
                    reason: "маска слишком сложна: "@ + message,
                },
            ),
            None => Ok(input),
        },
    }
}

/// Whether the mask with the given text covers a candidate.
pub open spec fn mask_matches(source: Seq<char>, candidate: Seq<char>) -> bool {
    match mask_tokens(source) {
        Ok(tokens) => covers(
            tokens,
            candidate,
            |left: char, right: char| folds(left, right, same_letter(left, right)),
        ),
        Err(_) => false,
    }
}

pub open spec fn literal_token(c: char) -> MaskToken {
    MaskToken::Literal(c)
}

/// The tokens of a text without wildcards.
pub open spec fn literals(s: Seq<char>) -> Seq<MaskToken> {
    Seq::new(s.len(), |i: int| literal_token(s[i]))
}

proof fn lemma_literals_push(base: Seq<MaskToken>, s: Seq<char>, c: char)
    ensures
        base + literals(s.push(c)) == (base + literals(s)).push(MaskToken::Literal(c)),
{
    let more = literals(s.push(c));
    let whole = (base + literals(s)).push(MaskToken::Literal(c));
    assert(more.len() == s.len() + 1);
    assert forall|i: int| 0 <= i < whole.len() implies (base + more)[i] == whole[i] by {
        if base.len() <= i < base.len() + s.len() {
            assert(more[i - base.len()] == literal_token(s.push(c)[i - base.len()]));
        }
    }
    assert(base + more =~= whole);
}

proof fn lemma_literals_expression(base: Seq<MaskToken>, literal: Seq<char>)
    ensures
        tokens_expression(base + literals(literal)) == tokens_expression(base) + escaped(literal),
    decreases literal.len(),
{
    let whole = base + literals(literal);
    if literal.len() == 0 {
        assert(whole =~= base);
        assert(tokens_expression(base) + escaped(literal) =~= tokens_expression(base));
    } else {
        lemma_literals_expression(base, literal.drop_last());
        assert(whole.drop_last() =~= base + literals(literal.drop_last()));
        assert(whole.last() == MaskToken::Literal(literal.last()));
        assert(tokens_expression(whole) =~= tokens_expression(base) + escaped(literal));
    }
}

/// Tokens followed by further tokens, where those can be read.
pub open spec fn after(done: Seq<MaskToken>, rest: Result<Seq<MaskToken>, MaskProblem>) -> Result<
    Seq<MaskToken>,
    MaskProblem,
> {
    match rest {
        Ok(tokens) => Ok(done + tokens),
        Err(problem) => Err(problem),
    }
}

proof fn lemma_after_push(
    done: Seq<MaskToken>,
    token: MaskToken,
    rest: Result<Seq<MaskToken>, MaskProblem>,
)
    ensures
        after(done, prepend(token, rest)) == after(done.push(token), rest),
{
    if let Ok(tokens) = rest {
        assert(done + (seq![token] + tokens) =~= done.push(token) + tokens);
    }
}

fn append_literal(expression: &mut String, literal: &mut String)
    ensures
        final(expression)@ == old(expression)@ + escaped(old(literal)@),
        final(literal)@ == Seq::<char>::empty(),
{
    if !literal.as_str().is_empty() {
        let quoted = escape_literal(literal.as_str());
        expression.push_str(quoted.as_str());
        *literal = String::new();
    } else {
        assert(literal@ =~= Seq::<char>::empty());
        assert(expression@ + escaped(literal@) =~= expression@);
    }
}

/// A compiled SQL-style mask.
#[derive(Debug)]
pub struct SqlMask {
    source: String,
    expression: String,
    has_wildcards: bool,
}

impl View for SqlMask {
    type V = Seq<char>;

    closed spec fn view(&self) -> Seq<char> {
        self.source@
    }
}

impl SqlMask {
    /// Every mask is sound, and its expression and its flag are those of its text.
    #[verifier::type_invariant]
    spec fn well_formed(self) -> bool {
        &&& mask_of(self.source@) is Ok
        &&& mask_tokens(self.source@) is Ok
        &&& self.expression@ == mask_expression(mask_tokens(self.source@)->Ok_0)
        &&& self.has_wildcards == wildcards(mask_tokens(self.source@)->Ok_0)
    }

    pub fn parse(input: &str) -> (result: Result<Self, DomainError>)
        ensures
            outcome::result_view(result) == mask_of(input@),
    {
        let source = text::chars(input);
        let total: usize = input.as_bytes().len();
        let mut expression = "(?i)\\A".to_owned();
        let mut literal = String::new();
        let mut has_wildcards = false;
        let mut position: usize = 0;
        let mut i: usize = 0;
        let ghost mut done: Seq<MaskToken> = Seq::empty();
        let ghost mut base: Seq<MaskToken> = Seq::empty();
        proof {
            assert(input@.take(0) =~= Seq::<char>::empty());
            assert(base + literals(literal@) =~= done);
            assert("(?i)\\A"@ + tokens_expression(base) =~= "(?i)\\A"@);
            match tokens_from(input@, 0) {
                Ok(tokens) => {
                    assert(done + tokens =~= tokens);
                },
                Err(_) => {},
            }
        }
        while i < source.len()
            invariant
                source@ == input@,
                total == text::byte_len(input@),
                i <= source@.len(),
                position == text::byte_len(input@.take(i as int)),
                mask_tokens(input@) == after(done, tokens_from(input@, i as int)),
                done == base + literals(literal@),
                expression@ == "(?i)\\A"@ + tokens_expression(base),
                has_wildcards == wildcards(done),
            decreases source.len() - i,
        {
            let c = source[i];
            let ghost entry = done;
            proof {
                text::lemma_byte_len_take(input@, i as int);
                text::lemma_byte_len_take(input@, i + 1);
                assert(input@.take(i + 1) =~= input@.take(i as int).push(c));
                text::lemma_byte_len_push(input@.take(i as int), c);
            }
            if c == '%' || c == '_' {
                proof {
                    lemma_literals_expression(base, literal@);
                }
                append_literal(&mut expression, &mut literal);
                let ghost before = expression@;
                if c == '%' {
                    expression.push_str("(?s:.*)");
                } else {
                    expression.push_str("(?s:.)");
                }
                has_wildcards = true;
                proof {
                    let token = if c == '%' {
                        MaskToken::AnyRun
                    } else {
                        MaskToken::AnyChar
                    };
                    assert(before =~= "(?i)\\A"@ + tokens_expression(entry));
                    lemma_after_push(entry, token, tokens_from(input@, i + 1));
                    done = entry.push(token);
                    base = done;
                    assert(base.drop_last() =~= entry);
                    assert(expression@ =~= "(?i)\\A"@ + tokens_expression(base));
                    assert(literals(literal@) =~= Seq::<MaskToken>::empty());
                    assert(base + literals(literal@) =~= done);
                    assert(is_wildcard(done[done.len() - 1]));
                }
                position = position + text::utf8_width(c);
                i = i + 1;
            } else if c == '\\' {
                if i + 1 >= source.len() {
                    return Err(
                        DomainError::InvalidMask {
                            position,
                            reason: "обратная косая черта без экранируемого символа".to_owned(),
                        },
                    );
                }
                let escaped = source[i + 1];
                if !(escaped == '%' || escaped == '_' || escaped == '\\') {
                    let mut reason = "escape `\\".to_owned();
                    reason.push(escaped);
                    reason.push_str("` не поддерживается; разрешены \\%, \\_ и \\\\");
                    proof {
                        assert("escape `\\"@.push(escaped) =~= "escape `\\"@ + seq![escaped]);
                    }
                    return Err(DomainError::InvalidMask { position, reason });
                }
                let ghost old_literal = literal@;
                literal.push(escaped);
                proof {
                    text::lemma_byte_len_take(input@, i + 2);
                    assert(input@.take(i + 2) =~= input@.take(i + 1).push(escaped));
                    text::lemma_byte_len_push(input@.take(i + 1), escaped);
                    let token = MaskToken::Literal(escaped);
                    lemma_after_push(entry, token, tokens_from(input@, i + 2));
                    done = entry.push(token);
                    lemma_literals_push(base, old_literal, escaped);
                    Self::lemma_literal_keeps_wildcards(entry, escaped);
                }
                position = position + text::utf8_width(c) + text::utf8_width(escaped);
                i = i + 2;
            } else {
                let ghost old_literal = literal@;
                literal.push(c);
                proof {
                    let token = MaskToken::Literal(c);
                    lemma_after_push(entry, token, tokens_from(input@, i + 1));
                    done = entry.push(token);
                    lemma_literals_push(base, old_literal, c);
                    Self::lemma_literal_keeps_wildcards(entry, c);
                }
                position = position + text::utf8_width(c);
                i = i + 1;
            }
        }
        proof {
            assert(done + Seq::<MaskToken>::empty() =~= done);
            lemma_literals_expression(base, literal@);
        }
        append_literal(&mut expression, &mut literal);
        proof {
            assert(expression@ =~= "(?i)\\A"@ + tokens_expression(done));
        }
        expression.push_str("\\z");
        if let Some(message) = find_regex_problem(expression.as_str()) {
            let mut reason = "маска слишком сложна: ".to_owned();
            reason.push_str(message.as_str());
            return Err(DomainError::InvalidMask { position: 0, reason });
        }
        Ok(SqlMask { source: input.to_owned(), expression, has_wildcards })
    }

    proof fn lemma_literal_keeps_wildcards(tokens: Seq<MaskToken>, c: char)
        ensures
            wildcards(tokens.push(MaskToken::Literal(c))) == wildcards(tokens),
    {
        let more = tokens.push(MaskToken::Literal(c));
        if wildcards(tokens) {
            let i = choose|i: int| 0 <= i < tokens.len() && is_wildcard(#[trigger] tokens[i]);
            assert(is_wildcard(more[i]));
        }
        if wildcards(more) {
            let i = choose|i: int| 0 <= i < more.len() && is_wildcard(#[trigger] more[i]);
            assert(is_wildcard(tokens[i]));
        }
    }

    /// Whether the mask covers the whole candidate, without regard to case.
    pub fn matches(&self, candidate: &str) -> (result: bool)
        ensures
            result == mask_matches(self@, candidate@),
    {
        proof {
            use_type_invariant(self);
        }
        regex_is_match(self.expression.as_str(), candidate)
    }

    pub fn source(&self) -> (result: &str)
        ensures
            result@ == self@,
            mask_of(self@) is Ok,
    {
        proof {
            use_type_invariant(self);
        }
        self.source.as_str()
    }

    pub fn has_wildcards(&self) -> (result: bool)
        ensures
            mask_tokens(self@) matches Ok(tokens) && result == wildcards(tokens),
    {
        proof {
            use_type_invariant(self);
        }
        self.has_wildcards
    }
}

impl Clone for SqlMask {
    fn clone(&self) -> (result: Self)
        ensures
            result == *self,
    {
        proof {
            use_type_invariant(self);
        }
        SqlMask {
            source: self.source.clone(),
            expression: self.expression.clone(),
            has_wildcards: self.has_wildcards,
        }
    }
}

/// A text that holds no wildcard and no backslash.
pub open spec fn is_plain(s: Seq<char>) -> bool {
    forall|i: int| 0 <= i < s.len() ==> #[trigger] s[i] != '%' && s[i] != '_' && s[i] != '\\'
}

/// A text without wildcards stands for itself, whatever follows it.
pub proof fn lemma_plain_tokens(prefix: Seq<char>, tail: Seq<char>, i: int)
    requires
        is_plain(prefix),
        0 <= i <= prefix.len(),
        tokens_from(tail, 0) is Ok,
    ensures
        tokens_from(prefix + tail, i) == after(literals(prefix.skip(i)), tokens_from(tail, 0)),
    decreases prefix.len() - i,
{
    let whole = prefix + tail;
    if i == prefix.len() {
        lemma_tokens_shift(prefix, tail, 0);
        assert(prefix.skip(i) =~= Seq::<char>::empty());
        match tokens_from(tail, 0) {
            Ok(tokens) => {
                assert(literals(prefix.skip(i)) + tokens =~= tokens);
            },
            Err(_) => {},
        }
    } else {
        lemma_plain_tokens(prefix, tail, i + 1);
        assert(whole[i] == prefix[i]);
        assert(literals(prefix.skip(i)) =~= seq![literal_token(prefix[i])] + literals(
            prefix.skip(i + 1),
        ));
        match tokens_from(tail, 0) {
            Ok(tokens) => {
                assert(literals(prefix.skip(i)) + tokens =~= seq![literal_token(prefix[i])] + (
                literals(prefix.skip(i + 1)) + tokens));
            },
            Err(_) => {},
        }
    }
}

/// Tokens do not depend on what stands before them, but for the position of a problem.
pub proof fn lemma_tokens_shift(prefix: Seq<char>, tail: Seq<char>, i: int)
    requires
        0 <= i <= tail.len(),
        tokens_from(tail, i) is Ok,
    ensures
        tokens_from(prefix + tail, prefix.len() + i) == tokens_from(tail, i),
    decreases tail.len() - i,
{
    let whole = prefix + tail;
    if i < tail.len() {
        assert(whole[prefix.len() + i] == tail[i]);
        if tail[i] == '\\' {
            assert(whole[prefix.len() + i + 1] == tail[i + 1]);
            lemma_tokens_shift(prefix, tail, i + 2);
        } else {
            lemma_tokens_shift(prefix, tail, i + 1);
        }
    }
}

/// Literal tokens take their own characters, and what follows them takes the rest.
pub proof fn lemma_literals_cover(
    literal: Seq<char>,
    rest: Seq<MaskToken>,
    s: Seq<char>,
    same: spec_fn(char, char) -> bool,
)
    ensures
        covers(literals(literal) + rest, s, same) <==> s.len() >= literal.len() && (forall|i: int|
            0 <= i < literal.len() ==> same(#[trigger] literal[i], s[i])) && covers(
            rest,
            s.skip(literal.len() as int),
            same,
        ),
    decreases literal.len(),
{
    let tokens = literals(literal) + rest;
    if literal.len() == 0 {
        assert(tokens =~= rest);
        assert(s.skip(0) =~= s);
    } else {
        assert(tokens[0] == literal_token(literal[0]));
        assert(tokens.drop_first() =~= literals(literal.drop_first()) + rest);
        if s.len() > 0 {
            lemma_literals_cover(literal.drop_first(), rest, s.drop_first(), same);
            if s.len() >= literal.len() {
                assert(s.drop_first().skip(literal.len() - 1) =~= s.skip(literal.len() as int));
            }
            assert forall|i: int| 0 <= i < literal.drop_first().len() implies literal.drop_first()[i]
                == literal[i + 1] && (s.len() >= literal.len() ==> s.drop_first()[i] == s[i + 1]) by {}
            if s.len() >= literal.len() && (forall|i: int|
                0 <= i < literal.len() ==> same(#[trigger] literal[i], s[i])) {
                assert forall|i: int| 0 <= i < literal.drop_first().len() implies same(
                    #[trigger] literal.drop_first()[i],
                    s.drop_first()[i],
                ) by {
                    assert(same(literal[i + 1], s[i + 1]));
                }
                assert(same(literal[0], s[0]));
            }
            if covers(tokens, s, same) {
                assert forall|i: int| 0 <= i < literal.len() implies same(
                    #[trigger] literal[i],
                    s[i],
                ) by {
                    if i > 0 {
                        assert(same(literal.drop_first()[i - 1], s.drop_first()[i - 1]));
                    }
                }
            }
        }
    }
}

/// A mask without wildcards matches whole texts only: it matches a candidate exactly where both
/// have the same length and the same characters but for case. In particular it matches its own text
/// and never a longer one that holds it.
pub proof fn law_plain_mask_is_exact(literal: Seq<char>, candidate: Seq<char>)
    requires
        is_plain(literal),
    ensures
        mask_matches(literal, candidate) <==> candidate.len() == literal.len() && (forall|i: int|
            0 <= i < literal.len() ==> folds(
                #[trigger] literal[i],
                candidate[i],
                same_letter(literal[i], candidate[i]),
            )),
        mask_matches(literal, literal),
        candidate.len() > 0 ==> !mask_matches(literal, candidate + literal),
{
    let same = |left: char, right: char| folds(left, right, same_letter(left, right));
    lemma_plain_tokens(literal, Seq::empty(), 0);
    assert(literal + Seq::<char>::empty() =~= literal);
    assert(literal.skip(0) =~= literal);
    assert(mask_tokens(literal) == after(literals(literal), Ok(Seq::<MaskToken>::empty())));
    lemma_literals_cover(literal, Seq::empty(), candidate, same);
    lemma_literals_cover(literal, Seq::empty(), literal, same);
    lemma_literals_cover(literal, Seq::empty(), candidate + literal, same);
}

/// A text followed by `%` matches that text with any ending.
pub proof fn law_percent_matches_any_suffix(prefix: Seq<char>, suffix: Seq<char>)
    requires
        is_plain(prefix),
    ensures
        mask_matches(prefix.push('%'), prefix + suffix),
{
    let same = |left: char, right: char| folds(left, right, same_letter(left, right));
    let tail = seq!['%'];
    assert(prefix.push('%') =~= prefix + tail);
    lemma_plain_tokens(prefix, tail, 0);
    assert(prefix.skip(0) =~= prefix);
    assert(tokens_from(tail, 1) == Ok::<_, MaskProblem>(Seq::<MaskToken>::empty()));
    let rest = seq![MaskToken::AnyRun] + Seq::<MaskToken>::empty();
    assert(tokens_from(tail, 0) == Ok::<_, MaskProblem>(rest));
    lemma_literals_cover(prefix, rest, prefix + suffix, same);
    let remaining = (prefix + suffix).skip(prefix.len() as int);
    assert(rest.drop_first() =~= Seq::<MaskToken>::empty());
    assert(covers(rest.drop_first(), remaining.skip(remaining.len() as int), same));
    assert(covers(rest, remaining, same));
}

} // verus!
