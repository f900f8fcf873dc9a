//! What masks match: `%` any run of characters, `_` any one character, an escaped character itself.

use vstd::prelude::*;

use crate::domain::mask;
use crate::domain::mask::{MaskProblem, MaskToken};

verus! {

/// A text stands in another from a position on, but for case.
pub open spec fn stands_at(literal: Seq<char>, candidate: Seq<char>, at: int) -> bool {
    &&& 0 <= at
    &&& at + literal.len() <= candidate.len()
    &&& forall|i: int|
        0 <= i < literal.len() ==> mask::folds(
            #[trigger] literal[i],
            candidate[at + i],
            mask::same_letter(literal[i], candidate[at + i]),
        )
}

spec fn sameness() -> spec_fn(char, char) -> bool {
    |left: char, right: char| mask::folds(left, right, mask::same_letter(left, right))
}

proof fn lemma_literal_then(literal: Seq<char>, rest: Seq<MaskToken>, candidate: Seq<char>)
    ensures
        mask::covers(mask::literals(literal) + rest, candidate, sameness()) <==> stands_at(
            literal,
            candidate,
            0,
        ) && mask::covers(rest, candidate.skip(literal.len() as int), sameness()),
{
    mask::lemma_literals_cover(literal, rest, candidate, sameness());
    if stands_at(literal, candidate, 0) {
        assert forall|i: int| 0 <= i < literal.len() implies sameness()(
            #[trigger] literal[i],
            candidate[i],
        ) by {
            assert(candidate[0 + i] == candidate[i]);
        }
    }
}

proof fn lemma_tail(tail: Seq<char>, token: MaskToken)
    requires
        tail.len() == 1 && tail[0] == '%' && token == MaskToken::AnyRun || tail.len() == 1 && tail[0]
            == '_' && token == MaskToken::AnyChar || tail.len() == 2 && tail[0] == '\\' && (tail[1]
            == '%' || tail[1] == '_' || tail[1] == '\\') && token == MaskToken::Literal(tail[1]),
    ensures
        mask::tokens_from(tail, 0) == Ok::<_, MaskProblem>(seq![token]),
{
    reveal_with_fuel(mask::tokens_from, 3);
    assert(seq![token] + Seq::<MaskToken>::empty() =~= seq![token]);
}

proof fn lemma_text_then(prefix: Seq<char>, tail: Seq<char>, token: MaskToken, candidate: Seq<char>)
    requires
        mask::is_plain(prefix),
        mask::tokens_from(tail, 0) == Ok::<_, MaskProblem>(seq![token]),
    ensures
        mask::mask_matches(prefix + tail, candidate) <==> stands_at(prefix, candidate, 0)
            && mask::covers(seq![token], candidate.skip(prefix.len() as int), sameness()),
{
    mask::lemma_plain_tokens(prefix, tail, 0);
    assert(prefix.skip(0) =~= prefix);
    lemma_literal_then(prefix, seq![token], candidate);
}

/// A text followed by `%` matches the texts that begin with it, and no others.
pub proof fn law_percent_takes_any_ending(prefix: Seq<char>, candidate: Seq<char>)
    requires
        mask::is_plain(prefix),
    ensures
        mask::mask_matches(prefix + seq!['%'], candidate) <==> stands_at(prefix, candidate, 0),
{
    lemma_tail(seq!['%'], MaskToken::AnyRun);
    lemma_text_then(prefix, seq!['%'], MaskToken::AnyRun, candidate);
    if stands_at(prefix, candidate, 0) {
        let rest = candidate.skip(prefix.len() as int);
        let tokens = seq![MaskToken::AnyRun];
        assert(tokens.drop_first() =~= Seq::<MaskToken>::empty());
        assert(rest.skip(rest.len() as int).len() == 0);
        assert(mask::covers(tokens.drop_first(), rest.skip(rest.len() as int), sameness()));
        assert(mask::covers(tokens, rest, sameness()));
    }
}

/// A text followed by `_` matches the texts that hold it and exactly one character more.
pub proof fn law_underscore_takes_one_character(prefix: Seq<char>, candidate: Seq<char>)
    requires
        mask::is_plain(prefix),
    ensures
        mask::mask_matches(prefix + seq!['_'], candidate) <==> stands_at(prefix, candidate, 0)
            && candidate.len() == prefix.len() + 1,
{
    lemma_tail(seq!['_'], MaskToken::AnyChar);
    lemma_text_then(prefix, seq!['_'], MaskToken::AnyChar, candidate);
    if stands_at(prefix, candidate, 0) {
        let tokens = seq![MaskToken::AnyChar];
        assert(tokens.drop_first() =~= Seq::<MaskToken>::empty());
        reveal_with_fuel(mask::covers, 2);
    }
}

/// An escaped wildcard, and an escaped backslash, matches that very character.
pub proof fn law_escapes_take_themselves(prefix: Seq<char>, escaped: char, candidate: Seq<char>)
    requires
        mask::is_plain(prefix),
        escaped == '%' || escaped == '_' || escaped == '\\',
    ensures
        mask::mask_matches(prefix + seq!['\\', escaped], candidate) <==> stands_at(
            prefix + seq![escaped],
            candidate,
            0,
        ) && candidate.len() == prefix.len() + 1,
{
    let token = MaskToken::Literal(escaped);
    let whole = prefix + seq![escaped];
    lemma_tail(seq!['\\', escaped], token);
    lemma_text_then(prefix, seq!['\\', escaped], token, candidate);
    let tokens = seq![token];
    assert(tokens.drop_first() =~= Seq::<MaskToken>::empty());
    reveal_with_fuel(mask::covers, 2);
    if stands_at(whole, candidate, 0) {
        assert(whole[prefix.len() as int] == escaped);
        assert(candidate.skip(prefix.len() as int)[0] == candidate[0 + prefix.len() as int]);
        assert forall|i: int| 0 <= i < prefix.len() implies mask::folds(
            #[trigger] prefix[i],
            candidate[0 + i],
            mask::same_letter(prefix[i], candidate[0 + i]),
        ) by {
            assert(whole[i] == prefix[i]);
        }
    }
    if mask::mask_matches(prefix + seq!['\\', escaped], candidate) {
        assert(candidate.skip(prefix.len() as int)[0] == candidate[prefix.len() as int]);
        assert forall|i: int| 0 <= i < whole.len() implies mask::folds(
            #[trigger] whole[i],
            candidate[0 + i],
            mask::same_letter(whole[i], candidate[0 + i]),
        ) by {
            if i < prefix.len() {
                assert(whole[i] == prefix[i]);
            }
        }
    }
}

/// A text between two `%` matches the texts that hold it somewhere, and no others.
pub proof fn law_percents_find_a_part(literal: Seq<char>, candidate: Seq<char>)
    requires
        mask::is_plain(literal),
    ensures
        mask::mask_matches(seq!['%'] + literal + seq!['%'], candidate) <==> exists|at: int| #[trigger]
            stands_at(literal, candidate, at),
{
    let source = seq!['%'] + literal + seq!['%'];
    let inner = literal + seq!['%'];
    let ending = seq![MaskToken::AnyRun];
    let tokens = seq![MaskToken::AnyRun] + (mask::literals(literal) + ending);
    lemma_tail(seq!['%'], MaskToken::AnyRun);
    mask::lemma_plain_tokens(literal, seq!['%'], 0);
    assert(literal.skip(0) =~= literal);
    assert(source =~= seq!['%'] + inner);
    mask::lemma_tokens_shift(seq!['%'], inner, 0);
    assert(mask::mask_tokens(source) == Ok::<_, MaskProblem>(tokens));
    assert(tokens.drop_first() =~= mask::literals(literal) + ending);
    assert(ending.drop_first() =~= Seq::<MaskToken>::empty());
    assert forall|rest: Seq<char>| #[trigger] mask::covers(ending, rest, sameness()) by {
        assert(rest.skip(rest.len() as int).len() == 0);
        assert(mask::covers(ending.drop_first(), rest.skip(rest.len() as int), sameness()));
    }
    assert forall|at: int| 0 <= at <= candidate.len() implies mask::covers(
        tokens.drop_first(),
        #[trigger] candidate.skip(at),
        sameness(),
    ) == stands_at(literal, candidate, at) by {
        let part = candidate.skip(at);
        lemma_literal_then(literal, ending, part);
        lemma_stands_later(literal, candidate, at);
    }
    if exists|at: int| #[trigger] stands_at(literal, candidate, at) {
        let at = choose|at: int| #[trigger] stands_at(literal, candidate, at);
        assert(mask::covers(tokens.drop_first(), candidate.skip(at), sameness()));
    }
    if mask::covers(tokens, candidate, sameness()) {
        let k = choose|k: int|
            0 <= k <= candidate.len() && mask::covers(
                tokens.drop_first(),
                #[trigger] candidate.skip(k),
                sameness(),
            );
        assert(stands_at(literal, candidate, k));
    }
}

proof fn lemma_stands_later(literal: Seq<char>, candidate: Seq<char>, at: int)
    requires
        0 <= at <= candidate.len(),
    ensures
        stands_at(literal, candidate.skip(at), 0) == stands_at(literal, candidate, at),
{
    let part = candidate.skip(at);
    if stands_at(literal, part, 0) {
        assert forall|i: int| 0 <= i < literal.len() implies mask::folds(
            #[trigger] literal[i],
            candidate[at + i],
            mask::same_letter(literal[i], candidate[at + i]),
        ) by {
            assert(part[0 + i] == candidate[at + i]);
        }
    }
    if stands_at(literal, candidate, at) {
        assert forall|i: int| 0 <= i < literal.len() implies mask::folds(
            #[trigger] literal[i],
            part[0 + i],
            mask::same_letter(literal[i], part[0 + i]),
        ) by {
            assert(part[0 + i] == candidate[at + i]);
        }
    }
}

} // verus!
