//! Hiding passwords in whatever is logged.

use vstd::prelude::*;
use vstd::string::*;

use crate::domain::auth;
use crate::outcome;
use crate::text;

verus! {

/// What stands in a log for a password.
pub const REDACTED: &'static str = "[REDACTED]";

/// The pattern of an option with a password behind it.
pub const COMMAND_FLAG: &'static str =
    "(?i)(?P<key>--[a-z0-9_-]*(?:password|passwd|pwd))(?P<sep>\\s*=\\s*|\\s+)(?P<value>\"[^\"]*\"|'[^']*'|[^\\s,;)\\]}]+)";

/// The pattern of a field with a password behind it.
pub const NAMED_VALUE: &'static str =
    "(?i)(?P<key>[\"']?(?:password|passwd|pwd)[\"']?)(?P<sep>\\s*[:=]\\s*)(?P<value>\"[^\"]*\"|'[^']*'|[^\\s,;)\\]}]+)";

/// A text cut around a value in it.
pub struct FoundValue {
    pub before: String,
    pub value: String,
    pub after: String,
}

pub struct FoundView {
    pub before: Seq<char>,
    pub value: Seq<char>,
    pub after: Seq<char>,
}

impl View for FoundValue {
    type V = FoundView;

    open spec fn view(&self) -> FoundView {
        FoundView { before: self.before@, value: self.value@, after: self.after@ }
    }
}

/// Where `Regex::captures` finds the group `value` of a pattern in a text for the first time.
pub uninterp spec fn value_found(pattern: Seq<char>, source: Seq<char>) -> Option<FoundView>;

/// Whether a text is cut in three where a value was found.
pub open spec fn is_cut(found: Option<FoundValue>, source: Seq<char>) -> bool {
    found is Some ==> source == found->0@.before + found->0@.value + found->0@.after
}

/// Calls `regex::Regex::captures` and cuts the text around the group `value` of the first match. The
/// result is a function of the pattern and the text alone; the three parts make up the text.
#[verifier::external_body]
fn find_value(pattern: &str, source: &str) -> (result: Option<FoundValue>)
    ensures
        outcome::option_view(result) == value_found(pattern@, source@),
        is_cut(result, source@),
{
    let captures = regex::Regex::new(pattern).ok()?.captures(source)?;
    let group = captures.name("value")?;
    Some(FoundValue {
        before: source.get(..group.start())?.to_owned(),
        value: group.as_str().to_owned(),
        after: source.get(group.end()..)?.to_owned(),
    })
}

/// What is written in place of a value: the marker, in the same quotes.
pub open spec fn mask_of(value: Seq<char>) -> Seq<char> {
    if value.len() > 0 && value[0] == '"' {
        "\""@ + REDACTED@ + "\""@
    } else if value.len() > 0 && value[0] == '\'' {
        "'"@ + REDACTED@ + "'"@
    } else {
        REDACTED@
    }
}

/// Whether a text cannot come from the mask of a value: it has neither brackets nor quotes, and the word
/// in the brackets does not hold it.
pub open spec fn is_unlike_masks(needle: Seq<char>) -> bool {
    &&& !needle.contains('[')
    &&& !needle.contains(']')
    &&& !needle.contains('"')
    &&& !needle.contains('\'')
    &&& !text::contains("REDACTED"@, needle)
}

/// Whether a text holds nothing new, but for what may come from the mask of a value.
pub open spec fn adds_nothing(result: Seq<char>, source: Seq<char>) -> bool {
    forall|needle: Seq<char>|
        needle.len() > 0 && is_unlike_masks(needle) && #[trigger] text::contains(
            result,
            needle,
        ) ==> text::contains(source, needle)
}

/// The text with every value of the pattern masked.
pub open spec fn values_masked(pattern: Seq<char>, source: Seq<char>) -> Seq<char>
    decreases source.len(),
{
    match value_found(pattern, source) {
        Some(found) if found.value.len() > 0 && found.after.len() < source.len() => found.before
            + mask_of(found.value) + values_masked(pattern, found.after),
        _ => source,
    }
}

/// What is written in place of a value.
pub fn mask_value(value: &str) -> (result: String)
    ensures
        result@ == mask_of(value@),
{
    let source = text::chars(value);
    if source.len() > 0 && source[0] == '"' {
        let mut result = "\"".to_owned();
        result.push_str(REDACTED);
        result.push_str("\"");
        result
    } else if source.len() > 0 && source[0] == '\'' {
        let mut result = "'".to_owned();
        result.push_str(REDACTED);
        result.push_str("'");
        result
    } else {
        REDACTED.to_owned()
    }
}

proof fn lemma_masked_join(head: Seq<char>, mask: Seq<char>, part: Seq<char>, source: Seq<char>)
    requires
        mask.len() == 0 ==> head.len() == 0,
        mask.len() > 0 ==> exists|value: Seq<char>| mask == #[trigger] mask_of(value),
        adds_nothing(head, source),
        adds_nothing(part, source),
    ensures
        adds_nothing(head + mask + part, source),
{
    assert forall|needle: Seq<char>|
        needle.len() > 0 && is_unlike_masks(needle) && #[trigger] text::contains(
            head + mask + part,
            needle,
        ) implies text::contains(source, needle) by {
        if mask.len() == 0 {
            assert(head + mask + part =~= part);
        } else {
            let value = choose|value: Seq<char>| mask == #[trigger] mask_of(value);
            lemma_mask(value, needle);
            text::lemma_marker_separates(head, mask, part, needle);
        }
    }
}

proof fn lemma_part_adds_nothing(source: Seq<char>, from: int, to: int)
    requires
        0 <= from <= to <= source.len(),
    ensures
        adds_nothing(source.subrange(from, to), source),
{
    assert forall|needle: Seq<char>|
        needle.len() > 0 && is_unlike_masks(needle) && #[trigger] text::contains(
            source.subrange(from, to),
            needle,
        ) implies text::contains(source, needle) by {
        text::lemma_contains_part(source, from, to, needle);
    }
}

fn redact_matches(pattern: &str, source: &str) -> (result: String)
    ensures
        result@ == values_masked(pattern@, source@),
        adds_nothing(result@, source@),
{
    let mut result = String::new();
    let mut rest = source.to_owned();
    let ghost mut head = Seq::<char>::empty();
    let ghost mut mask = Seq::<char>::empty();
    let ghost mut consumed: int = 0;
    assert(Seq::<char>::empty() + values_masked(pattern@, source@) =~= values_masked(
        pattern@,
        source@,
    ));
    assert(source@.skip(0) =~= source@);
    loop
        invariant
            result@ + values_masked(pattern@, rest@) == values_masked(pattern@, source@),
            result@ == head + mask,
            mask.len() == 0 ==> head.len() == 0,
            mask.len() > 0 ==> exists|value: Seq<char>| mask == #[trigger] mask_of(value),
            adds_nothing(head, source@),
            0 <= consumed <= source@.len(),
            rest@ == source@.skip(consumed),
        decreases rest@.len(),
    {
        let ghost done = result@;
        proof {
            lemma_part_adds_nothing(source@, consumed, source@.len() as int);
            assert(source@.subrange(consumed, source@.len() as int) =~= rest@);
            lemma_masked_join(head, mask, rest@, source@);
        }
        match find_value(pattern, rest.as_str()) {
            Some(found) => {
                if found.value.as_str().is_empty() {
                    result.push_str(rest.as_str());
                    return result;
                }
                let ghost size = found.before@.len() as int;
                let ghost width = found.value@.len() as int;
                proof {
                    lemma_part_adds_nothing(source@, consumed, consumed + size);
                    assert(source@.subrange(consumed, consumed + size) =~= found.before@);
                    lemma_masked_join(head, mask, found.before@, source@);
                    lemma_mask_is_not_empty(found.value@);
                }
                result.push_str(found.before.as_str());
                let shown = mask_value(found.value.as_str());
                result.push_str(shown.as_str());
                let ghost tail = values_masked(pattern@, found.after@);
                assert(done + (found.before@ + mask_of(found.value@) + tail) =~= done
                    + found.before@ + mask_of(found.value@) + tail);
                proof {
                    head = head + mask + found.before@;
                    mask = shown@;
                    assert(rest@.skip(size + width) =~= found.after@);
                    assert(source@.skip(consumed).skip(size + width) =~= source@.skip(
                        consumed + size + width,
                    ));
                    consumed = consumed + size + width;
                }
                rest = found.after;
            },
            None => {
                result.push_str(rest.as_str());
                return result;
            },
        }
    }
}

proof fn lemma_mask_is_not_empty(value: Seq<char>)
    ensures
        mask_of(value).len() > 0,
{
    reveal_strlit("[REDACTED]");
}

/// The text with every registered secret replaced, in the order of the list.
pub open spec fn secrets_replaced(secrets: Seq<Seq<char>>, source: Seq<char>, count: int) -> Seq<char>
    decreases count,
{
    if count <= 0 {
        source
    } else {
        text::substituted(
            secrets_replaced(secrets, source, count - 1),
            secrets[count - 1],
            REDACTED@,
            0,
        )
    }
}

/// The text as it may be logged: without the registered secrets, without the values of password
/// options and without those of password fields.
pub open spec fn redacted(secrets: Seq<Seq<char>>, source: Seq<char>) -> Seq<char> {
    values_masked(
        NAMED_VALUE@,
        values_masked(COMMAND_FLAG@, secrets_replaced(secrets, source, secrets.len() as int)),
    )
}

/// Where a secret is put: before the first that is shorter.
pub open spec fn place_for(secrets: Seq<Seq<char>>, secret: Seq<char>, from: int) -> int
    decreases secrets.len() - from,
{
    if from >= secrets.len() {
        secrets.len() as int
    } else if text::byte_len(secrets[from]) < text::byte_len(secret) {
        from
    } else {
        place_for(secrets, secret, from + 1)
    }
}

/// The secrets with one more; an empty one and one that is known already change nothing.
pub open spec fn registered(secrets: Seq<Seq<char>>, secret: Seq<char>) -> Seq<Seq<char>> {
    if secret.len() == 0 || secrets.contains(secret) {
        secrets
    } else {
        secrets.insert(place_for(secrets, secret, 0), secret)
    }
}

/// The first `count` secrets of a list, registered one after another.
pub open spec fn all_registered(list: Seq<Seq<char>>, count: int) -> Seq<Seq<char>>
    decreases count,
{
    if count <= 0 {
        Seq::empty()
    } else {
        registered(all_registered(list, count - 1), list[count - 1])
    }
}

/// A secret that must not be logged.
struct SecretValue {
    value: String,
}

impl View for SecretValue {
    type V = Seq<char>;

    closed spec fn view(&self) -> Seq<char> {
        self.value@
    }
}

/// A secret that is no longer registered is overwritten.
impl Drop for SecretValue {
    fn drop(&mut self)
        opens_invariants none
        no_unwind
    {
        auth::wipe(&mut self.value);
    }
}

spec fn secret_views(secrets: Seq<SecretValue>) -> Seq<Seq<char>> {
    secrets.map_values(|secret: SecretValue| secret@)
}

/// The secrets that must not be logged, the longest first.
pub struct SecretRedactor {
    secrets: Vec<SecretValue>,
}

impl View for SecretRedactor {
    type V = Seq<Seq<char>>;

    closed spec fn view(&self) -> Seq<Seq<char>> {
        secret_views(self.secrets@)
    }
}

impl SecretRedactor {
    #[verifier::type_invariant]
    spec fn none_is_empty(self) -> bool {
        forall|i: int| 0 <= i < self.secrets@.len() ==> (#[trigger] self.secrets@[i])@.len() > 0
    }

    pub fn new() -> (result: Self)
        ensures
            result@ == Seq::<Seq<char>>::empty(),
    {
        let result = SecretRedactor { secrets: Vec::new() };
        assert(result@ =~= Seq::<Seq<char>>::empty());
        result
    }

    fn knows(&self, secret: &str) -> (result: bool)
        ensures
            result == self@.contains(secret@),
    {
        let mut i: usize = 0;
        while i < self.secrets.len()
            invariant
                i <= self.secrets.len(),
                forall|j: int| 0 <= j < i ==> #[trigger] self@[j] != secret@,
            decreases self.secrets.len() - i,
        {
            assert(self@[i as int] == self.secrets@[i as int]@);
            if text::same(self.secrets[i].value.as_str(), secret) {
                return true;
            }
            i = i + 1;
        }
        false
    }

    /// Registers a secret; tells whether it is a new one. Longer secrets come first, since one may be
    /// the beginning of another.
    pub fn register_secret(&mut self, secret: &str) -> (result: bool)
        ensures
            result == (secret@.len() > 0 && !old(self)@.contains(secret@)),
            final(self)@ == registered(old(self)@, secret@),
    {
        if secret.is_empty() || self.knows(secret) {
            return false;
        }
        proof {
            use_type_invariant(&*self);
        }
        let ghost before = self@;
        let mut secrets: Vec<SecretValue> = Vec::new();
        std::mem::swap(&mut secrets, &mut self.secrets);
        let ghost held = secrets@;
        let size: usize = secret.as_bytes().len();
        let mut at: usize = 0;
        while at < secrets.len() && secrets[at].value.as_str().as_bytes().len() >= size
            invariant
                at <= secrets.len(),
                before == secret_views(secrets@),
                size == text::byte_len(secret@),
                place_for(before, secret@, 0) == place_for(before, secret@, at as int),
            decreases secrets.len() - at,
        {
            assert(before[at as int] == secrets@[at as int]@);
            at = at + 1;
        }
        proof {
            if at < secrets.len() {
                assert(before[at as int] == secrets@[at as int]@);
            }
        }
        secrets.insert(at, SecretValue { value: secret.to_owned() });
        assert(secret_views(secrets@) =~= before.insert(at as int, secret@));
        assert forall|i: int| 0 <= i < secrets@.len() implies (#[trigger] secrets@[i])@.len() > 0 by {
            if i < at {
                assert(secrets@[i] == held[i]);
            } else if i > at {
                assert(secrets@[i] == held[i - 1]);
            }
        }
        self.secrets = secrets;
        true
    }

    /// A redactor with the given secrets.
    pub fn with_secrets(secrets: &[&str]) -> (result: Self)
        ensures
            result@ == all_registered(text::str_views(secrets@), secrets@.len() as int),
    {
        let ghost list = text::str_views(secrets@);
        let mut redactor = SecretRedactor::new();
        let mut i: usize = 0;
        while i < secrets.len()
            invariant
                i <= secrets@.len(),
                list == text::str_views(secrets@),
                redactor@ == all_registered(list, i as int),
            decreases secrets.len() - i,
        {
            assert(list[i as int] == secrets@[i as int]@);
            let _ = redactor.register_secret(secrets[i]);
            i = i + 1;
        }
        redactor
    }

    pub fn clear_secrets(&mut self)
        ensures
            final(self)@ == Seq::<Seq<char>>::empty(),
    {
        self.secrets = Vec::new();
        assert(self@ =~= Seq::<Seq<char>>::empty());
    }

    /// How many secrets are registered.
    pub fn secret_count(&self) -> (result: usize)
        ensures
            result == self@.len(),
    {
        self.secrets.len()
    }

    /// The text as it may be logged. A registered secret is gone from it, unless it may come from what
    /// is written in its place, and nothing of the kind is in it that was not in the text.
    pub fn redact(&self, value: &str) -> (result: String)
        ensures
            result@ == redacted(self@, value@),
            adds_nothing(result@, value@),
            forall|secret: Seq<char>|
                self@.contains(secret) && is_unlike_masks(secret)
                    ==> !#[trigger] text::contains(result@, secret),
    {
        proof {
            use_type_invariant(self);
        }
        let mut hidden = value.to_owned();
        let mut i: usize = 0;
        while i < self.secrets.len()
            invariant
                i <= self.secrets.len(),
                forall|j: int|
                    0 <= j < self.secrets@.len() ==> (#[trigger] self.secrets@[j])@.len() > 0,
                hidden@ == secrets_replaced(self@, value@, i as int),
            decreases self.secrets.len() - i,
        {
            assert(self@[i as int] == self.secrets@[i as int]@);
            hidden = text::replace_text(hidden.as_str(), self.secrets[i].value.as_str(), REDACTED);
            i = i + 1;
        }
        let flags = redact_matches(COMMAND_FLAG, hidden.as_str());
        let result = redact_matches(NAMED_VALUE, flags.as_str());
        proof {
            assert forall|i: int| 0 <= i < self@.len() implies (#[trigger] self@[i]).len() > 0 by {
                assert(self@[i] == self.secrets@[i]@);
            }
            assert forall|needle: Seq<char>|
                needle.len() > 0 && is_unlike_masks(needle) && #[trigger] text::contains(
                    result@,
                    needle,
                ) implies text::contains(value@, needle) && !self@.contains(needle) by {
                assert(text::contains(flags@, needle));
                assert(text::contains(hidden@, needle));
                lemma_secrets_replaced(self@, value@, self@.len() as int, needle);
                if self@.contains(needle) {
                    let i = choose|i: int| 0 <= i < self@.len() && self@[i] == needle;
                    assert(self@[i] == needle);
                }
            }
            assert forall|secret: Seq<char>|
                self@.contains(secret) && is_unlike_masks(secret) implies
                !#[trigger] text::contains(result@, secret) by {
                let i = choose|i: int| 0 <= i < self@.len() && self@[i] == secret;
                assert(self@[i].len() > 0);
            }
        }
        result
    }

    pub fn redact_string(&self, value: &str) -> (result: String)
        ensures
            result@ == redacted(self@, value@),
    {
        self.redact(value)
    }

    /// What a log may show of the redactor: the number of its secrets.
    pub fn debug_text(&self) -> (result: String)
        ensures
            result@ == "SecretRedactor { registered_secret_count: "@ + crate::number::decimal(
                self@.len(),
            ) + ", .. }"@,
    {
        let mut result = "SecretRedactor { registered_secret_count: ".to_owned();
        result.push_str(crate::number::format_u64(self.secrets.len() as u64).as_str());
        result.push_str(", .. }");
        result
    }
}

/// Whether the secrets stand with the longest first.
pub open spec fn longest_first(secrets: Seq<Seq<char>>) -> bool {
    forall|i: int, j: int|
        #![trigger secrets[i], secrets[j]]
        0 <= i < j < secrets.len() ==> text::byte_len(secrets[i]) >= text::byte_len(secrets[j])
}

proof fn lemma_place_for(secrets: Seq<Seq<char>>, secret: Seq<char>, from: int)
    requires
        0 <= from <= secrets.len(),
    ensures
        from <= place_for(secrets, secret, from) <= secrets.len(),
        forall|i: int|
            from <= i < place_for(secrets, secret, from) ==> text::byte_len(#[trigger] secrets[i])
                >= text::byte_len(secret),
        place_for(secrets, secret, from) < secrets.len() ==> text::byte_len(
            secrets[place_for(secrets, secret, from)],
        ) < text::byte_len(secret),
    decreases secrets.len() - from,
{
    if from < secrets.len() && text::byte_len(secrets[from]) >= text::byte_len(secret) {
        lemma_place_for(secrets, secret, from + 1);
    }
}

/// Registering a secret keeps the longest first and every known secret registered, and registers the
/// secret unless it is empty.
pub proof fn law_longest_secrets_come_first(
    secrets: Seq<Seq<char>>,
    secret: Seq<char>,
    known: Seq<char>,
)
    requires
        longest_first(secrets),
    ensures
        longest_first(registered(secrets, secret)),
        secret.len() > 0 ==> registered(secrets, secret).contains(secret),
        secrets.contains(known) ==> registered(secrets, secret).contains(known),
{
    if secret.len() > 0 && !secrets.contains(secret) {
        lemma_place_for(secrets, secret, 0);
        let at = place_for(secrets, secret, 0);
        let after = secrets.insert(at, secret);
        assert(after[at] == secret);
        assert forall|i: int, j: int|
            #![trigger after[i], after[j]]
            0 <= i < j < after.len() implies text::byte_len(after[i]) >= text::byte_len(after[j]) by {
            if i < at {
                assert(after[i] == secrets[i]);
            } else if i > at {
                assert(after[i] == secrets[i - 1]);
            }
            if j < at {
                assert(after[j] == secrets[j]);
            } else if j > at {
                assert(after[j] == secrets[j - 1]);
                if i == at {
                    assert(text::byte_len(secrets[at]) < text::byte_len(secret));
                    assert(text::byte_len(secrets[j - 1]) <= text::byte_len(secrets[at]));
                }
            }
        }
        if secrets.contains(known) {
            let i = choose|i: int| 0 <= i < secrets.len() && secrets[i] == known;
            if i < at {
                assert(after[i] == known);
            } else {
                assert(after[i + 1] == known);
            }
        }
    }
}

/// A text inside of brackets that holds neither of them is a part of what they enclose.
proof fn lemma_inside(mask: Seq<char>, edge: int, needle: Seq<char>)
    requires
        0 < edge,
        mask.len() == 8 + 2 * edge,
        mask.subrange(edge, edge + 8) == "REDACTED"@,
        needle.len() > 0,
        is_unlike_masks(needle),
        forall|j: int|
            0 <= j < mask.len() && !(edge <= j < edge + 8) ==> !needle.contains(#[trigger] mask[j]),
    ensures
        !text::contains(mask, needle),
{
    if text::contains(mask, needle) {
        let n = needle.len() as int;
        let i = choose|i: int|
            0 <= i <= mask.len() - n && #[trigger] mask.subrange(i, i + n) == needle;
        assert(mask.subrange(i, i + n)[0] == mask[i]);
        assert(needle.contains(mask[i]));
        assert(mask.subrange(i, i + n)[n - 1] == mask[i + n - 1]);
        assert(needle.contains(mask[i + n - 1]));
        assert(edge <= i && i + n - 1 < edge + 8);
        assert(mask.subrange(edge, edge + 8).subrange(i - edge, i - edge + n) =~= mask.subrange(
            i,
            i + n,
        ));
        reveal_strlit("REDACTED");
    }
}

proof fn lemma_mask(value: Seq<char>, needle: Seq<char>)
    requires
        needle.len() > 0,
        is_unlike_masks(needle),
    ensures
        mask_of(value).len() > 0,
        text::apart(needle, mask_of(value)),
        text::apart(needle, REDACTED@),
        REDACTED@.len() > 0,
{
    reveal_strlit("\"");
    reveal_strlit("'");
    reveal_strlit("[REDACTED]");
    reveal_strlit("REDACTED");
    assert(REDACTED@.subrange(1, 9) =~= "REDACTED"@);
    lemma_inside(REDACTED@, 1, needle);
    if value.len() > 0 && (value[0] == '"' || value[0] == '\'') {
        let mask = mask_of(value);
        assert(mask.subrange(2, 10) =~= "REDACTED"@);
        lemma_inside(mask, 2, needle);
    }
}

proof fn lemma_secrets_replaced(
    secrets: Seq<Seq<char>>,
    source: Seq<char>,
    count: int,
    needle: Seq<char>,
)
    requires
        0 <= count <= secrets.len(),
        forall|i: int| 0 <= i < secrets.len() ==> (#[trigger] secrets[i]).len() > 0,
        needle.len() > 0,
        is_unlike_masks(needle),
        text::contains(secrets_replaced(secrets, source, count), needle),
    ensures
        text::contains(source, needle),
        forall|i: int| 0 <= i < count ==> #[trigger] secrets[i] != needle,
    decreases count,
{
    if count > 0 {
        let before = secrets_replaced(secrets, source, count - 1);
        lemma_mask(Seq::empty(), needle);
        text::lemma_substituted(before, secrets[count - 1], REDACTED@, 0, needle);
        assert(before.skip(0) =~= before);
        lemma_secrets_replaced(secrets, source, count - 1, needle);
    }
}

/// A flag without the dashes and slashes before it, with dashes for underscores, in lower case.
pub open spec fn bare_flag(flag: Seq<char>) -> Seq<char>
    decreases flag.len(),
{
    if flag.len() > 0 && (flag[0] == '-' || flag[0] == '/') {
        bare_flag(flag.drop_first())
    } else {
        text::lower(text::replaced(flag, '_', '-'))
    }
}

/// Whether a flag takes a password.
pub open spec fn takes_password(flag: Seq<char>) -> bool {
    let name = bare_flag(flag);
    ||| name == "password"@
    ||| name == "passwd"@
    ||| name == "pwd"@
    ||| "-password"@.is_suffix_of(name)
    ||| "-passwd"@.is_suffix_of(name)
    ||| "-pwd"@.is_suffix_of(name)
}

fn ends_with(name: &str, suffix: &str) -> (result: bool)
    ensures
        result == suffix@.is_suffix_of(name@),
{
    let source = text::chars(name);
    let tail = text::chars(suffix);
    if source.len() < tail.len() {
        return false;
    }
    let at: usize = source.len() - tail.len();
    let found = text::occurs_at(&source, &tail, at);
    assert(suffix@.is_suffix_of(name@) <==> name@.subrange(at as int, name@.len() as int)
        =~= suffix@);
    found
}

/// Whether a flag takes a password: `password`, `passwd`, `pwd`, or a name that ends with one of
/// them behind a dash.
pub fn is_password_flag(flag: &str) -> (result: bool)
    ensures
        result == takes_password(flag@),
{
    let source = text::chars(flag);
    let mut from: usize = 0;
    assert(flag@.skip(0) =~= flag@);
    while from < source.len() && (source[from] == '-' || source[from] == '/')
        invariant
            source@ == flag@,
            from <= source.len(),
            bare_flag(flag@) == bare_flag(flag@.skip(from as int)),
        decreases source.len() - from,
    {
        assert(flag@.skip(from as int).drop_first() =~= flag@.skip(from + 1));
        from = from + 1;
    }
    let bare = text::text_of(&source, from, source.len());
    assert(bare@ =~= flag@.skip(from as int));
    let dashed = text::replace_char(bare.as_str(), '_', '-');
    let lowered = text::to_ascii_lowercase(dashed.as_str());
    let name = lowered.as_str();
    text::same(name, "password") || text::same(name, "passwd") || text::same(name, "pwd")
        || ends_with(name, "-password") || ends_with(name, "-passwd") || ends_with(name, "-pwd")
}

/// The flag of `flag=value`, if the argument has that form and the flag takes a password.
pub open spec fn assigned_flag(argument: Seq<char>) -> Option<Seq<char>> {
    let at = text::first_index(argument, '=', 0);
    if at < argument.len() && takes_password(argument.take(at)) {
        Some(argument.take(at))
    } else {
        None
    }
}

/// Whether the argument at `i` is the password of the flag before it.
pub open spec fn follows_flag(arguments: Seq<Seq<char>>, i: int) -> bool
    decreases i,
{
    0 < i <= arguments.len() && !follows_flag(arguments, i - 1) && assigned_flag(
        arguments[i - 1],
    ) is None && takes_password(arguments[i - 1])
}

/// One argument as it may be logged.
pub open spec fn logged_argument(
    secrets: Seq<Seq<char>>,
    arguments: Seq<Seq<char>>,
    i: int,
) -> Seq<char> {
    if follows_flag(arguments, i) {
        REDACTED@
    } else {
        match assigned_flag(arguments[i]) {
            Some(flag) => flag + "="@ + REDACTED@,
            None => if takes_password(arguments[i]) {
                arguments[i]
            } else {
                redacted(secrets, arguments[i])
            },
        }
    }
}

/// The arguments as they may be logged.
pub open spec fn logged_arguments(secrets: Seq<Seq<char>>, arguments: Seq<Seq<char>>) -> Seq<
    Seq<char>,
> {
    Seq::new(arguments.len(), |i: int| logged_argument(secrets, arguments, i))
}

impl SecretRedactor {
    fn redact_argument(&self, argument: &str, after_flag: bool) -> (result: (String, bool))
        ensures
            result.0@ == (if after_flag {
                REDACTED@
            } else {
                match assigned_flag(argument@) {
                    Some(flag) => flag + "="@ + REDACTED@,
                    None => if takes_password(argument@) {
                        argument@
                    } else {
                        redacted(self@, argument@)
                    },
                }
            }),
            result.1 == (!after_flag && assigned_flag(argument@) is None && takes_password(
                argument@,
            )),
    {
        if after_flag {
            return (REDACTED.to_owned(), false);
        }
        let source = text::chars(argument);
        let at: usize = text::find_char(&source, '=', 0);
        let flag = text::text_of(&source, 0, at);
        assert(flag@ =~= argument@.take(at as int));
        if at < source.len() && is_password_flag(flag.as_str()) {
            let mut shown = flag;
            shown.push_str("=");
            shown.push_str(REDACTED);
            return (shown, false);
        }
        if is_password_flag(argument) {
            return (argument.to_owned(), true);
        }
        (self.redact(argument), false)
    }

    /// The arguments of a command as they may be logged.
    pub fn redact_argv(&self, arguments: &[&str]) -> (result: Vec<String>)
        ensures
            text::views(result@) == logged_arguments(self@, text::str_views(arguments@)),
    {
        let ghost all = text::str_views(arguments@);
        let mut result: Vec<String> = Vec::new();
        let mut after_flag = false;
        let mut i: usize = 0;
        assert(text::views(result@) =~= logged_arguments(self@, all).take(0));
        while i < arguments.len()
            invariant
                i <= arguments@.len(),
                all == text::str_views(arguments@),
                after_flag == follows_flag(all, i as int),
                text::views(result@) == logged_arguments(self@, all).take(i as int),
            decreases arguments.len() - i,
        {
            assert(all[i as int] == arguments@[i as int]@);
            let ghost before = text::views(result@);
            let (shown, hides_next) = self.redact_argument(arguments[i], after_flag);
            let ghost added = shown@;
            result.push(shown);
            assert(text::views(result@) =~= before.push(added));
            assert(added == logged_argument(self@, all, i as int));
            assert(logged_arguments(self@, all).take(i + 1) =~= logged_arguments(self@, all).take(
                i as int,
            ).push(logged_arguments(self@, all)[i as int]));
            after_flag = hides_next;
            i = i + 1;
        }
        assert(logged_arguments(self@, all).take(all.len() as int) =~= logged_arguments(self@, all));
        result
    }

    /// The arguments of a command as they may be logged.
    pub fn redact_argv_lossy(&self, arguments: &[&str]) -> (result: Vec<String>)
        ensures
            text::views(result@) == logged_arguments(self@, text::str_views(arguments@)),
    {
        self.redact_argv(arguments)
    }
}

/// Whether two lists of arguments are the same but for their passwords.
pub open spec fn same_but_passwords(left: Seq<Seq<char>>, right: Seq<Seq<char>>) -> bool {
    &&& left.len() == right.len()
    &&& forall|i: int|
        0 <= i < left.len() ==> #[trigger] left[i] == right[i] || follows_flag(left, i) || (
        assigned_flag(left[i]) is Some && assigned_flag(left[i]) == assigned_flag(right[i]))
}

proof fn lemma_follows_alike(left: Seq<Seq<char>>, right: Seq<Seq<char>>, i: int)
    requires
        same_but_passwords(left, right),
        0 <= i <= left.len(),
    ensures
        follows_flag(left, i) == follows_flag(right, i),
    decreases i,
{
    if i > 0 {
        lemma_follows_alike(left, right, i - 1);
        assert(left[i - 1] == right[i - 1] || follows_flag(left, i - 1) || assigned_flag(
            left[i - 1],
        ) is Some);
    }
}

/// What is logged of a command tells nothing of the passwords in it.
pub proof fn law_logged_arguments_hide_passwords(
    secrets: Seq<Seq<char>>,
    left: Seq<Seq<char>>,
    right: Seq<Seq<char>>,
)
    requires
        same_but_passwords(left, right),
    ensures
        logged_arguments(secrets, left) == logged_arguments(secrets, right),
{
    assert forall|i: int| 0 <= i < left.len() implies logged_arguments(secrets, left)[i]
        == logged_arguments(secrets, right)[i] by {
        lemma_follows_alike(left, right, i);
        assert(left[i] == right[i] || follows_flag(left, i) || assigned_flag(left[i]) is Some);
    }
    assert(logged_arguments(secrets, left) =~= logged_arguments(secrets, right));
}

} // verus!
