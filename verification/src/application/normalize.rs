//! From the records that `rac` prints to typed records. What cannot be read is kept, never lost.

use vstd::prelude::*;
use vstd::string::*;

use crate::domain::entries;
use crate::domain::field_value;
use crate::domain::field_value::{
    extra_get, extra_insert, extra_len, new_extra, ExtraFields, FieldValue, ValueView,
};
use crate::domain::identity;
use crate::domain::identity::{
    ClusterUuid, ConnectionUuid, InfobaseUuid, ProcessUuid, SessionUuid, Uuid,
};
use crate::domain::model;
use crate::domain::model::{
    ClusterSource, ConnectionRecord, DiscoveredCluster, InfobaseRecord, ProcessRecord, SessionRecord,
};
use crate::domain::timestamp;
use crate::domain::timestamp::Timestamp;
use crate::domain::value;
use crate::infrastructure::rac::parser::RacRecord;
use crate::number;
use crate::outcome;
use crate::text;

verus! {

/// Why a record cannot be used.
#[derive(Clone, Debug, PartialEq, Eq)]
pub struct NormalizationError {
    code: &'static str,
    message: String,
}

pub struct NormalizationProblem {
    pub code: Seq<char>,
    pub message: Seq<char>,
}

impl View for NormalizationError {
    type V = NormalizationProblem;

    closed spec fn view(&self) -> NormalizationProblem {
        NormalizationProblem { code: self.code@, message: self.message@ }
    }
}

impl NormalizationError {
    pub fn new(code: &'static str, message: &str) -> (result: Self)
        ensures
            result@ == (NormalizationProblem { code: code@, message: message@ }),
    {
        NormalizationError { code, message: message.to_owned() }
    }

    pub fn code(&self) -> (result: &'static str)
        ensures
            result@ == self@.code,
    {
        self.code
    }

    pub fn message(&self) -> (result: &str)
        ensures
            result@ == self@.message,
    {
        self.message.as_str()
    }

    /// The code and the message in one line.
    pub fn to_text(&self) -> (result: String)
        ensures
            result@ == self@.code + ": "@ + self@.message,
    {
        let mut result = self.code.to_owned();
        result.push_str(": ");
        result.push_str(self.message.as_str());
        result
    }
}

pub type Fields = Seq<(Seq<char>, Seq<char>)>;

pub type Extras = Seq<(Seq<char>, ValueView)>;

pub open spec fn suffixed(base: Seq<char>, suffix: nat) -> Seq<char> {
    base + "_"@ + number::decimal(suffix)
}

/// The first free suffix at or after `suffix`.
pub open spec fn free_suffix(extra: Extras, base: Seq<char>, suffix: nat) -> nat
    decreases extra.len() + 2 - suffix,
{
    if suffix < extra.len() + 2 && entries::lookup(extra, suffixed(base, suffix)) is Some {
        free_suffix(extra, base, suffix + 1)
    } else {
        suffix
    }
}

/// A name that entries do not hold: the name itself, or the name with the first free suffix.
pub open spec fn unique_name(extra: Extras, base: Seq<char>) -> Seq<char> {
    if entries::lookup(extra, base) is None {
        base
    } else {
        suffixed(base, free_suffix(extra, base, 2))
    }
}

/// Entries with one more under a name of its own; none is ever overwritten.
pub open spec fn insert_unique_of(extra: Extras, base: Seq<char>, value: ValueView) -> Extras {
    extra.push((unique_name(extra, base), value))
}

proof fn lemma_absent_is_last(extra: Extras, key: Seq<char>, value: ValueView)
    requires
        entries::lookup(extra, key) is None,
    ensures
        entries::inserted(extra, key, value) == extra.push((key, value)),
{
    entries::lemma_position(extra, key, 0);
}

proof fn lemma_suffixed_injective(base: Seq<char>, a: nat, b: nat)
    requires
        suffixed(base, a) == suffixed(base, b),
    ensures
        a == b,
{
    let x = number::decimal(a);
    let y = number::decimal(b);
    let head = base + "_"@;
    assert(suffixed(base, a).skip(head.len() as int) =~= x);
    assert(suffixed(base, b).skip(head.len() as int) =~= y);
    number::lemma_decimal_round_trip(a);
    number::lemma_decimal_round_trip(b);
}

/// Among `extra.len() + 1` suffixed names one is free.
proof fn lemma_some_suffix_is_free(extra: Extras, base: Seq<char>)
    ensures
        exists|k: nat|
            2 <= k < extra.len() + 3 && entries::lookup(extra, #[trigger] suffixed(base, k)) is None,
{
    if forall|k: nat|
        2 <= k < extra.len() + 3 ==> entries::lookup(extra, #[trigger] suffixed(base, k)) is Some {
        lemma_taken_suffixes(extra, base);
    }
}

/// Taken names are at most as many as the entries.
proof fn lemma_taken_suffixes(extra: Extras, base: Seq<char>)
    requires
        forall|k: nat|
            2 <= k < extra.len() + 3 ==> entries::lookup(extra, #[trigger] suffixed(base, k)) is Some,
    ensures
        extra.len() + 1 <= extra.len(),
{
    let candidates = Seq::new(extra.len() + 1, |i: int| suffixed(base, (i + 2) as nat));
    let keys = Seq::new(extra.len(), |i: int| extra[i].0);
    assert forall|i: int, j: int| 0 <= i < j < candidates.len() implies candidates[i]
        != candidates[j] by {
        if candidates[i] == candidates[j] {
            lemma_suffixed_injective(base, (i + 2) as nat, (j + 2) as nat);
        }
    }
    candidates.unique_seq_to_set();
    keys.lemma_cardinality_of_set();
    assert(candidates.to_set().subset_of(keys.to_set())) by {
        assert forall|name: Seq<char>| candidates.to_set().contains(name) implies keys.to_set().contains(
            name,
        ) by {
            let i = choose|i: int| 0 <= i < candidates.len() && candidates[i] == name;
            assert(entries::lookup(extra, suffixed(base, (i + 2) as nat)) is Some);
            entries::lemma_lookup(extra, name);
            let j = choose|j: int| 0 <= j < extra.len() && (#[trigger] extra[j]).0 == name;
            assert(keys[j] == name);
        }
    }
    vstd::set_lib::lemma_len_subset(candidates.to_set(), keys.to_set());
}

/// Adds a value under a name of its own.
fn insert_unique(extra: &mut ExtraFields, base: String, value: FieldValue)
    ensures
        field_value::extra_entries(*final(extra)) == insert_unique_of(
            field_value::extra_entries(*old(extra)),
            base@,
            value@,
        ),
{
    let ghost start = field_value::extra_entries(*extra);
    if extra_get(extra, base.as_str()).is_none() {
        proof {
            lemma_absent_is_last(start, base@, value@);
        }
        extra_insert(extra, base, value);
        return;
    }
    let count: usize = extra_len(extra);
    let mut suffix: u128 = 2;
    loop
        invariant
            count == start.len(),
            field_value::extra_entries(*old(extra)) == start,
            field_value::extra_entries(*extra) == start,
            entries::lookup(start, base@) is Some,
            2 <= suffix <= start.len() + 2,
            free_suffix(start, base@, 2) == free_suffix(start, base@, suffix as nat),
            forall|k: nat|
                2 <= k < suffix ==> entries::lookup(start, #[trigger] suffixed(base@, k)) is Some,
        decreases start.len() + 2 - suffix,
    {
        let mut candidate = base.clone();
        candidate.push_str("_");
        candidate.push_str(number::format_u128(suffix).as_str());
        assert(candidate@ == suffixed(base@, suffix as nat));
        if extra_get(extra, candidate.as_str()).is_none() {
            proof {
                lemma_absent_is_last(start, candidate@, value@);
            }
            extra_insert(extra, candidate, value);
            return;
        }
        proof {
            if suffix == start.len() + 2 {
                lemma_some_suffix_is_free(start, base@);
                assert(entries::lookup(start, suffixed(base@, suffix as nat)) is Some);
            }
        }
        suffix = suffix + 1;
    }
}

/// A record being read: its fields, the names already read, and what was put aside.
pub struct ReaderView {
    pub record: Fields,
    pub consumed: Seq<Seq<char>>,
    pub extra: Extras,
}

/// The value under the first of the names that the record holds.
pub open spec fn taken(record: Fields, aliases: Seq<Seq<char>>, from: int) -> Option<Seq<char>>
    decreases aliases.len() - from,
{
    if from >= aliases.len() {
        None
    } else if entries::lookup(record, aliases[from]) is Some {
        entries::lookup(record, aliases[from])
    } else {
        taken(record, aliases, from + 1)
    }
}

/// The value that a record holds for a field that goes by the given names.
#[verifier::opaque]
pub open spec fn raw(record: Fields, aliases: Seq<Seq<char>>) -> Option<Seq<char>> {
    taken(record, aliases, 0)
}

pub open spec fn is_blank(value: Seq<char>) -> bool {
    text::trim(value).len() == 0
}

#[verifier::opaque]
pub open spec fn uuid_in(raw: Option<Seq<char>>) -> Option<u128> {
    match raw {
        Some(value) if !is_blank(value) => match identity::uuid_of(text::trim(value)) {
            Some(uuid) if uuid != 0 => Some(uuid),
            _ => None,
        },
        _ => None,
    }
}

pub open spec fn is_bad_uuid(value: Seq<char>) -> bool {
    !is_blank(value) && identity::uuid_of(text::trim(value)) is None
}

#[verifier::opaque]
pub open spec fn text_in(raw: Option<Seq<char>>) -> Option<Seq<char>> {
    match raw {
        Some(value) if value.len() > 0 => Some(value),
        _ => None,
    }
}

#[verifier::opaque]
pub open spec fn int_in(raw: Option<Seq<char>>) -> Option<i64> {
    match raw {
        Some(value) => match number::signed(text::trim(value)) {
            Some(number) => Some(number as i64),
            None => None,
        },
        None => None,
    }
}

pub open spec fn is_bad_int(value: Seq<char>) -> bool {
    !is_blank(value) && number::signed(text::trim(value)) is None
}

pub open spec fn says_yes(value: Seq<char>) -> bool {
    let word = text::lowercase(text::trim(value));
    word == "true"@ || word == "yes"@ || word == "1"@ || word == "да"@
}

pub open spec fn says_no(value: Seq<char>) -> bool {
    let word = text::lowercase(text::trim(value));
    word == "false"@ || word == "no"@ || word == "0"@ || word == "нет"@
}

#[verifier::opaque]
pub open spec fn bool_in(raw: Option<Seq<char>>) -> Option<bool> {
    match raw {
        Some(value) if !is_blank(value) => if says_yes(value) {
            Some(true)
        } else if says_no(value) {
            Some(false)
        } else {
            None
        },
        _ => None,
    }
}

pub open spec fn is_bad_bool(value: Seq<char>) -> bool {
    !is_blank(value) && !says_yes(value) && !says_no(value)
}

/// No time: nothing, or the zero date.
pub open spec fn is_no_time(value: Seq<char>) -> bool {
    is_blank(value) || "0001-01-01"@.is_prefix_of(text::trim(value))
}

/// The first reading of a time that succeeds. A time without an offset is in UTC.
pub open spec fn time_of(value: Seq<char>) -> Option<Timestamp> {
    let zoned = timestamp::moment(timestamp::zoned_of(value, "%Y-%m-%dT%H:%M:%S%.f%z"@));
    let first = timestamp::utc_moment(timestamp::naive_of(value, "%Y-%m-%dT%H:%M:%S%.f"@));
    let second = timestamp::utc_moment(timestamp::naive_of(value, "%Y-%m-%d %H:%M:%S%.f"@));
    let third = timestamp::utc_moment(timestamp::naive_of(value, "%Y%m%d%H%M%S"@));
    if timestamp::moment(timestamp::rfc3339_of(value)) is Some {
        timestamp::moment(timestamp::rfc3339_of(value))
    } else if zoned is Some {
        zoned
    } else if first is Some {
        first
    } else if second is Some {
        second
    } else {
        third
    }
}

#[verifier::opaque]
pub open spec fn time_in(raw: Option<Seq<char>>) -> Option<Timestamp> {
    match raw {
        Some(value) if !is_no_time(value) => time_of(text::trim(value)),
        _ => None,
    }
}

pub open spec fn is_bad_time(value: Seq<char>) -> bool {
    !is_no_time(value) && time_of(text::trim(value)) is None
}

impl ReaderView {
    pub open spec fn start(record: Fields) -> ReaderView {
        ReaderView { record, consumed: Seq::empty(), extra: Seq::empty() }
    }

    /// The reader after it has read the given names.
    #[verifier::opaque]
    pub open spec fn take(self, aliases: Seq<Seq<char>>) -> ReaderView {
        ReaderView { record: self.record, consumed: self.consumed + aliases, extra: self.extra }
    }

    /// The reader after it has put a value aside that is not what its field should hold.
    #[verifier::opaque]
    pub open spec fn keep(self, canonical: Seq<char>, value: Seq<char>) -> ReaderView {
        ReaderView {
            record: self.record,
            consumed: self.consumed,
            extra: insert_unique_of(
                self.extra,
                "rac_raw_"@ + canonical,
                ValueView::Str(value),
            ),
        }
    }

    /// The reader after it has read a field, whose value it keeps where it is bad.
    #[verifier::opaque]
    pub open spec fn read(
        self,
        canonical: Seq<char>,
        aliases: Seq<Seq<char>>,
        is_bad: spec_fn(Seq<char>) -> bool,
    ) -> ReaderView {
        match raw(self.record, aliases) {
            Some(value) if is_bad(value) => self.take(aliases).keep(canonical, value),
            _ => self.take(aliases),
        }
    }

    #[verifier::opaque]
    pub open spec fn read_uuid(self, canonical: Seq<char>, aliases: Seq<Seq<char>>) -> ReaderView {
        self.read(canonical, aliases, |value: Seq<char>| is_bad_uuid(value))
    }

    #[verifier::opaque]
    pub open spec fn read_int(self, canonical: Seq<char>, aliases: Seq<Seq<char>>) -> ReaderView {
        self.read(canonical, aliases, |value: Seq<char>| is_bad_int(value))
    }

    #[verifier::opaque]
    pub open spec fn read_bool(self, canonical: Seq<char>, aliases: Seq<Seq<char>>) -> ReaderView {
        self.read(canonical, aliases, |value: Seq<char>| is_bad_bool(value))
    }

    #[verifier::opaque]
    pub open spec fn read_time(self, canonical: Seq<char>, aliases: Seq<Seq<char>>) -> ReaderView {
        self.read(canonical, aliases, |value: Seq<char>| is_bad_time(value))
    }

    /// What was put aside, and the first `count` fields that nobody has read.
    pub open spec fn leftovers(self, count: int) -> Extras
        decreases count,
    {
        if count <= 0 {
            self.extra
        } else {
            let before = self.leftovers(count - 1);
            let (name, value) = self.record[count - 1];
            if self.consumed.contains(name) {
                before
            } else {
                insert_unique_of(before, name, ValueView::Str(value))
            }
        }
    }

    /// Everything that did not become a field of its own.
    #[verifier::opaque]
    pub open spec fn finished(self) -> Extras {
        self.leftovers(self.record.len() as int)
    }
}

struct RecordReader<'a> {
    record: &'a RacRecord,
    consumed: Vec<String>,
    extra: ExtraFields,
}

impl<'a> View for RecordReader<'a> {
    type V = ReaderView;

    closed spec fn view(&self) -> ReaderView {
        ReaderView {
            record: self.record@,
            consumed: text::views(self.consumed@),
            extra: field_value::extra_entries(self.extra),
        }
    }
}

pub open spec fn alias_views(aliases: Seq<&'static str>) -> Seq<Seq<char>> {
    aliases.map_values(|alias: &'static str| alias@)
}

fn one(first: &'static str) -> (result: Vec<&'static str>)
    ensures
        alias_views(result@) == seq![first@],
{
    let mut result: Vec<&'static str> = Vec::new();
    result.push(first);
    assert(alias_views(result@) =~= seq![first@]);
    result
}

fn two(first: &'static str, second: &'static str) -> (result: Vec<&'static str>)
    ensures
        alias_views(result@) == seq![first@, second@],
{
    let mut result: Vec<&'static str> = Vec::new();
    result.push(first);
    result.push(second);
    assert(alias_views(result@) =~= seq![first@, second@]);
    result
}

fn three(first: &'static str, second: &'static str, third: &'static str) -> (result: Vec<
    &'static str,
>)
    ensures
        alias_views(result@) == seq![first@, second@, third@],
{
    let mut result: Vec<&'static str> = Vec::new();
    result.push(first);
    result.push(second);
    result.push(third);
    assert(alias_views(result@) =~= seq![first@, second@, third@]);
    result
}

impl<'a> RecordReader<'a> {
    fn new(record: &'a RacRecord) -> (result: Self)
        ensures
            result@ == ReaderView::start(record@),
    {
        let result = RecordReader { record, consumed: Vec::new(), extra: new_extra() };
        assert(text::views(result.consumed@) =~= Seq::<Seq<char>>::empty());
        result
    }

    /// Reads the value under the first of the names that the record holds.
    fn take(&mut self, aliases: &Vec<&'static str>) -> (result: Option<String>)
        ensures
            outcome::option_view(result) == raw(old(self)@.record, alias_views(aliases@)),
            final(self)@ == old(self)@.take(alias_views(aliases@)),
            final(self)@.record == old(self)@.record,
    {
        proof {
            reveal(raw);
        }
        let ghost names = alias_views(aliases@);
        let ghost before = self@;
        let mut selected: Option<String> = None;
        let mut i: usize = 0;
        assert(before.consumed + names.take(0) =~= before.consumed);
        while i < aliases.len()
            invariant
                names == alias_views(aliases@),
                i <= aliases@.len(),
                before == old(self)@,
                raw(before.record, names) == taken(before.record, names, 0),
                self@ == (ReaderView {
                    record: before.record,
                    consumed: before.consumed + names.take(i as int),
                    extra: before.extra,
                }),
                match selected {
                    Some(value) => raw(before.record, names) == Some(value@),
                    None => raw(before.record, names) == taken(before.record, names, i as int),
                },
            decreases aliases.len() - i,
        {
            let alias = aliases[i];
            assert(names[i as int] == alias@);
            if selected.is_none() {
                if let Some(value) = self.record.get(alias) {
                    selected = Some(value.to_owned());
                }
            }
            let ghost consumed = text::views(self.consumed@);
            let name = alias.to_owned();
            let ghost name_view = name@;
            self.consumed.push(name);
            proof {
                assert(text::views(self.consumed@) =~= consumed.push(name_view));
                assert(before.consumed + names.take(i + 1) =~= (before.consumed + names.take(
                    i as int,
                )).push(name_view));
            }
            i = i + 1;
        }
        proof {
            assert(names.take(names.len() as int) =~= names);
            reveal(ReaderView::take);
        }
        selected
    }

    fn preserve_invalid(&mut self, canonical: &str, value: String)
        ensures
            final(self)@ == old(self)@.keep(canonical@, value@),
            final(self)@.record == old(self)@.record,
    {
        let mut base = "rac_raw_".to_owned();
        base.push_str(canonical);
        insert_unique(&mut self.extra, base, FieldValue::Str(value));
        proof {
            reveal(ReaderView::keep);
        }
    }

    fn holds_consumed(&self, name: &str) -> (result: bool)
        ensures
            result == self@.consumed.contains(name@),
    {
        let ghost consumed = self@.consumed;
        let mut i: usize = 0;
        while i < self.consumed.len()
            invariant
                consumed == text::views(self.consumed@),
                i <= self.consumed@.len(),
                forall|j: int| 0 <= j < i ==> (#[trigger] consumed[j]) != name@,
            decreases self.consumed.len() - i,
        {
            assert(consumed[i as int] == self.consumed@[i as int]@);
            if text::same(self.consumed[i].as_str(), name) {
                return true;
            }
            i = i + 1;
        }
        false
    }

    /// What was put aside, and every field that nobody has read.
    fn finish(self) -> (result: ExtraFields)
        ensures
            field_value::extra_entries(result) == self@.finished(),
    {
        let ghost before = self@;
        let mut reader = self;
        let count: usize = reader.record.len();
        let mut i: usize = 0;
        while i < count
            invariant
                count == before.record.len(),
                i <= count,
                reader@ == (ReaderView {
                    record: before.record,
                    consumed: before.consumed,
                    extra: before.leftovers(i as int),
                }),
            decreases count - i,
        {
            if let Some((name, value)) = reader.record.entry_at(i) {
                if !reader.holds_consumed(name) {
                    insert_unique(
                        &mut reader.extra,
                        name.to_owned(),
                        FieldValue::Str(value.to_owned()),
                    );
                }
            }
            i = i + 1;
        }
        proof {
            reveal(ReaderView::finished);
        }
        reader.extra
    }
}

fn optional_uuid(
    reader: &mut RecordReader<'_>,
    canonical: &'static str,
    aliases: &Vec<&'static str>,
) -> (result: Option<Uuid>)
    ensures
        outcome::option_view(result) == uuid_in(raw(old(reader)@.record, alias_views(aliases@))),
        final(reader)@ == old(reader)@.read_uuid(canonical@, alias_views(aliases@)),
        final(reader)@.record == old(reader)@.record,
{
    proof {
        reveal(ReaderView::read);
        reveal(ReaderView::read_uuid);
        reveal(uuid_in);
    }
    let value = match reader.take(aliases) {
        Some(value) => value,
        None => {
            return None;
        },
    };
    let trimmed = text::trim_text(value.as_str());
    if trimmed.as_str().is_empty() {
        return None;
    }
    match Uuid::parse_str(trimmed.as_str()) {
        Some(uuid) => if uuid.is_nil() {
            None
        } else {
            Some(uuid)
        },
        None => {
            reader.preserve_invalid(canonical, value);
            None
        },
    }
}

fn optional_string(reader: &mut RecordReader<'_>, aliases: &Vec<&'static str>) -> (result: Option<
    String,
>)
    ensures
        outcome::option_view(result) == text_in(raw(old(reader)@.record, alias_views(aliases@))),
        final(reader)@ == old(reader)@.take(alias_views(aliases@)),
        final(reader)@.record == old(reader)@.record,
{
    proof {
        reveal(text_in);
    }
    match reader.take(aliases) {
        Some(value) => if value.as_str().is_empty() {
            None
        } else {
            Some(value)
        },
        None => None,
    }
}

fn parse_optional_int(reader: &mut RecordReader<'_>, canonical: &'static str, value: String) -> (result:
    Option<i64>)
    ensures
        result == int_in(Some(value@)),
        final(reader)@ == (if is_bad_int(value@) {
            old(reader)@.keep(canonical@, value@)
        } else {
            old(reader)@
        }),
        final(reader)@.record == old(reader)@.record,
{
    proof {
        reveal(int_in);
    }
    let trimmed = text::trim_text(value.as_str());
    if trimmed.as_str().is_empty() {
        return None;
    }
    match number::parse_i64(trimmed.as_str()) {
        Some(number) => Some(number),
        None => {
            reader.preserve_invalid(canonical, value);
            None
        },
    }
}

fn optional_int(
    reader: &mut RecordReader<'_>,
    canonical: &'static str,
    aliases: &Vec<&'static str>,
) -> (result: Option<i64>)
    ensures
        result == int_in(raw(old(reader)@.record, alias_views(aliases@))),
        final(reader)@ == old(reader)@.read_int(canonical@, alias_views(aliases@)),
        final(reader)@.record == old(reader)@.record,
{
    proof {
        reveal(ReaderView::read);
        reveal(ReaderView::read_int);
        reveal(int_in);
    }
    match reader.take(aliases) {
        Some(value) => parse_optional_int(reader, canonical, value),
        None => None,
    }
}

fn optional_bool(
    reader: &mut RecordReader<'_>,
    canonical: &'static str,
    aliases: &Vec<&'static str>,
) -> (result: Option<bool>)
    ensures
        result == bool_in(raw(old(reader)@.record, alias_views(aliases@))),
        final(reader)@ == old(reader)@.read_bool(canonical@, alias_views(aliases@)),
        final(reader)@.record == old(reader)@.record,
{
    proof {
        reveal(ReaderView::read);
        reveal(ReaderView::read_bool);
        reveal(bool_in);
    }
    let value = match reader.take(aliases) {
        Some(value) => value,
        None => {
            return None;
        },
    };
    let trimmed = text::trim_text(value.as_str());
    if trimmed.as_str().is_empty() {
        return None;
    }
    let word = text::to_lowercase(trimmed.as_str());
    let word = word.as_str();
    if text::same(word, "true") || text::same(word, "yes") || text::same(word, "1") || text::same(
        word,
        "да",
    ) {
        Some(true)
    } else if text::same(word, "false") || text::same(word, "no") || text::same(word, "0")
        || text::same(word, "нет") {
        Some(false)
    } else {
        reader.preserve_invalid(canonical, value);
        None
    }
}

fn parse_time(value: &str) -> (result: Option<Timestamp>)
    ensures
        result == time_of(value@),
{
    if let Some(moment) = Timestamp::parse_rfc3339(value) {
        return Some(moment);
    }
    if let Some(moment) = Timestamp::parse_zoned(value, "%Y-%m-%dT%H:%M:%S%.f%z") {
        return Some(moment);
    }
    if let Some(moment) = Timestamp::parse_utc(value, "%Y-%m-%dT%H:%M:%S%.f") {
        return Some(moment);
    }
    if let Some(moment) = Timestamp::parse_utc(value, "%Y-%m-%d %H:%M:%S%.f") {
        return Some(moment);
    }
    Timestamp::parse_utc(value, "%Y%m%d%H%M%S")
}

fn optional_datetime(
    reader: &mut RecordReader<'_>,
    canonical: &'static str,
    aliases: &Vec<&'static str>,
) -> (result: Option<Timestamp>)
    ensures
        result == time_in(raw(old(reader)@.record, alias_views(aliases@))),
        final(reader)@ == old(reader)@.read_time(canonical@, alias_views(aliases@)),
        final(reader)@.record == old(reader)@.record,
{
    proof {
        reveal(ReaderView::read);
        reveal(ReaderView::read_time);
        reveal(time_in);
    }
    let value = match reader.take(aliases) {
        Some(value) => value,
        None => {
            return None;
        },
    };
    let trimmed = text::trim_text(value.as_str());
    if trimmed.as_str().is_empty() || text::starts_with(trimmed.as_str(), "0001-01-01") {
        return None;
    }
    match parse_time(trimmed.as_str()) {
        Some(moment) => Some(moment),
        None => {
            reader.preserve_invalid(canonical, value);
            None
        },
    }
}

pub open spec fn cluster_aliases() -> Seq<Seq<char>> {
    seq!["cluster"@, "cluster_uuid"@, "cluster_id"@]
}

pub open spec fn uuid_problem(field: Seq<char>) -> NormalizationProblem {
    NormalizationProblem {
        code: "invalid_required_uuid"@,
        message: "В ответе RAC отсутствует корректный обязательный UUID поля `"@ + field + "`"@,
    }
}

pub open spec fn missing_problem(field: Seq<char>) -> NormalizationProblem {
    NormalizationProblem {
        code: "missing_required_field"@,
        message: "В ответе RAC отсутствует обязательное поле `"@ + field + "`"@,
    }
}

pub open spec fn port_problem(field: Seq<char>) -> NormalizationProblem {
    NormalizationProblem {
        code: "invalid_required_integer"@,
        message: "В ответе RAC поле `"@ + field + "` не содержит корректный порт"@,
    }
}

fn quoted_error(code: &'static str, before: &str, field: &str, after: &str) -> (result: NormalizationError)
    ensures
        result@ == (NormalizationProblem { code: code@, message: before@ + field@ + after@ }),
{
    let mut message = before.to_owned();
    message.push_str(field);
    message.push_str(after);
    NormalizationError { code, message }
}

fn required_uuid_error(field: &'static str) -> (result: NormalizationError)
    ensures
        result@ == uuid_problem(field@),
{
    quoted_error(
        "invalid_required_uuid",
        "В ответе RAC отсутствует корректный обязательный UUID поля `",
        field,
        "`",
    )
}

fn missing_field_error(field: &'static str) -> (result: NormalizationError)
    ensures
        result@ == missing_problem(field@),
{
    quoted_error(
        "missing_required_field",
        "В ответе RAC отсутствует обязательное поле `",
        field,
        "`",
    )
}

/// A required identity: readable and not nil.
pub open spec fn required_uuid_of(value: Option<Seq<char>>, field: Seq<char>) -> Result<
    u128,
    NormalizationProblem,
> {
    match value {
        Some(value) => match identity::uuid_of(text::trim(value)) {
            Some(uuid) if uuid != 0 => Ok(uuid),
            _ => Err(uuid_problem(field)),
        },
        None => Err(uuid_problem(field)),
    }
}

pub open spec fn required_text_of(value: Option<Seq<char>>, field: Seq<char>) -> Result<
    Seq<char>,
    NormalizationProblem,
> {
    match value {
        Some(value) if !is_blank(value) => Ok(value),
        _ => Err(missing_problem(field)),
    }
}

pub open spec fn required_port_of(value: Option<Seq<char>>, field: Seq<char>) -> Result<
    u16,
    NormalizationProblem,
> {
    match value {
        None => Err(missing_problem(field)),
        Some(value) => match number::unsigned(text::trim(value), 65535) {
            Some(port) if port > 0 => Ok(port as u16),
            _ => Err(port_problem(field)),
        },
    }
}

fn required_uuid(
    reader: &mut RecordReader<'_>,
    field: &'static str,
    aliases: &Vec<&'static str>,
) -> (result: Result<Uuid, NormalizationError>)
    ensures
        outcome::result_view(result) == required_uuid_of(
            raw(old(reader)@.record, alias_views(aliases@)),
            field@,
        ),
        final(reader)@ == old(reader)@.take(alias_views(aliases@)),
        final(reader)@.record == old(reader)@.record,
{
    let value = match reader.take(aliases) {
        Some(value) => value,
        None => {
            return Err(required_uuid_error(field));
        },
    };
    let trimmed = text::trim_text(value.as_str());
    match Uuid::parse_str(trimmed.as_str()) {
        Some(uuid) => if uuid.is_nil() {
            Err(required_uuid_error(field))
        } else {
            Ok(uuid)
        },
        None => Err(required_uuid_error(field)),
    }
}

fn required_string(
    reader: &mut RecordReader<'_>,
    field: &'static str,
    aliases: &Vec<&'static str>,
) -> (result: Result<String, NormalizationError>)
    ensures
        outcome::result_view(result) == required_text_of(
            raw(old(reader)@.record, alias_views(aliases@)),
            field@,
        ),
        final(reader)@ == old(reader)@.take(alias_views(aliases@)),
        final(reader)@.record == old(reader)@.record,
{
    match reader.take(aliases) {
        Some(value) => {
            let trimmed = text::trim_text(value.as_str());
            if trimmed.as_str().is_empty() {
                Err(missing_field_error(field))
            } else {
                Ok(value)
            }
        },
        None => Err(missing_field_error(field)),
    }
}

fn required_port(
    reader: &mut RecordReader<'_>,
    field: &'static str,
    aliases: &Vec<&'static str>,
) -> (result: Result<u16, NormalizationError>)
    ensures
        outcome::result_view(result) == required_port_of(
            raw(old(reader)@.record, alias_views(aliases@)),
            field@,
        ),
        final(reader)@ == old(reader)@.take(alias_views(aliases@)),
        final(reader)@.record == old(reader)@.record,
{
    match reader.take(aliases) {
        None => Err(missing_field_error(field)),
        Some(value) => {
            let trimmed = text::trim_text(value.as_str());
            match number::parse_unsigned(trimmed.as_str(), 65535) {
                Some(port) if port > 0 => Ok(port as u16),
                _ => Err(
                    quoted_error(
                        "invalid_required_integer",
                        "В ответе RAC поле `",
                        field,
                        "` не содержит корректный порт",
                    ),
                ),
            }
        },
    }
}

/// The identity and the number of a session. `rac` may print them under each other's names.
pub open spec fn session_identity_of(session: Option<Seq<char>>, session_id: Option<Seq<char>>) -> Result<
    (u128, Option<i64>),
    NormalizationProblem,
> {
    match (session, session_id) {
        (Some(session), number) => match identity::uuid_of(text::trim(session)) {
            Some(uuid) => Ok((uuid, int_in(number))),
            None => match number {
                None => Err(uuid_problem("session"@)),
                Some(raw_uuid) => match identity::uuid_of(text::trim(raw_uuid)) {
                    Some(uuid) => Ok((uuid, int_in(Some(session)))),
                    None => Err(uuid_problem("session"@)),
                },
            },
        },
        (None, Some(raw_uuid)) => match identity::uuid_of(text::trim(raw_uuid)) {
            Some(uuid) => Ok((uuid, None)),
            None => Err(uuid_problem("session"@)),
        },
        (None, None) => Err(uuid_problem("session"@)),
    }
}

/// The text that should be the number of a session.
pub open spec fn session_number_text(session: Option<Seq<char>>, session_id: Option<Seq<char>>) -> Option<
    Seq<char>,
> {
    match session {
        Some(session) => if identity::uuid_of(text::trim(session)) is Some {
            session_id
        } else {
            Some(session)
        },
        None => None,
    }
}

impl ReaderView {
    /// The reader after it has kept a session number that is no number.
    #[verifier::opaque]
    pub open spec fn keep_number(self, number: Option<Seq<char>>) -> ReaderView {
        match number {
            Some(number) if is_bad_int(number) => self.keep("session"@, number),
            _ => self,
        }
    }
}

pub open spec fn session_aliases() -> Seq<Seq<char>> {
    seq!["session"@, "session_uuid"@]
}

/// A text of fewer than 32 characters is not taken for an identity.
pub open spec fn short_is_no_identity(value: Option<Seq<char>>) -> bool {
    match value {
        Some(value) => text::trim(value).len() < 32 ==> identity::uuid_of(text::trim(value)) is None,
        None => true,
    }
}

fn session_identity(reader: &mut RecordReader<'_>) -> (result: Result<
    (Uuid, Option<i64>),
    NormalizationError,
>)
    ensures
        short_is_no_identity(raw(old(reader)@.record, session_aliases())),
        final(reader)@.record == old(reader)@.record,
        ({
            let session = raw(old(reader)@.record, session_aliases());
            let session_id = raw(old(reader)@.record, seq!["session_id"@]);
            match result {
                Ok((uuid, number)) => session_identity_of(session, session_id) == Ok::<
                    _,
                    NormalizationProblem,
                >((uuid@, number)) && final(reader)@ == old(reader)@.take(session_aliases()).take(
                    seq!["session_id"@],
                ).keep_number(session_number_text(session, session_id)),
                Err(error) => session_identity_of(session, session_id) == Err::<
                    (u128, Option<i64>),
                    _,
                >(error@),
            }
        }),
{
    proof {
        reveal(ReaderView::keep_number);
        reveal(int_in);
    }
    let session = reader.take(&two("session", "session_uuid"));
    let session_id = reader.take(&one("session_id"));
    match (session, session_id) {
        (Some(session), number) => {
            let trimmed = text::trim_text(session.as_str());
            match Uuid::parse_str(trimmed.as_str()) {
                Some(uuid) => {
                    let number = match number {
                        Some(value) => parse_optional_int(reader, "session", value),
                        None => None,
                    };
                    Ok((uuid, number))
                },
                None => match number {
                    None => Err(required_uuid_error("session")),
                    Some(raw_uuid) => {
                        let trimmed = text::trim_text(raw_uuid.as_str());
                        match Uuid::parse_str(trimmed.as_str()) {
                            Some(uuid) => {
                                let number = parse_optional_int(reader, "session", session);
                                Ok((uuid, number))
                            },
                            None => Err(required_uuid_error("session")),
                        }
                    },
                },
            }
        },
        (None, Some(raw_uuid)) => {
            let trimmed = text::trim_text(raw_uuid.as_str());
            match Uuid::parse_str(trimmed.as_str()) {
                Some(uuid) => Ok((uuid, None)),
                None => Err(required_uuid_error("session")),
            }
        },
        (None, None) => Err(required_uuid_error("session")),
    }
}

/// The reader of a session record after its last known field.
pub open spec fn session_reader(record: Fields) -> ReaderView {
    ReaderView::start(record).take(cluster_aliases()).take(session_aliases()).take(
        seq!["session_id"@],
    ).keep_number(
        session_number_text(raw(record, session_aliases()), raw(record, seq!["session_id"@])),
    )
    .read_uuid("infobase_uuid"@, seq!["infobase"@, "infobase_uuid"@, "infobase_id"@])
    .read_uuid("connection"@, seq!["connection"@, "connection_uuid"@])
    .read_uuid("process"@, seq!["process"@, "process_uuid"@])
    .take(seq!["user_name"@])
    .take(seq!["host"@])
    .take(seq!["app_id"@])
    .take(seq!["locale"@])
    .read_time("started_at"@, seq!["started_at"@])
    .read_time("last_active_at"@, seq!["last_active_at"@])
    .read_bool("hibernate"@, seq!["hibernate"@])
    .read_int("passive_session_hibernate_time"@, seq!["passive_session_hibernate_time"@])
    .read_int("hibernate_session_terminate_time"@, seq!["hibernate_session_terminate_time"@])
    .read_int("blocked_by_dbms"@, seq!["blocked_by_dbms"@])
    .read_int("blocked_by_ls"@, seq!["blocked_by_ls"@])
    .read_int("bytes_all"@, seq!["bytes_all"@])
    .read_int("bytes_last_5min"@, seq!["bytes_last_5min"@])
    .read_int("calls_all"@, seq!["calls_all"@])
    .read_int("calls_last_5min"@, seq!["calls_last_5min"@])
    .read_int("dbms_bytes_all"@, seq!["dbms_bytes_all"@])
    .read_int("dbms_bytes_last_5min"@, seq!["dbms_bytes_last_5min"@])
    .take(seq!["db_proc_info"@])
    .read_int("db_proc_took"@, seq!["db_proc_took"@])
    .read_time("db_proc_took_at"@, seq!["db_proc_took_at"@])
    .read_int("duration_all"@, seq!["duration_all"@])
    .read_int("duration_all_dbms"@, seq!["duration_all_dbms"@])
    .read_int("duration_current"@, seq!["duration_current"@])
    .read_int("duration_current_dbms"@, seq!["duration_current_dbms"@])
    .read_int("duration_last_5min"@, seq!["duration_last_5min"@])
    .read_int("duration_last_5min_dbms"@, seq!["duration_last_5min_dbms"@])
    .read_int("memory_current"@, seq!["memory_current"@])
    .read_int("memory_last_5min"@, seq!["memory_last_5min"@])
    .read_int("memory_total"@, seq!["memory_total"@])
    .read_int("read_current"@, seq!["read_current"@])
    .read_int("read_last_5min"@, seq!["read_last_5min"@])
    .read_int("read_total"@, seq!["read_total"@])
    .read_int("write_current"@, seq!["write_current"@])
    .read_int("write_last_5min"@, seq!["write_last_5min"@])
    .read_int("write_total"@, seq!["write_total"@])
    .read_int("duration_current_service"@, seq!["duration_current_service"@])
    .read_int("duration_last_5min_service"@, seq!["duration_last_5min_service"@])
    .read_int("duration_all_service"@, seq!["duration_all_service"@])
    .take(seq!["current_service_name"@])
    .read_int("cpu_time_current"@, seq!["cpu_time_current"@])
    .read_int("cpu_time_last_5min"@, seq!["cpu_time_last_5min"@])
    .read_int("cpu_time_total"@, seq!["cpu_time_total"@])
    .take(seq!["data_separation"@])
    .take(seq!["client_ip"@])
}

/// A session record holds what the fields of a `rac` record say, and everything else aside.
pub open spec fn is_session_of(result: SessionRecord, record: Fields, source: ClusterSource) -> bool {
    &&& result.source == source
    &&& session_identity_of(
        raw(record, session_aliases()),
        raw(record, seq!["session_id"@]),
    ) == Ok::<_, NormalizationProblem>((result.session@, result.session_id))
    &&& result.infobase is None
    &&& outcome::option_view(result.infobase_uuid) == uuid_in(raw(record, seq!["infobase"@, "infobase_uuid"@, "infobase_id"@]))
    &&& outcome::option_view(result.connection) == uuid_in(raw(record, seq!["connection"@, "connection_uuid"@]))
    &&& outcome::option_view(result.process) == uuid_in(raw(record, seq!["process"@, "process_uuid"@]))
    &&& outcome::option_view(result.user_name) == text_in(raw(record, seq!["user_name"@]))
    &&& outcome::option_view(result.host) == text_in(raw(record, seq!["host"@]))
    &&& outcome::option_view(result.app_id) == text_in(raw(record, seq!["app_id"@]))
    &&& outcome::option_view(result.locale) == text_in(raw(record, seq!["locale"@]))
    &&& result.started_at == time_in(raw(record, seq!["started_at"@]))
    &&& result.last_active_at == time_in(raw(record, seq!["last_active_at"@]))
    &&& result.hibernate == bool_in(raw(record, seq!["hibernate"@]))
    &&& result.passive_session_hibernate_time == int_in(raw(record, seq!["passive_session_hibernate_time"@]))
    &&& result.hibernate_session_terminate_time == int_in(raw(record, seq!["hibernate_session_terminate_time"@]))
    &&& result.blocked_by_dbms == int_in(raw(record, seq!["blocked_by_dbms"@]))
    &&& result.blocked_by_ls == int_in(raw(record, seq!["blocked_by_ls"@]))
    &&& result.bytes_all == int_in(raw(record, seq!["bytes_all"@]))
    &&& result.bytes_last_5min == int_in(raw(record, seq!["bytes_last_5min"@]))
    &&& result.calls_all == int_in(raw(record, seq!["calls_all"@]))
    &&& result.calls_last_5min == int_in(raw(record, seq!["calls_last_5min"@]))
    &&& result.dbms_bytes_all == int_in(raw(record, seq!["dbms_bytes_all"@]))
    &&& result.dbms_bytes_last_5min == int_in(raw(record, seq!["dbms_bytes_last_5min"@]))
    &&& outcome::option_view(result.db_proc_info) == text_in(raw(record, seq!["db_proc_info"@]))
    &&& result.db_proc_took == int_in(raw(record, seq!["db_proc_took"@]))
    &&& result.db_proc_took_at == time_in(raw(record, seq!["db_proc_took_at"@]))
    &&& result.duration_all == int_in(raw(record, seq!["duration_all"@]))
    &&& result.duration_all_dbms == int_in(raw(record, seq!["duration_all_dbms"@]))
    &&& result.duration_current == int_in(raw(record, seq!["duration_current"@]))
    &&& result.duration_current_dbms == int_in(raw(record, seq!["duration_current_dbms"@]))
    &&& result.duration_last_5min == int_in(raw(record, seq!["duration_last_5min"@]))
    &&& result.duration_last_5min_dbms == int_in(raw(record, seq!["duration_last_5min_dbms"@]))
    &&& result.memory_current == int_in(raw(record, seq!["memory_current"@]))
    &&& result.memory_last_5min == int_in(raw(record, seq!["memory_last_5min"@]))
    &&& result.memory_total == int_in(raw(record, seq!["memory_total"@]))
    &&& result.read_current == int_in(raw(record, seq!["read_current"@]))
    &&& result.read_last_5min == int_in(raw(record, seq!["read_last_5min"@]))
    &&& result.read_total == int_in(raw(record, seq!["read_total"@]))
    &&& result.write_current == int_in(raw(record, seq!["write_current"@]))
    &&& result.write_last_5min == int_in(raw(record, seq!["write_last_5min"@]))
    &&& result.write_total == int_in(raw(record, seq!["write_total"@]))
    &&& result.duration_current_service == int_in(raw(record, seq!["duration_current_service"@]))
    &&& result.duration_last_5min_service == int_in(raw(record, seq!["duration_last_5min_service"@]))
    &&& result.duration_all_service == int_in(raw(record, seq!["duration_all_service"@]))
    &&& outcome::option_view(result.current_service_name) == text_in(raw(record, seq!["current_service_name"@]))
    &&& result.cpu_time_current == int_in(raw(record, seq!["cpu_time_current"@]))
    &&& result.cpu_time_last_5min == int_in(raw(record, seq!["cpu_time_last_5min"@]))
    &&& result.cpu_time_total == int_in(raw(record, seq!["cpu_time_total"@]))
    &&& outcome::option_view(result.data_separation) == text_in(raw(record, seq!["data_separation"@]))
    &&& outcome::option_view(result.client_ip) == text_in(raw(record, seq!["client_ip"@]))
    &&& field_value::extra_entries(result.extra) == session_reader(record).finished()
}

/// Reads a session.
pub fn normalize_session(record: &RacRecord, source: ClusterSource) -> (result: Result<
    SessionRecord,
    NormalizationError,
>)
    ensures
        match result {
            Ok(session) => is_session_of(session, record@, source),
            Err(error) => session_identity_of(
                raw(record@, session_aliases()),
                raw(record@, seq!["session_id"@]),
            ) == Err::<(u128, Option<i64>), _>(error@),
        },
        short_is_no_identity(raw(record@, session_aliases())),
{
    let mut reader = RecordReader::new(record);
    let _cluster = reader.take(&three("cluster", "cluster_uuid", "cluster_id"));
    let (session, session_id) = match session_identity(&mut reader) {
        Ok(identity) => identity,
        Err(error) => {
            return Err(error);
        },
    };
    let infobase_uuid = match optional_uuid(&mut reader, "infobase_uuid", &three("infobase", "infobase_uuid", "infobase_id")) {
        Some(uuid) => Some(InfobaseUuid::new(uuid)),
        None => None,
    };
    let connection = match optional_uuid(&mut reader, "connection", &two("connection", "connection_uuid")) {
        Some(uuid) => Some(ConnectionUuid::new(uuid)),
        None => None,
    };
    let process = match optional_uuid(&mut reader, "process", &two("process", "process_uuid")) {
        Some(uuid) => Some(ProcessUuid::new(uuid)),
        None => None,
    };
    let user_name = optional_string(&mut reader, &one("user_name"));
    let host = optional_string(&mut reader, &one("host"));
    let app_id = optional_string(&mut reader, &one("app_id"));
    let locale = optional_string(&mut reader, &one("locale"));
    let started_at = optional_datetime(&mut reader, "started_at", &one("started_at"));
    let last_active_at = optional_datetime(&mut reader, "last_active_at", &one("last_active_at"));
    let hibernate = optional_bool(&mut reader, "hibernate", &one("hibernate"));
    let passive_session_hibernate_time = optional_int(&mut reader, "passive_session_hibernate_time", &one("passive_session_hibernate_time"));
    let hibernate_session_terminate_time = optional_int(&mut reader, "hibernate_session_terminate_time", &one("hibernate_session_terminate_time"));
    let blocked_by_dbms = optional_int(&mut reader, "blocked_by_dbms", &one("blocked_by_dbms"));
    let blocked_by_ls = optional_int(&mut reader, "blocked_by_ls", &one("blocked_by_ls"));
    let bytes_all = optional_int(&mut reader, "bytes_all", &one("bytes_all"));
    let bytes_last_5min = optional_int(&mut reader, "bytes_last_5min", &one("bytes_last_5min"));
    let calls_all = optional_int(&mut reader, "calls_all", &one("calls_all"));
    let calls_last_5min = optional_int(&mut reader, "calls_last_5min", &one("calls_last_5min"));
    let dbms_bytes_all = optional_int(&mut reader, "dbms_bytes_all", &one("dbms_bytes_all"));
    let dbms_bytes_last_5min = optional_int(&mut reader, "dbms_bytes_last_5min", &one("dbms_bytes_last_5min"));
    let db_proc_info = optional_string(&mut reader, &one("db_proc_info"));
    let db_proc_took = optional_int(&mut reader, "db_proc_took", &one("db_proc_took"));
    let db_proc_took_at = optional_datetime(&mut reader, "db_proc_took_at", &one("db_proc_took_at"));
    let duration_all = optional_int(&mut reader, "duration_all", &one("duration_all"));
    let duration_all_dbms = optional_int(&mut reader, "duration_all_dbms", &one("duration_all_dbms"));
    let duration_current = optional_int(&mut reader, "duration_current", &one("duration_current"));
    let duration_current_dbms = optional_int(&mut reader, "duration_current_dbms", &one("duration_current_dbms"));
    let duration_last_5min = optional_int(&mut reader, "duration_last_5min", &one("duration_last_5min"));
    let duration_last_5min_dbms = optional_int(&mut reader, "duration_last_5min_dbms", &one("duration_last_5min_dbms"));
    let memory_current = optional_int(&mut reader, "memory_current", &one("memory_current"));
    let memory_last_5min = optional_int(&mut reader, "memory_last_5min", &one("memory_last_5min"));
    let memory_total = optional_int(&mut reader, "memory_total", &one("memory_total"));
    let read_current = optional_int(&mut reader, "read_current", &one("read_current"));
    let read_last_5min = optional_int(&mut reader, "read_last_5min", &one("read_last_5min"));
    let read_total = optional_int(&mut reader, "read_total", &one("read_total"));
    let write_current = optional_int(&mut reader, "write_current", &one("write_current"));
    let write_last_5min = optional_int(&mut reader, "write_last_5min", &one("write_last_5min"));
    let write_total = optional_int(&mut reader, "write_total", &one("write_total"));
    let duration_current_service = optional_int(&mut reader, "duration_current_service", &one("duration_current_service"));
    let duration_last_5min_service = optional_int(&mut reader, "duration_last_5min_service", &one("duration_last_5min_service"));
    let duration_all_service = optional_int(&mut reader, "duration_all_service", &one("duration_all_service"));
    let current_service_name = optional_string(&mut reader, &one("current_service_name"));
    let cpu_time_current = optional_int(&mut reader, "cpu_time_current", &one("cpu_time_current"));
    let cpu_time_last_5min = optional_int(&mut reader, "cpu_time_last_5min", &one("cpu_time_last_5min"));
    let cpu_time_total = optional_int(&mut reader, "cpu_time_total", &one("cpu_time_total"));
    let data_separation = optional_string(&mut reader, &one("data_separation"));
    let client_ip = optional_string(&mut reader, &one("client_ip"));
    let extra = reader.finish();
    Ok(
        SessionRecord {
            source,
            infobase: None,
            session: SessionUuid::new(session),
            session_id,
            infobase_uuid,
            connection,
            process,
            user_name,
            host,
            app_id,
            locale,
            started_at,
            last_active_at,
            hibernate,
            passive_session_hibernate_time,
            hibernate_session_terminate_time,
            blocked_by_dbms,
            blocked_by_ls,
            bytes_all,
            bytes_last_5min,
            calls_all,
            calls_last_5min,
            dbms_bytes_all,
            dbms_bytes_last_5min,
            db_proc_info,
            db_proc_took,
            db_proc_took_at,
            duration_all,
            duration_all_dbms,
            duration_current,
            duration_current_dbms,
            duration_last_5min,
            duration_last_5min_dbms,
            memory_current,
            memory_last_5min,
            memory_total,
            read_current,
            read_last_5min,
            read_total,
            write_current,
            write_last_5min,
            write_total,
            duration_current_service,
            duration_last_5min_service,
            duration_all_service,
            current_service_name,
            cpu_time_current,
            cpu_time_last_5min,
            cpu_time_total,
            data_separation,
            client_ip,
            extra,
        },
    )
}

/// The reader of a connection record after its last known field.
pub open spec fn connection_reader(record: Fields) -> ReaderView {
    ReaderView::start(record).take(cluster_aliases()).take(
        seq!["connection"@, "connection_uuid"@],
    ).take(seq!["process"@, "process_uuid"@])
    .read_uuid("infobase_uuid"@, seq!["infobase"@, "infobase_uuid"@, "infobase_id"@])
    .read_int("conn_id"@, seq!["conn_id"@, "connection_id"@])
    .take(seq!["host"@])
    .take(seq!["application"@, "app_id"@])
    .read_time("connected_at"@, seq!["connected_at"@])
    .read_int("session_number"@, seq!["session_number"@, "session_id"@])
    .read_int("blocked_by_ls"@, seq!["blocked_by_ls"@])
}

/// A connection record holds what the fields of a `rac` record say, and everything else aside.
pub open spec fn is_connection_of(
    result: ConnectionRecord,
    record: Fields,
    source: ClusterSource,
) -> bool {
    &&& result.source == source
    &&& result.infobase is None
    &&& outcome::option_view(result.infobase_uuid) == uuid_in(raw(record, seq!["infobase"@, "infobase_uuid"@, "infobase_id"@]))
    &&& result.conn_id == int_in(raw(record, seq!["conn_id"@, "connection_id"@]))
    &&& outcome::option_view(result.host) == text_in(raw(record, seq!["host"@]))
    &&& outcome::option_view(result.application) == text_in(raw(record, seq!["application"@, "app_id"@]))
    &&& result.connected_at == time_in(raw(record, seq!["connected_at"@]))
    &&& result.session_number == int_in(raw(record, seq!["session_number"@, "session_id"@]))
    &&& result.blocked_by_ls == int_in(raw(record, seq!["blocked_by_ls"@]))
    &&& field_value::extra_entries(result.extra) == connection_reader(record).finished()
}

/// The two identities of a connection, or the problem of the first that is missing.
pub open spec fn connection_identity_of(record: Fields) -> Result<(u128, u128), NormalizationProblem> {
    match required_uuid_of(
        raw(record, seq!["connection"@, "connection_uuid"@]),
        "connection"@,
    ) {
        Err(problem) => Err(problem),
        Ok(connection) => match required_uuid_of(
            raw(record, seq!["process"@, "process_uuid"@]),
            "process"@,
        ) {
            Err(problem) => Err(problem),
            Ok(process) => Ok((connection, process)),
        },
    }
}

/// Reads a connection.
pub fn normalize_connection(record: &RacRecord, source: ClusterSource) -> (result: Result<
    ConnectionRecord,
    NormalizationError,
>)
    ensures
        match result {
            Ok(connection) => is_connection_of(connection, record@, source)
                && connection_identity_of(record@) == Ok::<_, NormalizationProblem>(
                (connection.connection@, connection.process@),
            ),
            Err(error) => connection_identity_of(record@) == Err::<(u128, u128), _>(error@),
        },
{
    let mut reader = RecordReader::new(record);
    let _cluster = reader.take(&three("cluster", "cluster_uuid", "cluster_id"));
    let connection = match required_uuid(
        &mut reader,
        "connection",
        &two("connection", "connection_uuid"),
    ) {
        Ok(uuid) => uuid,
        Err(error) => {
            return Err(error);
        },
    };
    let process = match required_uuid(&mut reader, "process", &two("process", "process_uuid")) {
        Ok(uuid) => uuid,
        Err(error) => {
            return Err(error);
        },
    };
    let mut result = ConnectionRecord::new(
        source,
        ConnectionUuid::new(connection),
        ProcessUuid::new(process),
    );
    result.infobase_uuid = match optional_uuid(&mut reader, "infobase_uuid", &three("infobase", "infobase_uuid", "infobase_id")) {
        Some(uuid) => Some(InfobaseUuid::new(uuid)),
        None => None,
    };
    result.conn_id = optional_int(&mut reader, "conn_id", &two("conn_id", "connection_id"));
    result.host = optional_string(&mut reader, &one("host"));
    result.application = optional_string(&mut reader, &two("application", "app_id"));
    result.connected_at = optional_datetime(&mut reader, "connected_at", &one("connected_at"));
    result.session_number = optional_int(&mut reader, "session_number", &two("session_number", "session_id"));
    result.blocked_by_ls = optional_int(&mut reader, "blocked_by_ls", &one("blocked_by_ls"));
    result.extra = reader.finish();
    Ok(result)
}

/// The reader of a process record after its last known field.
pub open spec fn process_reader(record: Fields) -> ReaderView {
    ReaderView::start(record).take(cluster_aliases()).take(seq!["process"@, "process_uuid"@])
    .read_uuid("server"@, seq!["server"@, "server_uuid"@])
    .read_int("pid"@, seq!["pid"@])
    .read_time("started_at"@, seq!["started_at"@])
}

/// A process record holds what the fields of a `rac` record say, and everything else aside.
pub open spec fn is_process_of(result: ProcessRecord, record: Fields, source: ClusterSource) -> bool {
    &&& result.source == source
    &&& outcome::option_view(result.server) == uuid_in(raw(record, seq!["server"@, "server_uuid"@]))
    &&& result.pid == int_in(raw(record, seq!["pid"@]))
    &&& result.started_at == time_in(raw(record, seq!["started_at"@]))
    &&& field_value::extra_entries(result.extra) == process_reader(record).finished()
}

/// Reads a working process.
pub fn normalize_process(record: &RacRecord, source: ClusterSource) -> (result: Result<
    ProcessRecord,
    NormalizationError,
>)
    ensures
        ({
            let identity = required_uuid_of(
                raw(record@, seq!["process"@, "process_uuid"@]),
                "process"@,
            );
            match result {
                Ok(process) => is_process_of(process, record@, source) && identity == Ok::<
                    _,
                    NormalizationProblem,
                >(process.process@),
                Err(error) => identity == Err::<u128, _>(error@),
            }
        }),
{
    let mut reader = RecordReader::new(record);
    let _cluster = reader.take(&three("cluster", "cluster_uuid", "cluster_id"));
    let process = match required_uuid(&mut reader, "process", &two("process", "process_uuid")) {
        Ok(uuid) => uuid,
        Err(error) => {
            return Err(error);
        },
    };
    let mut result = ProcessRecord::new(source, ProcessUuid::new(process));
    result.server = optional_uuid(&mut reader, "server", &two("server", "server_uuid"));
    result.pid = optional_int(&mut reader, "pid", &one("pid"));
    result.started_at = optional_datetime(&mut reader, "started_at", &one("started_at"));
    result.extra = reader.finish();
    Ok(result)
}

/// The identity, name, host and port of a cluster, or the first problem with them.
pub open spec fn cluster_of(record: Fields) -> Result<
    (u128, Seq<char>, Seq<char>, u16),
    NormalizationProblem,
> {
    match required_uuid_of(raw(record, cluster_aliases()), "cluster"@) {
        Err(problem) => Err(problem),
        Ok(uuid) => match required_text_of(raw(record, seq!["name"@, "cluster_name"@]), "name"@) {
            Err(problem) => Err(problem),
            Ok(name) => match required_text_of(
                raw(record, seq!["host"@, "cluster_host"@]),
                "host"@,
            ) {
                Err(problem) => Err(problem),
                Ok(host) => match required_port_of(
                    raw(record, seq!["port"@, "cluster_port"@]),
                    "port"@,
                ) {
                    Err(problem) => Err(problem),
                    Ok(port) => match value::endpoint_of(host, port) {
                        Err(error) => Err(
                            NormalizationProblem {
                                code: "invalid_cluster_record"@,
                                message: error.message(),
                            },
                        ),
                        Ok(_) => Ok((uuid, name, host, port)),
                    },
                },
            },
        },
    }
}

pub open spec fn cluster_reader(record: Fields) -> ReaderView {
    ReaderView::start(record).take(cluster_aliases()).take(seq!["name"@, "cluster_name"@]).take(
        seq!["host"@, "cluster_host"@],
    ).take(seq!["port"@, "cluster_port"@])
}

/// Reads a cluster.
pub fn normalize_cluster(record: &RacRecord) -> (result: Result<
    DiscoveredCluster,
    NormalizationError,
>)
    ensures
        match result {
            Ok(cluster) => cluster_of(record@) == Ok::<_, NormalizationProblem>(
                (cluster.uuid@, cluster.name@, cluster.host@, cluster.port),
            ) && field_value::extra_entries(cluster.extra) == cluster_reader(record@).finished(),
            Err(error) => cluster_of(record@) == Err::<(u128, Seq<char>, Seq<char>, u16), _>(
                error@,
            ),
        },
{
    let mut reader = RecordReader::new(record);
    let uuid = match required_uuid(
        &mut reader,
        "cluster",
        &three("cluster", "cluster_uuid", "cluster_id"),
    ) {
        Ok(uuid) => uuid,
        Err(error) => {
            return Err(error);
        },
    };
    let name = match required_string(&mut reader, "name", &two("name", "cluster_name")) {
        Ok(name) => name,
        Err(error) => {
            return Err(error);
        },
    };
    let host = match required_string(&mut reader, "host", &two("host", "cluster_host")) {
        Ok(host) => host,
        Err(error) => {
            return Err(error);
        },
    };
    let port = match required_port(&mut reader, "port", &two("port", "cluster_port")) {
        Ok(port) => port,
        Err(error) => {
            return Err(error);
        },
    };
    match DiscoveredCluster::new(ClusterUuid::new(uuid), name.as_str(), host.as_str(), port) {
        Ok(cluster) => {
            let mut cluster = cluster;
            cluster.extra = reader.finish();
            Ok(cluster)
        },
        Err(error) => Err(
            NormalizationError::new("invalid_cluster_record", error.message().as_str()),
        ),
    }
}

/// The identity and the name of an infobase, or the first problem with them.
pub open spec fn infobase_of(record: Fields) -> Result<(u128, Seq<char>), NormalizationProblem> {
    match required_uuid_of(
        raw(record, seq!["infobase"@, "infobase_uuid"@, "infobase_id"@]),
        "infobase"@,
    ) {
        Err(problem) => Err(problem),
        Ok(uuid) => match required_text_of(raw(record, seq!["name"@, "infobase_name"@]), "name"@) {
            Err(problem) => Err(problem),
            Ok(name) => Ok((uuid, name)),
        },
    }
}

pub open spec fn infobase_reader(record: Fields) -> ReaderView {
    ReaderView::start(record).take(cluster_aliases()).take(
        seq!["infobase"@, "infobase_uuid"@, "infobase_id"@],
    ).take(seq!["name"@, "infobase_name"@])
}

/// Reads an infobase of a cluster.
pub fn normalize_infobase(
    record: &RacRecord,
    source: ClusterSource,
    cluster: &DiscoveredCluster,
) -> (result: Result<InfobaseRecord, NormalizationError>)
    ensures
        match result {
            Ok(infobase) => {
                &&& infobase_of(record@) == Ok::<_, NormalizationProblem>(
                    (infobase.infobase_uuid@, infobase.infobase@),
                )
                &&& infobase.source == source
                &&& infobase.connection_string@ == model::connection_text(
                    cluster.host@,
                    cluster.port,
                    infobase.infobase@,
                )
                &&& field_value::extra_entries(infobase.extra) == infobase_reader(
                    record@,
                ).finished()
            },
            Err(error) => infobase_of(record@) == Err::<(u128, Seq<char>), _>(error@),
        },
{
    let mut reader = RecordReader::new(record);
    let _cluster = reader.take(&three("cluster", "cluster_uuid", "cluster_id"));
    let uuid = match required_uuid(
        &mut reader,
        "infobase",
        &three("infobase", "infobase_uuid", "infobase_id"),
    ) {
        Ok(uuid) => uuid,
        Err(error) => {
            return Err(error);
        },
    };
    let name = match required_string(&mut reader, "name", &two("name", "infobase_name")) {
        Ok(name) => name,
        Err(error) => {
            return Err(error);
        },
    };
    let connection_string = InfobaseRecord::build_connection_string(cluster, name.as_str());
    let mut result = InfobaseRecord::new(
        source,
        name.as_str(),
        InfobaseUuid::new(uuid),
        connection_string.as_str(),
    );
    result.extra = reader.finish();
    Ok(result)
}

/// Reads the records of `rac`.
#[derive(Clone, Copy, Debug)]
pub struct RacNormalizer {}

impl RacNormalizer {
    pub fn new() -> (result: Self) {
        RacNormalizer {  }
    }

    pub fn cluster(&self, record: &RacRecord) -> (result: Result<
        DiscoveredCluster,
        NormalizationError,
    >)
        ensures
            match result {
                Ok(cluster) => cluster_of(record@) == Ok::<_, NormalizationProblem>(
                    (cluster.uuid@, cluster.name@, cluster.host@, cluster.port),
                ) && field_value::extra_entries(cluster.extra) == cluster_reader(
                    record@,
                ).finished(),
                Err(error) => cluster_of(record@) == Err::<(u128, Seq<char>, Seq<char>, u16), _>(
                    error@,
                ),
            },
    {
        normalize_cluster(record)
    }

    pub fn infobase(
        &self,
        record: &RacRecord,
        source: ClusterSource,
        cluster: &DiscoveredCluster,
    ) -> (result: Result<InfobaseRecord, NormalizationError>)
        ensures
            match result {
                Ok(infobase) => {
                    &&& infobase_of(record@) == Ok::<_, NormalizationProblem>(
                        (infobase.infobase_uuid@, infobase.infobase@),
                    )
                    &&& infobase.source == source
                    &&& infobase.connection_string@ == model::connection_text(
                        cluster.host@,
                        cluster.port,
                        infobase.infobase@,
                    )
                    &&& field_value::extra_entries(infobase.extra) == infobase_reader(
                        record@,
                    ).finished()
                },
                Err(error) => infobase_of(record@) == Err::<(u128, Seq<char>), _>(error@),
            },
    {
        normalize_infobase(record, source, cluster)
    }

    pub fn session(&self, record: &RacRecord, source: ClusterSource) -> (result: Result<
        SessionRecord,
        NormalizationError,
    >)
        ensures
            match result {
                Ok(session) => is_session_of(session, record@, source),
                Err(error) => session_identity_of(
                    raw(record@, session_aliases()),
                    raw(record@, seq!["session_id"@]),
                ) == Err::<(u128, Option<i64>), _>(error@),
            },
    {
        normalize_session(record, source)
    }

    pub fn connection(&self, record: &RacRecord, source: ClusterSource) -> (result: Result<
        ConnectionRecord,
        NormalizationError,
    >)
        ensures
            match result {
                Ok(connection) => is_connection_of(connection, record@, source)
                    && connection_identity_of(record@) == Ok::<_, NormalizationProblem>(
                    (connection.connection@, connection.process@),
                ),
                Err(error) => connection_identity_of(record@) == Err::<(u128, u128), _>(error@),
            },
    {
        normalize_connection(record, source)
    }
}

proof fn lemma_leftovers_grow(reader: ReaderView, from: int, to: int)
    requires
        0 <= from <= to,
    ensures
        reader.leftovers(from).is_prefix_of(reader.leftovers(to)),
    decreases to - from,
{
    if from < to {
        lemma_leftovers_grow(reader, from, to - 1);
    }
}

/// A field that nobody reads is kept with its value, and nothing that was put aside is lost.
pub proof fn law_nothing_is_lost(reader: ReaderView, i: int)
    requires
        0 <= i < reader.record.len(),
    ensures
        reader.extra.is_prefix_of(reader.finished()),
        !reader.consumed.contains(reader.record[i].0) ==> exists|j: int|
            0 <= j < reader.finished().len() && (#[trigger] reader.finished()[j]).1
                == ValueView::Str(reader.record[i].1),
{
    reveal(ReaderView::finished);
    lemma_leftovers_grow(reader, 0, reader.record.len() as int);
    lemma_leftovers_grow(reader, i + 1, reader.record.len() as int);
    if !reader.consumed.contains(reader.record[i].0) {
        let at = reader.leftovers(i).len() as int;
        assert(reader.leftovers(i + 1)[at].1 == ValueView::Str(reader.record[i].1));
        assert(reader.finished()[at] == reader.leftovers(i + 1)[at]);
    }
}

/// A value that is not what its field should hold is kept under a name that tells which field.
pub proof fn law_bad_values_are_kept(
    reader: ReaderView,
    canonical: Seq<char>,
    aliases: Seq<Seq<char>>,
    is_bad: spec_fn(Seq<char>) -> bool,
    value: Seq<char>,
)
    requires
        raw(reader.record, aliases) == Some(value),
        is_bad(value),
    ensures
        reader.read(canonical, aliases, is_bad).extra == insert_unique_of(
            reader.extra,
            "rac_raw_"@ + canonical,
            ValueView::Str(value),
        ),
{
    reveal(ReaderView::read);
    reveal(ReaderView::take);
    reveal(ReaderView::keep);
}

proof fn lemma_free_suffix(extra: Extras, base: Seq<char>, suffix: nat)
    requires
        2 <= suffix <= extra.len() + 2,
        forall|k: nat|
            2 <= k < suffix ==> entries::lookup(extra, #[trigger] suffixed(base, k)) is Some,
    ensures
        entries::lookup(extra, suffixed(base, free_suffix(extra, base, suffix))) is None,
    decreases extra.len() + 2 - suffix,
{
    if suffix < extra.len() + 2 {
        if entries::lookup(extra, suffixed(base, suffix)) is Some {
            lemma_free_suffix(extra, base, suffix + 1);
        }
    } else {
        lemma_some_suffix_is_free(extra, base);
    }
}

/// What is put aside never overwrites anything: every entry gets a name of its own.
pub proof fn law_names_stay_distinct(extra: Extras, base: Seq<char>, value: ValueView)
    requires
        entries::distinct(extra),
    ensures
        entries::distinct(insert_unique_of(extra, base, value)),
        extra.is_prefix_of(insert_unique_of(extra, base, value)),
{
    let name = unique_name(extra, base);
    let more = insert_unique_of(extra, base, value);
    if entries::lookup(extra, base) is Some {
        lemma_free_suffix(extra, base, 2);
    }
    assert(entries::lookup(extra, name) is None);
    entries::lemma_lookup(extra, name);
    assert forall|i: int, j: int| 0 <= i < j < more.len() implies (#[trigger] more[i]).0 != (
    #[trigger] more[j]).0 by {
        assert(more[i] == extra[i]);
        if j < extra.len() {
            assert(more[j] == extra[j]);
        }
    }
}

} // verus!
