//! The records that `rac` prints: lines of `key : value`, separated by blank lines.

use indexmap::IndexMap;

use vstd::prelude::*;
use vstd::string::*;

use crate::domain::entries;
use crate::number;
use crate::outcome;
use crate::text;

verus! {

/// The entries of a map of texts, in order.
pub uninterp spec fn record_entries(fields: IndexMap<String, String>) -> Seq<(Seq<char>, Seq<char>)>;

/// Calls `IndexMap::new`: the map is empty.
#[verifier::external_body]
fn new_fields() -> (result: IndexMap<String, String>)
    ensures
        record_entries(result) == Seq::<(Seq<char>, Seq<char>)>::empty(),
{
    IndexMap::new()
}

/// Calls `IndexMap::len`: the number of entries. No key occurs twice in a map.
#[verifier::external_body]
fn fields_len(fields: &IndexMap<String, String>) -> (result: usize)
    ensures
        entries::counts(result, record_entries(*fields)),
{
    fields.len()
}

/// Calls `IndexMap::get`: the value of a key.
#[verifier::external_body]
fn fields_get<'a>(fields: &'a IndexMap<String, String>, key: &str) -> (result: Option<&'a String>)
    ensures
        outcome::option_view(result) == entries::lookup(record_entries(*fields), key@),
{
    fields.get(key)
}

/// Calls `IndexMap::get_index`: the entry at a position, in insertion order.
#[verifier::external_body]
fn fields_at(fields: &IndexMap<String, String>, index: usize) -> (result: Option<(&String, &String)>)
    ensures
        match result {
            Some((key, value)) => index < record_entries(*fields).len() && record_entries(
                *fields,
            )[index as int] == (key@, value@),
            None => index >= record_entries(*fields).len(),
        },
{
    fields.get_index(index)
}

/// Calls `IndexMap::insert`: a known key keeps its place and gets the new value, a new key goes
/// last; the value that a known key had is returned.
#[verifier::external_body]
fn fields_insert(fields: &mut IndexMap<String, String>, key: String, value: String) -> (result: Option<
    String,
>)
    ensures
        record_entries(*final(fields)) == entries::inserted(
            record_entries(*old(fields)),
            key@,
            value@,
        ),
        outcome::option_view(result) == entries::lookup(record_entries(*old(fields)), key@),
{
    fields.insert(key, value)
}

/// A lowercase letter or an underscore in place of a capital or a hyphen.
pub open spec fn name_char(c: char) -> char {
    if c == '-' {
        '_'
    } else {
        text::lower_char(c)
    }
}

/// The canonical form of a field name: trimmed, in lower case, with underscores for hyphens.
pub open spec fn normalized(name: Seq<char>) -> Seq<char> {
    text::trim(name).map_values(|c: char| name_char(c))
}

/// The canonical form of a field name.
pub fn normalize_field_name(name: &str) -> (result: String)
    ensures
        result@ == normalized(name@),
{
    let trimmed = text::trim_text(name);
    let source = text::chars(trimmed.as_str());
    let ghost whole = text::trim(name@);
    let mut result = String::new();
    let mut i: usize = 0;
    assert(result@ =~= whole.take(0).map_values(|c: char| name_char(c)));
    while i < source.len()
        invariant
            source@ == whole,
            i <= source@.len(),
            result@ == whole.take(i as int).map_values(|c: char| name_char(c)),
        decreases source.len() - i,
    {
        let c = source[i];
        let ghost before = result@;
        if c == '-' {
            result.push('_');
        } else {
            result.push(text::char_to_ascii_lowercase(c));
        }
        assert(whole.take(i + 1).map_values(|c: char| name_char(c)) =~= before.push(name_char(c)));
        i = i + 1;
    }
    assert(whole.take(whole.len() as int) =~= whole);
    result
}

/// One record: field names in canonical form with their values, in the order printed.
pub struct RacRecord {
    fields: IndexMap<String, String>,
}

impl View for RacRecord {
    type V = Seq<(Seq<char>, Seq<char>)>;

    closed spec fn view(&self) -> Seq<(Seq<char>, Seq<char>)> {
        record_entries(self.fields)
    }
}

impl RacRecord {
    pub fn new() -> (result: Self)
        ensures
            result@ == Seq::<(Seq<char>, Seq<char>)>::empty(),
    {
        RacRecord { fields: new_fields() }
    }

    pub fn get(&self, key: &str) -> (result: Option<&str>)
        ensures
            outcome::option_view(result) == entries::lookup(self@, key@),
    {
        match fields_get(&self.fields, key) {
            Some(value) => Some(value.as_str()),
            None => None,
        }
    }

    pub fn contains_key(&self, key: &str) -> (result: bool)
        ensures
            result == entries::has(self@, key@),
    {
        proof {
            entries::lemma_lookup(self@, key@);
        }
        fields_get(&self.fields, key).is_some()
    }

    pub fn fields(&self) -> (result: &IndexMap<String, String>)
        ensures
            record_entries(*result) == self@,
    {
        &self.fields
    }

    pub fn into_fields(self) -> (result: IndexMap<String, String>)
        ensures
            record_entries(result) == self@,
    {
        self.fields
    }

    /// The entry at a position.
    pub fn entry_at(&self, index: usize) -> (result: Option<(&str, &str)>)
        ensures
            match result {
                Some((key, value)) => index < self@.len() && self@[index as int] == (key@, value@),
                None => index >= self@.len(),
            },
    {
        match fields_at(&self.fields, index) {
            Some((key, value)) => Some((key.as_str(), value.as_str())),
            None => None,
        }
    }

    /// The entries in order.
    pub fn iter(&self) -> (result: Vec<(&str, &str)>)
        ensures
            result@.len() == self@.len(),
            forall|i: int|
                0 <= i < result@.len() ==> ((#[trigger] result@[i]).0@, result@[i].1@) == self@[i],
    {
        let mut result: Vec<(&str, &str)> = Vec::new();
        let count: usize = self.len();
        let mut i: usize = 0;
        while i < count
            invariant
                count == self@.len(),
                i <= count,
                result@.len() == i,
                forall|j: int|
                    0 <= j < result@.len() ==> ((#[trigger] result@[j]).0@, result@[j].1@)
                        == self@[j],
            decreases count - i,
        {
            if let Some((key, value)) = self.entry_at(i) {
                result.push((key, value));
            }
            i = i + 1;
        }
        result
    }

    /// Sets a field, whose name is brought to canonical form, and returns its former value.
    pub fn insert(&mut self, key: &str, value: &str) -> (result: Option<String>)
        ensures
            final(self)@ == entries::inserted(old(self)@, normalized(key@), value@),
            outcome::option_view(result) == entries::lookup(old(self)@, normalized(key@)),
    {
        fields_insert(&mut self.fields, normalize_field_name(key), value.to_owned())
    }

    pub fn is_empty(&self) -> (result: bool)
        ensures
            result == (self@.len() == 0),
    {
        fields_len(&self.fields) == 0
    }

    pub fn len(&self) -> (result: usize)
        ensures
            result == self@.len(),
            entries::distinct(self@),
    {
        fields_len(&self.fields)
    }
}

#[derive(Clone, Copy, Debug, PartialEq, Eq, Structural)]
pub enum RacParseErrorKind {
    MissingSeparator,
    EmptyKey,
    DuplicateNormalizedKey,
}

/// Where a text stops being a list of records, and why. It never carries the line itself.
#[derive(Clone, Copy, Debug, PartialEq, Eq, Structural)]
pub struct RacParseError {
    line: usize,
    kind: RacParseErrorKind,
}

pub struct ParseProblem {
    pub line: nat,
    pub kind: RacParseErrorKind,
}

impl View for RacParseError {
    type V = ParseProblem;

    closed spec fn view(&self) -> ParseProblem {
        ParseProblem { line: self.line as nat, kind: self.kind }
    }
}

pub open spec fn problem_text(problem: ParseProblem) -> Seq<char> {
    "ошибка разбора ответа RAC в строке "@ + number::decimal(problem.line) + ": "@ + (
    match problem.kind {
        RacParseErrorKind::MissingSeparator => "отсутствует разделитель ':'"@,
        RacParseErrorKind::EmptyKey => "пустое имя поля"@,
        RacParseErrorKind::DuplicateNormalizedKey => "повторяющееся имя поля после нормализации"@,
    })
}

impl RacParseError {
    pub fn line(self) -> (result: usize)
        ensures
            result == self@.line,
    {
        self.line
    }

    pub fn kind(self) -> (result: RacParseErrorKind)
        ensures
            result == self@.kind,
    {
        self.kind
    }

    pub fn message(&self) -> (result: String)
        ensures
            result@ == problem_text(self@),
    {
        let mut result = "ошибка разбора ответа RAC в строке ".to_owned();
        result.push_str(number::format_u64(self.line as u64).as_str());
        result.push_str(": ");
        let reason = match self.kind {
            RacParseErrorKind::MissingSeparator => "отсутствует разделитель ':'",
            RacParseErrorKind::EmptyKey => "пустое имя поля",
            RacParseErrorKind::DuplicateNormalizedKey => "повторяющееся имя поля после нормализации",
        };
        result.push_str(reason);
        result
    }
}

/// A line without its carriage return, and the first line without a byte order mark.
pub open spec fn clean_line(line: Seq<char>, index: int) -> Seq<char> {
    let body = if line.len() > 0 && line.last() == '\r' {
        line.drop_last()
    } else {
        line
    };
    if index == 0 && body.len() > 0 && body[0] == '\u{feff}' {
        body.drop_first()
    } else {
        body
    }
}

/// Records read so far, and the one being read.
pub struct ParseState {
    pub records: Seq<Seq<(Seq<char>, Seq<char>)>>,
    pub current: Seq<(Seq<char>, Seq<char>)>,
}

/// The records read so far with the one being read, unless that is empty.
pub open spec fn closed_records(state: ParseState) -> Seq<Seq<(Seq<char>, Seq<char>)>> {
    if state.current.len() == 0 {
        state.records
    } else {
        state.records.push(state.current)
    }
}

/// What one line does to the state.
pub open spec fn read_line(state: ParseState, line: Seq<char>, index: int) -> Result<
    ParseState,
    ParseProblem,
> {
    let colon = text::first_index(line, ':', 0);
    let key = text::trim(line.take(colon));
    let value = text::trim(line.skip(colon + 1));
    let number = (index + 1) as nat;
    if text::trim(line).len() == 0 {
        Ok(ParseState { records: closed_records(state), current: Seq::empty() })
    } else if colon >= line.len() {
        Err(ParseProblem { line: number, kind: RacParseErrorKind::MissingSeparator })
    } else if key.len() == 0 {
        Err(ParseProblem { line: number, kind: RacParseErrorKind::EmptyKey })
    } else if entries::has(state.current, normalized(key)) {
        Err(ParseProblem { line: number, kind: RacParseErrorKind::DuplicateNormalizedKey })
    } else {
        Ok(
            ParseState {
                records: state.records,
                current: state.current.push((normalized(key), value)),
            },
        )
    }
}

/// The state after the first `count` lines, or the problem of the first bad one.
pub open spec fn read_lines(lines: Seq<Seq<char>>, count: int) -> Result<ParseState, ParseProblem>
    decreases count,
{
    if count <= 0 {
        Ok(ParseState { records: Seq::empty(), current: Seq::empty() })
    } else {
        match read_lines(lines, count - 1) {
            Err(problem) => Err(problem),
            Ok(state) => read_line(state, clean_line(lines[count - 1], count - 1), count - 1),
        }
    }
}

/// The records that a text holds.
pub open spec fn records_of(source: Seq<char>) -> Result<
    Seq<Seq<(Seq<char>, Seq<char>)>>,
    ParseProblem,
> {
    let lines = text::split(source, '\n');
    match read_lines(lines, lines.len() as int) {
        Err(problem) => Err(problem),
        Ok(state) => Ok(closed_records(state)),
    }
}

proof fn lemma_read_lines_fail(lines: Seq<Seq<char>>, from: int, to: int)
    requires
        0 <= from <= to,
        read_lines(lines, from) is Err,
    ensures
        read_lines(lines, to) == read_lines(lines, from),
    decreases to - from,
{
    if from < to {
        lemma_read_lines_fail(lines, from, to - 1);
    }
}

pub open spec fn record_views(records: Seq<RacRecord>) -> Seq<Seq<(Seq<char>, Seq<char>)>> {
    records.map_values(|record: RacRecord| record@)
}

fn strip_line(line: &str, first: bool) -> (result: String)
    ensures
        result@ == clean_line(line@, if first { 0 } else { 1 }),
{
    let source = text::chars(line);
    let to: usize = if source.len() > 0 && source[source.len() - 1] == '\r' {
        source.len() - 1
    } else {
        source.len()
    };
    let from: usize = if first && to > 0 && source[0] == '\u{feff}' {
        1
    } else {
        0
    };
    let result = text::text_of(&source, from, to);
    proof {
        let body = if line@.len() > 0 && line@.last() == '\r' {
            line@.drop_last()
        } else {
            line@
        };
        assert(body =~= line@.subrange(0, to as int));
        assert(result@ =~= clean_line(line@, if first { 0 } else { 1 }));
    }
    result
}

/// Reads the records that a text holds.
pub fn parse_rac_records(source: &str) -> (result: Result<Vec<RacRecord>, RacParseError>)
    ensures
        match result {
            Ok(records) => records_of(source@) == Ok::<_, ParseProblem>(record_views(records@)),
            Err(error) => records_of(source@) == Err::<Seq<Seq<(Seq<char>, Seq<char>)>>, _>(error@),
        },
{
    let lines = text::split_text(source, '\n');
    let ghost split = text::split(source@, '\n');
    let mut records: Vec<RacRecord> = Vec::new();
    let mut current = RacRecord::new();
    let mut i: usize = 0;
    assert(text::views(lines@).len() == split.len());
    assert(record_views(records@) =~= Seq::<Seq<(Seq<char>, Seq<char>)>>::empty());
    while i < lines.len()
        invariant
            split == text::split(source@, '\n'),
            text::views(lines@) == split,
            lines@.len() == split.len(),
            i <= lines@.len(),
            read_lines(split, i as int) == Ok::<_, ParseProblem>(
                ParseState { records: record_views(records@), current: current@ },
            ),
        decreases lines.len() - i,
    {
        assert(split[i as int] == lines@[i as int]@);
        let line = strip_line(lines[i].as_str(), i == 0);
        let ghost state = ParseState { records: record_views(records@), current: current@ };
        assert(line@ == clean_line(split[i as int], i as int));
        assert(read_lines(split, i + 1) == read_line(state, line@, i as int));
        proof {
            if read_lines(split, i + 1) is Err {
                lemma_read_lines_fail(split, i + 1, split.len() as int);
            }
        }
        let body = text::trim_text(line.as_str());
        if body.as_str().is_empty() {
            if !current.is_empty() {
                let ghost before = record_views(records@);
                let ghost closed = current@;
                records.push(current);
                assert(record_views(records@) =~= before.push(closed));
                current = RacRecord::new();
            } else {
                assert(current@ =~= Seq::<(Seq<char>, Seq<char>)>::empty());
            }
        } else {
            let chars = text::chars(line.as_str());
            let colon: usize = text::find_char(&chars, ':', 0);
            if colon >= chars.len() {
                return Err(
                    RacParseError { line: i + 1, kind: RacParseErrorKind::MissingSeparator },
                );
            }
            let key_text = text::text_of(&chars, 0, colon);
            let value_text = text::text_of(&chars, colon + 1, chars.len());
            assert(key_text@ =~= line@.take(colon as int));
            assert(value_text@ =~= line@.skip(colon + 1));
            let key = text::trim_text(key_text.as_str());
            if key.as_str().is_empty() {
                return Err(RacParseError { line: i + 1, kind: RacParseErrorKind::EmptyKey });
            }
            let name = normalize_field_name(key.as_str());
            if current.contains_key(name.as_str()) {
                return Err(
                    RacParseError { line: i + 1, kind: RacParseErrorKind::DuplicateNormalizedKey },
                );
            }
            let value = text::trim_text(value_text.as_str());
            proof {
                entries::lemma_position(current@, name@, 0);
                let at = entries::position(current@, name@, 0);
                assert(at == current@.len()) by {
                    if at < current@.len() {
                        assert(current@[at].0 == name@);
                    }
                }
            }
            let _former = fields_insert(&mut current.fields, name, value);
        }
        i = i + 1;
    }
    if !current.is_empty() {
        let ghost before = record_views(records@);
        let ghost closed = current@;
        records.push(current);
        assert(record_views(records@) =~= before.push(closed));
    }
    Ok(records)
}

/// Reads the records that `rac` prints.
#[derive(Clone, Copy, Debug)]
pub struct RacRecordParser {}

impl RacRecordParser {
    pub fn parse(source: &str) -> (result: Result<Vec<RacRecord>, RacParseError>)
        ensures
            match result {
                Ok(records) => records_of(source@) == Ok::<_, ParseProblem>(record_views(records@)),
                Err(error) => records_of(source@) == Err::<Seq<Seq<(Seq<char>, Seq<char>)>>, _>(
                    error@,
                ),
            },
    {
        parse_rac_records(source)
    }
}

/// Bringing a name to canonical form twice changes nothing more.
pub proof fn law_normalization_is_idempotent(name: Seq<char>)
    ensures
        normalized(normalized(name)) == normalized(name),
        normalized(name).len() == text::trim(name).len(),
{
    let trimmed = text::trim(name);
    let once = normalized(name);
    text::lemma_trim(name);
    if once.len() > 0 {
        assert(once[0] == name_char(trimmed[0]));
        assert(once.last() == name_char(trimmed.last()));
        assert(!text::is_whitespace(once[0]));
        assert(!text::is_whitespace(once.last()));
    }
    assert(text::trim(once) == once);
    assert forall|i: int| 0 <= i < once.len() implies name_char(#[trigger] once[i]) == once[i] by {
        assert(once[i] == name_char(trimmed[i]));
    }
    assert(normalized(once) =~= once);
}

/// A record with fields whose names are canonical, not empty and distinct.
pub open spec fn is_sound(record: Seq<(Seq<char>, Seq<char>)>) -> bool {
    &&& entries::distinct(record)
    &&& forall|i: int|
        0 <= i < record.len() ==> (#[trigger] record[i]).0.len() > 0 && normalized(record[i].0)
            == record[i].0
}

pub open spec fn all_sound(records: Seq<Seq<(Seq<char>, Seq<char>)>>) -> bool {
    forall|i: int| 0 <= i < records.len() ==> (#[trigger] records[i]).len() > 0 && is_sound(records[i])
}

proof fn lemma_lines_are_sound(lines: Seq<Seq<char>>, count: int)
    requires
        0 <= count,
    ensures
        read_lines(lines, count) matches Ok(state) ==> all_sound(state.records) && is_sound(
            state.current,
        ),
    decreases count,
{
    if count > 0 {
        lemma_lines_are_sound(lines, count - 1);
        if let Ok(state) = read_lines(lines, count - 1) {
            let line = clean_line(lines[count - 1], count - 1);
            let colon = text::first_index(line, ':', 0);
            let key = text::trim(line.take(colon));
            law_normalization_is_idempotent(key);
            text::lemma_trim(line.take(colon));
            if let Ok(next) = read_lines(lines, count) {
                if text::trim(line).len() > 0 {
                    let added = (normalized(key), text::trim(line.skip(colon + 1)));
                    assert(next.current == state.current.push(added));
                    assert forall|i: int, j: int| 0 <= i < j < next.current.len() implies (
                    #[trigger] next.current[i]).0 != (#[trigger] next.current[j]).0 by {
                        assert(next.current[i] == state.current[i]);
                        if j < state.current.len() {
                            assert(next.current[j] == state.current[j]);
                        }
                    }
                }
            }
        }
    }
}

/// Every record read has fields, and their names are canonical, not empty and distinct.
pub proof fn law_records_are_sound(source: Seq<char>)
    ensures
        records_of(source) matches Ok(records) ==> all_sound(records),
{
    let lines = text::split(source, '\n');
    lemma_lines_are_sound(lines, lines.len() as int);
}

} // verus!
