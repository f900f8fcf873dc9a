//! Records that are printed as lines are read back as they were.

use vstd::prelude::*;
use vstd::string::*;

use crate::domain::entries;
use crate::infrastructure::rac::parser;
use crate::infrastructure::rac::parser::{
    parse_rac_records, ParseProblem, ParseState, RacParseError, RacParseErrorKind, RacRecord,
};
use crate::text;

verus! {

pub type Field = (Seq<char>, Seq<char>);

/// A text that holds no whitespace at its ends.
pub open spec fn is_tight(s: Seq<char>) -> bool {
    s.len() > 0 ==> !text::is_whitespace(s[0]) && !text::is_whitespace(s.last())
}

/// A field that one line can show: a canonical name without a colon, and a value without a line break.
pub open spec fn is_printable(field: Field) -> bool {
    &&& field.0.len() > 0
    &&& is_tight(field.0)
    &&& is_tight(field.1)
    &&& field.0[0] != '\u{feff}'
    &&& parser::normalized(field.0) == field.0
    &&& forall|i: int| 0 <= i < field.0.len() ==> field.0[i] != ':' && field.0[i] != '\n'
    &&& forall|i: int| 0 <= i < field.1.len() ==> field.1[i] != '\n'
}

/// A record that lines can show: fields, none of them twice.
pub open spec fn is_record(record: Seq<Field>) -> bool {
    &&& record.len() > 0
    &&& entries::distinct(record)
    &&& forall|i: int| 0 <= i < record.len() ==> is_printable(#[trigger] record[i])
}

/// A field as it is printed: its name, a colon between spaces, and its value.
pub open spec fn line_of(field: Field) -> Seq<char> {
    field.0 + seq![' ', ':', ' '] + field.1
}

/// Records as they are printed: a line for each field, and a blank line after each record.
pub open spec fn lines_of(records: Seq<Seq<Field>>) -> Seq<Seq<char>>
    decreases records.len(),
{
    if records.len() == 0 {
        Seq::empty()
    } else {
        lines_of(records.drop_last()) + records.last().map_values(|field: Field| line_of(field))
            + seq![Seq::<char>::empty()]
    }
}

/// Lines one below the other.
pub open spec fn text_of(lines: Seq<Seq<char>>) -> Seq<char>
    decreases lines.len(),
{
    if lines.len() == 0 {
        Seq::empty()
    } else if lines.len() == 1 {
        lines[0]
    } else {
        lines[0] + seq!['\n'] + text_of(lines.drop_first())
    }
}

proof fn lemma_lines_split(lines: Seq<Seq<char>>)
    requires
        lines.len() > 0,
        forall|i: int, j: int|
            0 <= i < lines.len() && 0 <= j < lines[i].len() ==> #[trigger] lines[i][j] != '\n',
    ensures
        text::split(text_of(lines), '\n') == lines,
    decreases lines.len(),
{
    let first = lines[0];
    assert forall|j: int| 0 <= j < first.len() implies first[j] != '\n' by {
        assert(lines[0][j] != '\n');
    }
    if lines.len() == 1 {
        text::lemma_split_single(first, '\n');
        assert(lines =~= seq![first]);
    } else {
        let rest = lines.drop_first();
        assert forall|i: int, j: int|
            0 <= i < rest.len() && 0 <= j < rest[i].len() implies #[trigger] rest[i][j] != '\n' by {
            assert(lines[i + 1][j] != '\n');
        }
        lemma_lines_split(rest);
        text::lemma_split_head(first, '\n', text_of(rest));
        assert(lines =~= seq![first] + rest);
    }
}

proof fn lemma_trim_end_space(s: Seq<char>)
    requires
        s.len() > 0,
        is_tight(s),
    ensures
        text::trim(s + seq![' ']) == s,
{
    let spaced = s + seq![' '];
    assert(spaced[0] == s[0]);
    assert(text::trim_start(spaced) == spaced);
    assert(spaced.last() == ' ');
    assert(spaced.drop_last() =~= s);
    reveal_with_fuel(text::trim_end, 3);
}

proof fn lemma_trim_start_space(s: Seq<char>)
    requires
        is_tight(s),
    ensures
        text::trim(seq![' '] + s) == s,
{
    let spaced = seq![' '] + s;
    assert(spaced[0] == ' ');
    assert(spaced.drop_first() =~= s);
    reveal_with_fuel(text::trim_start, 3);
    reveal_with_fuel(text::trim_end, 2);
    if s.len() == 0 {
        assert(text::trim_start(spaced) == s);
    }
}

proof fn lemma_not_blank(s: Seq<char>)
    requires
        s.len() > 0,
        !text::is_whitespace(s[0]),
    ensures
        text::trim(s).len() > 0,
{
    assert(text::trim_start(s) == s);
    lemma_trim_end_keeps(s);
}

proof fn lemma_trim_end_keeps(s: Seq<char>)
    requires
        s.len() > 0,
        !text::is_whitespace(s[0]),
    ensures
        text::trim_end(s).len() > 0,
    decreases s.len(),
{
    if text::is_whitespace(s.last()) {
        lemma_trim_end_keeps(s.drop_last());
    }
}

/// The line of a field adds that field to the record being read.
proof fn lemma_line_reads(state: ParseState, field: Field, index: int)
    requires
        is_printable(field),
        !entries::has(state.current, field.0),
    ensures
        parser::read_line(state, parser::clean_line(line_of(field), index), index) == Ok::<
            _,
            ParseProblem,
        >(ParseState { records: state.records, current: state.current.push(field) }),
{
    let (name, value) = field;
    let line = line_of(field);
    let n = name.len() as int;
    assert(line[0] == name[0]);
    if value.len() > 0 {
        assert(line.last() == value.last());
    } else {
        assert(line.last() == ' ');
    }
    assert(parser::clean_line(line, index) == line);
    lemma_not_blank(line);
    text::lemma_first_index(line, ':', 0);
    assert(line[n] == ' ');
    assert(line[n + 1] == ':');
    assert forall|i: int| 0 <= i < n + 1 implies line[i] != ':' by {
        if i < n {
            assert(line[i] == name[i]);
        }
    }
    let colon = text::first_index(line, ':', 0);
    assert(colon == n + 1);
    assert(line.take(colon) =~= name + seq![' ']);
    assert(line.skip(colon + 1) =~= seq![' '] + value);
    lemma_trim_end_space(name);
    lemma_trim_start_space(value);
}

/// The first `count` lines of the last record give its first `count` fields.
proof fn lemma_fields_read(
    lines: Seq<Seq<char>>,
    from: int,
    record: Seq<Field>,
    before: Seq<Seq<Field>>,
    count: int,
)
    requires
        0 <= from,
        0 <= count <= record.len(),
        from + record.len() <= lines.len(),
        is_record(record),
        forall|i: int|
            0 <= i < record.len() ==> #[trigger] lines[from + i] == line_of(record[i]),
        parser::read_lines(lines, from) == Ok::<_, ParseProblem>(
            ParseState { records: before, current: Seq::empty() },
        ),
    ensures
        parser::read_lines(lines, from + count) == Ok::<_, ParseProblem>(
            ParseState { records: before, current: record.take(count) },
        ),
    decreases count,
{
    if count == 0 {
        assert(record.take(0) =~= Seq::<Field>::empty());
    } else {
        lemma_fields_read(lines, from, record, before, count - 1);
        let at = count - 1;
        let state = ParseState { records: before, current: record.take(at) };
        let field = record[at];
        assert(is_printable(field));
        assert(lines[from + at] == line_of(field));
        if entries::has(state.current, field.0) {
            let j = choose|j: int|
                0 <= j < state.current.len() && (#[trigger] state.current[j]).0 == field.0;
            assert(record[j].0 == record[at].0);
        }
        lemma_line_reads(state, field, from + at);
        assert(record.take(count) =~= record.take(at).push(field));
    }
}

proof fn lemma_lines_of_end(records: Seq<Seq<Field>>, k: int)
    requires
        0 <= k <= records.len(),
    ensures
        lines_of(records.take(k)).is_prefix_of(lines_of(records)),
    decreases records.len() - k,
{
    if k < records.len() {
        lemma_lines_of_end(records, k + 1);
        let more = records.take(k + 1);
        assert(more.drop_last() =~= records.take(k));
    } else {
        assert(records.take(k) =~= records);
    }
}

/// The lines of the first `k` records give these records.
proof fn lemma_records_read(records: Seq<Seq<Field>>, lines: Seq<Seq<char>>, k: int)
    requires
        0 <= k <= records.len(),
        forall|i: int| 0 <= i < records.len() ==> is_record(#[trigger] records[i]),
        lines == lines_of(records),
    ensures
        parser::read_lines(lines, lines_of(records.take(k)).len() as int) == Ok::<_, ParseProblem>(
            ParseState { records: records.take(k), current: Seq::empty() },
        ),
    decreases k,
{
    if k == 0 {
        assert(records.take(0) =~= Seq::<Seq<Field>>::empty());
    } else {
        lemma_records_read(records, lines, k - 1);
        let before = records.take(k - 1);
        let upto = records.take(k);
        let record = records[k - 1];
        let from = lines_of(before).len() as int;
        let end = lines_of(upto).len() as int;
        assert(upto.drop_last() =~= before);
        assert(upto.last() == record);
        assert(end == from + record.len() + 1);
        lemma_lines_of_end(records, k);
        assert forall|i: int| 0 <= i < record.len() implies #[trigger] lines[from + i] == line_of(
            record[i],
        ) by {
            assert(lines[from + i] == lines_of(upto)[from + i]);
        }
        assert(is_record(record));
        lemma_fields_read(lines, from, record, before, record.len() as int);
        assert(record.take(record.len() as int) =~= record);
        assert(lines[end - 1] == lines_of(upto)[end - 1]);
        assert(lines[end - 1] == Seq::<char>::empty());
        let state = ParseState { records: before, current: record };
        assert(parser::clean_line(Seq::<char>::empty(), end - 1) == Seq::<char>::empty());
        assert(text::trim(Seq::<char>::empty()).len() == 0);
        assert(parser::read_lines(lines, end) == parser::read_line(
            state,
            Seq::<char>::empty(),
            end - 1,
        ));
        assert(before.push(record) =~= upto);
    }
}

proof fn lemma_lines_have_no_break(records: Seq<Seq<Field>>)
    requires
        forall|i: int| 0 <= i < records.len() ==> is_record(#[trigger] records[i]),
    ensures
        forall|i: int, j: int|
            0 <= i < lines_of(records).len() && 0 <= j < lines_of(records)[i].len()
                ==> #[trigger] lines_of(records)[i][j] != '\n',
    decreases records.len(),
{
    if records.len() > 0 {
        let before = records.drop_last();
        let record = records.last();
        assert forall|i: int| 0 <= i < before.len() implies is_record(#[trigger] before[i]) by {
            assert(before[i] == records[i]);
        }
        lemma_lines_have_no_break(before);
        let lines = lines_of(records);
        let n = lines_of(before).len() as int;
        assert forall|i: int, j: int|
            0 <= i < lines.len() && 0 <= j < lines[i].len() implies #[trigger] lines[i][j]
            != '\n' by {
            if i < n {
                assert(lines[i] == lines_of(before)[i]);
            } else if i < n + record.len() {
                let field = record[i - n];
                assert(is_printable(field));
                assert(lines[i] == line_of(field));
                let name = field.0.len() as int;
                if j < name {
                    assert(lines[i][j] == field.0[j]);
                } else if j >= name + 3 {
                    assert(lines[i][j] == field.1[j - name - 3]);
                }
            }
        }
    }
}

/// Records printed line by line, `name : value`, with a blank line after each, are read back as they were:
/// the same records in the same order, each with the same fields in the same order.
pub proof fn law_printed_records_are_read_back(
    records: Seq<Seq<Field>>,
    source: &str,
    result: Result<Vec<RacRecord>, RacParseError>,
)
    requires
        records.len() > 0,
        forall|i: int| 0 <= i < records.len() ==> is_record(#[trigger] records[i]),
        source@ == text_of(lines_of(records)),
        call_ensures(parse_rac_records, (source,), result),
    ensures
        result is Ok,
        parser::record_views(result->Ok_0@) == records,
{
    let lines = lines_of(records);
    lemma_lines_have_no_break(records);
    assert(lines.len() > 0);
    lemma_lines_split(lines);
    lemma_records_read(records, lines, records.len() as int);
    assert(records.take(records.len() as int) =~= records);
}

/// A line without a colon, and one without a name before its colon, is no line of a record.
pub proof fn law_lines_need_a_name(state: ParseState, line: Seq<char>, index: int)
    requires
        text::trim(line).len() > 0,
    ensures
        (forall|i: int| 0 <= i < line.len() ==> line[i] != ':') ==> parser::read_line(
            state,
            line,
            index,
        ) == Err::<ParseState, _>(
            ParseProblem { line: (index + 1) as nat, kind: RacParseErrorKind::MissingSeparator },
        ),
        line[0] == ':' ==> parser::read_line(state, line, index) == Err::<ParseState, _>(
            ParseProblem { line: (index + 1) as nat, kind: RacParseErrorKind::EmptyKey },
        ),
{
    text::lemma_first_index(line, ':', 0);
    assert(line.take(0) =~= Seq::<char>::empty());
    assert(text::trim(Seq::<char>::empty()) == Seq::<char>::empty());
}

} // verus!
