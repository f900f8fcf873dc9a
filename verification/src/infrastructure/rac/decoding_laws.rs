//! Which of two decodings of the same output is taken, and where a registered place leads.

use vstd::prelude::*;
use vstd::string::*;

use crate::infrastructure::path;
use crate::infrastructure::rac::encoding;
use crate::infrastructure::rac::encoding::{choose_decoding, DecodedRacOutput, RacEncoding};
use crate::infrastructure::rac::locator::{SearchEnvironment, SearchPolicy};
use crate::infrastructure::rac::process;
use crate::infrastructure::rac::process::RacArguments;
use crate::infrastructure::rac::registry;
use crate::infrastructure::rac::registry::registry_queries;
use crate::text;

verus! {

/// The text that is taken is the one that looks more like output, under the encoding that gave it;
/// Windows-1251 where neither does.
pub proof fn law_the_likelier_text_is_taken(
    windows: (String, bool),
    oem: (String, bool),
    result: DecodedRacOutput,
)
    requires
        call_ensures(choose_decoding, (windows, oem), result),
    ensures
        ({
            let for_windows = encoding::score(windows.0@, windows.1);
            let for_oem = encoding::score(oem.0@, oem.1);
            &&& for_oem > for_windows ==> result@.text == oem.0@ && result@.encoding
                == RacEncoding::Ibm866
            &&& for_oem <= for_windows ==> result@.text == windows.0@ && result@.encoding
                == RacEncoding::Windows1251
        }),
{
}

/// Of two equal texts the one without bytes that denote nothing is taken.
pub proof fn law_errors_speak_against_a_decoding(
    windows: (String, bool),
    oem: (String, bool),
    result: DecodedRacOutput,
)
    requires
        call_ensures(choose_decoding, (windows, oem), result),
        windows.0@ == oem.0@,
    ensures
        result@.encoding == RacEncoding::Ibm866 <==> windows.1 && !oem.1,
{
}

/// A Russian letter speaks for a decoding; other characters say nothing, and other Cyrillic letters, box
/// drawing, control characters and replacement characters speak against it, the last the most.
pub proof fn law_characters_speak_for_and_against(letter: char, plain: char, rare: char, drawn: char)
    requires
        'А' <= letter <= 'я' || letter == 'Ё' || letter == 'ё',
        'a' <= plain <= 'z' || 'A' <= plain <= 'Z' || '0' <= plain <= '9' || plain == ' ' || plain
            == '\n',
        '\u{0450}' <= rare <= '\u{052f}' && rare != 'ё',
        '\u{2500}' <= drawn <= '\u{257f}',
    ensures
        encoding::char_score(letter) > encoding::char_score(plain),
        encoding::char_score(plain) == 0,
        encoding::char_score(rare) < 0,
        encoding::char_score(drawn) < encoding::char_score(rare),
        encoding::char_score('\u{fffd}') < encoding::char_score(drawn),
        encoding::char_score('\u{0}') < 0,
{
}

/// Every root is asked for every value that holds a place of installation.
pub proof fn law_every_root_is_asked_for_every_value(queries: Vec<RacArguments>, root: int, name: int)
    requires
        call_ensures(registry_queries, (), queries),
        0 <= root < 3,
        0 <= name < 3,
    ensures
        exists|i: int|
            {
                &&& 0 <= i < queries@.len()
                &&& (#[trigger] queries@[i])@.raw.len() == 5
                &&& queries@[i]@.raw[0] == "query"@
                &&& queries@[i]@.raw[1] == registry::registry_roots()[root]
                &&& queries@[i]@.raw[2] == "/s"@
                &&& queries@[i]@.raw[3] == "/v"@
                &&& queries@[i]@.raw[4] == registry::value_names()[name]
            },
{
    let i = 3 * root + name;
    assert(i / 3 == root && i % 3 == name);
    assert(queries@[i]@.raw == registry::query_arguments(
        registry::registry_roots()[root],
        registry::value_names()[name],
    ));
}

/// A variable between percent signs is replaced by its value; what stands around it stays. One that is not
/// set stays too.
pub proof fn law_variables_are_replaced(
    before: Seq<char>,
    name: Seq<char>,
    after: Seq<char>,
    variables: Seq<(Seq<char>, Seq<char>)>,
    i: int,
)
    requires
        !before.contains('%'),
        !name.contains('%'),
        !after.contains('%'),
        0 <= i < variables.len(),
        variables[i].0 == name,
        forall|j: int| 0 <= j < i ==> (#[trigger] variables[j]).0 != name,
    ensures
        registry::expanded(before + seq!['%'] + name + seq!['%'] + after, variables, 0) == before
            + variables[i].1 + after,
        registry::expanded(before + seq!['%'] + name + seq!['%'] + after, Seq::empty(), 0) == before
            + seq!['%'] + name + seq!['%'] + after,
{
    let whole = before + seq!['%'] + name + seq!['%'] + after;
    let start = before.len() as int;
    let end = start + 1 + name.len();
    lemma_percent(whole, 0, start);
    lemma_percent(whole, start + 1, end);
    lemma_no_percent(whole, end + 1);
    lemma_variable(variables, name, 0, i);
    assert(whole.subrange(0, start) =~= before);
    assert(whole.subrange(start + 1, end) =~= name);
    assert(whole.subrange(start, end + 1) =~= seq!['%'] + name + seq!['%']);
    assert(whole.skip(end + 1) =~= after);
    assert(registry::expanded(whole, variables, end + 1) =~= after);
    assert(registry::expanded(whole, Seq::empty(), end + 1) =~= after);
    assert(registry::expanded(whole, variables, 0) =~= before + variables[i].1 + after);
    assert(registry::expanded(whole, Seq::empty(), 0) =~= whole);
}

proof fn lemma_percent(s: Seq<char>, from: int, at: int)
    requires
        0 <= from <= at < s.len(),
        s[at] == '%',
        forall|i: int| from <= i < at ==> s[i] != '%',
    ensures
        text::first_index(s, '%', from) == at,
{
    text::lemma_first_index(s, '%', from);
}

proof fn lemma_no_percent(s: Seq<char>, from: int)
    requires
        0 <= from <= s.len(),
        forall|i: int| from <= i < s.len() ==> s[i] != '%',
    ensures
        text::first_index(s, '%', from) == s.len(),
{
    text::lemma_first_index(s, '%', from);
}

proof fn lemma_variable(
    variables: Seq<(Seq<char>, Seq<char>)>,
    name: Seq<char>,
    from: int,
    i: int,
)
    requires
        0 <= from <= i < variables.len(),
        variables[i].0 == name,
        forall|j: int| 0 <= j < i ==> (#[trigger] variables[j]).0 != name,
    ensures
        registry::variable_value(variables, name, from) == Some(variables[i].1),
    decreases i - from,
{
    if from < i {
        assert(variables[from].0 != name);
        lemma_variable(variables, name, from + 1, i);
    }
}

/// The utility of an installation is `bin\rac.exe` below its directory, `rac.exe` below its `bin`, or the
/// registered utility itself.
pub proof fn law_places_lead_to_the_utility(place: Seq<char>)
    requires
        place.len() > 3,
        !registry::is_verbatim(place),
        !path::is_separator(place.last()),
    ensures
        text::same_ignoring_ascii_case(registry::file_name(place), "rac.exe"@)
            ==> registry::utility_at(place) == place,
        text::same_ignoring_ascii_case(registry::file_name(place), "bin"@)
            ==> registry::utility_at(place) == place + "\\rac.exe"@,
        registry::file_name(place).len() > 0 && !registry::file_name(place).contains('.')
            && !text::same_ignoring_ascii_case(registry::file_name(place), "bin"@)
            ==> registry::utility_at(place) == place + "\\bin\\rac.exe"@,
{
    reveal_strlit("rac.exe");
    reveal_strlit("bin");
    reveal_strlit("\\");
    reveal_strlit("\\rac.exe");
    reveal_strlit("\\bin\\rac.exe");
    let name = registry::file_name(place);
    assert(place + "\\"@ + "rac.exe"@ =~= place + "\\rac.exe"@);
    let directory = place + "\\"@ + "bin"@;
    assert(directory + "\\"@ + "rac.exe"@ =~= place + "\\bin\\rac.exe"@);
    assert(directory.last() == 'n');
    if text::same_ignoring_ascii_case(name, "rac.exe"@) && text::same_ignoring_ascii_case(
        name,
        "bin"@,
    ) {
        assert(text::lower(name).len() == name.len());
    }
    if !name.contains('.') {
        lemma_no_dot(name, name.len() as int);
        if text::same_ignoring_ascii_case(name, "rac.exe"@) {
            assert(text::lower("rac.exe"@).len() == 7 && text::lower(name).len() == name.len());
            assert(text::lower(name)[3] == text::lower_char(name[3]));
            assert(text::lower("rac.exe"@)[3] == '.');
            assert(name[3] == '.');
        }
    }
    if registry::is_verbatim(directory) {
        assert(directory[0] == place[0] && directory[1] == place[1] && directory[2] == place[2]);
        assert(directory[3] == place[3]);
    }
}

proof fn lemma_no_dot(s: Seq<char>, end: int)
    requires
        !s.contains('.'),
        0 <= end <= s.len(),
    ensures
        registry::last_dot(s, end) == -1,
    decreases end,
{
    if end > 0 {
        assert(s.contains(s[end - 1]));
        lemma_no_dot(s, end - 1);
    }
}

/// An argument without blanks and quotes is shown as it is, and any other between quotes.
pub proof fn law_plain_arguments_are_shown_as_they_are(argument: Seq<char>)
    ensures
        argument.len() > 0 && (forall|i: int|
            0 <= i < argument.len() ==> !text::is_whitespace(#[trigger] argument[i]) && argument[i]
                != '"') ==> process::quoted(argument) == argument,
        argument.len() == 0 || argument.contains(' ') || argument.contains('"') ==> {
            let shown = process::quoted(argument);
            shown.len() >= argument.len() + 2 && shown[0] == '"' && shown.last() == '"'
        },
{
    reveal_strlit("\"");
    lemma_escaped_length(argument);
    if argument.contains(' ') {
        let i = choose|i: int| 0 <= i < argument.len() && argument[i] == ' ';
        assert(text::is_whitespace(argument[i]));
    }
    if argument.contains('"') {
        let i = choose|i: int| 0 <= i < argument.len() && argument[i] == '"';
        assert(argument[i] == '"');
    }
}

proof fn lemma_escaped_length(s: Seq<char>)
    ensures
        process::escaped_quotes(s).len() >= s.len(),
    decreases s.len(),
{
    reveal_strlit("\\\"");
    if s.len() > 0 {
        lemma_escaped_length(s.drop_last());
    }
}

proof fn lemma_occurrence(s: Seq<char>, needle: Seq<char>, from: int)
    requires
        0 <= from <= s.len(),
        text::first_occurrence(s, needle, from) <= s.len(),
    ensures
        ({
            let at = text::first_occurrence(s, needle, from);
            &&& from <= at
            &&& at + needle.len() <= s.len()
            &&& s.subrange(at, at + needle.len()) == needle
        }),
    decreases s.len() + 1 - from,
{
    if s.subrange(from, from + needle.len()) != needle {
        if from < s.len() {
            lemma_occurrence(s, needle, from + 1);
        }
    }
}

/// The data of a value is what stands behind the name of its type, up to the end of the line.
pub proof fn law_data_stand_behind_their_type(line: Seq<char>)
    requires
        registry::value_data(line) is Some,
    ensures
        ({
            let data = registry::value_data(line)->0;
            ("REG_EXPAND_SZ"@ + data).is_suffix_of(line) || ("REG_SZ"@ + data).is_suffix_of(line)
        }),
{
    let expand = "REG_EXPAND_SZ"@;
    let plain = "REG_SZ"@;
    let data = registry::value_data(line)->0;
    let marker = if registry::data_after(line, expand) is Some {
        expand
    } else {
        plain
    };
    lemma_occurrence(line, marker, 0);
    let at = text::first_occurrence(line, marker, 0);
    assert(line.subrange(at, at + marker.len()) == marker);
    assert(line.subrange(line.len() - (marker + data).len(), line.len() as int) =~= marker + data);
    assert((marker + data).is_suffix_of(line));
}

/// A line without the type of a text holds no place.
pub proof fn law_other_lines_hold_no_place(line: Seq<char>, variables: Seq<(Seq<char>, Seq<char>)>)
    requires
        !text::contains(line, "REG_SZ"@),
        !text::contains(line, "REG_EXPAND_SZ"@),
    ensures
        registry::line_candidate(line, variables) is None,
{
    if text::first_occurrence(line, "REG_SZ"@, 0) <= line.len() {
        lemma_occurrence(line, "REG_SZ"@, 0);
    }
    if text::first_occurrence(line, "REG_EXPAND_SZ"@, 0) <= line.len() {
        lemma_occurrence(line, "REG_EXPAND_SZ"@, 0);
    }
}

/// A registered place without quotes, variables and an icon, with blanks around it or not, leads to its
/// utility.
pub proof fn law_registered_places_are_taken_as_they_are(
    line: Seq<char>,
    place: Seq<char>,
    variables: Seq<(Seq<char>, Seq<char>)>,
)
    requires
        registry::value_data(line) is Some,
        text::trim(registry::value_data(line)->0) == place,
        place.len() > 0,
        !place.contains('"'),
        !place.contains('%'),
        place.last() != '0',
    ensures
        registry::line_candidate(line, variables) == Some(registry::utility_at(place)),
{
    assert(place.contains(place[0]));
    assert(place.contains(place.last()));
    lemma_no_percent(place, 0);
    assert(place.skip(0) =~= place);
    assert(registry::expanded(place, variables, 0) == place);
}

/// Every line that leads to a utility adds it.
pub proof fn law_every_registered_utility_is_tried(
    lines: Seq<Seq<char>>,
    variables: Seq<(Seq<char>, Seq<char>)>,
    count: int,
    i: int,
)
    requires
        0 <= i < count <= lines.len(),
        registry::line_candidate(lines[i], variables) is Some,
    ensures
        registry::line_candidates(lines, variables, count).contains(
            registry::line_candidate(lines[i], variables)->0,
        ),
    decreases count,
{
    let all = registry::line_candidates(lines, variables, count);
    let found = registry::line_candidate(lines[i], variables)->0;
    if i == count - 1 {
        assert(all.last() == found);
    } else {
        law_every_registered_utility_is_tried(lines, variables, count - 1, i);
        let before = registry::line_candidates(lines, variables, count - 1);
        let p = choose|p: int| 0 <= p < before.len() && before[p] == found;
        assert(all[p] == found);
    }
}

/// The icon behind the name of a program is no part of it.
pub proof fn law_icons_are_dropped(place: Seq<char>)
    requires
        place.len() > 0,
        place.last() != '0',
    ensures
        registry::without_icon(place) == place,
        registry::without_icon(place + seq![',', '0']) == place,
{
    let whole = place + seq![',', '0'];
    reveal_with_fuel(registry::without_icon, 2);
    assert(whole.take(whole.len() - 2) =~= place);
}

/// A search for everything looks in the places of programs and, where asked, in the registry; one for
/// nothing looks nowhere.
pub proof fn law_searches_look_where_asked(
    environment: SearchEnvironment,
    search_registry: bool,
    automatic: SearchPolicy,
    isolated: SearchPolicy,
)
    requires
        call_ensures(SearchPolicy::automatic, (environment, search_registry), automatic),
        call_ensures(SearchPolicy::isolated, (), isolated),
    ensures
        automatic@.environment == environment@,
        automatic@.search_registry == search_registry,
        automatic@.search_program_files,
        automatic@.explicit_path is None && automatic@.cluster_path is None
            && automatic@.global_path is None,
        !isolated@.search_registry && !isolated@.search_program_files,
        isolated@.explicit_path is None && isolated@.cluster_path is None && isolated@.global_path
            is None,
        isolated@.environment.rac_path is None,
        isolated@.environment.path_entries.len() == 0,
        automatic@.version is Auto && isolated@.version is Auto,
{
}

} // verus!
