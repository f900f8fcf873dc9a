//! What the Windows registry says of where the platform is installed.

use vstd::prelude::*;
use vstd::string::*;

use crate::infrastructure::path;
use crate::infrastructure::rac::process;
use crate::infrastructure::rac::process::RacArguments;
use crate::outcome;
use crate::text;

verus! {

/// The keys under which the platform registers itself.
pub open spec fn registry_roots() -> Seq<Seq<char>> {
    seq![
        "HKLM\\SOFTWARE\\1C\\1Cv8"@,
        "HKLM\\SOFTWARE\\WOW6432Node\\1C\\1Cv8"@,
        "HKCU\\SOFTWARE\\1C\\1Cv8"@,
    ]
}

/// The values that hold a place of installation.
pub open spec fn value_names() -> Seq<Seq<char>> {
    seq!["InstallLocation"@, "InstallDir"@, "Path"@]
}

/// The arguments of `reg.exe` that ask for one value everywhere below a root.
pub open spec fn query_arguments(root: Seq<char>, value_name: Seq<char>) -> Seq<Seq<char>> {
    seq!["query"@, root, "/s"@, "/v"@, value_name]
}

fn registry_query(root: &str, value_name: &str) -> (result: RacArguments)
    ensures
        result@.raw == query_arguments(root@, value_name@),
        result@.redacted == process::redacted_arguments(query_arguments(root@, value_name@)),
{
    let arguments = ["query", root, "/s", "/v", value_name];
    assert(text::str_views(arguments@) =~= query_arguments(root@, value_name@));
    RacArguments::plain(&arguments)
}

/// The queries of the registry, value by value and root by root.
pub fn registry_queries() -> (result: Vec<RacArguments>)
    ensures
        result@.len() == 9,
        forall|i: int|
            0 <= i < 9 ==> (#[trigger] result@[i])@.raw == query_arguments(
                registry_roots()[i / 3],
                value_names()[i % 3],
            ),
        forall|i: int|
            0 <= i < 9 ==> (#[trigger] result@[i])@.redacted == process::redacted_arguments(
                query_arguments(registry_roots()[i / 3], value_names()[i % 3]),
            ),
{
    let roots = [
        "HKLM\\SOFTWARE\\1C\\1Cv8",
        "HKLM\\SOFTWARE\\WOW6432Node\\1C\\1Cv8",
        "HKCU\\SOFTWARE\\1C\\1Cv8",
    ];
    let names = ["InstallLocation", "InstallDir", "Path"];
    assert(text::str_views(roots@) =~= registry_roots());
    assert(text::str_views(names@) =~= value_names());
    let mut result: Vec<RacArguments> = Vec::new();
    let mut i: usize = 0;
    while i < 9
        invariant
            i <= 9,
            result@.len() == i,
            text::str_views(roots@) == registry_roots(),
            text::str_views(names@) == value_names(),
            forall|j: int|
                0 <= j < i ==> (#[trigger] result@[j])@.raw == query_arguments(
                    registry_roots()[j / 3],
                    value_names()[j % 3],
                ),
            forall|j: int|
                0 <= j < i ==> (#[trigger] result@[j])@.redacted == process::redacted_arguments(
                    query_arguments(registry_roots()[j / 3], value_names()[j % 3]),
                ),
        decreases 9 - i,
    {
        assert(registry_roots()[i as int / 3] == roots@[i as int / 3]@);
        assert(value_names()[i as int % 3] == names@[i as int % 3]@);
        result.push(registry_query(roots[i / 3], names[i % 3]));
        i = i + 1;
    }
    result
}

/// The text behind the type of a value in a line that `reg.exe` prints.
pub open spec fn data_after(line: Seq<char>, marker: Seq<char>) -> Option<Seq<char>> {
    let at = text::first_occurrence(line, marker, 0);
    if at <= line.len() {
        Some(line.skip(at + marker.len()))
    } else {
        None
    }
}

/// The data of a value, if the line holds one.
pub open spec fn value_data(line: Seq<char>) -> Option<Seq<char>> {
    match data_after(line, "REG_EXPAND_SZ"@) {
        Some(data) => Some(data),
        None => data_after(line, "REG_SZ"@),
    }
}

fn read_after(line: &str, marker: &str) -> (result: Option<String>)
    ensures
        outcome::option_view(result) == data_after(line@, marker@),
{
    let source = text::chars(line);
    let pin = text::chars(marker);
    match text::find_text(&source, &pin) {
        Some(at) => {
            assert(at + pin.len() <= source.len());
            let data = text::text_of(&source, at + pin.len(), source.len());
            assert(data@ =~= line@.skip(at + marker@.len()));
            Some(data)
        },
        None => None,
    }
}

fn registry_value_data(line: &str) -> (result: Option<String>)
    ensures
        outcome::option_view(result) == value_data(line@),
{
    match read_after(line, "REG_EXPAND_SZ") {
        Some(data) => Some(data),
        None => read_after(line, "REG_SZ"),
    }
}

/// A variable of the environment, under the name by which it was asked for.
pub struct Variable {
    pub name: String,
    pub value: String,
}

pub open spec fn variable_views(variables: Seq<Variable>) -> Seq<(Seq<char>, Seq<char>)> {
    variables.map_values(|variable: Variable| (variable.name@, variable.value@))
}

/// The value of the first variable of that name at or after `from`.
pub open spec fn variable_value(
    variables: Seq<(Seq<char>, Seq<char>)>,
    name: Seq<char>,
    from: int,
) -> Option<Seq<char>>
    decreases variables.len() - from,
{
    if from < 0 || from >= variables.len() {
        None
    } else if variables[from].0 == name {
        Some(variables[from].1)
    } else {
        variable_value(variables, name, from + 1)
    }
}

/// The text from position `from` on with every `%NAME%` replaced by the value of the variable; one
/// that is not set stays as it is, and so does a lone `%`.
pub open spec fn expanded(
    s: Seq<char>,
    variables: Seq<(Seq<char>, Seq<char>)>,
    from: int,
) -> Seq<char>
    decreases s.len() - from,
{
    let start = text::first_index(s, '%', from);
    let end = text::first_index(s, '%', start + 1);
    if from < 0 || from > s.len() || start < from || start >= s.len() || end <= start || end
        >= s.len() {
        s.skip(from)
    } else {
        s.subrange(from, start) + (match variable_value(variables, s.subrange(start + 1, end), 0) {
            Some(value) => value,
            None => s.subrange(start, end + 1),
        }) + expanded(s, variables, end + 1)
    }
}

fn find_variable<'a>(variables: &'a Vec<Variable>, name: &str) -> (result: Option<&'a str>)
    ensures
        outcome::option_view(result) == variable_value(variable_views(variables@), name@, 0),
{
    let ghost all = variable_views(variables@);
    let mut i: usize = 0;
    while i < variables.len()
        invariant
            i <= variables.len(),
            all == variable_views(variables@),
            variable_value(all, name@, 0) == variable_value(all, name@, i as int),
        decreases variables.len() - i,
    {
        assert(all[i as int] == (variables@[i as int].name@, variables@[i as int].value@));
        if text::same(variables[i].name.as_str(), name) {
            return Some(variables[i].value.as_str());
        }
        i = i + 1;
    }
    None
}

/// The names that stand between `%` from position `from` on.
pub open spec fn named(s: Seq<char>, from: int) -> Seq<Seq<char>>
    decreases s.len() - from,
{
    let start = text::first_index(s, '%', from);
    let end = text::first_index(s, '%', start + 1);
    if from < 0 || from > s.len() || start < from || start >= s.len() || end <= start || end
        >= s.len() {
        Seq::empty()
    } else {
        seq![s.subrange(start + 1, end)] + named(s, end + 1)
    }
}

fn push_names(value: &str, names: &mut Vec<String>)
    ensures
        text::views(final(names)@) == text::views(old(names)@) + named(value@, 0),
{
    let source = text::chars(value);
    let mut from: usize = 0;
    let ghost before = text::views(names@);
    loop
        invariant
            source@ == value@,
            from <= source.len(),
            before == text::views(old(names)@),
            text::views(names@) + named(value@, from as int) == before + named(value@, 0),
        decreases source.len() - from,
    {
        let start: usize = text::find_char(&source, '%', from);
        let end: usize = if start < source.len() {
            text::find_char(&source, '%', start + 1)
        } else {
            source.len()
        };
        if end >= source.len() {
            assert(named(value@, from as int) =~= Seq::<Seq<char>>::empty());
            assert(text::views(names@) + named(value@, from as int) =~= text::views(names@));
            return;
        }
        let name = text::text_of(&source, start + 1, end);
        let ghost known = text::views(names@);
        let ghost added = name@;
        names.push(name);
        assert(text::views(names@) =~= known.push(added));
        assert(text::views(names@) + named(value@, end + 1) =~= known + (seq![added] + named(
            value@,
            end + 1,
        )));
        from = end + 1;
    }
}

/// Replaces the variables of the environment in a text.
pub fn expand_windows_environment(value: &str, variables: &Vec<Variable>) -> (result: String)
    ensures
        result@ == expanded(value@, variable_views(variables@), 0),
{
    let source = text::chars(value);
    let ghost all = variable_views(variables@);
    let mut result = String::new();
    let mut from: usize = 0;
    assert(Seq::<char>::empty() + expanded(value@, all, 0) =~= expanded(value@, all, 0));
    loop
        invariant
            source@ == value@,
            all == variable_views(variables@),
            from <= source.len(),
            result@ + expanded(value@, all, from as int) == expanded(value@, all, 0),
        decreases source.len() - from,
    {
        let start: usize = text::find_char(&source, '%', from);
        let end: usize = if start < source.len() {
            text::find_char(&source, '%', start + 1)
        } else {
            source.len()
        };
        if end >= source.len() {
            let rest = text::text_of(&source, from, source.len());
            assert(rest@ =~= value@.skip(from as int));
            assert(expanded(value@, all, from as int) == value@.skip(from as int));
            result.push_str(rest.as_str());
            return result;
        }
        let ghost before = result@;
        result.push_str(text::text_of(&source, from, start).as_str());
        let name = text::text_of(&source, start + 1, end);
        let ghost replacement = match variable_value(all, name@, 0) {
            Some(found) => found,
            None => value@.subrange(start as int, end + 1),
        };
        match find_variable(variables, name.as_str()) {
            Some(found) => {
                result.push_str(found);
            },
            None => {
                result.push_str(text::text_of(&source, start, end + 1).as_str());
            },
        }
        assert(result@ == before + value@.subrange(from as int, start as int) + replacement);
        assert(before + (value@.subrange(from as int, start as int) + replacement + expanded(
            value@,
            all,
            end + 1,
        )) =~= result@ + expanded(value@, all, end + 1));
        from = end + 1;
    }
}

pub open spec fn is_drive_letter(c: char) -> bool {
    'a' <= c <= 'z' || 'A' <= c <= 'Z'
}

/// Whether a path begins with `\\?\`. Behind that only `\` separates names, so a `/` there belongs to a
/// name, unless it is the root behind a drive.
pub open spec fn is_verbatim(s: Seq<char>) -> bool {
    s.len() >= 4 && s[0] == '\\' && s[1] == '\\' && s[2] == '?' && s[3] == '\\'
}

/// Whether a character separates the names of a path.
pub open spec fn separates(s: Seq<char>, c: char) -> bool {
    c == '\\' || (c == '/' && !is_verbatim(s))
}

/// Where a component that begins at `from` ends.
pub open spec fn component_end(s: Seq<char>, from: int) -> int
    decreases s.len() - from,
{
    if from >= s.len() {
        s.len() as int
    } else if separates(s, s[from]) {
        from
    } else {
        component_end(s, from + 1)
    }
}

/// Where a server and a share end whose names begin at `from`; the server alone where the share has no
/// name.
pub open spec fn share_end(s: Seq<char>, from: int) -> int {
    let server = component_end(s, from);
    if server + 1 < s.len() && !separates(s, s[server + 1]) {
        component_end(s, server + 1)
    } else {
        server
    }
}

/// Whether a drive stands at `at`.
pub open spec fn is_drive(s: Seq<char>, at: int) -> bool {
    s.len() >= at + 2 && is_drive_letter(s[at]) && s[at + 1] == ':'
}

/// Where the prefix of a verbatim path ends: its server and share, its drive, or its first name.
pub open spec fn verbatim_prefix_end(s: Seq<char>) -> int {
    if s.len() >= 8 && s[4] == 'U' && s[5] == 'N' && s[6] == 'C' && path::is_separator(s[7]) {
        share_end(s, 8)
    } else if is_drive(s, 4) && (s.len() == 6 || path::is_separator(s[6])) {
        6
    } else {
        component_end(s, 4)
    }
}

/// Where the drive, the device, or the server and share, of a Windows path ends. A server without a
/// share is a name like any other.
pub open spec fn prefix_end(s: Seq<char>) -> int {
    if is_verbatim(s) {
        verbatim_prefix_end(s)
    } else if s.len() >= 2 && path::is_separator(s[0]) && path::is_separator(s[1]) {
        if s.len() >= 4 && s[2] == '.' && path::is_separator(s[3]) {
            component_end(s, 4)
        } else if s.len() >= 3 && !path::is_separator(s[2]) && component_end(s, 2) < share_end(s, 2) {
            share_end(s, 2)
        } else {
            0
        }
    } else if is_drive(s, 0) {
        2
    } else {
        0
    }
}

/// Where the names of a path begin, behind its prefix and its root.
pub open spec fn body_start(s: Seq<char>) -> int {
    let prefix = prefix_end(s);
    if prefix < s.len() && path::is_separator(s[prefix]) {
        prefix + 1
    } else {
        prefix
    }
}

/// The end of a path without separators behind its last name, and without components `.` there unless
/// the path is verbatim; the prefix and the root stay.
pub open spec fn name_end(s: Seq<char>, end: int) -> int
    decreases end,
{
    if end <= body_start(s) || end <= 0 {
        end
    } else if separates(s, s[end - 1]) {
        name_end(s, end - 1)
    } else if !is_verbatim(s) && s[end - 1] == '.' && end - 2 >= prefix_end(s) && end >= 2
        && path::is_separator(s[end - 2]) {
        name_end(s, end - 1)
    } else {
        end
    }
}

/// Where the last name begins that ends at `end`.
pub open spec fn name_start(s: Seq<char>, end: int) -> int
    decreases end,
{
    if end <= body_start(s) || end <= 0 || separates(s, s[end - 1]) {
        end
    } else {
        name_start(s, end - 1)
    }
}

/// The bounds of the last name of a Windows path.
pub open spec fn name_bounds(s: Seq<char>) -> (int, int) {
    let end = name_end(s, s.len() as int);
    (name_start(s, end), end)
}

/// The last name of a Windows path; empty where it ends with none.
pub open spec fn file_name(s: Seq<char>) -> Seq<char> {
    let (start, end) = name_bounds(s);
    let name = s.subrange(start, end);
    if name == "."@ || name == ".."@ {
        Seq::empty()
    } else {
        name
    }
}

/// The last position before `end` that holds a dot, or -1.
pub open spec fn last_dot(s: Seq<char>, end: int) -> int
    decreases end,
{
    if end <= 0 {
        -1
    } else if s[end - 1] == '.' {
        end - 1
    } else {
        last_dot(s, end - 1)
    }
}

/// Whether a name ends with `.exe`, without regard to ASCII case, behind something else.
pub open spec fn is_program(name: Seq<char>) -> bool {
    let dot = last_dot(name, name.len() as int);
    dot > 0 && text::same_ignoring_ascii_case(name.skip(dot + 1), "exe"@)
}

/// The path without its last name; a root stays.
pub open spec fn parent(s: Seq<char>) -> Seq<char> {
    s.take(name_end(s, name_bounds(s).0))
}

/// The names of a verbatim path up to `end`, each behind one separator.
pub open spec fn tidy_names(s: Seq<char>, end: int) -> Seq<char>
    decreases end,
{
    if end <= body_start(s) || end <= 0 {
        Seq::empty()
    } else {
        let before = tidy_names(s, end - 1);
        if s[end - 1] == '\\' {
            before
        } else if end - 1 == body_start(s) || s[end - 2] == '\\' {
            before + seq!['\\', s[end - 1]]
        } else {
            before.push(s[end - 1])
        }
    }
}

/// A name below a directory of Windows. A verbatim directory is put together anew from its prefix and
/// its names.
pub open spec fn below(directory: Seq<char>, name: Seq<char>) -> Seq<char> {
    if is_verbatim(directory) {
        directory.take(prefix_end(directory)) + tidy_names(directory, directory.len() as int) + "\\"@
            + name
    } else if directory.len() == 0 || path::is_separator(directory.last()) || (directory.len() == 2
        && is_drive(directory, 0)) {
        directory + name
    } else {
        directory + "\\"@ + name
    }
}

/// A text without the `,0` at its end.
pub open spec fn without_icon(s: Seq<char>) -> Seq<char>
    decreases s.len(),
{
    if s.len() >= 2 && s[s.len() - 2] == ',' && s.last() == '0' {
        without_icon(s.take(s.len() - 2))
    } else {
        s
    }
}

/// Where the utility stands, given a registered place: the utility itself, the directory `bin`,
/// another program beside it, or the directory of the installation.
pub open spec fn utility_at(location: Seq<char>) -> Seq<char> {
    let name = file_name(location);
    if text::same_ignoring_ascii_case(name, "rac.exe"@) {
        location
    } else if text::same_ignoring_ascii_case(name, "bin"@) {
        below(location, "rac.exe"@)
    } else if is_program(name) {
        below(parent(location), "rac.exe"@)
    } else {
        below(below(location, "bin"@), "rac.exe"@)
    }
}

/// A registered place without the blanks and the quotes around it.
pub open spec fn bare_place(data: Seq<char>) -> Seq<char> {
    text::trim_char_end(text::trim_char_start(text::trim(data), '"'), '"')
}

/// The variables of the environment that the first `count` lines name.
pub open spec fn line_variables(lines: Seq<Seq<char>>, count: int) -> Seq<Seq<char>>
    decreases count,
{
    if count <= 0 {
        Seq::empty()
    } else {
        let before = line_variables(lines, count - 1);
        match value_data(lines[count - 1]) {
            Some(data) => before + named(bare_place(data), 0),
            None => before,
        }
    }
}

/// The utility that a line of the registry leads to.
pub open spec fn line_candidate(line: Seq<char>, variables: Seq<(Seq<char>, Seq<char>)>) -> Option<
    Seq<char>,
> {
    match value_data(line) {
        Some(data) => {
            let place = expanded(bare_place(data), variables, 0);
            if place.len() == 0 {
                None
            } else {
                Some(utility_at(without_icon(place)))
            }
        },
        None => None,
    }
}

/// The utilities that the first `count` lines lead to.
pub open spec fn line_candidates(
    lines: Seq<Seq<char>>,
    variables: Seq<(Seq<char>, Seq<char>)>,
    count: int,
) -> Seq<Seq<char>>
    decreases count,
{
    if count <= 0 {
        Seq::empty()
    } else {
        let before = line_candidates(lines, variables, count - 1);
        match line_candidate(lines[count - 1], variables) {
            Some(found) => before.push(found),
            None => before,
        }
    }
}

fn starts_verbatim(source: &Vec<char>) -> (result: bool)
    ensures
        result == is_verbatim(source@),
{
    source.len() >= 4 && source[0] == '\\' && source[1] == '\\' && source[2] == '?' && source[3] == '\\'
}

fn find_component_end(source: &Vec<char>, verbatim: bool, from: usize) -> (result: usize)
    requires
        from <= source@.len(),
        verbatim == is_verbatim(source@),
    ensures
        result == component_end(source@, from as int),
        from <= result <= source@.len(),
{
    let mut end: usize = from;
    while end < source.len() && (verbatim || source[end] != '/') && source[end] != '\\'
        invariant
            from <= end <= source.len(),
            verbatim == is_verbatim(source@),
            component_end(source@, from as int) == component_end(source@, end as int),
        decreases source.len() - end,
    {
        end = end + 1;
    }
    end
}

fn find_share_end(source: &Vec<char>, verbatim: bool, from: usize) -> (result: usize)
    requires
        from <= source@.len(),
        verbatim == is_verbatim(source@),
    ensures
        result == share_end(source@, from as int),
        from <= result <= source@.len(),
{
    let server: usize = find_component_end(source, verbatim, from);
    if server < source.len() && server + 1 < source.len() && source[server + 1] != '\\' && (verbatim
        || source[server + 1] != '/') {
        find_component_end(source, verbatim, server + 1)
    } else {
        server
    }
}

fn separator_at(source: &Vec<char>, at: usize) -> (result: bool)
    ensures
        result == (at < source@.len() && path::is_separator(source@[at as int])),
{
    at < source.len() && (source[at] == '/' || source[at] == '\\')
}

fn drive_at(source: &Vec<char>, at: usize) -> (result: bool)
    requires
        at <= 4,
    ensures
        result == is_drive(source@, at as int),
{
    source.len() >= at + 2 && (('a' <= source[at] && source[at] <= 'z') || ('A' <= source[at]
        && source[at] <= 'Z')) && source[at + 1] == ':'
}

fn find_prefix_end(source: &Vec<char>) -> (result: usize)
    ensures
        result == prefix_end(source@),
        result <= source@.len(),
{
    let verbatim = starts_verbatim(source);
    if verbatim {
        if source.len() >= 8 && source[4] == 'U' && source[5] == 'N' && source[6] == 'C'
            && separator_at(source, 7) {
            find_share_end(source, verbatim, 8)
        } else if drive_at(source, 4) && (source.len() == 6 || separator_at(source, 6)) {
            6
        } else {
            find_component_end(source, verbatim, 4)
        }
    } else if separator_at(source, 0) && separator_at(source, 1) {
        if source.len() >= 4 && source[2] == '.' && separator_at(source, 3) {
            find_component_end(source, verbatim, 4)
        } else if source.len() >= 3 && !separator_at(source, 2) {
            let server: usize = find_component_end(source, verbatim, 2);
            let share: usize = find_share_end(source, verbatim, 2);
            if server < share {
                share
            } else {
                0
            }
        } else {
            0
        }
    } else if drive_at(source, 0) {
        2
    } else {
        0
    }
}

/// The bounds within which a path is searched for names.
struct PathBounds {
    verbatim: bool,
    prefix: usize,
    body: usize,
}

impl PathBounds {
    spec fn are_of(self, s: Seq<char>) -> bool {
        &&& self.verbatim == is_verbatim(s)
        &&& self.prefix == prefix_end(s)
        &&& self.body == body_start(s)
        &&& self.prefix <= self.body <= s.len()
    }

    fn of(source: &Vec<char>) -> (result: PathBounds)
        ensures
            result.are_of(source@),
    {
        let prefix: usize = find_prefix_end(source);
        let body: usize = if prefix < source.len() && separator_at(source, prefix) {
            prefix + 1
        } else {
            prefix
        };
        PathBounds { verbatim: starts_verbatim(source), prefix, body }
    }

    fn find_name_end(&self, source: &Vec<char>, end: usize) -> (result: usize)
        requires
            self.are_of(source@),
            end <= source@.len(),
        ensures
            result == name_end(source@, end as int),
            result <= end,
    {
        let mut at: usize = end;
        while at > self.body && (source[at - 1] == '\\' || (!self.verbatim && source[at - 1] == '/')
            || (!self.verbatim && source[at - 1] == '.' && at >= 2 && at - 2 >= self.prefix
            && separator_at(source, at - 2)))
            invariant
                self.are_of(source@),
                at <= end <= source@.len(),
                name_end(source@, end as int) == name_end(source@, at as int),
            decreases at,
        {
            at = at - 1;
        }
        at
    }

    fn find_name_start(&self, source: &Vec<char>, end: usize) -> (result: usize)
        requires
            self.are_of(source@),
            end <= source@.len(),
        ensures
            result == name_start(source@, end as int),
            result <= end,
    {
        let mut at: usize = end;
        while at > self.body && (self.verbatim || source[at - 1] != '/') && source[at - 1] != '\\'
            invariant
                self.are_of(source@),
                at <= end <= source@.len(),
                name_start(source@, end as int) == name_start(source@, at as int),
            decreases at,
        {
            at = at - 1;
        }
        at
    }

    fn push_tidy_names(&self, source: &Vec<char>, out: &mut String)
        requires
            self.are_of(source@),
        ensures
            final(out)@ == old(out)@ + tidy_names(source@, source@.len() as int),
    {
        let mut at: usize = self.body;
        let ghost before = out@;
        assert(before + tidy_names(source@, at as int) =~= before);
        while at < source.len()
            invariant
                self.are_of(source@),
                self.body <= at <= source@.len(),
                before == old(out)@,
                out@ == before + tidy_names(source@, at as int),
            decreases source.len() - at,
        {
            let ghost done = tidy_names(source@, at as int);
            let c = source[at];
            if c != '\\' {
                if at == self.body || source[at - 1] == '\\' {
                    out.push('\\');
                    assert((before + done).push('\\').push(c) =~= before + (done + seq!['\\', c]));
                } else {
                    assert((before + done).push(c) =~= before + done.push(c));
                }
                out.push(c);
            }
            at = at + 1;
        }
    }
}

fn join_below(directory: &str, name: &str) -> (result: String)
    ensures
        result@ == below(directory@, name@),
{
    let source = text::chars(directory);
    if starts_verbatim(&source) {
        let bounds = PathBounds::of(&source);
        let mut result = text::text_of(&source, 0, bounds.prefix);
        assert(result@ =~= directory@.take(bounds.prefix as int));
        bounds.push_tidy_names(&source, &mut result);
        result.push_str("\\");
        result.push_str(name);
        return result;
    }
    let mut result = directory.to_owned();
    let close = source.len() == 0 || separator_at(&source, source.len() - 1) || (source.len() == 2
        && drive_at(&source, 0));
    if !close {
        result.push_str("\\");
    }
    result.push_str(name);
    result
}

fn is_program_name(name: &str) -> (result: bool)
    ensures
        result == is_program(name@),
{
    let source = text::chars(name);
    let mut at: usize = source.len();
    while at > 0 && source[at - 1] != '.'
        invariant
            source@ == name@,
            at <= source.len(),
            last_dot(name@, name@.len() as int) == last_dot(name@, at as int),
        decreases at,
    {
        at = at - 1;
    }
    if at <= 1 {
        return false;
    }
    let extension = text::text_of(&source, at, source.len());
    assert(extension@ =~= name@.skip(at as int));
    text::eq_ignore_ascii_case(extension.as_str(), "exe")
}

fn find_utility(location: &str) -> (result: String)
    ensures
        result@ == utility_at(location@),
{
    let source = text::chars(location);
    let bounds = PathBounds::of(&source);
    let end: usize = bounds.find_name_end(&source, source.len());
    let start: usize = bounds.find_name_start(&source, end);
    let whole = text::text_of(&source, start, end);
    let name = if text::same(whole.as_str(), ".") || text::same(whole.as_str(), "..") {
        String::new()
    } else {
        whole
    };
    assert(name@ == file_name(location@));
    if text::eq_ignore_ascii_case(name.as_str(), "rac.exe") {
        location.to_owned()
    } else if text::eq_ignore_ascii_case(name.as_str(), "bin") {
        join_below(location, "rac.exe")
    } else if is_program_name(name.as_str()) {
        let above: usize = bounds.find_name_end(&source, start);
        let directory = text::text_of(&source, 0, above);
        assert(directory@ =~= parent(location@));
        join_below(directory.as_str(), "rac.exe")
    } else {
        join_below(join_below(location, "bin").as_str(), "rac.exe")
    }
}

#[verifier::spinoff_prover]
fn drop_icon(place: &str) -> (result: String)
    ensures
        result@ == without_icon(place@),
{
    let source = text::chars(place);
    let mut to: usize = source.len();
    assert(place@.take(place@.len() as int) =~= place@);
    while to >= 2 && source[to - 2] == ',' && source[to - 1] == '0'
        invariant
            source@ == place@,
            to <= source.len(),
            without_icon(place@) == without_icon(place@.take(to as int)),
        decreases to,
    {
        assert(place@.take(to as int).take(to - 2) =~= place@.take(to - 2));
        to = to - 2;
    }
    let result = text::text_of(&source, 0, to);
    assert(result@ =~= place@.take(to as int));
    result
}

/// The names of the variables of the environment that the output of `reg.exe` holds, for their values
/// to be asked of the system.
pub fn registry_variables(output: &str) -> (result: Vec<String>)
    ensures
        text::views(result@) == line_variables(
            text::lines(output@),
            text::lines(output@).len() as int,
        ),
{
    let lines = text::lines_of(output);
    let ghost all = text::lines(output@);
    let mut result: Vec<String> = Vec::new();
    let mut i: usize = 0;
    assert(text::views(result@) =~= line_variables(all, 0));
    while i < lines.len()
        invariant
            i <= lines.len(),
            all == text::lines(output@),
            text::views(lines@) == all,
            text::views(result@) == line_variables(all, i as int),
        decreases lines.len() - i,
    {
        assert(all[i as int] == lines@[i as int]@);
        match registry_value_data(lines[i].as_str()) {
            Some(data) => {
                let trimmed = text::trim_text(data.as_str());
                let bare = text::trim_char(trimmed.as_str(), '"');
                push_names(bare.as_str(), &mut result);
            },
            None => {},
        }
        i = i + 1;
    }
    assert(all.len() == lines@.len());
    result
}

/// The utilities that the output of `reg.exe` leads to.
pub fn extract_registry_candidates(output: &str, variables: &Vec<Variable>) -> (result: Vec<String>)
    ensures
        text::views(result@) == line_candidates(
            text::lines(output@),
            variable_views(variables@),
            text::lines(output@).len() as int,
        ),
{
    let lines = text::lines_of(output);
    let ghost all = text::lines(output@);
    let ghost known = variable_views(variables@);
    let mut result: Vec<String> = Vec::new();
    let mut i: usize = 0;
    assert(text::views(result@) =~= line_candidates(all, known, 0));
    while i < lines.len()
        invariant
            i <= lines.len(),
            all == text::lines(output@),
            known == variable_views(variables@),
            text::views(lines@) == all,
            text::views(result@) == line_candidates(all, known, i as int),
        decreases lines.len() - i,
    {
        assert(all[i as int] == lines@[i as int]@);
        match registry_value_data(lines[i].as_str()) {
            Some(data) => {
                let trimmed = text::trim_text(data.as_str());
                let bare = text::trim_char(trimmed.as_str(), '"');
                let place = expand_windows_environment(bare.as_str(), variables);
                if !place.as_str().is_empty() {
                    let location = drop_icon(place.as_str());
                    let found = find_utility(location.as_str());
                    let ghost before = text::views(result@);
                    let ghost added = found@;
                    result.push(found);
                    assert(text::views(result@) =~= before.push(added));
                }
            },
            None => {},
        }
        i = i + 1;
    }
    assert(all.len() == lines@.len());
    result
}

} // verus!
