//! The text of the configuration: edits that leave the rest of it as it was.

use vstd::prelude::*;
use vstd::string::*;

use noyalib::{
    from_str_with_config, DuplicateKeyPolicy, Error, ErrorKind, ParserConfig, Value,
};

use crate::domain::entries;
use crate::infrastructure::config::error::{SafeYamlError, YamlProblem};
use crate::infrastructure::config::model;
use crate::infrastructure::config::model::{Config, ConfigView};
use crate::infrastructure::config::store::{CstEdit, EditView};
use crate::number;
use crate::outcome;
use crate::text;

verus! {

/// Whether `noyalib::cst::parse_document` accepts a text.
pub uninterp spec fn is_document(source: Seq<char>) -> bool;

/// Calls `noyalib::cst::parse_document`, whose success is a function of the text alone.
#[verifier::external_body]
fn parses(source: &str) -> (result: bool)
    ensures
        result == is_document(source@),
{
    noyalib::cst::parse_document(source).is_ok()
}

/// What `Document::insert_entry` of `noyalib` makes of a text that it parses.
pub uninterp spec fn entry_inserted(
    source: Seq<char>,
    path: Seq<char>,
    key: Seq<char>,
    fragment: Seq<char>,
) -> Option<Seq<char>>;

/// Calls `noyalib::cst::Document::insert_entry` on the parsed text, whose result is a function of the
/// texts alone.
#[verifier::external_body]
fn insert_entry(source: &str, path: &str, key: &str, fragment: &str) -> (result: Option<String>)
    ensures
        outcome::option_view(result) == entry_inserted(source@, path@, key@, fragment@),
{
    let mut document = noyalib::cst::parse_document(source).ok()?;
    document.insert_entry(path, key, fragment).ok()?;
    Some(document.source().to_owned())
}

/// What `Document::remove` of `noyalib` makes of a text that it parses.
pub uninterp spec fn node_removed(source: Seq<char>, path: Seq<char>) -> Option<Seq<char>>;

/// Calls `noyalib::cst::Document::remove` on the parsed text, whose result is a function of the texts
/// alone.
#[verifier::external_body]
fn remove_node(source: &str, path: &str) -> (result: Option<String>)
    ensures
        outcome::option_view(result) == node_removed(source@, path@),
{
    let mut document = noyalib::cst::parse_document(source).ok()?;
    document.remove(path).ok()?;
    Some(document.source().to_owned())
}

/// What `Document::push_back` of `noyalib` makes of a text that it parses.
pub uninterp spec fn item_appended(
    source: Seq<char>,
    path: Seq<char>,
    fragment: Seq<char>,
) -> Option<Seq<char>>;

/// Calls `noyalib::cst::Document::push_back` on the parsed text, whose result is a function of the
/// texts alone.
#[verifier::external_body]
fn append_item(source: &str, path: &str, fragment: &str) -> (result: Option<String>)
    ensures
        outcome::option_view(result) == item_appended(source@, path@, fragment@),
{
    let mut document = noyalib::cst::parse_document(source).ok()?;
    document.push_back(path, fragment).ok()?;
    Some(document.source().to_owned())
}

/// What `Document::set` of `noyalib` makes of a text that it parses.
pub uninterp spec fn node_set(source: Seq<char>, path: Seq<char>, fragment: Seq<char>) -> Option<
    Seq<char>,
>;

/// Calls `noyalib::cst::Document::set` on the parsed text, whose result is a function of the texts
/// alone.
#[verifier::external_body]
fn set_node(source: &str, path: &str, fragment: &str) -> (result: Option<String>)
    ensures
        outcome::option_view(result) == node_set(source@, path@, fragment@),
{
    let mut document = noyalib::cst::parse_document(source).ok()?;
    document.set(path, fragment).ok()?;
    Some(document.source().to_owned())
}

/// The text before the span that `Document::span_at` of `noyalib` finds for a path.
pub uninterp spec fn text_before(source: Seq<char>, path: Seq<char>) -> Option<Seq<char>>;

/// Calls `noyalib::cst::Document::span_at` on the parsed text, whose result is a function of the texts
/// alone.
#[verifier::external_body]
fn read_before(source: &str, path: &str) -> (result: Option<String>)
    ensures
        outcome::option_view(result) == text_before(source@, path@),
{
    let document = noyalib::cst::parse_document(source).ok()?;
    let (start, _) = document.span_at(path)?;
    document.source().get(..start).map(str::to_owned)
}

/// What `Document::indent_unit` of `noyalib` finds in a text that it parses.
pub uninterp spec fn indent_of(source: Seq<char>) -> Option<usize>;

/// Calls `noyalib::cst::Document::indent_unit` on the parsed text, whose result is a function of the
/// text alone.
#[verifier::external_body]
fn read_indent(source: &str) -> (result: Option<usize>)
    ensures
        result == indent_of(source@),
{
    Some(noyalib::cst::parse_document(source).ok()?.indent_unit())
}

/// Whether a key can stand in a path as it is.
pub open spec fn is_path_key(value: Seq<char>) -> bool {
    value.len() > 0 && forall|i: int|
        0 <= i < value.len() ==> text::is_ascii_alphanumeric(#[trigger] value[i]) || value[i] == '_'
            || value[i] == '-'
}

/// Whether a key can stand in a path as it is.
pub fn cst_path_key_safe(value: &str) -> (result: bool)
    ensures
        result == is_path_key(value@),
{
    let source = text::chars(value);
    let mut i: usize = 0;
    while i < source.len()
        invariant
            source@ == value@,
            i <= source.len(),
            forall|j: int|
                0 <= j < i ==> text::is_ascii_alphanumeric(#[trigger] value@[j]) || value@[j] == '_'
                    || value@[j] == '-',
        decreases source.len() - i,
    {
        let c = source[i];
        assert(value@[i as int] == c);
        if !(('0' <= c && c <= '9') || ('a' <= c && c <= 'z') || ('A' <= c && c <= 'Z') || c == '_'
            || c == '-') {
            return false;
        }
        i = i + 1;
    }
    source.len() > 0
}

/// A text without the line ends at its end.
pub open spec fn without_line_ends(s: Seq<char>) -> Seq<char>
    decreases s.len(),
{
    if s.len() > 0 && (s.last() == '\r' || s.last() == '\n') {
        without_line_ends(s.drop_last())
    } else {
        s
    }
}

/// What is written of a serialised value: without the line ends at its end.
pub fn yaml_fragment(yaml: &str) -> (result: String)
    ensures
        result@ == without_line_ends(yaml@),
{
    let source = text::chars(yaml);
    let mut to: usize = source.len();
    assert(yaml@.take(yaml@.len() as int) =~= yaml@);
    while to > 0 && (source[to - 1] == '\r' || source[to - 1] == '\n')
        invariant
            source@ == yaml@,
            to <= source.len(),
            without_line_ends(yaml@) == without_line_ends(yaml@.take(to as int)),
        decreases to,
    {
        assert(yaml@.take(to as int).drop_last() =~= yaml@.take(to - 1));
        to = to - 1;
    }
    let result = text::text_of(&source, 0, to);
    assert(result@ =~= yaml@.take(to as int));
    result
}

/// Where the line begins that ends at `end`.
pub open spec fn line_start(s: Seq<char>, end: int) -> int
    decreases end,
{
    if end <= 0 || s[end - 1] == '\n' {
        end
    } else {
        line_start(s, end - 1)
    }
}

/// What stands on the last line of a text.
pub open spec fn last_line(s: Seq<char>) -> Seq<char> {
    s.skip(line_start(s, s.len() as int))
}

pub open spec fn is_blank_indent(s: Seq<char>) -> bool {
    forall|i: int| 0 <= i < s.len() ==> #[trigger] s[i] == ' ' || s[i] == '\t'
}

/// How many spaces a line begins with.
pub open spec fn leading_spaces(s: Seq<char>, from: int) -> nat
    decreases s.len() - from,
{
    if from < 0 || from >= s.len() || s[from] != ' ' {
        0
    } else {
        1 + leading_spaces(s, from + 1)
    }
}

pub open spec fn spaces(count: nat) -> Seq<char> {
    Seq::new(count, |i: int| ' ')
}

/// The first `count` lines, each on a line of its own behind the indent.
pub open spec fn indented_lines(lines: Seq<Seq<char>>, indent: Seq<char>, count: int) -> Seq<char>
    decreases count,
{
    if count <= 0 {
        Seq::empty()
    } else {
        indented_lines(lines, indent, count - 1) + "\n"@ + indent + lines[count - 1]
    }
}

/// The first line as it is, and the first `count - 1` lines behind it at the indent.
pub open spec fn hanging_lines(lines: Seq<Seq<char>>, indent: Seq<char>, count: int) -> Seq<char>
    decreases count,
{
    if count <= 1 {
        lines[0]
    } else {
        hanging_lines(lines, indent, count - 1) + "\n"@ + indent + lines[count - 1]
    }
}

/// A collection as it is written in place of another one: at the same indent where that stood on a
/// line of its own, else on new lines below its key.
pub open spec fn replacement_of(before: Seq<char>, unit: nat, fragment: Seq<char>) -> Option<
    Seq<char>,
> {
    let place = last_line(before);
    let lines = text::lines(fragment);
    if is_blank_indent(place) {
        if lines.len() == 0 {
            None
        } else {
            Some(hanging_lines(lines, place, lines.len() as int))
        }
    } else {
        Some(
            indented_lines(
                lines,
                spaces(leading_spaces(place, 0)) + spaces(unit),
                lines.len() as int,
            ),
        )
    }
}

fn read_last_line(before: &str) -> (result: String)
    ensures
        result@ == last_line(before@),
{
    let source = text::chars(before);
    let mut start: usize = source.len();
    while start > 0 && source[start - 1] != '\n'
        invariant
            source@ == before@,
            start <= source.len(),
            line_start(before@, before@.len() as int) == line_start(before@, start as int),
        decreases start,
    {
        start = start - 1;
    }
    let result = text::text_of(&source, start, source.len());
    assert(result@ =~= before@.skip(start as int));
    result
}

fn holds_indent_alone(place: &str) -> (result: bool)
    ensures
        result == is_blank_indent(place@),
{
    let source = text::chars(place);
    let mut i: usize = 0;
    while i < source.len()
        invariant
            source@ == place@,
            i <= source.len(),
            forall|j: int| 0 <= j < i ==> #[trigger] place@[j] == ' ' || place@[j] == '\t',
        decreases source.len() - i,
    {
        assert(place@[i as int] == source@[i as int]);
        if source[i] != ' ' && source[i] != '\t' {
            return false;
        }
        i = i + 1;
    }
    true
}

fn make_spaces(place: &str, unit: usize) -> (result: String)
    ensures
        result@ == spaces(leading_spaces(place@, 0)) + spaces(unit as nat),
{
    let source = text::chars(place);
    let mut result = String::new();
    let mut i: usize = 0;
    assert(result@ =~= spaces(0));
    while i < source.len() && source[i] == ' '
        invariant
            source@ == place@,
            i <= source.len(),
            result@ == spaces(i as nat),
            leading_spaces(place@, 0) == i + leading_spaces(place@, i as int),
        decreases source.len() - i,
    {
        result.push(' ');
        i = i + 1;
        assert(result@ =~= spaces(i as nat));
    }
    let ghost head = result@;
    let mut k: usize = 0;
    assert(head + spaces(0) =~= head);
    while k < unit
        invariant
            k <= unit,
            result@ == head + spaces(k as nat),
        decreases unit - k,
    {
        result.push(' ');
        k = k + 1;
        assert(result@ =~= head + spaces(k as nat));
    }
    result
}

/// A collection as it is written in place of another one, given the text before that one and the
/// indent of the document.
pub fn collection_replacement(before: &str, unit: usize, fragment: &str) -> (result: Option<String>)
    ensures
        outcome::option_view(result) == replacement_of(before@, unit as nat, fragment@),
{
    let place = read_last_line(before);
    let lines = text::lines_of(fragment);
    let ghost all = text::lines(fragment@);
    if holds_indent_alone(place.as_str()) {
        if lines.len() == 0 {
            assert(text::views(lines@).len() == all.len());
            return None;
        }
        assert(all[0] == lines@[0]@);
        let mut replacement = lines[0].as_str().to_owned();
        let mut i: usize = 1;
        while i < lines.len()
            invariant
                1 <= i <= lines.len(),
                text::views(lines@) == all,
                replacement@ == hanging_lines(all, place@, i as int),
            decreases lines.len() - i,
        {
            assert(all[i as int] == lines@[i as int]@);
            replacement.push_str("\n");
            replacement.push_str(place.as_str());
            replacement.push_str(lines[i].as_str());
            i = i + 1;
        }
        assert(all.len() == lines@.len());
        Some(replacement)
    } else {
        let indent = make_spaces(place.as_str(), unit);
        let mut replacement = String::new();
        let mut i: usize = 0;
        assert(replacement@ =~= indented_lines(all, indent@, 0));
        while i < lines.len()
            invariant
                i <= lines.len(),
                text::views(lines@) == all,
                replacement@ == indented_lines(all, indent@, i as int),
            decreases lines.len() - i,
        {
            assert(all[i as int] == lines@[i as int]@);
            replacement.push_str("\n");
            replacement.push_str(indent.as_str());
            replacement.push_str(lines[i].as_str());
            i = i + 1;
        }
        assert(all.len() == lines@.len());
        Some(replacement)
    }
}

/// The path of the overrides of a cluster.
pub open spec fn overrides_path(cluster: Seq<char>) -> Seq<char> {
    "clusters."@ + cluster + ".infobase_auth.overrides"@
}

fn make_overrides_path(cluster: &str) -> (result: String)
    ensures
        result@ == overrides_path(cluster@),
{
    let mut result = "clusters.".to_owned();
    result.push_str(cluster);
    result.push_str(".infobase_auth.overrides");
    result
}

/// The text after an edit of the one entry that changed; `fragment` is what is added.
pub open spec fn direct_edit(source: Seq<char>, edit: EditView, fragment: Option<Seq<char>>) -> Option<
    Seq<char>,
> {
    match edit {
        EditView::AddCluster { alias } => match fragment {
            Some(fragment) => entry_inserted(source, "clusters"@, alias, fragment),
            None => None,
        },
        EditView::RemoveCluster { alias } => if is_path_key(alias) {
            node_removed(source, "clusters."@ + alias)
        } else {
            None
        },
        EditView::AddOverride { cluster, .. } => match fragment {
            Some(fragment) if is_path_key(cluster) => item_appended(
                source,
                overrides_path(cluster),
                fragment,
            ),
            _ => None,
        },
        EditView::RemoveOverride { cluster, index } => if is_path_key(cluster) {
            node_removed(source, overrides_path(cluster) + "["@ + number::decimal(index) + "]"@)
        } else {
            None
        },
    }
}

/// Edits the one entry that changed.
pub fn apply_direct_cst_edit(source: &str, edit: &CstEdit, fragment: Option<&str>) -> (result: Option<
    String,
>)
    ensures
        outcome::option_view(result) == direct_edit(
            source@,
            edit@,
            outcome::option_view(fragment),
        ),
{
    match edit {
        CstEdit::AddCluster { alias } => match fragment {
            Some(fragment) => insert_entry(source, "clusters", alias.as_str(), fragment),
            None => None,
        },
        CstEdit::RemoveCluster { alias } => {
            if !cst_path_key_safe(alias.as_str()) {
                return None;
            }
            let mut path = "clusters.".to_owned();
            path.push_str(alias.as_str());
            remove_node(source, path.as_str())
        },
        CstEdit::AddOverride { cluster, .. } => match fragment {
            Some(fragment) => {
                if !cst_path_key_safe(cluster.as_str()) {
                    return None;
                }
                append_item(source, make_overrides_path(cluster.as_str()).as_str(), fragment)
            },
            None => None,
        },
        CstEdit::RemoveOverride { cluster, index } => {
            if !cst_path_key_safe(cluster.as_str()) {
                return None;
            }
            let mut path = make_overrides_path(cluster.as_str());
            path.push_str("[");
            path.push_str(number::format_u64(*index as u64).as_str());
            path.push_str("]");
            remove_node(source, path.as_str())
        },
    }
}

/// Which collection is rewritten as a whole.
#[derive(Debug, PartialEq, Eq)]
pub enum CollectionTarget {
    Clusters,
    Overrides(String),
}

pub enum TargetView {
    Clusters,
    Overrides(Seq<char>),
}

impl View for CollectionTarget {
    type V = TargetView;

    open spec fn view(&self) -> TargetView {
        match self {
            CollectionTarget::Clusters => TargetView::Clusters,
            CollectionTarget::Overrides(cluster) => TargetView::Overrides(cluster@),
        }
    }
}

/// The smallest collection around an edit that a path can name.
pub open spec fn target_of(edit: EditView) -> TargetView {
    match edit {
        EditView::AddOverride { cluster, .. } if is_path_key(cluster) => TargetView::Overrides(
            cluster,
        ),
        EditView::RemoveOverride { cluster, .. } if is_path_key(cluster) => TargetView::Overrides(
            cluster,
        ),
        _ => TargetView::Clusters,
    }
}

/// The smallest collection around an edit that a path can name.
pub fn collection_target(edit: &CstEdit) -> (result: CollectionTarget)
    ensures
        result@ == target_of(edit@),
{
    match edit {
        CstEdit::AddOverride { cluster, .. } => if cst_path_key_safe(cluster.as_str()) {
            CollectionTarget::Overrides(cluster.as_str().to_owned())
        } else {
            CollectionTarget::Clusters
        },
        CstEdit::RemoveOverride { cluster, .. } => if cst_path_key_safe(cluster.as_str()) {
            CollectionTarget::Overrides(cluster.as_str().to_owned())
        } else {
            CollectionTarget::Clusters
        },
        CstEdit::AddCluster { .. } => CollectionTarget::Clusters,
        CstEdit::RemoveCluster { .. } => CollectionTarget::Clusters,
    }
}

/// A collection: how many items it has, or that the configuration lacks it.
pub open spec fn collection_len(config: ConfigView, target: TargetView) -> Option<nat> {
    match target {
        TargetView::Clusters => Some(config.clusters.len()),
        TargetView::Overrides(cluster) => match entries::lookup(config.clusters, cluster) {
            Some(found) => Some(found.infobase_auth.overrides.len()),
            None => None,
        },
    }
}

/// The text with a collection set to new items; `fragment` is the serialised collection.
pub open spec fn collection_set(
    source: Seq<char>,
    path: Seq<char>,
    count: nat,
    empty: Seq<char>,
    fragment: Option<Seq<char>>,
) -> Option<Seq<char>> {
    if count == 0 {
        node_set(source, path, empty)
    } else {
        match (fragment, text_before(source, path), indent_of(source)) {
            (Some(fragment), Some(before), Some(unit)) => match replacement_of(
                before,
                unit as nat,
                fragment,
            ) {
                Some(replacement) => node_set(source, path, replacement),
                None => None,
            },
            _ => None,
        }
    }
}

/// The text after an edit of the whole collection around what changed.
pub open spec fn fallback_edit(
    source: Seq<char>,
    config: ConfigView,
    edit: EditView,
    fragment: Option<Seq<char>>,
) -> Option<Seq<char>> {
    let target = target_of(edit);
    match collection_len(config, target) {
        Some(count) => match target {
            TargetView::Clusters => collection_set(source, "clusters"@, count, "{}"@, fragment),
            TargetView::Overrides(cluster) => collection_set(
                source,
                overrides_path(cluster),
                count,
                "[]"@,
                fragment,
            ),
        },
        None => None,
    }
}

fn set_collection(
    source: &str,
    path: &str,
    count: usize,
    empty: &str,
    fragment: Option<&str>,
) -> (result: Option<String>)
    ensures
        outcome::option_view(result) == collection_set(
            source@,
            path@,
            count as nat,
            empty@,
            outcome::option_view(fragment),
        ),
{
    if count == 0 {
        return set_node(source, path, empty);
    }
    match (fragment, read_before(source, path), read_indent(source)) {
        (Some(fragment), Some(before), Some(unit)) => match collection_replacement(
            before.as_str(),
            unit,
            fragment,
        ) {
            Some(replacement) => set_node(source, path, replacement.as_str()),
            None => None,
        },
        _ => None,
    }
}

fn count_overrides(config: &Config, cluster: &str) -> (result: Option<usize>)
    ensures
        match result {
            Some(count) => collection_len(config@, TargetView::Overrides(cluster@)) == Some(
                count as nat,
            ),
            None => collection_len(config@, TargetView::Overrides(cluster@)) is None,
        },
{
    let ghost all = config@.clusters;
    let count: usize = model::clusters_len(&config.clusters);
    let mut i: usize = 0;
    while i < count
        invariant
            i <= count,
            count == all.len(),
            all == config@.clusters,
            entries::position(all, cluster@, 0) == entries::position(all, cluster@, i as int),
        decreases count - i,
    {
        match model::clusters_at(&config.clusters, i) {
            Some((alias, found)) => {
                if text::same(alias.as_str(), cluster) {
                    assert(all[i as int] == (alias@, found@));
                    return Some(found.infobase_auth.overrides.len());
                }
            },
            None => {},
        }
        i = i + 1;
    }
    None
}

/// Edits the whole collection around what changed.
pub fn apply_collection_cst_fallback(
    source: &str,
    desired: &Config,
    edit: &CstEdit,
    fragment: Option<&str>,
) -> (result: Option<String>)
    ensures
        outcome::option_view(result) == fallback_edit(
            source@,
            desired@,
            edit@,
            outcome::option_view(fragment),
        ),
{
    match collection_target(edit) {
        CollectionTarget::Clusters => set_collection(
            source,
            "clusters",
            model::clusters_len(&desired.clusters),
            "{}",
            fragment,
        ),
        CollectionTarget::Overrides(cluster) => match count_overrides(desired, cluster.as_str()) {
            Some(count) => set_collection(
                source,
                make_overrides_path(cluster.as_str()).as_str(),
                count,
                "[]",
                fragment,
            ),
            None => None,
        },
    }
}

/// The text after a change: the changed entry edited, or else the collection around it. `added` is
/// the serialised entry that is added, `collection` the serialised collection.
pub open spec fn rendered(
    source: Seq<char>,
    config: ConfigView,
    edit: EditView,
    added: Option<Seq<char>>,
    collection: Option<Seq<char>>,
) -> Option<Seq<char>> {
    if !is_document(source) {
        None
    } else {
        let edited = match direct_edit(source, edit, added) {
            Some(edited) => Some(edited),
            None => fallback_edit(source, config, edit, collection),
        };
        match edited {
            Some(edited) if is_document(edited) => Some(edited),
            _ => None,
        }
    }
}

/// Writes a change into the text of the configuration. Without a result the text is written anew.
pub fn try_render_cst(
    source: &str,
    desired: &Config,
    edit: &CstEdit,
    added: Option<&str>,
    collection: Option<&str>,
) -> (result: Option<String>)
    ensures
        outcome::option_view(result) == rendered(
            source@,
            desired@,
            edit@,
            outcome::option_view(added),
            outcome::option_view(collection),
        ),
{
    if !parses(source) {
        return None;
    }
    let edited = match apply_direct_cst_edit(source, edit, added) {
        Some(edited) => Some(edited),
        None => apply_collection_cst_fallback(source, desired, edit, collection),
    };
    match edited {
        Some(edited) => if parses(edited.as_str()) {
            Some(edited)
        } else {
            None
        },
        None => None,
    }
}

/// Why a text is no configuration, as the parser of YAML tells it.
#[derive(Debug, PartialEq, Eq)]
pub enum YamlFailure {
    UnknownField(String),
    MissingField(String),
    DuplicateKey(String),
    KeyCollision(String),
    TypeMismatch { expected: String, found: String },
    MoreThanOneDocument,
    Syntax,
    RepeatedKey,
    CollidingKeys,
    Budget,
    Policy,
    Data,
    EndOfStream,
    Io,
    Other,
    Unclassified,
}

pub enum FailureView {
    UnknownField(Seq<char>),
    MissingField(Seq<char>),
    DuplicateKey(Seq<char>),
    KeyCollision(Seq<char>),
    TypeMismatch { expected: Seq<char>, found: Seq<char> },
    MoreThanOneDocument,
    Syntax,
    RepeatedKey,
    CollidingKeys,
    Budget,
    Policy,
    Data,
    EndOfStream,
    Io,
    Other,
    Unclassified,
}

impl View for YamlFailure {
    type V = FailureView;

    open spec fn view(&self) -> FailureView {
        match self {
            YamlFailure::UnknownField(field) => FailureView::UnknownField(field@),
            YamlFailure::MissingField(field) => FailureView::MissingField(field@),
            YamlFailure::DuplicateKey(key) => FailureView::DuplicateKey(key@),
            YamlFailure::KeyCollision(key) => FailureView::KeyCollision(key@),
            YamlFailure::TypeMismatch { expected, found } => FailureView::TypeMismatch {
                expected: expected@,
                found: found@,
            },
            YamlFailure::MoreThanOneDocument => FailureView::MoreThanOneDocument,
            YamlFailure::Syntax => FailureView::Syntax,
            YamlFailure::RepeatedKey => FailureView::RepeatedKey,
            YamlFailure::CollidingKeys => FailureView::CollidingKeys,
            YamlFailure::Budget => FailureView::Budget,
            YamlFailure::Policy => FailureView::Policy,
            YamlFailure::Data => FailureView::Data,
            YamlFailure::EndOfStream => FailureView::EndOfStream,
            YamlFailure::Io => FailureView::Io,
            YamlFailure::Other => FailureView::Other,
            YamlFailure::Unclassified => FailureView::Unclassified,
        }
    }
}

impl FailureView {
    /// What may be told of the failure: names and shapes, never a value.
    pub open spec fn text(self) -> Seq<char> {
        match self {
            FailureView::UnknownField(field) => "unknown field `"@ + field + "`"@,
            FailureView::MissingField(field) => "required field `"@ + field + "` is missing"@,
            FailureView::DuplicateKey(key) => "duplicate YAML key `"@ + key + "`"@,
            FailureView::KeyCollision(key) => "YAML keys collide after conversion at `"@ + key
                + "`"@,
            FailureView::TypeMismatch { expected, found } => "expected "@ + expected + ", found "@
                + found,
            FailureView::MoreThanOneDocument =>
                "the configuration must contain exactly one YAML document"@,
            FailureView::Syntax => "invalid YAML syntax"@,
            FailureView::RepeatedKey => "duplicate YAML key"@,
            FailureView::CollidingKeys => "colliding YAML keys"@,
            FailureView::Budget => "YAML security limit exceeded"@,
            FailureView::Policy => "YAML construct is not allowed"@,
            FailureView::Data => "YAML value does not match the configuration schema"@,
            FailureView::EndOfStream => "unexpected end of YAML input"@,
            FailureView::Io => "YAML input/output error"@,
            FailureView::Other => "invalid YAML configuration value"@,
            FailureView::Unclassified => "invalid YAML configuration"@,
        }
    }
}

impl YamlFailure {
    fn detail(&self) -> (result: String)
        ensures
            result@ == self@.text(),
    {
        match self {
            YamlFailure::UnknownField(field) => around("unknown field `", field.as_str(), "`"),
            YamlFailure::MissingField(field) => around(
                "required field `",
                field.as_str(),
                "` is missing",
            ),
            YamlFailure::DuplicateKey(key) => around("duplicate YAML key `", key.as_str(), "`"),
            YamlFailure::KeyCollision(key) => around(
                "YAML keys collide after conversion at `",
                key.as_str(),
                "`",
            ),
            YamlFailure::TypeMismatch { expected, found } => {
                let mut result = around("expected ", expected.as_str(), ", found ");
                result.push_str(found.as_str());
                result
            },
            YamlFailure::MoreThanOneDocument =>
                "the configuration must contain exactly one YAML document".to_owned(),
            YamlFailure::Syntax => "invalid YAML syntax".to_owned(),
            YamlFailure::RepeatedKey => "duplicate YAML key".to_owned(),
            YamlFailure::CollidingKeys => "colliding YAML keys".to_owned(),
            YamlFailure::Budget => "YAML security limit exceeded".to_owned(),
            YamlFailure::Policy => "YAML construct is not allowed".to_owned(),
            YamlFailure::Data => "YAML value does not match the configuration schema".to_owned(),
            YamlFailure::EndOfStream => "unexpected end of YAML input".to_owned(),
            YamlFailure::Io => "YAML input/output error".to_owned(),
            YamlFailure::Other => "invalid YAML configuration value".to_owned(),
            YamlFailure::Unclassified => "invalid YAML configuration".to_owned(),
        }
    }
}

fn around(head: &str, middle: &str, tail: &str) -> (result: String)
    ensures
        result@ == head@ + middle@ + tail@,
{
    let mut result = head.to_owned();
    result.push_str(middle);
    result.push_str(tail);
    result
}

/// The diagnostic of a text that is no configuration.
pub fn yaml_error(failure: &YamlFailure, location: Option<(usize, usize)>) -> (result: SafeYamlError)
    ensures
        result@ == YamlProblem::of(failure@.text(), location),
{
    SafeYamlError::new(failure.detail().as_str(), location)
}

/// Why `noyalib::from_str_with_config` refuses a text under its strict configuration, and the line and
/// column where it does; nothing where it accepts the text.
pub uninterp spec fn strict_problem(source: Seq<char>) -> Option<
    (FailureView, Option<(usize, usize)>),
>;

/// A failure with its place, by view.
pub open spec fn problem_view(problem: Option<(YamlFailure, Option<(usize, usize)>)>) -> Option<
    (FailureView, Option<(usize, usize)>),
> {
    match problem {
        Some((failure, location)) => Some((failure@, location)),
        None => None,
    }
}

/// Calls `noyalib::from_str_with_config` for a value of any shape, under the strict configuration in
/// which a key may not occur twice. Whether it refuses the text, how and where, is a function of the
/// text alone. A value of any shape has no fields to miss and no type to meet, and no reader that could
/// fail, so only the kinds below arise.
#[verifier::external_body]
fn find_strict_problem(source: &str) -> (result: Option<(YamlFailure, Option<(usize, usize)>)>)
    ensures
        problem_view(result) == strict_problem(source@),
{
    let strict = ParserConfig::strict().duplicate_key_policy(DuplicateKeyPolicy::Error);
    let error = from_str_with_config::<Value>(source, &strict).err()?;
    let at = error.location().map(|at| (at.line(), at.column()));
    let failure = match error.kind() {
        ErrorKind::Data if matches!(error, Error::MoreThanOneDocument) => YamlFailure::MoreThanOneDocument,
        ErrorKind::Syntax => YamlFailure::Syntax,
        ErrorKind::DuplicateKey => YamlFailure::RepeatedKey,
        ErrorKind::KeyCollision => YamlFailure::CollidingKeys,
        ErrorKind::Budget => YamlFailure::Budget,
        ErrorKind::Policy => YamlFailure::Policy,
        ErrorKind::Data => YamlFailure::Data,
        ErrorKind::Other => YamlFailure::Other,
        _ => YamlFailure::Unclassified,
    };
    Some((failure, at))
}

/// Checks that a text is YAML of one document, within the limits of the parser and without a key that
/// occurs twice.
pub fn check_source(source: &str) -> (result: Result<(), SafeYamlError>)
    ensures
        match strict_problem(source@) {
            Some((failure, location)) => result is Err && result->Err_0@ == YamlProblem::of(
                failure.text(),
                location,
            ),
            None => result is Ok,
        },
{
    match find_strict_problem(source) {
        Some((failure, location)) => Err(yaml_error(&failure, location)),
        None => Ok(()),
    }
}

} // verus!
