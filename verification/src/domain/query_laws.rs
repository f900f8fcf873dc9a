//! What an answer to a query holds: the records that pass, in the order asked for, no more than asked
//! for, with the columns asked for.

use vstd::prelude::*;
use vstd::string::*;

use crate::domain::entries;
use crate::domain::field_value;
use crate::domain::field_value::{ExtraFields, FieldType, ValueView};
use crate::domain::fields;
use crate::domain::fields::{FieldDefinition, FieldRegistry, SortDirection, SortKey};
use crate::domain::filter_laws;
use crate::domain::error::{DomainError, DomainErrorView};
use crate::domain::mask;
use crate::domain::model::{
    ConnectionRecord, FieldAccess, InfobaseRecord, RecordKind, SessionRecord,
};
use crate::domain::outcome::{QueryOutcome, TargetError};
use crate::domain::query;
use crate::domain::query::{Projection, ProjectionView, QueryEngine, QuerySpec, TextQuery};
use crate::domain::record_laws;
use crate::number;
use crate::order;
use crate::order::Order;
use crate::text;

verus! {

/// A value is not greater than another of its type: integers and identities as numbers, times by the
/// instant, false before true, texts by their lower case.
pub open spec fn is_at_most(left: ValueView, right: ValueView) -> bool {
    match (left, right) {
        (ValueView::Int(left), ValueView::Int(right)) => left <= right,
        (ValueView::Uuid(left), ValueView::Uuid(right)) => left <= right,
        (ValueView::DateTime(left), ValueView::DateTime(right)) => !filter_laws::is_before(
            right,
            left,
        ),
        (ValueView::Bool(left), ValueView::Bool(right)) => left ==> right,
        (ValueView::Str(left), ValueView::Str(right)) => order::compare_text(
            text::lowercase(left),
            text::lowercase(right),
        ) != Order::Greater,
        _ => true,
    }
}

/// A record has a value of the type of a sort key in the field of the key.
pub open spec fn has_value<R: FieldAccess>(record: R, key: SortKey) -> bool {
    let value = record.field_view(key.name()@);
    value is Some && value->0.field_type() == Some(key.value_type())
}

/// A record may stand before another by one sort key: a value before no value, the smaller value first
/// where the key ascends, the greater first where it descends.
pub open spec fn may_precede<R: FieldAccess>(left: R, right: R, key: SortKey) -> bool {
    let a = left.field_view(key.name()@)->0;
    let b = right.field_view(key.name()@)->0;
    &&& has_value(right, key) ==> has_value(left, key)
    &&& has_value(left, key) && has_value(right, key) ==> (match key.way() {
        SortDirection::Asc => is_at_most(a, b),
        SortDirection::Desc => is_at_most(b, a),
    })
}

proof fn lemma_key_order<R: FieldAccess>(left: R, right: R, key: SortKey)
    ensures
        query::key_order(left, right, key) != Order::Greater ==> may_precede(left, right, key),
        may_precede(left, right, key) && may_precede(right, left, key) ==> query::key_order(
            left,
            right,
            key,
        ) == Order::Equal,
{
    if has_value(left, key) && has_value(right, key) {
        let a = left.field_view(key.name()@)->0;
        let b = right.field_view(key.name()@)->0;
        if let (ValueView::Str(x), ValueView::Str(y)) = (a, b) {
            order::lemma_compare_text_flips(text::lowercase(x), text::lowercase(y));
        }
    }
}

proof fn lemma_record_order<R: FieldAccess>(left: R, right: R, keys: Seq<SortKey>, at: int)
    requires
        0 <= at < keys.len(),
        query::record_order(left, right, keys, 0) != Order::Greater,
        forall|k: int|
            #![trigger keys[k]]
            0 <= k < at ==> may_precede(left, right, keys[k]) && may_precede(right, left, keys[k]),
    ensures
        may_precede(left, right, keys[at]),
{
    lemma_skips_equal_keys(left, right, keys, at);
    lemma_key_order(left, right, keys[at]);
}

proof fn lemma_skips_equal_keys<R: FieldAccess>(left: R, right: R, keys: Seq<SortKey>, at: int)
    requires
        0 <= at <= keys.len(),
        forall|k: int|
            #![trigger keys[k]]
            0 <= k < at ==> may_precede(left, right, keys[k]) && may_precede(right, left, keys[k]),
    ensures
        query::record_order(left, right, keys, 0) == query::record_order(left, right, keys, at),
    decreases at,
{
    if at > 0 {
        lemma_skips_equal_keys(left, right, keys, at - 1);
        lemma_key_order(left, right, keys[at - 1]);
    }
}

/// Records stand in the order of the sort keys: a record before another has by the first key no greater
/// value where the key ascends and no smaller where it descends, records without a value stand last, and
/// a later key orders the records that agree on the earlier ones.
pub proof fn law_answers_stand_in_order<R: FieldAccess>(
    engine: QueryEngine,
    records: Vec<R>,
    errors: Vec<TargetError>,
    count: usize,
    query: QuerySpec,
    outcome: QueryOutcome<R>,
    i: int,
    j: int,
    at: int,
)
    requires
        call_ensures(
            QueryEngine::execute::<R>,
            (&engine, records, errors, count, &query),
            Ok::<QueryOutcome<R>, DomainError>(outcome),
        ),
        0 <= i < j < outcome.data@.len(),
        0 <= at < query@.sort.len(),
        forall|k: int|
            #![trigger query@.sort[k]]
            0 <= k < at ==> may_precede(outcome.data@[i], outcome.data@[j], query@.sort[k])
                && may_precede(outcome.data@[j], outcome.data@[i], query@.sort[k]),
    ensures
        may_precede(outcome.data@[i], outcome.data@[j], query@.sort[at]),
{
    let rank = query::ranking::<R>(query@.sort);
    let chosen = query::selected(query@, records@);
    let sorted = choose|sorted: Seq<R>|
        order::is_stable_sort(chosen, sorted, rank) && outcome.data@ == #[trigger] query::limited(
            sorted,
            query@.top,
        );
    assert(outcome.data@[i] == sorted[i]);
    assert(outcome.data@[j] == sorted[j]);
    assert(rank(sorted[i], sorted[j]) != Order::Greater);
    lemma_record_order(outcome.data@[i], outcome.data@[j], query@.sort, at);
}

/// Every record of an answer is one of the records asked, and passes the query.
pub proof fn law_answers_hold_records_that_pass<R: FieldAccess>(
    engine: QueryEngine,
    records: Vec<R>,
    errors: Vec<TargetError>,
    count: usize,
    query: QuerySpec,
    outcome: QueryOutcome<R>,
    i: int,
)
    requires
        call_ensures(
            QueryEngine::execute::<R>,
            (&engine, records, errors, count, &query),
            Ok::<QueryOutcome<R>, DomainError>(outcome),
        ),
        0 <= i < outcome.data@.len(),
    ensures
        query::selects(query@, outcome.data@[i]),
        records@.contains(outcome.data@[i]),
        outcome.data@[i].kind_view() == query@.kind,
{
    let rank = query::ranking::<R>(query@.sort);
    let chosen = query::selected(query@, records@);
    let keep = |record: R| query::selects(query@, record);
    let sorted = choose|sorted: Seq<R>|
        order::is_stable_sort(chosen, sorted, rank) && outcome.data@ == #[trigger] query::limited(
            sorted,
            query@.top,
        );
    let places = choose|places: Seq<int>|
        #[trigger] order::is_rearranged(chosen, sorted, places) && order::is_ordered(
            sorted,
            places,
            rank,
        );
    assert(sorted[i] == chosen[places[i]]);
    assert(chosen.contains(chosen[places[i]]));
    records@.lemma_filter_contains_rev(keep, chosen[places[i]]);
    broadcast use vstd::seq_lib::group_filter_ensures;

    let at = choose|at: int| 0 <= at < records@.len() && records@[at] == outcome.data@[i];
    lemma_no_stranger(query@.kind, records@, 0, at);
}

proof fn lemma_no_stranger<R: FieldAccess>(kind: RecordKind, records: Seq<R>, from: int, at: int)
    requires
        0 <= from <= at < records.len(),
        query::first_stranger(kind, records, from) is None,
    ensures
        records[at].kind_view() == kind,
    decreases at - from,
{
    if from < at {
        lemma_no_stranger(kind, records, from + 1, at);
    }
}

/// Without a limit an answer holds every record that passes; with a limit it holds as many as the limit
/// says, or all of them where they are fewer.
pub proof fn law_answers_are_as_long_as_asked<R: FieldAccess>(
    engine: QueryEngine,
    records: Vec<R>,
    errors: Vec<TargetError>,
    count: usize,
    query: QuerySpec,
    outcome: QueryOutcome<R>,
    at: int,
)
    requires
        call_ensures(
            QueryEngine::execute::<R>,
            (&engine, records, errors, count, &query),
            Ok::<QueryOutcome<R>, DomainError>(outcome),
        ),
        0 <= at < records@.len(),
        query::selects(query@, records@[at]),
    ensures
        query@.top is None ==> outcome.data@.contains(records@[at]),
        query@.top is None ==> outcome.data@.len() == outcome.meta.matched,
        query@.top is Some && query@.top->0 <= outcome.meta.matched ==> outcome.data@.len()
            == query@.top->0,
        query@.top is Some && query@.top->0 >= outcome.meta.matched ==> outcome.data@.len()
            == outcome.meta.matched && outcome.data@.contains(records@[at]),
        outcome.meta.returned == outcome.data@.len(),
        outcome.meta.matched > 0,
        outcome.errors@ == errors@,
{
    let rank = query::ranking::<R>(query@.sort);
    let chosen = query::selected(query@, records@);
    let keep = |record: R| query::selects(query@, record);
    broadcast use vstd::seq_lib::group_filter_ensures;

    records@.lemma_filter_contains(keep, at);
    let sorted = choose|sorted: Seq<R>|
        order::is_stable_sort(chosen, sorted, rank) && outcome.data@ == #[trigger] query::limited(
            sorted,
            query@.top,
        );
    let places = choose|places: Seq<int>|
        #[trigger] order::is_rearranged(chosen, sorted, places) && order::is_ordered(
            sorted,
            places,
            rank,
        );
    let p = choose|p: int| 0 <= p < chosen.len() && chosen[p] == records@[at];
    let q = order::lemma_arrangement_reaches(places, chosen.len(), p);
    assert(sorted[q] == records@[at]);
}

/// A limit takes the first records of the order: with what was left out behind it, an answer is all that
/// passes in its order.
pub proof fn law_limits_leave_out_the_last<R: FieldAccess>(
    engine: QueryEngine,
    records: Vec<R>,
    errors: Vec<TargetError>,
    count: usize,
    query: QuerySpec,
    outcome: QueryOutcome<R>,
)
    requires
        call_ensures(
            QueryEngine::execute::<R>,
            (&engine, records, errors, count, &query),
            Ok::<QueryOutcome<R>, DomainError>(outcome),
        ),
    ensures
        exists|rest: Seq<R>|
            order::is_stable_sort(
                query::selected(query@, records@),
                #[trigger] (outcome.data@ + rest),
                query::ranking::<R>(query@.sort),
            ),
{
    let rank = query::ranking::<R>(query@.sort);
    let chosen = query::selected(query@, records@);
    let sorted = choose|sorted: Seq<R>|
        order::is_stable_sort(chosen, sorted, rank) && outcome.data@ == #[trigger] query::limited(
            sorted,
            query@.top,
        );
    let rest = sorted.skip(outcome.data@.len() as int);
    assert(outcome.data@ + rest =~= sorted);
}

/// A limit of a number written in digits is that number.
pub proof fn law_limits_are_the_number_written(value: Seq<char>, number: usize)
    requires
        number > 0,
        value == number::decimal(number as nat),
    ensures
        query::top_of(value) == Ok::<usize, DomainErrorView>(number),
        query::top_of(number::decimal(0)) is Err,
{
    number::lemma_decimal_round_trip(number as nat);
    number::lemma_decimal_round_trip(0);
}

/// A sort key on a field of the kind, in one of the two directions, is read.
pub proof fn law_sort_keys_of_known_fields_are_read(
    kind: RecordKind,
    field: Seq<char>,
    direction: Seq<char>,
)
    requires
        field.len() > 0,
        forall|i: int| 0 <= i < field.len() ==> field[i] != ':',
        fields::definition_of(kind, field) is Ok,
        direction == "asc"@ || direction == "desc"@,
    ensures
        fields::sort_key_of(field + seq![':'] + direction, kind) is Ok,
{
    let input = field + seq![':'] + direction;
    let n = field.len() as int;
    text::lemma_first_index(input, ':', 0);
    assert(input[n] == ':');
    assert forall|i: int| 0 <= i < n implies input[i] != ':' by {
        assert(input[i] == field[i]);
    }
    assert(text::first_index(input, ':', 0) == n);
    assert(input.take(n) =~= field);
    assert(input.skip(n + 1) =~= direction);
    fields::lemma_definition_index(kind, field, 0);
    fields::law_operators_follow_types(fields::definition_index(kind, field, 0));
    reveal_strlit("asc");
    reveal_strlit("desc");
    assert("asc"@ =~= seq!['a', 's', 'c']);
    assert("desc"@ =~= seq!['d', 'e', 's', 'c']);
}

/// A sort key `field:asc` is on that field and ascends, `field:desc` descends, and no other direction is
/// read.
pub proof fn law_sort_keys_are_what_their_text_says(
    kind: RecordKind,
    field: Seq<char>,
    direction: Seq<char>,
    definition: FieldDefinition,
    way: SortDirection,
)
    requires
        forall|i: int| 0 <= i < field.len() ==> field[i] != ':',
        fields::sort_key_of(field + seq![':'] + direction, kind) == Ok::<
            (FieldDefinition, SortDirection),
            DomainErrorView,
        >((definition, way)),
    ensures
        definition.name@ == field,
        definition.in_scope(kind),
        way == SortDirection::Asc <==> direction == "asc"@,
        way == SortDirection::Desc <==> direction == "desc"@,
{
    let input = field + seq![':'] + direction;
    let n = field.len() as int;
    text::lemma_first_index(input, ':', 0);
    assert(input[n] == ':');
    assert forall|i: int| 0 <= i < n implies input[i] != ':' by {
        assert(input[i] == field[i]);
    }
    assert(text::first_index(input, ':', 0) == n);
    assert(input.take(n) =~= field);
    assert(input.skip(n + 1) =~= direction);
    fields::law_definition_is_the_asked_one(kind, field);
    reveal_strlit("asc");
    reveal_strlit("desc");
    assert("asc"@.len() == 3);
    assert("desc"@.len() == 4);
}

/// What a row shows of a field: its value, and null where there is none.
pub open spec fn shown<R: FieldAccess>(record: R, column: Seq<char>) -> ValueView {
    match record.field_view(column) {
        Some(value) => value,
        None => ValueView::Null,
    }
}

proof fn lemma_column_entries<R: FieldAccess>(columns: Seq<Seq<char>>, record: R, count: int)
    requires
        columns.no_duplicates(),
        0 <= count <= columns.len(),
    ensures
        ({
            let row = query::column_entries(columns, record, count);
            &&& row.len() == count
            &&& forall|i: int| #![trigger row[i]]
                0 <= i < count ==> row[i] == (columns[i], shown(record, columns[i]))
        }),
    decreases count,
{
    if count > 0 {
        lemma_column_entries(columns, record, count - 1);
        let before = query::column_entries(columns, record, count - 1);
        let column = columns[count - 1];
        entries::lemma_position(before, column, 0);
        let at = entries::position(before, column, 0);
        if at < before.len() {
            assert(before[at] == (columns[at], shown(record, columns[at])));
        }
        let row = query::column_entries(columns, record, count);
        assert forall|i: int| #![trigger row[i]] 0 <= i < count implies row[i] == (
            columns[i],
            shown(record, columns[i]),
        ) by {
            if i < count - 1 {
                assert(row[i] == before[i]);
            }
        }
    }
}

proof fn lemma_with_extras(
    row: Seq<(Seq<char>, ValueView)>,
    extras: Seq<(Seq<char>, ValueView)>,
    count: int,
)
    requires
        0 <= count <= extras.len(),
    ensures
        row.is_prefix_of(query::with_extras(row, extras, count)),
        forall|i: int|
            0 <= i < count ==> entries::lookup(
                query::with_extras(row, extras, count),
                (#[trigger] extras[i]).0,
            ) is Some,
    decreases count,
{
    if count > 0 {
        lemma_with_extras(row, extras, count - 1);
        let before = query::with_extras(row, extras, count - 1);
        let name = extras[count - 1].0;
        let after = query::with_extras(row, extras, count);
        entries::lemma_position(before, name, 0);
        assert forall|i: int| 0 <= i < count implies entries::lookup(
            after,
            (#[trigger] extras[i]).0,
        ) is Some by {
            let wanted = extras[i].0;
            entries::lemma_position(before, wanted, 0);
            entries::lemma_position(after, wanted, 0);
            let at = entries::position(before, wanted, 0);
            if at < before.len() {
                assert(after[at].0 == before[at].0);
            } else if i == count - 1 && entries::lookup(before, name) is None {
                assert(after.last().0 == wanted);
            }
        }
    }
}

/// A row shows the columns asked for in their order, each with the value that the record has in that
/// field; it shows nothing else, unless everything is asked for: then the unknown fields follow.
pub proof fn law_rows_show_the_columns<R: FieldAccess>(
    projection: Projection,
    record: R,
    row: ExtraFields,
    i: int,
)
    requires
        call_ensures(Projection::project::<R>, (&projection, &record), row),
        projection@.columns.no_duplicates(),
        0 <= i < projection@.columns.len(),
    ensures
        field_value::extra_entries(row).len() >= projection@.columns.len(),
        !projection@.all ==> field_value::extra_entries(row).len() == projection@.columns.len(),
        field_value::extra_entries(row)[i] == (
            projection@.columns[i],
            shown(record, projection@.columns[i]),
        ),
        projection@.all ==> forall|k: int|
            0 <= k < record.extras_view().len() ==> entries::lookup(
                field_value::extra_entries(row),
                (#[trigger] record.extras_view()[k]).0,
            ) is Some,
{
    let columns = projection@.columns;
    lemma_column_entries(columns, record, columns.len() as int);
    let base = query::column_entries(columns, record, columns.len() as int);
    assert(base[i] == (columns[i], shown(record, columns[i])));
    if projection@.all {
        lemma_with_extras(base, record.extras_view(), record.extras_view().len() as int);
    }
}

proof fn lemma_chosen_columns(
    kind: RecordKind,
    input: Seq<char>,
    parts: Seq<Seq<char>>,
    count: int,
)
    requires
        0 <= count <= parts.len(),
        query::chosen_columns(kind, input, parts, count) is Ok,
    ensures
        ({
            let columns = query::chosen_columns(kind, input, parts, count)->Ok_0;
            &&& columns.len() == count
            &&& forall|i: int| #![trigger columns[i]]
                0 <= i < count ==> columns[i] == text::trim(parts[i])
        }),
    decreases count,
{
    if count > 0 {
        lemma_chosen_columns(kind, input, parts, count - 1);
        fields::law_definition_is_the_asked_one(kind, text::trim(parts[count - 1]));
    }
}

/// Columns asked for by a list of names between commas are those names, in the order of the list.
pub proof fn law_columns_are_the_names_listed(
    input: Seq<char>,
    kind: RecordKind,
    projection: ProjectionView,
    i: int,
)
    requires
        query::projection_of(Some(input), kind) == Ok::<ProjectionView, DomainErrorView>(projection),
        input != "*"@,
        0 <= i < projection.columns.len(),
    ensures
        projection.columns.len() == text::split(input, ',').len(),
        projection.columns[i] == text::trim(text::split(input, ',')[i]),
{
    let parts = text::split(input, ',');
    lemma_chosen_columns(kind, input, parts, parts.len() as int);
}

/// Whether a mask covers the text of a field.
pub open spec fn is_found_in(input: Seq<char>, field: Option<String>) -> bool {
    field is Some && mask::mask_matches(input, field->0@)
}

proof fn lemma_text_query(kind: RecordKind, input: Seq<char>, query: TextQuery, first: Seq<char>, second: Seq<char>)
    requires
        query::text_query_of(kind, input, seq![first, second]) == Ok::<_, DomainErrorView>(query@),
        first != second,
    ensures
        query@.mask == input,
        query@.fields == seq![first, second],
{
    let asked = seq![first, second];
    fields::law_definition_is_the_asked_one(kind, first);
    fields::law_definition_is_the_asked_one(kind, second);
    reveal_with_fuel(query::text_fields, 3);
    let one = query::text_fields(kind, asked, 1)->Ok_0;
    assert(one =~= seq![first]);
    assert(query::text_fields(kind, asked, 2)->Ok_0 =~= asked);
}

/// A text query finds the sessions whose user or whose host the mask covers.
pub proof fn law_session_searches_look_at_user_and_host(
    input: &str,
    registry: FieldRegistry,
    query: TextQuery,
    record: SessionRecord,
    result: bool,
)
    requires
        call_ensures(
            TextQuery::for_kind,
            (RecordKind::Session, input, &registry),
            Ok::<TextQuery, DomainError>(query),
        ),
        call_ensures(TextQuery::matches::<SessionRecord>, (&query, &record), result),
    ensures
        result == (is_found_in(input@, record.user_name) || is_found_in(input@, record.host)),
{
    reveal_strlit("user_name");
    reveal_strlit("host");
    assert("user_name"@.len() != "host"@.len());
    lemma_text_query(RecordKind::Session, input@, query, "user_name"@, "host"@);
    record_laws::law_session_fields_are_told(record);
    assert(query@.fields[0] == "user_name"@);
    assert(query@.fields[1] == "host"@);
}

/// A text query finds the connections whose host or whose application the mask covers.
pub proof fn law_connection_searches_look_at_host_and_application(
    input: &str,
    registry: FieldRegistry,
    query: TextQuery,
    record: ConnectionRecord,
    result: bool,
)
    requires
        call_ensures(
            TextQuery::for_kind,
            (RecordKind::Connection, input, &registry),
            Ok::<TextQuery, DomainError>(query),
        ),
        call_ensures(TextQuery::matches::<ConnectionRecord>, (&query, &record), result),
    ensures
        result == (is_found_in(input@, record.host) || is_found_in(input@, record.application)),
{
    reveal_strlit("application");
    reveal_strlit("host");
    assert("application"@.len() != "host"@.len());
    lemma_text_query(RecordKind::Connection, input@, query, "host"@, "application"@);
    record_laws::law_connection_fields_are_told(record);
    assert(query@.fields[0] == "host"@);
    assert(query@.fields[1] == "application"@);
}

/// A text query finds the infobases whose name the mask covers.
pub proof fn law_infobase_searches_look_at_the_name(
    input: &str,
    registry: FieldRegistry,
    query: TextQuery,
    record: InfobaseRecord,
    result: bool,
)
    requires
        call_ensures(
            TextQuery::for_kind,
            (RecordKind::Infobase, input, &registry),
            Ok::<TextQuery, DomainError>(query),
        ),
        call_ensures(TextQuery::matches::<InfobaseRecord>, (&query, &record), result),
    ensures
        result == mask::mask_matches(input@, record.infobase@),
{
    reveal_with_fuel(query::text_fields, 2);
    fields::law_definition_is_the_asked_one(RecordKind::Infobase, "infobase"@);
    assert(query@.fields =~= seq!["infobase"@]);
    record_laws::law_infobase_fields_are_told(record);
    assert(query@.fields[0] == "infobase"@);
}

/// Records are shown in the order of their clusters, then of their infobases, then of their own numbers,
/// where no order is asked for.
pub proof fn law_usual_order(kind: RecordKind)
    ensures
        ({
            let keys = fields::default_sort_of(kind);
            &&& keys.len() >= 2
            &&& forall|i: int|
                0 <= i < keys.len() ==> (#[trigger] keys[i]).way() == SortDirection::Asc
            &&& keys[0].name()@ == "cluster"@
            &&& kind != RecordKind::Process ==> keys[1].name()@ == "infobase"@
            &&& keys.last().name()@ == (match kind {
                RecordKind::Infobase => "infobase_uuid"@,
                RecordKind::Session => "session_id"@,
                RecordKind::Connection => "conn_id"@,
                RecordKind::Process => "pid"@,
            })
        }),
{
    fields::lemma_sort_key("cluster", SortDirection::Asc, FieldType::Str);
    fields::lemma_sort_key("infobase", SortDirection::Asc, FieldType::Str);
    fields::lemma_sort_key("infobase_uuid", SortDirection::Asc, FieldType::Uuid);
    fields::lemma_sort_key("session_id", SortDirection::Asc, FieldType::Int);
    fields::lemma_sort_key("conn_id", SortDirection::Asc, FieldType::Int);
    fields::lemma_sort_key("pid", SortDirection::Asc, FieldType::Int);
}

proof fn lemma_filters(kind: RecordKind, inputs: Seq<Seq<char>>, count: int)
    requires
        0 <= count <= inputs.len(),
        query::filters_of(kind, inputs, count) is Ok,
    ensures
        ({
            let filters = query::filters_of(kind, inputs, count)->Ok_0;
            &&& filters.len() == count
            &&& forall|i: int| #![trigger filters[i]]
                0 <= i < count ==> query::filter_of(inputs[i], kind) == Ok::<_, DomainErrorView>(
                    filters[i],
                )
        }),
    decreases count,
{
    if count > 0 {
        lemma_filters(kind, inputs, count - 1);
    }
}

proof fn lemma_sort_keys(kind: RecordKind, inputs: Seq<Seq<char>>, count: int)
    requires
        0 <= count <= inputs.len(),
        query::sort_keys_of(kind, inputs, count) is Ok,
    ensures
        ({
            let keys = query::sort_keys_of(kind, inputs, count)->Ok_0;
            &&& keys.len() == count
            &&& forall|i: int| #![trigger keys[i]]
                0 <= i < count ==> is_key_of(keys[i], inputs[i], kind)
        }),
    decreases count,
{
    if count > 0 {
        lemma_sort_keys(kind, inputs, count - 1);
        let (definition, direction) = fields::sort_key_of(inputs[count - 1], kind)->Ok_0;
        fields::lemma_sort_key(definition.name, direction, definition.field_type);
    }
}

/// A sort key is the one that a text stands for: it is on the field and in the direction of the text.
pub open spec fn is_key_of(key: SortKey, input: Seq<char>, kind: RecordKind) -> bool {
    match fields::sort_key_of(input, kind) {
        Ok((definition, direction)) => {
            &&& key.name() == definition.name
            &&& key.way() == direction
            &&& key.value_type() == definition.field_type
        },
        Err(_) => false,
    }
}

/// A query holds what is asked for and nothing else: every condition and every sort key in its order, the
/// text to search for, the limit and the columns.
pub proof fn law_queries_hold_what_is_asked(
    kind: RecordKind,
    filters: Seq<Seq<char>>,
    asked: Option<Seq<char>>,
    sort: Seq<Seq<char>>,
    top: Option<Seq<char>>,
    columns: Option<Seq<char>>,
    found: query::QuerySpecView,
)
    requires
        query::query_of(kind, filters, asked, sort, top, columns) == Ok::<_, DomainErrorView>(found),
    ensures
        found.kind == kind,
        found.filters.len() == filters.len(),
        forall|i: int|
            #![trigger found.filters[i]]
            0 <= i < filters.len() ==> query::filter_of(filters[i], kind) == Ok::<
                _,
                DomainErrorView,
            >(found.filters[i]),
        found.text_query is Some <==> asked is Some,
        asked is Some ==> found.text_query->0.mask == asked->0,
        sort.len() > 0 ==> found.sort.len() == sort.len(),
        forall|i: int|
            #![trigger found.sort[i]]
            0 <= i < sort.len() ==> is_key_of(found.sort[i], sort[i], kind),
        sort.len() == 0 ==> found.sort == fields::default_sort_of(kind),
        top is None <==> found.top is None,
        forall|n: usize|
            top == Some(#[trigger] number::decimal(n as nat)) ==> found.top == Some(n),
        query::projection_of(columns, kind) == Ok::<_, DomainErrorView>(found.projection),
{
    lemma_filters(kind, filters, filters.len() as int);
    lemma_sort_keys(kind, sort, sort.len() as int);
    assert forall|n: usize| top == Some(#[trigger] number::decimal(n as nat)) implies found.top
        == Some(n) by {
        number::lemma_decimal_round_trip(n as nat);
    }
}

/// Records that agree on every sort key stand as they stood among the records that pass.
pub proof fn law_equal_records_keep_their_order<R: FieldAccess>(
    engine: QueryEngine,
    records: Vec<R>,
    errors: Vec<TargetError>,
    count: usize,
    query: QuerySpec,
    outcome: QueryOutcome<R>,
    i: int,
    j: int,
)
    requires
        call_ensures(
            QueryEngine::execute::<R>,
            (&engine, records, errors, count, &query),
            Ok::<QueryOutcome<R>, DomainError>(outcome),
        ),
        0 <= i < j < outcome.data@.len(),
        forall|k: int|
            #![trigger query@.sort[k]]
            0 <= k < query@.sort.len() ==> may_precede(
                outcome.data@[i],
                outcome.data@[j],
                query@.sort[k],
            ) && may_precede(outcome.data@[j], outcome.data@[i], query@.sort[k]),
    ensures
        exists|p: int, q: int|
            0 <= p < q < query::selected(query@, records@).len() && #[trigger] query::selected(
                query@,
                records@,
            )[p] == outcome.data@[i] && #[trigger] query::selected(query@, records@)[q]
                == outcome.data@[j],
{
    let rank = query::ranking::<R>(query@.sort);
    let chosen = query::selected(query@, records@);
    let sorted = choose|sorted: Seq<R>|
        order::is_stable_sort(chosen, sorted, rank) && outcome.data@ == #[trigger] query::limited(
            sorted,
            query@.top,
        );
    let places = choose|places: Seq<int>|
        #[trigger] order::is_rearranged(chosen, sorted, places) && order::is_ordered(
            sorted,
            places,
            rank,
        );
    assert(outcome.data@[i] == sorted[i]);
    assert(outcome.data@[j] == sorted[j]);
    lemma_skips_equal_keys(sorted[i], sorted[j], query@.sort, query@.sort.len() as int);
    assert(rank(sorted[i], sorted[j]) == Order::Equal);
    assert(places[i] < places[j]);
    assert(chosen[places[i]] == sorted[i]);
    assert(chosen[places[j]] == sorted[j]);
}

} // verus!
