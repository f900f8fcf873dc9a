//! The names of fields: which records have which, and that none is told twice.

use vstd::prelude::*;
use vstd::string::*;

use crate::domain::error::DomainErrorView;
use crate::domain::fields;
use crate::domain::fields::FieldDefinition;
use crate::domain::model::RecordKind;
use crate::domain::query;
use crate::domain::query::ProjectionView;
use crate::text;

verus! {

/// A number that stands for a length and two characters.
pub open spec fn code(length: nat, first: char, last: char) -> int {
    (length * 128 + first as int) * 128 + last as int
}

/// What tells the names of fields apart: their length, first and last character.
pub open spec fn mark(name: Seq<char>) -> int {
    code(name.len(), name.first(), name.last())
}

/// Where the field of a kind stands in the table whose name has the given mark.
spec fn place(kind: RecordKind, mark: int) -> int {
    if mark == code(7, 'c', 'r') {
        0
    } else if mark == code(12, 'c', 'd') {
        1
    } else if mark == code(12, 'c', 'e') {
        2
    } else if mark == code(11, 'r', 's') {
        3
    } else if mark == code(8, 'i', 'e') {
        4
    } else if mark == code(13, 'i', 'd') {
        5
    } else if mark == code(17, 'c', 'g') {
        6
    } else if mark == code(7, 's', 'n') {
        7
    } else if mark == code(10, 's', 'd') {
        8
    } else if mark == code(10, 'c', 'n') {
        if kind == RecordKind::Session {
            9
        } else {
            55
        }
    } else if mark == code(7, 'p', 's') {
        if kind == RecordKind::Session {
            10
        } else if kind == RecordKind::Connection {
            58
        } else {
            63
        }
    } else if mark == code(9, 'u', 'e') {
        11
    } else if mark == code(4, 'h', 't') {
        if kind == RecordKind::Session {
            12
        } else {
            57
        }
    } else if mark == code(6, 'a', 'd') {
        13
    } else if mark == code(6, 'l', 'e') {
        14
    } else if mark == code(10, 's', 't') {
        if kind == RecordKind::Session {
            15
        } else {
            66
        }
    } else if mark == code(14, 'l', 't') {
        16
    } else if mark == code(9, 'h', 'e') {
        17
    } else if mark == code(30, 'p', 'e') {
        18
    } else if mark == code(32, 'h', 'e') {
        19
    } else if mark == code(15, 'b', 's') {
        20
    } else if mark == code(13, 'b', 's') {
        if kind == RecordKind::Session {
            21
        } else {
            62
        }
    } else if mark == code(9, 'b', 'l') {
        22
    } else if mark == code(15, 'b', 'n') {
        23
    } else if mark == code(9, 'c', 'l') {
        24
    } else if mark == code(15, 'c', 'n') {
        25
    } else if mark == code(14, 'd', 'l') {
        26
    } else if mark == code(20, 'd', 'n') {
        27
    } else if mark == code(12, 'd', 'o') {
        28
    } else if mark == code(12, 'd', 'k') {
        29
    } else if mark == code(15, 'd', 't') {
        30
    } else if mark == code(12, 'd', 'l') {
        31
    } else if mark == code(17, 'd', 's') {
        32
    } else if mark == code(16, 'd', 't') {
        33
    } else if mark == code(21, 'd', 's') {
        34
    } else if mark == code(18, 'd', 'n') {
        35
    } else if mark == code(23, 'd', 's') {
        36
    } else if mark == code(14, 'm', 't') {
        37
    } else if mark == code(16, 'm', 'n') {
        38
    } else if mark == code(12, 'm', 'l') {
        39
    } else if mark == code(12, 'r', 't') {
        40
    } else if mark == code(14, 'r', 'n') {
        41
    } else if mark == code(10, 'r', 'l') {
        42
    } else if mark == code(13, 'w', 't') {
        43
    } else if mark == code(15, 'w', 'n') {
        44
    } else if mark == code(11, 'w', 'l') {
        45
    } else if mark == code(24, 'd', 'e') {
        46
    } else if mark == code(26, 'd', 'e') {
        47
    } else if mark == code(20, 'd', 'e') {
        48
    } else if mark == code(20, 'c', 'e') {
        49
    } else if mark == code(16, 'c', 't') {
        50
    } else if mark == code(18, 'c', 'n') {
        51
    } else if mark == code(14, 'c', 'l') {
        52
    } else if mark == code(15, 'd', 'n') {
        53
    } else if mark == code(9, 'c', 'p') {
        54
    } else if mark == code(7, 'c', 'd') {
        56
    } else if mark == code(11, 'a', 'n') {
        59
    } else if mark == code(12, 'c', 't') {
        60
    } else if mark == code(14, 's', 'r') {
        61
    } else if mark == code(6, 's', 'r') {
        64
    } else if mark == code(3, 'p', 'd') {
        65
    } else {
        -1
    }
}

proof fn lemma_source_places(kind: RecordKind)
    ensures
        fields::source_fields().len() == 7,
        forall|i: int|
            0 <= i < 7 && (#[trigger] fields::source_fields()[i]).in_scope(kind) ==> place(
                kind,
                mark(fields::source_fields()[i].name@),
            ) == i,
{
    reveal_strlit("cluster");
    reveal_strlit("cluster_uuid");
    reveal_strlit("cluster_name");
    reveal_strlit("ras_address");
    reveal_strlit("infobase");
    reveal_strlit("infobase_uuid");
    reveal_strlit("connection_string");
    assert(mark("cluster"@) == code(7, 'c', 'r'));
    assert(mark("cluster_uuid"@) == code(12, 'c', 'd'));
    assert(mark("cluster_name"@) == code(12, 'c', 'e'));
    assert(mark("ras_address"@) == code(11, 'r', 's'));
    assert(mark("infobase"@) == code(8, 'i', 'e'));
    assert(mark("infobase_uuid"@) == code(13, 'i', 'd'));
    assert(mark("connection_string"@) == code(17, 'c', 'g'));
}

proof fn lemma_session_places(kind: RecordKind)
    ensures
        fields::session_fields().len() == 15,
        forall|i: int|
            0 <= i < 15 && (#[trigger] fields::session_fields()[i]).in_scope(kind) ==> place(
                kind,
                mark(fields::session_fields()[i].name@),
            ) == 7 + i,
{
    reveal_strlit("session");
    reveal_strlit("session_id");
    reveal_strlit("connection");
    reveal_strlit("process");
    reveal_strlit("user_name");
    reveal_strlit("host");
    reveal_strlit("app_id");
    reveal_strlit("locale");
    reveal_strlit("started_at");
    reveal_strlit("last_active_at");
    reveal_strlit("hibernate");
    reveal_strlit("passive_session_hibernate_time");
    reveal_strlit("hibernate_session_terminate_time");
    reveal_strlit("blocked_by_dbms");
    reveal_strlit("blocked_by_ls");
    assert(mark("session"@) == code(7, 's', 'n'));
    assert(mark("session_id"@) == code(10, 's', 'd'));
    assert(mark("connection"@) == code(10, 'c', 'n'));
    assert(mark("process"@) == code(7, 'p', 's'));
    assert(mark("user_name"@) == code(9, 'u', 'e'));
    assert(mark("host"@) == code(4, 'h', 't'));
    assert(mark("app_id"@) == code(6, 'a', 'd'));
    assert(mark("locale"@) == code(6, 'l', 'e'));
    assert(mark("started_at"@) == code(10, 's', 't'));
    assert(mark("last_active_at"@) == code(14, 'l', 't'));
    assert(mark("hibernate"@) == code(9, 'h', 'e'));
    assert(mark("passive_session_hibernate_time"@) == code(30, 'p', 'e'));
    assert(mark("hibernate_session_terminate_time"@) == code(32, 'h', 'e'));
    assert(mark("blocked_by_dbms"@) == code(15, 'b', 's'));
    assert(mark("blocked_by_ls"@) == code(13, 'b', 's'));
}

proof fn lemma_traffic_places(kind: RecordKind)
    ensures
        fields::traffic_fields().len() == 15,
        forall|i: int|
            0 <= i < 15 && (#[trigger] fields::traffic_fields()[i]).in_scope(kind) ==> place(
                kind,
                mark(fields::traffic_fields()[i].name@),
            ) == 22 + i,
{
    reveal_strlit("bytes_all");
    reveal_strlit("bytes_last_5min");
    reveal_strlit("calls_all");
    reveal_strlit("calls_last_5min");
    reveal_strlit("dbms_bytes_all");
    reveal_strlit("dbms_bytes_last_5min");
    reveal_strlit("db_proc_info");
    reveal_strlit("db_proc_took");
    reveal_strlit("db_proc_took_at");
    reveal_strlit("duration_all");
    reveal_strlit("duration_all_dbms");
    reveal_strlit("duration_current");
    reveal_strlit("duration_current_dbms");
    reveal_strlit("duration_last_5min");
    reveal_strlit("duration_last_5min_dbms");
    assert(mark("bytes_all"@) == code(9, 'b', 'l'));
    assert(mark("bytes_last_5min"@) == code(15, 'b', 'n'));
    assert(mark("calls_all"@) == code(9, 'c', 'l'));
    assert(mark("calls_last_5min"@) == code(15, 'c', 'n'));
    assert(mark("dbms_bytes_all"@) == code(14, 'd', 'l'));
    assert(mark("dbms_bytes_last_5min"@) == code(20, 'd', 'n'));
    assert(mark("db_proc_info"@) == code(12, 'd', 'o'));
    assert(mark("db_proc_took"@) == code(12, 'd', 'k'));
    assert(mark("db_proc_took_at"@) == code(15, 'd', 't'));
    assert(mark("duration_all"@) == code(12, 'd', 'l'));
    assert(mark("duration_all_dbms"@) == code(17, 'd', 's'));
    assert(mark("duration_current"@) == code(16, 'd', 't'));
    assert(mark("duration_current_dbms"@) == code(21, 'd', 's'));
    assert(mark("duration_last_5min"@) == code(18, 'd', 'n'));
    assert(mark("duration_last_5min_dbms"@) == code(23, 'd', 's'));
}

proof fn lemma_resource_places(kind: RecordKind)
    ensures
        fields::resource_fields().len() == 18,
        forall|i: int|
            0 <= i < 18 && (#[trigger] fields::resource_fields()[i]).in_scope(kind) ==> place(
                kind,
                mark(fields::resource_fields()[i].name@),
            ) == 37 + i,
{
    reveal_strlit("memory_current");
    reveal_strlit("memory_last_5min");
    reveal_strlit("memory_total");
    reveal_strlit("read_current");
    reveal_strlit("read_last_5min");
    reveal_strlit("read_total");
    reveal_strlit("write_current");
    reveal_strlit("write_last_5min");
    reveal_strlit("write_total");
    reveal_strlit("duration_current_service");
    reveal_strlit("duration_last_5min_service");
    reveal_strlit("duration_all_service");
    reveal_strlit("current_service_name");
    reveal_strlit("cpu_time_current");
    reveal_strlit("cpu_time_last_5min");
    reveal_strlit("cpu_time_total");
    reveal_strlit("data_separation");
    reveal_strlit("client_ip");
    assert(mark("memory_current"@) == code(14, 'm', 't'));
    assert(mark("memory_last_5min"@) == code(16, 'm', 'n'));
    assert(mark("memory_total"@) == code(12, 'm', 'l'));
    assert(mark("read_current"@) == code(12, 'r', 't'));
    assert(mark("read_last_5min"@) == code(14, 'r', 'n'));
    assert(mark("read_total"@) == code(10, 'r', 'l'));
    assert(mark("write_current"@) == code(13, 'w', 't'));
    assert(mark("write_last_5min"@) == code(15, 'w', 'n'));
    assert(mark("write_total"@) == code(11, 'w', 'l'));
    assert(mark("duration_current_service"@) == code(24, 'd', 'e'));
    assert(mark("duration_last_5min_service"@) == code(26, 'd', 'e'));
    assert(mark("duration_all_service"@) == code(20, 'd', 'e'));
    assert(mark("current_service_name"@) == code(20, 'c', 'e'));
    assert(mark("cpu_time_current"@) == code(16, 'c', 't'));
    assert(mark("cpu_time_last_5min"@) == code(18, 'c', 'n'));
    assert(mark("cpu_time_total"@) == code(14, 'c', 'l'));
    assert(mark("data_separation"@) == code(15, 'd', 'n'));
    assert(mark("client_ip"@) == code(9, 'c', 'p'));
}

proof fn lemma_other_places(kind: RecordKind)
    ensures
        fields::other_fields().len() == 12,
        forall|i: int|
            0 <= i < 12 && (#[trigger] fields::other_fields()[i]).in_scope(kind) ==> place(
                kind,
                mark(fields::other_fields()[i].name@),
            ) == 55 + i,
{
    reveal_strlit("connection");
    reveal_strlit("conn_id");
    reveal_strlit("host");
    reveal_strlit("process");
    reveal_strlit("application");
    reveal_strlit("connected_at");
    reveal_strlit("session_number");
    reveal_strlit("blocked_by_ls");
    reveal_strlit("server");
    reveal_strlit("pid");
    reveal_strlit("started_at");
    assert(mark("connection"@) == code(10, 'c', 'n'));
    assert(mark("conn_id"@) == code(7, 'c', 'd'));
    assert(mark("host"@) == code(4, 'h', 't'));
    assert(mark("process"@) == code(7, 'p', 's'));
    assert(mark("application"@) == code(11, 'a', 'n'));
    assert(mark("connected_at"@) == code(12, 'c', 't'));
    assert(mark("session_number"@) == code(14, 's', 'r'));
    assert(mark("blocked_by_ls"@) == code(13, 'b', 's'));
    assert(mark("server"@) == code(6, 's', 'r'));
    assert(mark("pid"@) == code(3, 'p', 'd'));
    assert(mark("started_at"@) == code(10, 's', 't'));
}

/// A field of a kind stands where the mark of its name tells.
proof fn lemma_places(kind: RecordKind)
    ensures
        forall|i: int|
            0 <= i < fields::field_table().len() && (#[trigger] fields::field_table()[i]).in_scope(
                kind,
            ) ==> place(kind, mark(fields::field_table()[i].name@)) == i,
{
    lemma_source_places(kind);
    lemma_session_places(kind);
    lemma_traffic_places(kind);
    lemma_resource_places(kind);
    lemma_other_places(kind);
    assert forall|i: int|
        0 <= i < fields::field_table().len() && (#[trigger] fields::field_table()[i]).in_scope(
            kind,
        ) implies place(kind, mark(fields::field_table()[i].name@)) == i by {
        if i < 7 {
            assert(fields::field_table()[i] == fields::source_fields()[i]);
        } else if i < 22 {
            assert(fields::field_table()[i] == fields::session_fields()[i - 7]);
        } else if i < 37 {
            assert(fields::field_table()[i] == fields::traffic_fields()[i - 22]);
        } else if i < 55 {
            assert(fields::field_table()[i] == fields::resource_fields()[i - 37]);
        } else {
            assert(fields::field_table()[i] == fields::other_fields()[i - 55]);
        }
    }
}

/// What the first `count` rows of the table hold for a kind: fields of the kind, each at its place, and
/// all of them.
proof fn lemma_listed(kind: RecordKind, count: int)
    requires
        0 <= count <= fields::field_table().len(),
    ensures
        ({
            let listed = fields::field_table().take(count).filter(
                |definition: FieldDefinition| definition.in_scope(kind),
            );
            &&& forall|j: int|
                0 <= j < listed.len() ==> {
                    let at = place(kind, mark((#[trigger] listed[j]).name@));
                    listed[j].in_scope(kind) && 0 <= at < count && fields::field_table()[at]
                        == listed[j]
                }
            &&& forall|j: int, k: int|
                #![trigger listed[j], listed[k]]
                0 <= j < k < listed.len() ==> listed[j].name@ != listed[k].name@
            &&& forall|i: int|
                0 <= i < count && (#[trigger] fields::field_table()[i]).in_scope(kind)
                    ==> listed.contains(fields::field_table()[i])
        }),
    decreases count,
{
    let keep = |definition: FieldDefinition| definition.in_scope(kind);
    let table = fields::field_table();
    let listed = table.take(count).filter(keep);
    if count == 0 {
        assert(listed =~= Seq::<FieldDefinition>::empty());
    } else {
        lemma_listed(kind, count - 1);
        lemma_places(kind);
        let before = table.take(count - 1).filter(keep);
        let last = table[count - 1];
        assert(table.take(count) =~= table.take(count - 1).push(last));
        table.take(count - 1).lemma_filter_push(last, keep);
        if last.in_scope(kind) {
            assert(listed == before.push(last));
            assert forall|j: int, k: int|
                #![trigger listed[j], listed[k]]
                0 <= j < k < listed.len() implies listed[j].name@ != listed[k].name@ by {
                assert(listed[j] == before[j]);
                if k < before.len() {
                    assert(listed[k] == before[k]);
                }
            }
            assert forall|j: int| 0 <= j < listed.len() implies {
                let at = place(kind, mark((#[trigger] listed[j]).name@));
                listed[j].in_scope(kind) && 0 <= at < count && table[at] == listed[j]
            } by {
                if j < before.len() {
                    assert(listed[j] == before[j]);
                }
            }
            assert forall|i: int|
                0 <= i < count && (#[trigger] table[i]).in_scope(kind) implies listed.contains(
                table[i],
            ) by {
                if i < count - 1 {
                    let j = choose|j: int| 0 <= j < before.len() && before[j] == table[i];
                    assert(listed[j] == table[i]);
                } else {
                    assert(listed[before.len() as int] == last);
                }
            }
        } else {
            assert(listed == before);
        }
    }
}

proof fn lemma_fields_of(kind: RecordKind)
    ensures
        forall|j: int|
            0 <= j < query::fields_of(kind).len() ==> {
                let at = place(kind, mark((#[trigger] query::fields_of(kind)[j]).name@));
                query::fields_of(kind)[j].in_scope(kind) && 0 <= at < fields::field_table().len()
                    && fields::field_table()[at] == query::fields_of(kind)[j]
            },
        forall|j: int, k: int|
            #![trigger query::fields_of(kind)[j], query::fields_of(kind)[k]]
            0 <= j < k < query::fields_of(kind).len() ==> query::fields_of(kind)[j].name@
                != query::fields_of(kind)[k].name@,
        forall|i: int|
            0 <= i < fields::field_table().len() && (#[trigger] fields::field_table()[i]).in_scope(
                kind,
            ) ==> query::fields_of(kind).contains(fields::field_table()[i]),
{
    let table = fields::field_table();
    lemma_listed(kind, table.len() as int);
    assert(table.take(table.len() as int) =~= table);
}

proof fn lemma_definition_index(kind: RecordKind, name: Seq<char>, from: int)
    requires
        0 <= from <= fields::field_table().len(),
    ensures
        from <= fields::definition_index(kind, name, from) <= fields::field_table().len(),
        fields::definition_index(kind, name, from) < fields::field_table().len() ==> {
            let found = fields::field_table()[fields::definition_index(kind, name, from)];
            found.name@ == name && found.in_scope(kind)
        },
        forall|i: int|
            from <= i < fields::field_table().len() && (#[trigger] fields::field_table()[i]).name@
                == name && fields::field_table()[i].in_scope(kind) ==> fields::definition_index(
                kind,
                name,
                from,
            ) <= i,
    decreases fields::field_table().len() - from,
{
    if from < fields::field_table().len() && !(fields::field_table()[from].name@ == name
        && fields::field_table()[from].in_scope(kind)) {
        lemma_definition_index(kind, name, from + 1);
    }
}

/// The fields of a kind all apply to it, and no two of them have the same name.
pub proof fn law_field_names_are_distinct(kind: RecordKind)
    ensures
        forall|i: int|
            0 <= i < query::fields_of(kind).len() ==> (#[trigger] query::fields_of(kind)[i]).in_scope(
                kind,
            ),
        forall|i: int, j: int|
            #![trigger query::fields_of(kind)[i], query::fields_of(kind)[j]]
            0 <= i < j < query::fields_of(kind).len() ==> query::fields_of(kind)[i].name@
                != query::fields_of(kind)[j].name@,
{
    lemma_fields_of(kind);
}

/// A field that is listed for a kind is the one that is found for the kind under its name.
pub proof fn law_listed_fields_are_found(kind: RecordKind, i: int)
    requires
        0 <= i < query::fields_of(kind).len(),
    ensures
        fields::definition_of(kind, query::fields_of(kind)[i].name@) == Ok::<
            FieldDefinition,
            DomainErrorView,
        >(query::fields_of(kind)[i]),
{
    let definition = query::fields_of(kind)[i];
    lemma_fields_of(kind);
    lemma_places(kind);
    lemma_definition_index(kind, definition.name@, 0);
    let at = place(kind, mark(definition.name@));
    let found = fields::definition_index(kind, definition.name@, 0);
    assert(fields::field_table()[at].in_scope(kind));
    assert(found <= at);
    assert(place(kind, mark(fields::field_table()[found].name@)) == found);
}

/// A field that is found for a kind under a name has that name, applies to the kind and is listed for
/// it.
pub proof fn law_found_fields_are_listed(
    kind: RecordKind,
    name: Seq<char>,
    definition: FieldDefinition,
)
    requires
        fields::definition_of(kind, name) == Ok::<
            FieldDefinition,
            DomainErrorView,
        >(definition),
    ensures
        definition.name@ == name,
        definition.in_scope(kind),
        query::fields_of(kind).contains(definition),
{
    lemma_fields_of(kind);
    lemma_definition_index(kind, name, 0);
    assert(fields::field_table()[fields::definition_index(kind, name, 0)] == definition);
}

/// A field of a kind is found under its name, wherever it stands in the table.
pub proof fn lemma_table_field(kind: RecordKind, i: int)
    requires
        0 <= i < fields::field_table().len(),
        fields::field_table()[i].in_scope(kind),
    ensures
        fields::definition_of(kind, fields::field_table()[i].name@) == Ok::<
            FieldDefinition,
            DomainErrorView,
        >(fields::field_table()[i]),
{
    let name = fields::field_table()[i].name@;
    lemma_places(kind);
    lemma_definition_index(kind, name, 0);
    let found = fields::definition_index(kind, name, 0);
    assert(place(kind, mark(fields::field_table()[found].name@)) == found);
}

/// Where a column of a kind stands among those shown where none are asked for, by the mark of its name.
spec fn column_place(kind: RecordKind, mark: int) -> int {
    match kind {
        RecordKind::Infobase => if mark == code(7, 'c', 'r') {
            0
        } else if mark == code(12, 'c', 'e') {
            1
        } else if mark == code(11, 'r', 's') {
            2
        } else if mark == code(8, 'i', 'e') {
            3
        } else if mark == code(13, 'i', 'd') {
            4
        } else if mark == code(11, 'd', 'n') {
            5
        } else {
            -1
        },
        RecordKind::Session => if mark == code(7, 'c', 'r') {
            0
        } else if mark == code(8, 'i', 'e') {
            1
        } else if mark == code(10, 's', 'd') {
            2
        } else if mark == code(9, 'u', 'e') {
            3
        } else if mark == code(4, 'h', 't') {
            4
        } else if mark == code(6, 'a', 'd') {
            5
        } else if mark == code(10, 's', 't') {
            6
        } else if mark == code(14, 'l', 't') {
            7
        } else if mark == code(14, 'c', 'l') {
            8
        } else if mark == code(14, 'm', 't') {
            9
        } else {
            -1
        },
        RecordKind::Connection => if mark == code(7, 'c', 'r') {
            0
        } else if mark == code(8, 'i', 'e') {
            1
        } else if mark == code(7, 'c', 'd') {
            2
        } else if mark == code(4, 'h', 't') {
            3
        } else if mark == code(11, 'a', 'n') {
            4
        } else if mark == code(12, 'c', 't') {
            5
        } else if mark == code(14, 's', 'r') {
            6
        } else if mark == code(7, 'p', 's') {
            7
        } else {
            -1
        },
        RecordKind::Process => if mark == code(7, 'c', 'r') {
            0
        } else if mark == code(11, 'r', 's') {
            1
        } else if mark == code(3, 'p', 'd') {
            2
        } else if mark == code(10, 's', 't') {
            3
        } else if mark == code(11, 'c', 's') {
            4
        } else if mark == code(6, 'm', 'y') {
            5
        } else if mark == code(2, 'o', 'n') {
            6
        } else if mark == code(7, 'r', 'g') {
            7
        } else if mark == code(3, 'u', 'e') {
            8
        } else {
            -1
        },
    }
}

proof fn lemma_infobase_columns()
    ensures
        forall|i: int|
            0 <= i < fields::default_columns_of(RecordKind::Infobase).len() ==> column_place(
                RecordKind::Infobase,
                mark((#[trigger] fields::default_columns_of(RecordKind::Infobase)[i])@),
            ) == i,
{
    reveal_strlit("cluster");
    reveal_strlit("cluster_name");
    reveal_strlit("ras_address");
    reveal_strlit("infobase");
    reveal_strlit("infobase_uuid");
    reveal_strlit("description");
    assert(mark("cluster"@) == code(7, 'c', 'r'));
    assert(mark("cluster_name"@) == code(12, 'c', 'e'));
    assert(mark("ras_address"@) == code(11, 'r', 's'));
    assert(mark("infobase"@) == code(8, 'i', 'e'));
    assert(mark("infobase_uuid"@) == code(13, 'i', 'd'));
    assert(mark("description"@) == code(11, 'd', 'n'));
}

proof fn lemma_session_columns()
    ensures
        forall|i: int|
            0 <= i < fields::default_columns_of(RecordKind::Session).len() ==> column_place(
                RecordKind::Session,
                mark((#[trigger] fields::default_columns_of(RecordKind::Session)[i])@),
            ) == i,
{
    reveal_strlit("cluster");
    reveal_strlit("infobase");
    reveal_strlit("session_id");
    reveal_strlit("user_name");
    reveal_strlit("host");
    reveal_strlit("app_id");
    reveal_strlit("started_at");
    reveal_strlit("last_active_at");
    reveal_strlit("cpu_time_total");
    reveal_strlit("memory_current");
    assert(mark("cluster"@) == code(7, 'c', 'r'));
    assert(mark("infobase"@) == code(8, 'i', 'e'));
    assert(mark("session_id"@) == code(10, 's', 'd'));
    assert(mark("user_name"@) == code(9, 'u', 'e'));
    assert(mark("host"@) == code(4, 'h', 't'));
    assert(mark("app_id"@) == code(6, 'a', 'd'));
    assert(mark("started_at"@) == code(10, 's', 't'));
    assert(mark("last_active_at"@) == code(14, 'l', 't'));
    assert(mark("cpu_time_total"@) == code(14, 'c', 'l'));
    assert(mark("memory_current"@) == code(14, 'm', 't'));
}

proof fn lemma_connection_columns()
    ensures
        forall|i: int|
            0 <= i < fields::default_columns_of(RecordKind::Connection).len() ==> column_place(
                RecordKind::Connection,
                mark((#[trigger] fields::default_columns_of(RecordKind::Connection)[i])@),
            ) == i,
{
    reveal_strlit("cluster");
    reveal_strlit("infobase");
    reveal_strlit("conn_id");
    reveal_strlit("host");
    reveal_strlit("application");
    reveal_strlit("connected_at");
    reveal_strlit("session_number");
    reveal_strlit("process");
    assert(mark("cluster"@) == code(7, 'c', 'r'));
    assert(mark("infobase"@) == code(8, 'i', 'e'));
    assert(mark("conn_id"@) == code(7, 'c', 'd'));
    assert(mark("host"@) == code(4, 'h', 't'));
    assert(mark("application"@) == code(11, 'a', 'n'));
    assert(mark("connected_at"@) == code(12, 'c', 't'));
    assert(mark("session_number"@) == code(14, 's', 'r'));
    assert(mark("process"@) == code(7, 'p', 's'));
}

proof fn lemma_process_columns()
    ensures
        forall|i: int|
            0 <= i < fields::default_columns_of(RecordKind::Process).len() ==> column_place(
                RecordKind::Process,
                mark((#[trigger] fields::default_columns_of(RecordKind::Process)[i])@),
            ) == i,
{
    reveal_strlit("cluster");
    reveal_strlit("ras_address");
    reveal_strlit("pid");
    reveal_strlit("started_at");
    reveal_strlit("connections");
    reveal_strlit("memory");
    reveal_strlit("on");
    reveal_strlit("running");
    reveal_strlit("use");
    assert(mark("cluster"@) == code(7, 'c', 'r'));
    assert(mark("ras_address"@) == code(11, 'r', 's'));
    assert(mark("pid"@) == code(3, 'p', 'd'));
    assert(mark("started_at"@) == code(10, 's', 't'));
    assert(mark("connections"@) == code(11, 'c', 's'));
    assert(mark("memory"@) == code(6, 'm', 'y'));
    assert(mark("on"@) == code(2, 'o', 'n'));
    assert(mark("running"@) == code(7, 'r', 'g'));
    assert(mark("use"@) == code(3, 'u', 'e'));
}

proof fn lemma_default_columns(kind: RecordKind)
    ensures
        query::names(fields::default_columns_of(kind)).no_duplicates(),
{
    match kind {
        RecordKind::Infobase => lemma_infobase_columns(),
        RecordKind::Session => lemma_session_columns(),
        RecordKind::Connection => lemma_connection_columns(),
        RecordKind::Process => lemma_process_columns(),
    }
    let columns = fields::default_columns_of(kind);
    let shown = query::names(columns);
    assert forall|i: int, j: int| 0 <= i < shown.len() && 0 <= j < shown.len() && i != j implies
        shown[i] != shown[j] by {
        assert(shown[i] == columns[i]@ && shown[j] == columns[j]@);
        assert(column_place(kind, mark(columns[i]@)) == i);
        assert(column_place(kind, mark(columns[j]@)) == j);
    }
}

/// The names of definitions, in their order.
pub open spec fn names_of(definitions: Seq<FieldDefinition>) -> Seq<Seq<char>> {
    definitions.map_values(|definition: FieldDefinition| definition.name@)
}

proof fn lemma_distinct_names(definitions: Seq<FieldDefinition>, count: int)
    requires
        0 <= count <= definitions.len(),
        forall|i: int, j: int|
            #![trigger definitions[i], definitions[j]]
            0 <= i < j < definitions.len() ==> definitions[i].name@ != definitions[j].name@,
    ensures
        query::distinct_names(definitions, count) == names_of(definitions).take(count),
    decreases count,
{
    let all = names_of(definitions);
    if count > 0 {
        lemma_distinct_names(definitions, count - 1);
        let before = all.take(count - 1);
        let name = definitions[count - 1].name@;
        if before.contains(name) {
            let i = choose|i: int| 0 <= i < before.len() && before[i] == name;
            assert(definitions[i].name@ == name);
        }
        assert(all.take(count) =~= before.push(name));
    } else {
        assert(all.take(0) =~= Seq::<Seq<char>>::empty());
    }
}

proof fn lemma_chosen_columns(
    kind: RecordKind,
    input: Seq<char>,
    parts: Seq<Seq<char>>,
    count: int,
)
    ensures
        query::chosen_columns(kind, input, parts, count) is Ok ==> query::chosen_columns(
            kind,
            input,
            parts,
            count,
        )->Ok_0.no_duplicates(),
    decreases count,
{
    if count > 0 {
        lemma_chosen_columns(kind, input, parts, count - 1);
        match query::chosen_columns(kind, input, parts, count - 1) {
            Ok(before) => match fields::definition_of(kind, text::trim(parts[count - 1])) {
                Ok(definition) => {
                    let after = before.push(definition.name@);
                    if !before.contains(definition.name@) {
                        assert(after.no_duplicates());
                    }
                },
                Err(_) => {},
            },
            Err(_) => {},
        }
    }
}

/// A projection is of all columns exactly where `*` is asked for, and then shows every field of the
/// kind in the order of the table; where nothing is asked for, it shows the usual columns. No column is
/// ever shown twice.
pub proof fn law_columns_never_repeat(
    input: Option<Seq<char>>,
    kind: RecordKind,
    projection: ProjectionView,
)
    requires
        query::projection_of(input, kind) == Ok::<
            ProjectionView,
            DomainErrorView,
        >(projection),
    ensures
        projection.all <==> input == Some("*"@),
        projection.all ==> projection.columns == names_of(query::fields_of(kind)),
        input is None ==> projection.columns == query::names(fields::default_columns_of(kind)),
        projection.columns.no_duplicates(),
{
    match input {
        None => lemma_default_columns(kind),
        Some(list) => if list == "*"@ {
            let definitions = query::fields_of(kind);
            let count = definitions.len() as int;
            law_field_names_are_distinct(kind);
            lemma_distinct_names(definitions, count);
            assert(names_of(definitions).take(count) =~= names_of(definitions));
            assert forall|i: int, j: int|
                0 <= i < count && 0 <= j < count && i != j implies names_of(definitions)[i]
                != names_of(definitions)[j] by {
                assert(definitions[i].name@ == names_of(definitions)[i]);
                assert(definitions[j].name@ == names_of(definitions)[j]);
            }
        } else {
            let parts = text::split(list, ',');
            lemma_chosen_columns(kind, list, parts, parts.len() as int);
        },
    }
}

} // verus!
