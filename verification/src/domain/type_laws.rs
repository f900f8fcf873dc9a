//! The table of fields agrees with the records: what a record holds under a name is of the type that the
//! table gives to that name.

use vstd::prelude::*;
use vstd::string::*;

use crate::domain::field_value::ValueView;
use crate::domain::fields;
use crate::domain::fields::FieldDefinition;
use crate::domain::model::{
    ConnectionRecord, FieldAccess, InfobaseRecord, ProcessRecord, RecordKind, SessionRecord,
};
use crate::domain::record_laws;

verus! {

/// A value fits a field: it is there, and is null or of the type of the field.
pub open spec fn fits<R: FieldAccess>(record: R, definition: FieldDefinition) -> bool {
    match record.field_view(definition.name@) {
        None => false,
        Some(ValueView::Null) => true,
        Some(value) => value.field_type() == Some(definition.field_type),
    }
}

proof fn lemma_session_source_fields(record: SessionRecord, i: int)
    requires
        0 <= i < fields::source_fields().len(),
        fields::source_fields()[i].in_scope(RecordKind::Session),
    ensures
        fits(record, fields::source_fields()[i]),
{
    record_laws::law_session_fields_are_told(record);
    record_laws::law_session_source_is_told(record);
    let all = fields::source_fields();
    assert(fits(record, all[0]));
    assert(fits(record, all[1]));
    assert(fits(record, all[2]));
    assert(fits(record, all[3]));
    assert(fits(record, all[4]));
    assert(fits(record, all[5]));
}

proof fn lemma_session_session_fields(record: SessionRecord, i: int)
    requires
        0 <= i < fields::session_fields().len(),
        fields::session_fields()[i].in_scope(RecordKind::Session),
    ensures
        fits(record, fields::session_fields()[i]),
{
    record_laws::law_session_fields_are_told(record);
    let all = fields::session_fields();
    assert(fits(record, all[0]));
    assert(fits(record, all[1]));
    assert(fits(record, all[2]));
    assert(fits(record, all[3]));
    assert(fits(record, all[4]));
    assert(fits(record, all[5]));
    assert(fits(record, all[6]));
    assert(fits(record, all[7]));
    assert(fits(record, all[8]));
    assert(fits(record, all[9]));
    assert(fits(record, all[10]));
    assert(fits(record, all[11]));
    assert(fits(record, all[12]));
    assert(fits(record, all[13]));
    assert(fits(record, all[14]));
}

proof fn lemma_session_traffic_fields(record: SessionRecord, i: int)
    requires
        0 <= i < fields::traffic_fields().len(),
        fields::traffic_fields()[i].in_scope(RecordKind::Session),
    ensures
        fits(record, fields::traffic_fields()[i]),
{
    record_laws::law_session_fields_are_told(record);
    let all = fields::traffic_fields();
    assert(fits(record, all[0]));
    assert(fits(record, all[1]));
    assert(fits(record, all[2]));
    assert(fits(record, all[3]));
    assert(fits(record, all[4]));
    assert(fits(record, all[5]));
    assert(fits(record, all[6]));
    assert(fits(record, all[7]));
    assert(fits(record, all[8]));
    assert(fits(record, all[9]));
    assert(fits(record, all[10]));
    assert(fits(record, all[11]));
    assert(fits(record, all[12]));
    assert(fits(record, all[13]));
    assert(fits(record, all[14]));
}

proof fn lemma_session_resource_fields(record: SessionRecord, i: int)
    requires
        0 <= i < fields::resource_fields().len(),
        fields::resource_fields()[i].in_scope(RecordKind::Session),
    ensures
        fits(record, fields::resource_fields()[i]),
{
    record_laws::law_session_fields_are_told(record);
    let all = fields::resource_fields();
    assert(fits(record, all[0]));
    assert(fits(record, all[1]));
    assert(fits(record, all[2]));
    assert(fits(record, all[3]));
    assert(fits(record, all[4]));
    assert(fits(record, all[5]));
    assert(fits(record, all[6]));
    assert(fits(record, all[7]));
    assert(fits(record, all[8]));
    assert(fits(record, all[9]));
    assert(fits(record, all[10]));
    assert(fits(record, all[11]));
    assert(fits(record, all[12]));
    assert(fits(record, all[13]));
    assert(fits(record, all[14]));
    assert(fits(record, all[15]));
    assert(fits(record, all[16]));
    assert(fits(record, all[17]));
}

/// Every field that the table gives to a session is there, and is null or of the type of the table.
pub proof fn law_session_values_fit_the_table(record: SessionRecord, i: int)
    requires
        0 <= i < fields::field_table().len(),
        fields::field_table()[i].in_scope(RecordKind::Session),
    ensures
        fits(record, fields::field_table()[i]),
{
    let table = fields::field_table();
    if i < 7 {
        assert(table[i] == fields::source_fields()[i]);
        lemma_session_source_fields(record, i);
    } else if i < 22 {
        assert(table[i] == fields::session_fields()[i - 7]);
        lemma_session_session_fields(record, i - 7);
    } else if i < 37 {
        assert(table[i] == fields::traffic_fields()[i - 22]);
        lemma_session_traffic_fields(record, i - 22);
    } else if i < 55 {
        assert(table[i] == fields::resource_fields()[i - 37]);
        lemma_session_resource_fields(record, i - 37);
    } else {
        assert(table[i] == fields::other_fields()[i - 55]);
    }
}

proof fn lemma_connection_source_fields(record: ConnectionRecord, i: int)
    requires
        0 <= i < fields::source_fields().len(),
        fields::source_fields()[i].in_scope(RecordKind::Connection),
    ensures
        fits(record, fields::source_fields()[i]),
{
    record_laws::law_connection_fields_are_told(record);
    record_laws::law_connection_source_is_told(record);
    let all = fields::source_fields();
    assert(fits(record, all[0]));
    assert(fits(record, all[1]));
    assert(fits(record, all[2]));
    assert(fits(record, all[3]));
    assert(fits(record, all[4]));
    assert(fits(record, all[5]));
}

proof fn lemma_connection_other_fields(record: ConnectionRecord, i: int)
    requires
        0 <= i < fields::other_fields().len(),
        fields::other_fields()[i].in_scope(RecordKind::Connection),
    ensures
        fits(record, fields::other_fields()[i]),
{
    record_laws::law_connection_fields_are_told(record);
    let all = fields::other_fields();
    assert(fits(record, all[0]));
    assert(fits(record, all[1]));
    assert(fits(record, all[2]));
    assert(fits(record, all[3]));
    assert(fits(record, all[4]));
    assert(fits(record, all[5]));
    assert(fits(record, all[6]));
    assert(fits(record, all[7]));
}

/// Every field that the table gives to a connection is there, and is null or of the type of the table.
pub proof fn law_connection_values_fit_the_table(record: ConnectionRecord, i: int)
    requires
        0 <= i < fields::field_table().len(),
        fields::field_table()[i].in_scope(RecordKind::Connection),
    ensures
        fits(record, fields::field_table()[i]),
{
    let table = fields::field_table();
    if i < 7 {
        assert(table[i] == fields::source_fields()[i]);
        lemma_connection_source_fields(record, i);
    } else if i < 22 {
        assert(table[i] == fields::session_fields()[i - 7]);
    } else if i < 37 {
        assert(table[i] == fields::traffic_fields()[i - 22]);
    } else if i < 55 {
        assert(table[i] == fields::resource_fields()[i - 37]);
    } else {
        assert(table[i] == fields::other_fields()[i - 55]);
        lemma_connection_other_fields(record, i - 55);
    }
}

proof fn lemma_process_source_fields(record: ProcessRecord, i: int)
    requires
        0 <= i < fields::source_fields().len(),
        fields::source_fields()[i].in_scope(RecordKind::Process),
    ensures
        fits(record, fields::source_fields()[i]),
{
    record_laws::law_process_fields_are_told(record);
    record_laws::law_process_source_is_told(record);
    let all = fields::source_fields();
    assert(fits(record, all[0]));
    assert(fits(record, all[1]));
    assert(fits(record, all[2]));
    assert(fits(record, all[3]));
}

proof fn lemma_process_other_fields(record: ProcessRecord, i: int)
    requires
        0 <= i < fields::other_fields().len(),
        fields::other_fields()[i].in_scope(RecordKind::Process),
    ensures
        fits(record, fields::other_fields()[i]),
{
    record_laws::law_process_fields_are_told(record);
    let all = fields::other_fields();
    assert(fits(record, all[8]));
    assert(fits(record, all[9]));
    assert(fits(record, all[10]));
    assert(fits(record, all[11]));
}

/// Every field that the table gives to a working process is there, and is null or of the type of the table.
pub proof fn law_process_values_fit_the_table(record: ProcessRecord, i: int)
    requires
        0 <= i < fields::field_table().len(),
        fields::field_table()[i].in_scope(RecordKind::Process),
    ensures
        fits(record, fields::field_table()[i]),
{
    let table = fields::field_table();
    if i < 7 {
        assert(table[i] == fields::source_fields()[i]);
        lemma_process_source_fields(record, i);
    } else if i < 22 {
        assert(table[i] == fields::session_fields()[i - 7]);
    } else if i < 37 {
        assert(table[i] == fields::traffic_fields()[i - 22]);
    } else if i < 55 {
        assert(table[i] == fields::resource_fields()[i - 37]);
    } else {
        assert(table[i] == fields::other_fields()[i - 55]);
        lemma_process_other_fields(record, i - 55);
    }
}

proof fn lemma_infobase_source_fields(record: InfobaseRecord, i: int)
    requires
        0 <= i < fields::source_fields().len(),
        fields::source_fields()[i].in_scope(RecordKind::Infobase),
    ensures
        fits(record, fields::source_fields()[i]),
{
    record_laws::law_infobase_fields_are_told(record);
    record_laws::law_infobase_source_is_told(record);
    let all = fields::source_fields();
    assert(fits(record, all[0]));
    assert(fits(record, all[1]));
    assert(fits(record, all[2]));
    assert(fits(record, all[3]));
    assert(fits(record, all[4]));
    assert(fits(record, all[5]));
    assert(fits(record, all[6]));
}

/// Every field that the table gives to an infobase is there, and is null or of the type of the table.
pub proof fn law_infobase_values_fit_the_table(record: InfobaseRecord, i: int)
    requires
        0 <= i < fields::field_table().len(),
        fields::field_table()[i].in_scope(RecordKind::Infobase),
    ensures
        fits(record, fields::field_table()[i]),
{
    let table = fields::field_table();
    if i < 7 {
        assert(table[i] == fields::source_fields()[i]);
        lemma_infobase_source_fields(record, i);
    } else if i < 22 {
        assert(table[i] == fields::session_fields()[i - 7]);
    } else if i < 37 {
        assert(table[i] == fields::traffic_fields()[i - 22]);
    } else if i < 55 {
        assert(table[i] == fields::resource_fields()[i - 37]);
    } else {
        assert(table[i] == fields::other_fields()[i - 55]);
    }
}

} // verus!
