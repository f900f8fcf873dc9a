//! What filters accept, told by the values themselves.

use vstd::prelude::*;
use vstd::string::*;

use crate::domain::error::DomainErrorView;
use crate::domain::field_value::{FieldType, ValueView};
use crate::domain::fields;
use crate::domain::fields::{FieldDefinition, FilterOperator};
use crate::domain::identity;
use crate::domain::mask;
use crate::domain::model::{FieldAccess, RecordKind};
use crate::domain::query;
use crate::domain::query::{Filter, FilterView, OperandView};
use crate::domain::timestamp;
use crate::domain::timestamp::Timestamp;
use crate::number;
use crate::order;
use crate::text;

verus! {

/// A filter on an integer accepts exactly the records whose integer stands to the operand as the
/// operator says: greater, not less, less, not greater, equal or not equal.
pub proof fn law_filters_compare_integers<R: FieldAccess>(
    filter: Filter,
    record: R,
    result: bool,
    operand: i64,
    value: i64,
)
    requires
        call_ensures(Filter::matches::<R>, (&filter, &record), result),
        filter@.operand == OperandView::Scalar(ValueView::Int(operand)),
        record.field_view(filter@.field@) == Some(ValueView::Int(value)),
    ensures
        filter@.operator == FilterOperator::Gt ==> result == (value > operand),
        filter@.operator == FilterOperator::Ge ==> result == (value >= operand),
        filter@.operator == FilterOperator::Lt ==> result == (value < operand),
        filter@.operator == FilterOperator::Le ==> result == (value <= operand),
        filter@.operator == FilterOperator::Eq ==> result == (value == operand),
        filter@.operator == FilterOperator::Ne ==> result == (value != operand),
{
}

/// Whether an instant is before another, whatever the offsets they are written in.
pub open spec fn is_before(left: Timestamp, right: Timestamp) -> bool {
    left.seconds < right.seconds || (left.seconds == right.seconds && left.nanos < right.nanos)
}

/// A filter on a time accepts exactly the records whose time is before, at or after the operand as the
/// operator says; the offsets in which they are written do not matter.
pub proof fn law_filters_compare_times<R: FieldAccess>(
    filter: Filter,
    record: R,
    result: bool,
    operand: Timestamp,
    value: Timestamp,
)
    requires
        call_ensures(Filter::matches::<R>, (&filter, &record), result),
        filter@.operand == OperandView::Scalar(ValueView::DateTime(operand)),
        record.field_view(filter@.field@) == Some(ValueView::DateTime(value)),
    ensures
        filter@.operator == FilterOperator::Gt ==> result == is_before(operand, value),
        filter@.operator == FilterOperator::Ge ==> result == !is_before(value, operand),
        filter@.operator == FilterOperator::Lt ==> result == is_before(value, operand),
        filter@.operator == FilterOperator::Le ==> result == !is_before(operand, value),
        filter@.operator == FilterOperator::Eq ==> result == (value.seconds == operand.seconds
            && value.nanos == operand.nanos),
        filter@.operator == FilterOperator::Ne ==> result == (value.seconds != operand.seconds
            || value.nanos != operand.nanos),
{
}

/// A filter on a text compares without regard to case: it takes two texts for equal exactly where they
/// are the same in lower case.
pub proof fn law_filters_compare_texts<R: FieldAccess>(
    filter: Filter,
    record: R,
    result: bool,
    operand: Seq<char>,
    value: Seq<char>,
)
    requires
        call_ensures(Filter::matches::<R>, (&filter, &record), result),
        filter@.operand == OperandView::Scalar(ValueView::Str(operand)),
        record.field_view(filter@.field@) == Some(ValueView::Str(value)),
    ensures
        filter@.operator == FilterOperator::Eq ==> result == (text::lowercase(value)
            == text::lowercase(operand)),
        filter@.operator == FilterOperator::Ne ==> result == (text::lowercase(value)
            != text::lowercase(operand)),
{
}

/// A filter on an identity or on a truth value tells equal from different.
pub proof fn law_filters_compare_identities<R: FieldAccess>(
    filter: Filter,
    record: R,
    result: bool,
    id: u128,
    other: u128,
    truth: bool,
    another: bool,
)
    requires
        call_ensures(Filter::matches::<R>, (&filter, &record), result),
        (filter@.operand == OperandView::Scalar(ValueView::Uuid(id)) && record.field_view(
            filter@.field@,
        ) == Some(ValueView::Uuid(other))) || (filter@.operand == OperandView::Scalar(
            ValueView::Bool(truth),
        ) && record.field_view(filter@.field@) == Some(ValueView::Bool(another))),
    ensures
        filter@.operand == OperandView::Scalar(ValueView::Uuid(id)) ==> {
            &&& filter@.operator == FilterOperator::Eq ==> result == (id == other)
            &&& filter@.operator == FilterOperator::Ne ==> result == (id != other)
        },
        filter@.operand == OperandView::Scalar(ValueView::Bool(truth)) ==> {
            &&& filter@.operator == FilterOperator::Eq ==> result == (truth == another)
            &&& filter@.operator == FilterOperator::Ne ==> result == (truth != another)
        },
{
}

/// A filter never accepts a record without the field; a mask accepts exactly the texts that it covers,
/// and nothing that is no text.
pub proof fn law_filters_need_a_value<R: FieldAccess>(
    filter: Filter,
    record: R,
    result: bool,
    source: Seq<char>,
)
    requires
        call_ensures(Filter::matches::<R>, (&filter, &record), result),
    ensures
        record.field_view(filter@.field@) is None ==> !result,
        filter@.operand == OperandView::Mask(source) && filter@.operator == FilterOperator::Like ==> (
        match record.field_view(filter@.field@) {
            Some(ValueView::Str(value)) => result == mask::mask_matches(source, value),
            _ => !result,
        }),
        record.field_view(filter@.field@) == Some(ValueView::Null) && (filter@.operator
            == FilterOperator::Gt || filter@.operator == FilterOperator::Ge || filter@.operator
            == FilterOperator::Lt || filter@.operator == FilterOperator::Le) ==> !result,
{
}

/// Of a value of the operand's type, `gt` holds exactly where `le` does not, `lt` exactly where `ge`
/// does not, and `eq` exactly where `ne` does not; `ge` and `le` both hold exactly where `eq` does, and
/// `gt` and `lt` never both.
pub proof fn law_operators_are_opposites(filter: FilterView, operand: ValueView, value: ValueView)
    requires
        filter.operand == OperandView::Scalar(operand),
        operand.field_type() is Some,
        value.field_type() == operand.field_type(),
    ensures
        ({
            let holds = |operator: FilterOperator|
                query::accepts(FilterView { operator, ..filter }, Some(value));
            &&& holds(FilterOperator::Gt) == !holds(FilterOperator::Le)
            &&& holds(FilterOperator::Lt) == !holds(FilterOperator::Ge)
            &&& holds(FilterOperator::Eq) == !holds(FilterOperator::Ne)
            &&& holds(FilterOperator::Eq) == (holds(FilterOperator::Ge) && holds(FilterOperator::Le))
            &&& !(holds(FilterOperator::Gt) && holds(FilterOperator::Lt))
        }),
{
    match (operand, value) {
        (ValueView::Str(a), ValueView::Str(b)) => {
            order::lemma_compare_text_flips(text::lowercase(b), text::lowercase(a));
        },
        _ => {},
    }
}

/// A text comes before another where, in lower case, it is its beginning, or has the smaller character
/// at the first difference.
pub proof fn law_filters_order_texts(
    filter: FilterView,
    operand: Seq<char>,
    value: Seq<char>,
    at: int,
)
    requires
        filter.operand == OperandView::Scalar(ValueView::Str(operand)),
        0 <= at <= text::lowercase(value).len(),
        at < text::lowercase(operand).len(),
        text::lowercase(value).take(at) == text::lowercase(operand).take(at),
        at == text::lowercase(value).len() || text::lowercase(value)[at] < text::lowercase(
            operand,
        )[at],
    ensures
        filter.operator == FilterOperator::Lt ==> query::accepts(
            filter,
            Some(ValueView::Str(value)),
        ),
        filter.operator == FilterOperator::Gt ==> !query::accepts(
            filter,
            Some(ValueView::Str(value)),
        ),
{
    lemma_text_is_less(text::lowercase(value), text::lowercase(operand), at);
}

proof fn lemma_text_is_less(left: Seq<char>, right: Seq<char>, at: int)
    requires
        0 <= at <= left.len(),
        at < right.len(),
        left.take(at) == right.take(at),
        at == left.len() || left[at] < right[at],
    ensures
        order::compare_text(left, right) == order::Order::Less,
    decreases at,
{
    if at > 0 {
        assert(left[0] == left.take(at)[0]);
        assert(right[0] == right.take(at)[0]);
        assert(left.drop_first().take(at - 1) =~= left.take(at).drop_first());
        assert(right.drop_first().take(at - 1) =~= right.take(at).drop_first());
        lemma_text_is_less(left.drop_first(), right.drop_first(), at - 1);
    }
}

/// The seven operators by the names under which they are asked for.
pub open spec fn is_called(operator: FilterOperator, name: Seq<char>) -> bool {
    match operator {
        FilterOperator::Eq => name == "eq"@,
        FilterOperator::Ne => name == "ne"@,
        FilterOperator::Like => name == "like"@,
        FilterOperator::Gt => name == "gt"@,
        FilterOperator::Ge => name == "ge"@,
        FilterOperator::Lt => name == "lt"@,
        FilterOperator::Le => name == "le"@,
    }
}

proof fn lemma_operator_names(operator: FilterOperator, name: Seq<char>)
    requires
        is_called(operator, name),
    ensures
        fields::operator_of(name) == Ok::<FilterOperator, DomainErrorView>(operator),
        name.len() > 0,
        forall|i: int| 0 <= i < name.len() ==> name[i] != ':',
{
    reveal_strlit("eq");
    reveal_strlit("ne");
    reveal_strlit("like");
    reveal_strlit("gt");
    reveal_strlit("ge");
    reveal_strlit("lt");
    reveal_strlit("le");
    assert("eq"@[0] == 'e' && "ne"@[0] == 'n' && "gt"@[0] == 'g' && "ge"@[0] == 'g');
    assert("gt"@[1] == 't' && "ge"@[1] == 'e' && "lt"@[1] == 't' && "le"@[1] == 'e');
    assert("lt"@[0] == 'l' && "le"@[0] == 'l' && "eq"@[1] == 'q' && "ne"@[1] == 'e');
    assert("eq"@.len() == 2 && "ne"@.len() == 2 && "like"@.len() == 4);
    assert("gt"@.len() == 2 && "ge"@.len() == 2 && "lt"@.len() == 2 && "le"@.len() == 2);
}

/// The text of a condition.
pub open spec fn condition_text(field: Seq<char>, operator: Seq<char>, value: Seq<char>) -> Seq<
    char,
> {
    field + seq![':'] + operator + seq![':'] + value
}

proof fn lemma_condition_parts(field: Seq<char>, operator: Seq<char>, value: Seq<char>)
    requires
        forall|i: int| 0 <= i < field.len() ==> field[i] != ':',
        forall|i: int| 0 <= i < operator.len() ==> operator[i] != ':',
    ensures
        ({
            let input = condition_text(field, operator, value);
            let first = text::first_index(input, ':', 0);
            let second = text::first_index(input, ':', first + 1);
            &&& first == field.len()
            &&& second == field.len() + 1 + operator.len()
            &&& second < input.len()
            &&& input.take(first) == field
            &&& input.subrange(first + 1, second) == operator
            &&& input.skip(second + 1) == value
        }),
{
    let input = condition_text(field, operator, value);
    let n = field.len() as int;
    let m = n + 1 + operator.len();
    text::lemma_first_index(input, ':', 0);
    assert(input[n] == ':');
    assert forall|i: int| 0 <= i < n implies input[i] != ':' by {
        assert(input[i] == field[i]);
    }
    let first = text::first_index(input, ':', 0);
    assert(first == n);
    text::lemma_first_index(input, ':', n + 1);
    assert(input[m] == ':');
    assert forall|i: int| n + 1 <= i < m implies input[i] != ':' by {
        assert(input[i] == operator[i - n - 1]);
    }
    assert(text::first_index(input, ':', n + 1) == m);
    assert(input.take(n) =~= field);
    assert(input.subrange(n + 1, m) =~= operator);
    assert(input.skip(m + 1) =~= value);
}

/// A condition that is read is on the field that its text names, with the operator that its text names,
/// and on the value that its text holds.
pub proof fn law_filters_are_what_their_text_says(
    kind: RecordKind,
    field: Seq<char>,
    operator: FilterOperator,
    name: Seq<char>,
    value: Seq<char>,
    filter: FilterView,
)
    requires
        forall|i: int| 0 <= i < field.len() ==> field[i] != ':',
        is_called(operator, name),
        query::filter_of(condition_text(field, name, value), kind) == Ok::<
            FilterView,
            DomainErrorView,
        >(filter),
    ensures
        filter.kind == kind,
        filter.field@ == field,
        filter.operator == operator,
        operator == FilterOperator::Like ==> filter.operand is Mask,
        operator != FilterOperator::Like ==> filter.operand is Scalar,
        forall|number: i64|
            value == #[trigger] number::signed_decimal(number as int) && (filter.operand matches
                OperandView::Scalar(scalar) && scalar is Int) ==> filter.operand
                == OperandView::Scalar(ValueView::Int(number)),
        (filter.operand matches OperandView::Scalar(scalar) && scalar is Str) ==> filter.operand
            == OperandView::Scalar(ValueView::Str(value)),
{
    lemma_operator_names(operator, name);
    lemma_condition_parts(field, name, value);
    fields::law_definition_is_the_asked_one(kind, field);
    assert forall|number: i64|
        value == #[trigger] number::signed_decimal(number as int) && (filter.operand matches
            OperandView::Scalar(scalar) && scalar is Int) implies filter.operand
        == OperandView::Scalar(ValueView::Int(number)) by {
        number::lemma_signed_round_trip(number as int);
    }
}

/// A condition `field:operator:number` on an integer field is read, and accepts exactly the integers
/// that stand to the number as the operator says.
pub proof fn law_integer_conditions_mean_what_they_say(
    kind: RecordKind,
    definition: FieldDefinition,
    field: Seq<char>,
    operator: FilterOperator,
    name: Seq<char>,
    number: i64,
    value: i64,
)
    requires
        fields::definition_of(kind, field) == Ok::<FieldDefinition, DomainErrorView>(definition),
        definition.field_type == FieldType::Int,
        forall|i: int| 0 <= i < field.len() ==> field[i] != ':',
        field.len() > 0,
        is_called(operator, name),
        operator != FilterOperator::Like,
    ensures
        ({
            let input = condition_text(field, name, number::signed_decimal(number as int));
            &&& query::filter_of(input, kind) is Ok
            &&& query::accepts(query::filter_of(input, kind)->Ok_0, Some(ValueView::Int(value)))
                == (match operator {
                FilterOperator::Gt => value > number,
                FilterOperator::Ge => value >= number,
                FilterOperator::Lt => value < number,
                FilterOperator::Le => value <= number,
                FilterOperator::Ne => value != number,
                _ => value == number,
            })
        }),
{
    lemma_operator_names(operator, name);
    lemma_condition_parts(field, name, number::signed_decimal(number as int));
    number::lemma_signed_round_trip(number as int);
    fields::law_definition_is_the_asked_one(kind, field);
    lemma_integer_fields_are_ordered(kind, field, definition);
}

proof fn lemma_integer_fields_are_ordered(
    kind: RecordKind,
    field: Seq<char>,
    definition: FieldDefinition,
)
    requires
        fields::definition_of(kind, field) == Ok::<FieldDefinition, DomainErrorView>(definition),
        definition.field_type == FieldType::Int,
    ensures
        definition.takes(FilterOperator::Gt),
        definition.takes(FilterOperator::Ge),
        definition.takes(FilterOperator::Lt),
        definition.takes(FilterOperator::Le),
{
    let at = fields::definition_index(kind, field, 0);
    fields::lemma_definition_index(kind, field, 0);
    fields::law_operators_follow_types(at);
}

/// The value of a condition is what its text denotes in the type of the field: an identity, an integer in
/// digits, a moment in RFC 3339, true or false in letters of any ASCII case, or the text itself.
pub proof fn law_condition_values_are_what_their_text_says(value: Seq<char>, number: i64)
    ensures
        identity::uuid_of(value) is Some ==> query::scalar_of(value, FieldType::Uuid) == Some(
            ValueView::Uuid(identity::uuid_of(value)->0),
        ),
        identity::uuid_of(value) is None ==> query::scalar_of(value, FieldType::Uuid) is None,
        value == number::signed_decimal(number as int) ==> query::scalar_of(value, FieldType::Int)
            == Some(ValueView::Int(number)),
        text::lower(value) == text::lower("true"@) ==> query::scalar_of(value, FieldType::Bool)
            == Some(ValueView::Bool(true)),
        text::lower(value) == text::lower("false"@) ==> query::scalar_of(value, FieldType::Bool)
            == Some(ValueView::Bool(false)),
        text::lower(value) != text::lower("true"@) && text::lower(value) != text::lower("false"@)
            ==> query::scalar_of(value, FieldType::Bool) is None,
        timestamp::rfc3339_of(value) matches Some((seconds, nanos, offset)) ==> query::scalar_of(
            value,
            FieldType::DateTime,
        ) == Some(ValueView::DateTime(Timestamp { seconds, nanos, offset })),
        timestamp::rfc3339_of(value) is None ==> query::scalar_of(value, FieldType::DateTime) is None,
        query::scalar_of(value, FieldType::Str) == Some(ValueView::Str(value)),
{
    number::lemma_signed_round_trip(number as int);
    reveal_strlit("true");
    reveal_strlit("false");
    assert(text::lower("true"@).len() == 4);
    assert(text::lower("false"@).len() == 5);
}

/// A filter on a truth value accepts exactly the records whose value is the operand, or is not, as the
/// operator says.
pub proof fn law_filters_compare_truth_values<R: FieldAccess>(
    filter: Filter,
    record: R,
    operand: bool,
    value: bool,
    result: bool,
)
    requires
        call_ensures(Filter::matches::<R>, (&filter, &record), result),
        filter@.operand == OperandView::Scalar(ValueView::Bool(operand)),
        record.field_view(filter@.field@) == Some(ValueView::Bool(value)),
    ensures
        filter@.operator == FilterOperator::Eq ==> result == (value == operand),
        filter@.operator == FilterOperator::Ne ==> result == (value != operand),
{
}

} // verus!
