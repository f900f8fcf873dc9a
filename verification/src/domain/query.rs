//! Queries over records: filters, masks, sorting, limits and projections.

use std::str::FromStr;

use vstd::prelude::*;
use vstd::string::*;

use crate::domain::entries;
use crate::domain::error::{DomainError, DomainErrorView};
use crate::domain::field_value;
use crate::domain::field_value::{
    extra_at, extra_get, extra_insert, extra_len, new_extra, ExtraFields, FieldType, FieldValue,
    FieldValueRef, ValueView,
};
use crate::domain::fields;
use crate::domain::fields::{
    FieldDefinition, FieldRegistry, FilterOperator, SortDirection, SortKey,
};
use crate::domain::identity;
use crate::domain::identity::Uuid;
use crate::domain::mask;
use crate::domain::mask::SqlMask;
use crate::domain::model::{FieldAccess, RecordKind};
use crate::domain::outcome::{QueryOutcome, TargetError};
use crate::domain::timestamp;
use crate::domain::timestamp::Timestamp;
use crate::number;
use crate::order;
use crate::order::Order;
use crate::outcome;
use crate::text;

verus! {

/// What a filter compares with.
pub enum OperandView {
    Scalar(ValueView),
    Mask(Seq<char>),
}

pub struct FilterView {
    pub kind: RecordKind,
    pub field: &'static str,
    pub operator: FilterOperator,
    pub operand: OperandView,
}

enum FilterOperand {
    Scalar(FieldValue),
    Mask(SqlMask),
}

impl View for FilterOperand {
    type V = OperandView;

    closed spec fn view(&self) -> OperandView {
        match self {
            FilterOperand::Scalar(value) => OperandView::Scalar(value@),
            FilterOperand::Mask(mask) => OperandView::Mask(mask@),
        }
    }
}

impl Clone for FilterOperand {
    fn clone(&self) -> (result: Self)
        ensures
            result == *self,
    {
        match self {
            FilterOperand::Scalar(value) => FilterOperand::Scalar(value.clone()),
            FilterOperand::Mask(mask) => FilterOperand::Mask(mask.clone()),
        }
    }
}

/// A condition on one field.
pub struct Filter {
    kind: RecordKind,
    field: &'static str,
    operator: FilterOperator,
    operand: FilterOperand,
}

impl View for Filter {
    type V = FilterView;

    closed spec fn view(&self) -> FilterView {
        FilterView {
            kind: self.kind,
            field: self.field,
            operator: self.operator,
            operand: self.operand@,
        }
    }
}

impl Clone for Filter {
    fn clone(&self) -> (result: Self)
        ensures
            result == *self,
    {
        Filter {
            kind: self.kind,
            field: self.field,
            operator: self.operator,
            operand: self.operand.clone(),
        }
    }
}

/// Equality of values of one type; texts are compared without regard to case.
pub open spec fn values_equal(left: ValueView, right: ValueView) -> bool {
    match (left, right) {
        (ValueView::Uuid(left), ValueView::Uuid(right)) => left == right,
        (ValueView::Int(left), ValueView::Int(right)) => left == right,
        (ValueView::Bool(left), ValueView::Bool(right)) => left == right,
        (ValueView::DateTime(left), ValueView::DateTime(right)) => left.instant_order(right)
            == Order::Equal,
        (ValueView::Str(left), ValueView::Str(right)) => text::lowercase(left) == text::lowercase(
            right,
        ),
        (ValueView::Null, ValueView::Null) => true,
        _ => false,
    }
}

pub open spec fn bool_rank(value: bool) -> int {
    if value {
        1
    } else {
        0
    }
}

/// Order of values of one type; texts are compared without regard to case.
pub open spec fn compare_values(left: ValueView, right: ValueView) -> Option<Order> {
    match (left, right) {
        (ValueView::Uuid(left), ValueView::Uuid(right)) => Some(
            order::compare_int(left as int, right as int),
        ),
        (ValueView::Int(left), ValueView::Int(right)) => Some(
            order::compare_int(left as int, right as int),
        ),
        (ValueView::Bool(left), ValueView::Bool(right)) => Some(
            order::compare_int(bool_rank(left), bool_rank(right)),
        ),
        (ValueView::DateTime(left), ValueView::DateTime(right)) => Some(left.instant_order(right)),
        (ValueView::Str(left), ValueView::Str(right)) => Some(
            order::compare_text(text::lowercase(left), text::lowercase(right)),
        ),
        _ => None,
    }
}

/// Whether an order comparison holds.
pub open spec fn order_holds(operator: FilterOperator, found: Order) -> bool {
    match operator {
        FilterOperator::Gt => found == Order::Greater,
        FilterOperator::Ge => found != Order::Less,
        FilterOperator::Lt => found == Order::Less,
        FilterOperator::Le => found != Order::Greater,
        _ => false,
    }
}

/// Whether a filter accepts a record whose field has the given value.
pub open spec fn accepts(filter: FilterView, actual: Option<ValueView>) -> bool {
    match actual {
        None => false,
        Some(actual) => match filter.operand {
            OperandView::Mask(mask) => filter.operator == FilterOperator::Like && (
            actual matches ValueView::Str(value) && mask::mask_matches(mask, value)),
            OperandView::Scalar(expected) => match filter.operator {
                FilterOperator::Eq => values_equal(actual, expected),
                FilterOperator::Ne => !values_equal(actual, expected),
                operator => compare_values(actual, expected) matches Some(found) && order_holds(
                    operator,
                    found,
                ),
            },
        },
    }
}

fn values_match(left: FieldValueRef<'_>, right: FieldValueRef<'_>) -> (result: bool)
    ensures
        result == values_equal(left@, right@),
{
    match (left, right) {
        (FieldValueRef::Uuid(left), FieldValueRef::Uuid(right)) => left.as_u128() == right.as_u128(),
        (FieldValueRef::Int(left), FieldValueRef::Int(right)) => left == right,
        (FieldValueRef::Bool(left), FieldValueRef::Bool(right)) => left == right,
        (FieldValueRef::DateTime(left), FieldValueRef::DateTime(right)) => left.compare(right)
            == Order::Equal,
        (FieldValueRef::Str(left), FieldValueRef::Str(right)) => text::to_lowercase(left)
            == text::to_lowercase(right),
        (FieldValueRef::Null, FieldValueRef::Null) => true,
        _ => false,
    }
}

fn compare_non_null(left: FieldValueRef<'_>, right: FieldValueRef<'_>) -> (result: Option<Order>)
    ensures
        result == compare_values(left@, right@),
{
    match (left, right) {
        (FieldValueRef::Uuid(left), FieldValueRef::Uuid(right)) => Some(
            order::compare_u128(left.as_u128(), right.as_u128()),
        ),
        (FieldValueRef::Int(left), FieldValueRef::Int(right)) => Some(
            order::compare_i64(left, right),
        ),
        (FieldValueRef::Bool(left), FieldValueRef::Bool(right)) => Some(
            if left == right {
                Order::Equal
            } else if right {
                Order::Less
            } else {
                Order::Greater
            },
        ),
        (FieldValueRef::DateTime(left), FieldValueRef::DateTime(right)) => Some(left.compare(right)),
        (FieldValueRef::Str(left), FieldValueRef::Str(right)) => {
            let left = text::to_lowercase(left);
            let right = text::to_lowercase(right);
            Some(order::compare_texts(left.as_str(), right.as_str()))
        },
        _ => None,
    }
}

/// The value of a type that a text denotes.
pub open spec fn scalar_of(value: Seq<char>, field_type: FieldType) -> Option<ValueView> {
    match field_type {
        FieldType::Uuid => match identity::uuid_of(value) {
            Some(uuid) => Some(ValueView::Uuid(uuid)),
            None => None,
        },
        FieldType::Int => match number::signed(value) {
            Some(number) => Some(ValueView::Int(number as i64)),
            None => None,
        },
        FieldType::Bool => if text::same_ignoring_ascii_case(value, "true"@) {
            Some(ValueView::Bool(true))
        } else if text::same_ignoring_ascii_case(value, "false"@) {
            Some(ValueView::Bool(false))
        } else {
            None
        },
        FieldType::DateTime => match timestamp::moment(timestamp::rfc3339_of(value)) {
            Some(moment) => Some(ValueView::DateTime(moment)),
            None => None,
        },
        FieldType::Str => Some(ValueView::Str(value)),
    }
}

fn parse_value(value: &str, field_type: FieldType) -> (result: Option<FieldValue>)
    ensures
        outcome::option_view(result) == scalar_of(value@, field_type),
{
    match field_type {
        FieldType::Uuid => match Uuid::parse_str(value) {
            Some(uuid) => Some(FieldValue::Uuid(uuid)),
            None => None,
        },
        FieldType::Int => match number::parse_i64(value) {
            Some(number) => Some(FieldValue::Int(number)),
            None => None,
        },
        FieldType::Bool => if text::eq_ignore_ascii_case(value, "true") {
            Some(FieldValue::Bool(true))
        } else if text::eq_ignore_ascii_case(value, "false") {
            Some(FieldValue::Bool(false))
        } else {
            None
        },
        FieldType::DateTime => match Timestamp::parse_rfc3339(value) {
            Some(moment) => Some(FieldValue::DateTime(moment)),
            None => None,
        },
        FieldType::Str => Some(FieldValue::Str(value.to_owned())),
    }
}

/// The operand that a text denotes for an operator on a field.
pub open spec fn operand_of(
    value: Seq<char>,
    operator: FilterOperator,
    definition: FieldDefinition,
) -> Result<OperandView, DomainErrorView> {
    if operator == FilterOperator::Like {
        match mask::mask_of(value) {
            Ok(mask) => Ok(OperandView::Mask(mask)),
            Err(error) => Err(error),
        }
    } else {
        match scalar_of(value, definition.field_type) {
            Some(scalar) => Ok(OperandView::Scalar(scalar)),
            None => Err(
                DomainErrorView::InvalidFieldValue {
                    field: definition.name@,
                    expected: definition.field_type.text(),
                },
            ),
        }
    }
}

/// A filter in three parts: a field, an operator, and a value that may hold colons itself.
pub open spec fn filter_of(input: Seq<char>, kind: RecordKind) -> Result<FilterView, DomainErrorView> {
    let first = text::first_index(input, ':', 0);
    let second = text::first_index(input, ':', first + 1);
    let field = input.take(first);
    let operator = input.subrange(first + 1, second);
    let value = input.skip(second + 1);
    if first >= input.len() || second >= input.len() {
        Err(
            DomainErrorView::InvalidFilterSyntax {
                input,
                reason: "ожидается формат field:operator:value"@,
            },
        )
    } else if field.len() == 0 || operator.len() == 0 {
        Err(
            DomainErrorView::InvalidFilterSyntax {
                input,
                reason: "поле и оператор не могут быть пустыми"@,
            },
        )
    } else {
        match fields::operator_of(operator) {
            Err(error) => Err(error),
            Ok(operator) => match fields::operator_definition(kind, field, operator) {
                Err(error) => Err(error),
                Ok(definition) => match operand_of(value, operator, definition) {
                    Err(error) => Err(error),
                    Ok(operand) => Ok(
                        FilterView { kind, field: definition.name, operator, operand },
                    ),
                },
            },
        }
    }
}

/// The operand made of a value for an operator on a field, or why it does not fit.
pub open spec fn typed_operand(
    value: ValueView,
    operator: FilterOperator,
    field: Seq<char>,
    definition: FieldDefinition,
) -> Result<OperandView, DomainErrorView> {
    if value != ValueView::Null && value.field_type() != Some(definition.field_type) {
        Err(
            DomainErrorView::InvalidFieldValue {
                field,
                expected: definition.field_type.text(),
            },
        )
    } else if operator == FilterOperator::Like {
        match value {
            ValueView::Str(mask) => match mask::mask_of(mask) {
                Ok(mask) => Ok(OperandView::Mask(mask)),
                Err(error) => Err(error),
            },
            _ => Err(
                DomainErrorView::InvalidFieldValue { field, expected: FieldType::Str.text() },
            ),
        }
    } else {
        Ok(OperandView::Scalar(value))
    }
}

/// A filter made of a value instead of a text.
pub open spec fn typed_filter(
    kind: RecordKind,
    field: Seq<char>,
    operator: FilterOperator,
    value: ValueView,
) -> Result<FilterView, DomainErrorView> {
    match fields::operator_definition(kind, field, operator) {
        Err(error) => Err(error),
        Ok(definition) => match typed_operand(value, operator, field, definition) {
            Err(error) => Err(error),
            Ok(operand) => Ok(FilterView { kind, field: definition.name, operator, operand }),
        },
    }
}

impl Filter {
    /// Reads `field:operator:value`.
    pub fn parse(input: &str, kind: RecordKind, registry: &FieldRegistry) -> (result: Result<
        Self,
        DomainError,
    >)
        ensures
            outcome::result_view(result) == filter_of(input@, kind),
    {
        let source = text::chars(input);
        let first: usize = text::find_char(&source, ':', 0);
        let second: usize = if first < source.len() {
            text::find_char(&source, ':', first + 1)
        } else {
            source.len()
        };
        if first >= source.len() || second >= source.len() {
            return Err(
                DomainError::InvalidFilterSyntax {
                    input: input.to_owned(),
                    reason: "ожидается формат field:operator:value",
                },
            );
        }
        let field = text::text_of(&source, 0, first);
        let operator = text::text_of(&source, first + 1, second);
        let value = text::text_of(&source, second + 1, source.len());
        assert(field@ =~= input@.take(first as int));
        assert(value@ =~= input@.skip(second + 1));
        if field.as_str().is_empty() || operator.as_str().is_empty() {
            return Err(
                DomainError::InvalidFilterSyntax {
                    input: input.to_owned(),
                    reason: "поле и оператор не могут быть пустыми",
                },
            );
        }
        let operator = match FilterOperator::parse(operator.as_str()) {
            Ok(operator) => operator,
            Err(error) => {
                return Err(error);
            },
        };
        let definition = match registry.validate_operator(kind, field.as_str(), operator) {
            Ok(definition) => definition,
            Err(error) => {
                return Err(error);
            },
        };
        let operand = if operator == FilterOperator::Like {
            match SqlMask::parse(value.as_str()) {
                Ok(mask) => FilterOperand::Mask(mask),
                Err(error) => {
                    return Err(error);
                },
            }
        } else {
            match parse_value(value.as_str(), definition.field_type) {
                Some(scalar) => FilterOperand::Scalar(scalar),
                None => {
                    return Err(
                        DomainError::InvalidFieldValue {
                            field: definition.name.to_owned(),
                            expected: definition.field_type.as_str(),
                        },
                    );
                },
            }
        };
        Ok(Filter { kind, field: definition.name, operator, operand })
    }

    /// Makes a filter of a typed value.
    pub fn from_value(
        kind: RecordKind,
        field: &str,
        operator: FilterOperator,
        value: FieldValue,
        registry: &FieldRegistry,
    ) -> (result: Result<Self, DomainError>)
        ensures
            outcome::result_view(result) == typed_filter(kind, field@, operator, value@),
    {
        let definition = match registry.validate_operator(kind, field, operator) {
            Ok(definition) => definition,
            Err(error) => {
                return Err(error);
            },
        };
        let fits = match value.field_type() {
            None => true,
            Some(field_type) => field_type == definition.field_type,
        };
        if !fits {
            return Err(
                DomainError::InvalidFieldValue {
                    field: field.to_owned(),
                    expected: definition.field_type.as_str(),
                },
            );
        }
        let operand = if operator == FilterOperator::Like {
            match value {
                FieldValue::Str(mask) => match SqlMask::parse(mask.as_str()) {
                    Ok(mask) => FilterOperand::Mask(mask),
                    Err(error) => {
                        return Err(error);
                    },
                },
                _ => {
                    return Err(
                        DomainError::InvalidFieldValue {
                            field: field.to_owned(),
                            expected: FieldType::Str.as_str(),
                        },
                    );
                },
            }
        } else {
            FilterOperand::Scalar(value)
        };
        Ok(Filter { kind, field: definition.name, operator, operand })
    }

    pub fn field(&self) -> (result: &'static str)
        ensures
            result == self@.field,
    {
        self.field
    }

    pub fn kind(&self) -> (result: RecordKind)
        ensures
            result == self@.kind,
    {
        self.kind
    }

    pub fn operator(&self) -> (result: FilterOperator)
        ensures
            result == self@.operator,
    {
        self.operator
    }

    /// Whether a record passes the filter.
    pub fn matches<R: FieldAccess>(&self, record: &R) -> (result: bool)
        ensures
            result == accepts(self@, record.field_view(self@.field@)),
    {
        let actual = match record.field(self.field) {
            Some(actual) => actual,
            None => {
                return false;
            },
        };
        match &self.operand {
            FilterOperand::Mask(mask) => {
                if self.operator == FilterOperator::Like {
                    match actual {
                        FieldValueRef::Str(value) => mask.matches(value),
                        _ => false,
                    }
                } else {
                    false
                }
            },
            FilterOperand::Scalar(expected) => {
                let expected = expected.as_ref();
                match self.operator {
                    FilterOperator::Eq => values_match(actual, expected),
                    FilterOperator::Ne => !values_match(actual, expected),
                    FilterOperator::Like => false,
                    FilterOperator::Gt => compare_non_null(actual, expected) == Some(Order::Greater),
                    FilterOperator::Lt => compare_non_null(actual, expected) == Some(Order::Less),
                    FilterOperator::Ge => match compare_non_null(actual, expected) {
                        Some(found) => found != Order::Less,
                        None => false,
                    },
                    FilterOperator::Le => match compare_non_null(actual, expected) {
                        Some(found) => found != Order::Greater,
                        None => false,
                    },
                }
            },
        }
    }
}

/// The texts of a list of field names.
pub open spec fn names(items: Seq<&'static str>) -> Seq<Seq<char>> {
    items.map_values(|item: &'static str| item@)
}

pub open spec fn texts(items: Seq<&str>) -> Seq<Seq<char>> {
    items.map_values(|item: &str| item@)
}

fn holds_name(items: &Vec<&'static str>, name: &str) -> (result: bool)
    ensures
        result == names(items@).contains(name@),
{
    let mut i: usize = 0;
    while i < items.len()
        invariant
            i <= items@.len(),
            forall|j: int| 0 <= j < i ==> (#[trigger] names(items@)[j]) != name@,
        decreases items.len() - i,
    {
        assert(names(items@)[i as int] == items@[i as int]@);
        if text::same(items[i], name) {
            assert(names(items@).contains(names(items@)[i as int]));
            return true;
        }
        i = i + 1;
    }
    false
}

pub struct TextQueryView {
    pub mask: Seq<char>,
    pub fields: Seq<Seq<char>>,
}

/// The first `count` text fields asked for, each once.
pub open spec fn text_fields(kind: RecordKind, asked: Seq<Seq<char>>, count: int) -> Result<
    Seq<Seq<char>>,
    DomainErrorView,
>
    decreases count,
{
    if count <= 0 {
        Ok(Seq::empty())
    } else {
        match text_fields(kind, asked, count - 1) {
            Err(error) => Err(error),
            Ok(before) => match fields::definition_of(kind, asked[count - 1]) {
                Err(error) => Err(error),
                Ok(definition) => if definition.field_type != FieldType::Str {
                    Err(
                        DomainErrorView::InvalidFieldValue {
                            field: asked[count - 1],
                            expected: FieldType::Str.text(),
                        },
                    )
                } else if before.contains(definition.name@) {
                    Ok(before)
                } else {
                    Ok(before.push(definition.name@))
                },
            },
        }
    }
}

/// A text query over the given fields.
pub open spec fn text_query_of(kind: RecordKind, input: Seq<char>, asked: Seq<Seq<char>>) -> Result<
    TextQueryView,
    DomainErrorView,
> {
    match text_fields(kind, asked, asked.len() as int) {
        Err(error) => Err(error),
        Ok(fields) => if fields.len() == 0 {
            Err(
                DomainErrorView::InvalidProjection {
                    input: Seq::empty(),
                    reason: "для текстового запроса требуется хотя бы одно строковое поле"@,
                },
            )
        } else {
            match mask::mask_of(input) {
                Err(error) => Err(error),
                Ok(mask) => Ok(TextQueryView { mask, fields }),
            }
        },
    }
}

/// The fields that a text query looks at.
pub open spec fn searched_fields(kind: RecordKind) -> Seq<Seq<char>> {
    match kind {
        RecordKind::Infobase => seq!["infobase"@],
        RecordKind::Session => seq!["user_name"@, "host"@],
        RecordKind::Connection => seq!["host"@, "application"@],
        RecordKind::Process => Seq::empty(),
    }
}

/// Whether one of the fields of a record is a text that the mask covers.
pub open spec fn finds<R: FieldAccess>(query: TextQueryView, record: R) -> bool {
    exists|i: int|
        0 <= i < query.fields.len() && (record.field_view(#[trigger] query.fields[i]) matches Some(
            ValueView::Str(value),
        ) && mask::mask_matches(query.mask, value))
}

/// A mask searched for in several fields.
pub struct TextQuery {
    mask: SqlMask,
    fields: Vec<&'static str>,
}

impl View for TextQuery {
    type V = TextQueryView;

    closed spec fn view(&self) -> TextQueryView {
        TextQueryView { mask: self.mask@, fields: names(self.fields@) }
    }
}

impl TextQuery {
    /// The usual text query for a kind of records.
    pub fn for_kind(kind: RecordKind, input: &str, registry: &FieldRegistry) -> (result: Result<
        Self,
        DomainError,
    >)
        ensures
            outcome::result_view(result) == text_query_of(kind, input@, searched_fields(kind)),
    {
        let mut asked: Vec<&str> = Vec::new();
        match kind {
            RecordKind::Infobase => {
                asked.push("infobase");
            },
            RecordKind::Session => {
                asked.push("user_name");
                asked.push("host");
            },
            RecordKind::Connection => {
                asked.push("host");
                asked.push("application");
            },
            RecordKind::Process => {},
        }
        assert(texts(asked@) =~= searched_fields(kind));
        TextQuery::new(kind, input, asked.as_slice(), registry)
    }

    pub fn new(kind: RecordKind, input: &str, asked: &[&str], registry: &FieldRegistry) -> (result:
        Result<Self, DomainError>)
        ensures
            outcome::result_view(result) == text_query_of(kind, input@, texts(asked@)),
    {
        let mut validated: Vec<&'static str> = Vec::new();
        let ghost wanted = texts(asked@);
        let mut i: usize = 0;
        assert(names(validated@) =~= Seq::<Seq<char>>::empty());
        while i < asked.len()
            invariant
                wanted == texts(asked@),
                i <= asked@.len(),
                text_fields(kind, wanted, i as int) == Ok::<_, DomainErrorView>(names(validated@)),
            decreases asked.len() - i,
        {
            assert(wanted[i as int] == asked@[i as int]@);
            let definition = match registry.definition(kind, asked[i]) {
                Ok(definition) => definition,
                Err(error) => {
                    proof {
                        lemma_text_fields_fail(kind, wanted, i + 1, wanted.len() as int);
                    }
                    return Err(error);
                },
            };
            if definition.field_type != FieldType::Str {
                proof {
                    lemma_text_fields_fail(kind, wanted, i + 1, wanted.len() as int);
                }
                return Err(
                    DomainError::InvalidFieldValue {
                        field: asked[i].to_owned(),
                        expected: FieldType::Str.as_str(),
                    },
                );
            }
            if !holds_name(&validated, definition.name) {
                let ghost before = names(validated@);
                validated.push(definition.name);
                assert(names(validated@) =~= before.push(definition.name@));
            }
            i = i + 1;
        }
        if validated.len() == 0 {
            return Err(
                DomainError::InvalidProjection {
                    input: String::new(),
                    reason: "для текстового запроса требуется хотя бы одно строковое поле",
                },
            );
        }
        assert(names(validated@).len() > 0);
        match SqlMask::parse(input) {
            Ok(mask) => Ok(TextQuery { mask, fields: validated }),
            Err(error) => Err(error),
        }
    }

    /// Whether one of the fields of a record matches.
    pub fn matches<R: FieldAccess>(&self, record: &R) -> (result: bool)
        ensures
            result == finds(self@, *record),
    {
        let ghost view = self@;
        let mut i: usize = 0;
        while i < self.fields.len()
            invariant
                view == self@,
                view.fields == names(self.fields@),
                view.mask == self.mask@,
                i <= self.fields@.len(),
                forall|j: int|
                    0 <= j < i ==> !(record.field_view(#[trigger] view.fields[j]) matches Some(
                        ValueView::Str(value),
                    ) && mask::mask_matches(view.mask, value)),
            decreases self.fields.len() - i,
        {
            assert(view.fields[i as int] == self.fields@[i as int]@);
            if let Some(FieldValueRef::Str(value)) = record.field(self.fields[i]) {
                if self.mask.matches(value) {
                    return true;
                }
            }
            i = i + 1;
        }
        false
    }

    pub fn fields(&self) -> (result: &Vec<&'static str>)
        ensures
            names(result@) == self@.fields,
    {
        &self.fields
    }

    pub fn mask(&self) -> (result: &SqlMask)
        ensures
            result@ == self@.mask,
    {
        &self.mask
    }
}

proof fn lemma_text_fields_fail(kind: RecordKind, asked: Seq<Seq<char>>, from: int, to: int)
    requires
        0 <= from <= to,
        text_fields(kind, asked, from) is Err,
    ensures
        text_fields(kind, asked, to) == text_fields(kind, asked, from),
    decreases to - from,
{
    if from < to {
        lemma_text_fields_fail(kind, asked, from, to - 1);
    }
}

impl Clone for TextQuery {
    fn clone(&self) -> (result: Self)
        ensures
            result@ == self@,
    {
        TextQuery { mask: self.mask.clone(), fields: copy_names(&self.fields) }
    }
}

fn copy_names(items: &Vec<&'static str>) -> (result: Vec<&'static str>)
    ensures
        result@ == items@,
{
    let mut result: Vec<&'static str> = Vec::new();
    let mut i: usize = 0;
    while i < items.len()
        invariant
            i <= items@.len(),
            result@ == items@.take(i as int),
        decreases items.len() - i,
    {
        result.push(items[i]);
        assert(result@ =~= items@.take(i + 1));
        i = i + 1;
    }
    assert(result@ =~= items@);
    result
}

/// A positive limit on the number of records.
#[derive(Clone, Copy, Debug, PartialEq, Eq, Hash, Structural)]
pub struct Top {
    value: usize,
}

impl View for Top {
    type V = usize;

    closed spec fn view(&self) -> usize {
        self.value
    }
}

/// The limit that a text of digits denotes.
pub open spec fn top_of(value: Seq<char>) -> Result<usize, DomainErrorView> {
    match number::natural(value) {
        Some(number) if 0 < number <= usize::MAX => Ok(number as usize),
        _ => Err(DomainErrorView::InvalidTop { value }),
    }
}

impl Top {
    #[verifier::type_invariant]
    spec fn well_formed(self) -> bool {
        self.value > 0
    }

    pub fn new(value: usize) -> (result: Result<Self, DomainError>)
        ensures
            outcome::result_view(result) == (if value > 0 {
                Ok(value)
            } else {
                Err(DomainErrorView::InvalidTop { value: number::decimal(value as nat) })
            }),
    {
        if value > 0 {
            Ok(Top { value })
        } else {
            Err(DomainError::InvalidTop { value: number::format_u64(value as u64) })
        }
    }

    pub fn get(self) -> (result: usize)
        ensures
            result == self@,
            result > 0,
    {
        proof {
            use_type_invariant(&self);
        }
        self.value
    }

    /// Reads a positive number.
    pub fn parse(value: &str) -> (result: Result<Self, DomainError>)
        ensures
            outcome::result_view(result) == top_of(value@),
    {
        let source = text::chars(value);
        assert(value@.subrange(0, value@.len() as int) =~= value@);
        match number::parse_natural(&source, 0, usize::MAX as u64) {
            Some(number) if number > 0 => Ok(Top { value: number as usize }),
            _ => Err(DomainError::InvalidTop { value: value.to_owned() }),
        }
    }
}

impl FromStr for Top {
    type Err = DomainError;

    fn from_str(value: &str) -> (result: Result<Self, DomainError>)
        ensures
            outcome::result_view(result) == top_of(value@),
    {
        Top::parse(value)
    }
}

pub struct ProjectionView {
    pub columns: Seq<Seq<char>>,
    pub all: bool,
}

/// The names of the first `count` definitions, each once.
pub open spec fn distinct_names(definitions: Seq<FieldDefinition>, count: int) -> Seq<Seq<char>>
    decreases count,
{
    if count <= 0 {
        Seq::empty()
    } else {
        let before = distinct_names(definitions, count - 1);
        if before.contains(definitions[count - 1].name@) {
            before
        } else {
            before.push(definitions[count - 1].name@)
        }
    }
}

/// The fields that records of a kind have.
pub open spec fn fields_of(kind: RecordKind) -> Seq<FieldDefinition> {
    fields::field_table().filter(|definition: FieldDefinition| definition.in_scope(kind))
}

/// The first `count` columns asked for: canonical fields of the kind, none twice.
pub open spec fn chosen_columns(
    kind: RecordKind,
    input: Seq<char>,
    parts: Seq<Seq<char>>,
    count: int,
) -> Result<Seq<Seq<char>>, DomainErrorView>
    decreases count,
{
    if count <= 0 {
        Ok(Seq::empty())
    } else {
        let column = text::trim(parts[count - 1]);
        match chosen_columns(kind, input, parts, count - 1) {
            Err(error) => Err(error),
            Ok(before) => if column.len() == 0 || column == "*"@ {
                Err(
                    DomainErrorView::InvalidProjection {
                        input,
                        reason: "`*` разрешена только как единственное значение"@,
                    },
                )
            } else {
                match fields::definition_of(kind, column) {
                    Err(error) => Err(error),
                    Ok(definition) => if before.contains(definition.name@) {
                        Err(
                            DomainErrorView::InvalidProjection {
                                input,
                                reason: "колонки не должны повторяться"@,
                            },
                        )
                    } else {
                        Ok(before.push(definition.name@))
                    },
                }
            },
        }
    }
}

/// The projection that a list of columns denotes: the default one, `*`, or the columns named.
pub open spec fn projection_of(input: Option<Seq<char>>, kind: RecordKind) -> Result<
    ProjectionView,
    DomainErrorView,
> {
    match input {
        None => Ok(
            ProjectionView { columns: names(fields::default_columns_of(kind)), all: false },
        ),
        Some(input) => if input == "*"@ {
            Ok(
                ProjectionView {
                    columns: distinct_names(fields_of(kind), fields_of(kind).len() as int),
                    all: true,
                },
            )
        } else if input.len() == 0 {
            Err(
                DomainErrorView::InvalidProjection {
                    input,
                    reason: "список колонок не может быть пустым"@,
                },
            )
        } else {
            let parts = text::split(input, ',');
            match chosen_columns(kind, input, parts, parts.len() as int) {
                Err(error) => Err(error),
                Ok(columns) => Ok(ProjectionView { columns, all: false }),
            }
        },
    }
}

proof fn lemma_chosen_columns_fail(
    kind: RecordKind,
    input: Seq<char>,
    parts: Seq<Seq<char>>,
    from: int,
    to: int,
)
    requires
        0 <= from <= to,
        chosen_columns(kind, input, parts, from) is Err,
    ensures
        chosen_columns(kind, input, parts, to) == chosen_columns(kind, input, parts, from),
    decreases to - from,
{
    if from < to {
        lemma_chosen_columns_fail(kind, input, parts, from, to - 1);
    }
}

pub open spec fn or_null(value: Option<ValueView>) -> ValueView {
    match value {
        Some(value) => value,
        None => ValueView::Null,
    }
}

/// The first `count` columns of a record with their values; a field without a value is null.
pub open spec fn column_entries<R: FieldAccess>(columns: Seq<Seq<char>>, record: R, count: int) -> Seq<
    (Seq<char>, ValueView),
>
    decreases count,
{
    if count <= 0 {
        Seq::empty()
    } else {
        entries::inserted(
            column_entries(columns, record, count - 1),
            columns[count - 1],
            or_null(record.field_view(columns[count - 1])),
        )
    }
}

/// A row with those of the first `count` extra fields whose names it does not hold yet.
pub open spec fn with_extras(
    row: Seq<(Seq<char>, ValueView)>,
    extras: Seq<(Seq<char>, ValueView)>,
    count: int,
) -> Seq<(Seq<char>, ValueView)>
    decreases count,
{
    if count <= 0 {
        row
    } else {
        let before = with_extras(row, extras, count - 1);
        if entries::lookup(before, extras[count - 1].0) is Some {
            before
        } else {
            entries::inserted(before, extras[count - 1].0, extras[count - 1].1)
        }
    }
}

/// The row that a projection makes of a record.
pub open spec fn row_of<R: FieldAccess>(projection: ProjectionView, record: R) -> Seq<
    (Seq<char>, ValueView),
> {
    let row = column_entries(projection.columns, record, projection.columns.len() as int);
    if projection.all {
        with_extras(row, record.extras_view(), record.extras_view().len() as int)
    } else {
        row
    }
}

/// Columns with those of the first `count` extra names that are new.
pub open spec fn add_extra_names(
    columns: Seq<Seq<char>>,
    extras: Seq<(Seq<char>, ValueView)>,
    count: int,
) -> Seq<Seq<char>>
    decreases count,
{
    if count <= 0 {
        columns
    } else {
        let before = add_extra_names(columns, extras, count - 1);
        if before.contains(extras[count - 1].0) {
            before
        } else {
            before.push(extras[count - 1].0)
        }
    }
}

/// Columns with the new extra names of the first `count` records.
pub open spec fn add_record_names<R: FieldAccess>(
    columns: Seq<Seq<char>>,
    records: Seq<R>,
    count: int,
) -> Seq<Seq<char>>
    decreases count,
{
    if count <= 0 {
        columns
    } else {
        let extras = records[count - 1].extras_view();
        add_extra_names(
            add_record_names(columns, records, count - 1),
            extras,
            extras.len() as int,
        )
    }
}

/// The columns of a table of records: those of the projection, then unknown names as they come.
pub open spec fn table_columns<R: FieldAccess>(projection: ProjectionView, records: Seq<R>) -> Seq<
    Seq<char>,
> {
    if projection.all {
        add_record_names(projection.columns, records, records.len() as int)
    } else {
        projection.columns
    }
}

/// The columns that records are shown with.
#[derive(Debug, PartialEq, Eq)]
pub struct Projection {
    columns: Vec<&'static str>,
    all: bool,
}

impl View for Projection {
    type V = ProjectionView;

    closed spec fn view(&self) -> ProjectionView {
        ProjectionView { columns: names(self.columns@), all: self.all }
    }
}

impl Clone for Projection {
    fn clone(&self) -> (result: Self)
        ensures
            result@ == self@,
    {
        Projection { columns: copy_names(&self.columns), all: self.all }
    }
}

fn holds_text(items: &Vec<String>, name: &str) -> (result: bool)
    ensures
        result == text::views(items@).contains(name@),
{
    let mut i: usize = 0;
    while i < items.len()
        invariant
            i <= items@.len(),
            forall|j: int| 0 <= j < i ==> (#[trigger] text::views(items@)[j]) != name@,
        decreases items.len() - i,
    {
        assert(text::views(items@)[i as int] == items@[i as int]@);
        if text::same(items[i].as_str(), name) {
            assert(text::views(items@).contains(text::views(items@)[i as int]));
            return true;
        }
        i = i + 1;
    }
    false
}

impl Projection {
    pub fn parse(input: Option<&str>, kind: RecordKind, registry: &FieldRegistry) -> (result: Result<
        Self,
        DomainError,
    >)
        ensures
            outcome::result_view(result) == projection_of(outcome::option_view(input), kind),
    {
        let list = match input {
            None => {
                return Ok(Projection { columns: registry.default_columns(kind), all: false });
            },
            Some(list) => list,
        };
        let mut columns: Vec<&'static str> = Vec::new();
        assert(names(columns@) =~= Seq::<Seq<char>>::empty());
        if text::same(list, "*") {
            let definitions = registry.definitions(kind);
            let mut i: usize = 0;
            while i < definitions.len()
                invariant
                    i <= definitions@.len(),
                    names(columns@) == distinct_names(definitions@, i as int),
                decreases definitions.len() - i,
            {
                if !holds_name(&columns, definitions[i].name) {
                    let ghost before = names(columns@);
                    columns.push(definitions[i].name);
                    assert(names(columns@) =~= before.push(definitions@[i as int].name@));
                }
                i = i + 1;
            }
            return Ok(Projection { columns, all: true });
        }
        if list.is_empty() {
            return Err(
                DomainError::InvalidProjection {
                    input: list.to_owned(),
                    reason: "список колонок не может быть пустым",
                },
            );
        }
        let parts = text::split_text(list, ',');
        let ghost split = text::split(list@, ',');
        assert(text::views(parts@).len() == split.len());
        let mut i: usize = 0;
        while i < parts.len()
            invariant
                input == Some(list),
                split == text::split(list@, ','),
                text::views(parts@) == split,
                i <= parts@.len(),
                parts@.len() == split.len(),
                list@ != "*"@,
                list@.len() > 0,
                chosen_columns(kind, list@, split, i as int) == Ok::<_, DomainErrorView>(
                    names(columns@),
                ),
            decreases parts.len() - i,
        {
            assert(split[i as int] == parts@[i as int]@);
            let column = text::trim_text(parts[i].as_str());
            proof {
                if chosen_columns(kind, list@, split, i + 1) is Err {
                    lemma_chosen_columns_fail(kind, list@, split, i + 1, split.len() as int);
                }
            }
            if column.as_str().is_empty() || text::same(column.as_str(), "*") {
                return Err(
                    DomainError::InvalidProjection {
                        input: list.to_owned(),
                        reason: "`*` разрешена только как единственное значение",
                    },
                );
            }
            let definition = match registry.definition(kind, column.as_str()) {
                Ok(definition) => definition,
                Err(error) => {
                    return Err(error);
                },
            };
            if holds_name(&columns, definition.name) {
                return Err(
                    DomainError::InvalidProjection {
                        input: list.to_owned(),
                        reason: "колонки не должны повторяться",
                    },
                );
            }
            let ghost before = names(columns@);
            columns.push(definition.name);
            assert(names(columns@) =~= before.push(definition.name@));
            i = i + 1;
        }
        Ok(Projection { columns, all: false })
    }

    pub fn columns(&self) -> (result: &Vec<&'static str>)
        ensures
            names(result@) == self@.columns,
    {
        &self.columns
    }

    pub fn is_all(&self) -> (result: bool)
        ensures
            result == self@.all,
    {
        self.all
    }

    /// The row of a record.
    pub fn project<R: FieldAccess>(&self, record: &R) -> (result: ExtraFields)
        ensures
            field_value::extra_entries(result) == row_of(self@, *record),
    {
        let mut projected = new_extra();
        let ghost columns = self@.columns;
        let mut i: usize = 0;
        while i < self.columns.len()
            invariant
                columns == names(self.columns@),
                columns == self@.columns,
                i <= self.columns@.len(),
                field_value::extra_entries(projected) == column_entries(columns, *record, i as int),
            decreases self.columns.len() - i,
        {
            assert(columns[i as int] == self.columns@[i as int]@);
            let value = match record.field_owned(self.columns[i]) {
                Some(value) => value,
                None => FieldValue::Null,
            };
            extra_insert(&mut projected, self.columns[i].to_owned(), value);
            i = i + 1;
        }
        if self.all {
            let extras = record.extra_fields();
            let count: usize = extra_len(extras);
            let ghost row = field_value::extra_entries(projected);
            let mut j: usize = 0;
            while j < count
                invariant
                    j <= count,
                    count == field_value::extra_entries(*extras).len(),
                    field_value::extra_entries(*extras) == record.extras_view(),
                    field_value::extra_entries(projected) == with_extras(
                        row,
                        record.extras_view(),
                        j as int,
                    ),
                decreases count - j,
            {
                if let Some((name, value)) = extra_at(extras, j) {
                    if extra_get(&projected, name.as_str()).is_none() {
                        extra_insert(&mut projected, name.clone(), value.clone());
                    }
                }
                j = j + 1;
            }
        }
        projected
    }

    /// The columns of a table of records.
    pub fn resolved_columns<R: FieldAccess>(&self, records: &[R]) -> (result: Vec<String>)
        ensures
            text::views(result@) == table_columns(self@, records@),
    {
        let mut columns: Vec<String> = Vec::new();
        let ghost base = self@.columns;
        let mut i: usize = 0;
        assert(text::views(columns@) =~= base.take(0));
        while i < self.columns.len()
            invariant
                base == names(self.columns@),
                i <= self.columns@.len(),
                text::views(columns@) == base.take(i as int),
            decreases self.columns.len() - i,
        {
            let ghost before = text::views(columns@);
            let name = self.columns[i].to_owned();
            let ghost name_view = name@;
            columns.push(name);
            assert(text::views(columns@) =~= before.push(name_view));
            assert(base.take(i + 1) =~= base.take(i as int).push(base[i as int]));
            i = i + 1;
        }
        assert(base.take(base.len() as int) =~= base);
        if self.all {
            let mut r: usize = 0;
            while r < records.len()
                invariant
                    r <= records@.len(),
                    text::views(columns@) == add_record_names(base, records@, r as int),
                decreases records.len() - r,
            {
                let extras = records[r].extra_fields();
                let count: usize = extra_len(extras);
                let ghost start = text::views(columns@);
                let mut j: usize = 0;
                while j < count
                    invariant
                        j <= count,
                        count == field_value::extra_entries(*extras).len(),
                        text::views(columns@) == add_extra_names(
                            start,
                            field_value::extra_entries(*extras),
                            j as int,
                        ),
                    decreases count - j,
                {
                    if let Some((name, _value)) = extra_at(extras, j) {
                        if !holds_text(&columns, name.as_str()) {
                            let ghost before = text::views(columns@);
                            columns.push(name.clone());
                            assert(text::views(columns@) =~= before.push(name@));
                        }
                    }
                    j = j + 1;
                }
                r = r + 1;
            }
        }
        columns
    }
}

pub struct QuerySpecView {
    pub kind: RecordKind,
    pub filters: Seq<FilterView>,
    pub text_query: Option<TextQueryView>,
    pub sort: Seq<SortKey>,
    pub top: Option<usize>,
    pub projection: ProjectionView,
}

/// The first `count` filters, or the error of the first that is malformed.
pub open spec fn filters_of(kind: RecordKind, inputs: Seq<Seq<char>>, count: int) -> Result<
    Seq<FilterView>,
    DomainErrorView,
>
    decreases count,
{
    if count <= 0 {
        Ok(Seq::empty())
    } else {
        match filters_of(kind, inputs, count - 1) {
            Err(error) => Err(error),
            Ok(before) => match filter_of(inputs[count - 1], kind) {
                Err(error) => Err(error),
                Ok(filter) => Ok(before.push(filter)),
            },
        }
    }
}

/// The first `count` sort keys, or the error of the first that is malformed.
pub open spec fn sort_keys_of(kind: RecordKind, inputs: Seq<Seq<char>>, count: int) -> Result<
    Seq<SortKey>,
    DomainErrorView,
>
    decreases count,
{
    if count <= 0 {
        Ok(Seq::empty())
    } else {
        match sort_keys_of(kind, inputs, count - 1) {
            Err(error) => Err(error),
            Ok(before) => match fields::sort_key_of(inputs[count - 1], kind) {
                Err(error) => Err(error),
                Ok((definition, direction)) => Ok(
                    before.push(
                        fields::sort_key(definition.name, direction, definition.field_type),
                    ),
                ),
            },
        }
    }
}

proof fn lemma_filters_fail(kind: RecordKind, inputs: Seq<Seq<char>>, from: int, to: int)
    requires
        0 <= from <= to,
        filters_of(kind, inputs, from) is Err,
    ensures
        filters_of(kind, inputs, to) == filters_of(kind, inputs, from),
    decreases to - from,
{
    if from < to {
        lemma_filters_fail(kind, inputs, from, to - 1);
    }
}

proof fn lemma_sort_keys_fail(kind: RecordKind, inputs: Seq<Seq<char>>, from: int, to: int)
    requires
        0 <= from <= to,
        sort_keys_of(kind, inputs, from) is Err,
    ensures
        sort_keys_of(kind, inputs, to) == sort_keys_of(kind, inputs, from),
    decreases to - from,
{
    if from < to {
        lemma_sort_keys_fail(kind, inputs, from, to - 1);
    }
}

pub open spec fn optional_text_query(kind: RecordKind, query: Option<Seq<char>>) -> Result<
    Option<TextQueryView>,
    DomainErrorView,
> {
    match query {
        None => Ok(None),
        Some(input) => match text_query_of(kind, input, searched_fields(kind)) {
            Ok(query) => Ok(Some(query)),
            Err(error) => Err(error),
        },
    }
}

pub open spec fn optional_top(top: Option<Seq<char>>) -> Result<Option<usize>, DomainErrorView> {
    match top {
        None => Ok(None),
        Some(value) => match top_of(value) {
            Ok(top) => Ok(Some(top)),
            Err(error) => Err(error),
        },
    }
}

/// A query made of its texts. Errors come in the order filters, text query, sort, limit, columns.
pub open spec fn query_of(
    kind: RecordKind,
    filters: Seq<Seq<char>>,
    query: Option<Seq<char>>,
    sort: Seq<Seq<char>>,
    top: Option<Seq<char>>,
    columns: Option<Seq<char>>,
) -> Result<QuerySpecView, DomainErrorView> {
    match filters_of(kind, filters, filters.len() as int) {
        Err(error) => Err(error),
        Ok(filters) => match optional_text_query(kind, query) {
            Err(error) => Err(error),
            Ok(text_query) => match sort_keys_of(kind, sort, sort.len() as int) {
                Err(error) => Err(error),
                Ok(keys) => match optional_top(top) {
                    Err(error) => Err(error),
                    Ok(top) => match projection_of(columns, kind) {
                        Err(error) => Err(error),
                        Ok(projection) => Ok(
                            QuerySpecView {
                                kind,
                                filters,
                                text_query,
                                sort: if keys.len() == 0 {
                                    fields::default_sort_of(kind)
                                } else {
                                    keys
                                },
                                top,
                                projection,
                            },
                        ),
                    },
                },
            },
        },
    }
}

/// The query that selects everything of a kind, in its usual order and columns.
pub open spec fn default_query(kind: RecordKind) -> QuerySpecView {
    QuerySpecView {
        kind,
        filters: Seq::empty(),
        text_query: None,
        sort: fields::default_sort_of(kind),
        top: None,
        projection: ProjectionView {
            columns: names(fields::default_columns_of(kind)),
            all: false,
        },
    }
}

pub open spec fn filter_views(filters: Seq<Filter>) -> Seq<FilterView> {
    filters.map_values(|filter: Filter| filter@)
}

/// What to select, in which order, how much of it, and what to show.
pub struct QuerySpec {
    kind: RecordKind,
    filters: Vec<Filter>,
    text_query: Option<TextQuery>,
    sort: Vec<SortKey>,
    top: Option<Top>,
    projection: Projection,
}

impl View for QuerySpec {
    type V = QuerySpecView;

    closed spec fn view(&self) -> QuerySpecView {
        QuerySpecView {
            kind: self.kind,
            filters: filter_views(self.filters@),
            text_query: outcome::option_view(self.text_query),
            sort: self.sort@,
            top: outcome::option_view(self.top),
            projection: self.projection@,
        }
    }
}

fn parse_filters(kind: RecordKind, inputs: &[&str], registry: &FieldRegistry) -> (result: Result<
    Vec<Filter>,
    DomainError,
>)
    ensures
        match result {
            Ok(filters) => filters_of(kind, texts(inputs@), inputs@.len() as int) == Ok::<
                _,
                DomainErrorView,
            >(filter_views(filters@)),
            Err(error) => filters_of(kind, texts(inputs@), inputs@.len() as int) == Err::<
                Seq<FilterView>,
                _,
            >(error@),
        },
{
    let mut filters: Vec<Filter> = Vec::new();
    let ghost wanted = texts(inputs@);
    let mut i: usize = 0;
    assert(filter_views(filters@) =~= Seq::<FilterView>::empty());
    while i < inputs.len()
        invariant
            wanted == texts(inputs@),
            i <= inputs@.len(),
            filters_of(kind, wanted, i as int) == Ok::<_, DomainErrorView>(filter_views(filters@)),
        decreases inputs.len() - i,
    {
        assert(wanted[i as int] == inputs@[i as int]@);
        match Filter::parse(inputs[i], kind, registry) {
            Ok(filter) => {
                let ghost before = filter_views(filters@);
                let ghost added = filter@;
                filters.push(filter);
                assert(filter_views(filters@) =~= before.push(added));
            },
            Err(error) => {
                proof {
                    lemma_filters_fail(kind, wanted, i + 1, wanted.len() as int);
                }
                return Err(error);
            },
        }
        i = i + 1;
    }
    Ok(filters)
}

fn parse_sort_keys(kind: RecordKind, inputs: &[&str], registry: &FieldRegistry) -> (result: Result<
    Vec<SortKey>,
    DomainError,
>)
    ensures
        match result {
            Ok(keys) => sort_keys_of(kind, texts(inputs@), inputs@.len() as int) == Ok::<
                _,
                DomainErrorView,
            >(keys@),
            Err(error) => sort_keys_of(kind, texts(inputs@), inputs@.len() as int) == Err::<
                Seq<SortKey>,
                _,
            >(error@),
        },
{
    let mut keys: Vec<SortKey> = Vec::new();
    let ghost wanted = texts(inputs@);
    let mut i: usize = 0;
    while i < inputs.len()
        invariant
            wanted == texts(inputs@),
            i <= inputs@.len(),
            sort_keys_of(kind, wanted, i as int) == Ok::<_, DomainErrorView>(keys@),
        decreases inputs.len() - i,
    {
        assert(wanted[i as int] == inputs@[i as int]@);
        match SortKey::parse(inputs[i], kind, registry) {
            Ok(key) => {
                keys.push(key);
            },
            Err(error) => {
                proof {
                    lemma_sort_keys_fail(kind, wanted, i + 1, wanted.len() as int);
                }
                return Err(error);
            },
        }
        i = i + 1;
    }
    Ok(keys)
}

impl QuerySpec {
    /// Reads a query from its texts.
    pub fn parse(
        kind: RecordKind,
        filters: &[&str],
        query: Option<&str>,
        sort: &[&str],
        top: Option<&str>,
        columns: Option<&str>,
        registry: &FieldRegistry,
    ) -> (result: Result<Self, DomainError>)
        ensures
            outcome::result_view(result) == query_of(
                kind,
                texts(filters@),
                outcome::option_view(query),
                texts(sort@),
                outcome::option_view(top),
                outcome::option_view(columns),
            ),
    {
        let filters = match parse_filters(kind, filters, registry) {
            Ok(filters) => filters,
            Err(error) => {
                return Err(error);
            },
        };
        let text_query = match query {
            None => None,
            Some(input) => match TextQuery::for_kind(kind, input, registry) {
                Ok(query) => Some(query),
                Err(error) => {
                    return Err(error);
                },
            },
        };
        let parsed = match parse_sort_keys(kind, sort, registry) {
            Ok(keys) => keys,
            Err(error) => {
                return Err(error);
            },
        };
        let keys = if parsed.len() == 0 {
            registry.default_sort(kind)
        } else {
            parsed
        };
        let top = match top {
            None => None,
            Some(value) => match Top::parse(value) {
                Ok(top) => Some(top),
                Err(error) => {
                    return Err(error);
                },
            },
        };
        match Projection::parse(columns, kind, registry) {
            Ok(projection) => Ok(
                QuerySpec { kind, filters, text_query, sort: keys, top, projection },
            ),
            Err(error) => Err(error),
        }
    }

    /// The query that selects everything of a kind, in its usual order and columns.
    pub fn new(kind: RecordKind, registry: &FieldRegistry) -> (result: Result<Self, DomainError>)
        ensures
            result matches Ok(query) && query@ == default_query(kind),
    {
        let nothing: Vec<&str> = Vec::new();
        assert(texts(nothing@) =~= Seq::<Seq<char>>::empty());
        QuerySpec::parse(
            kind,
            nothing.as_slice(),
            None,
            nothing.as_slice(),
            None,
            None,
            registry,
        )
    }

    /// Adds a condition.
    pub fn push_filter(&mut self, filter: Filter) -> (result: Result<(), DomainError>)
        ensures
            match result {
                Ok(_) => filter@.kind == old(self)@.kind && final(self)@ == (QuerySpecView {
                    filters: old(self)@.filters.push(filter@),
                    ..old(self)@
                }),
                Err(error) => filter@.kind != old(self)@.kind && final(self)@ == old(self)@
                    && error@ == (DomainErrorView::FieldNotApplicable {
                    field: filter@.field@,
                    record_kind: old(self)@.kind.text(),
                }),
            },
    {
        if filter.kind != self.kind {
            return Err(
                DomainError::FieldNotApplicable {
                    field: filter.field.to_owned(),
                    record_kind: self.kind.as_str(),
                },
            );
        }
        let ghost before = filter_views(self.filters@);
        let ghost added = filter@;
        self.filters.push(filter);
        assert(filter_views(self.filters@) =~= before.push(added));
        Ok(())
    }

    pub fn kind(&self) -> (result: RecordKind)
        ensures
            result == self@.kind,
    {
        self.kind
    }

    pub fn filters(&self) -> (result: &Vec<Filter>)
        ensures
            filter_views(result@) == self@.filters,
            result@.len() == self@.filters.len(),
    {
        assert(filter_views(self.filters@).len() == self.filters@.len());
        &self.filters
    }

    pub fn text_query(&self) -> (result: Option<&TextQuery>)
        ensures
            outcome::option_view(result) == self@.text_query,
    {
        self.text_query.as_ref()
    }

    pub fn sort(&self) -> (result: &Vec<SortKey>)
        ensures
            result@ == self@.sort,
    {
        &self.sort
    }

    pub fn top(&self) -> (result: Option<Top>)
        ensures
            outcome::option_view(result) == self@.top,
    {
        self.top
    }

    pub fn projection(&self) -> (result: &Projection)
        ensures
            result@ == self@.projection,
    {
        &self.projection
    }
}

impl Clone for QuerySpec {
    fn clone(&self) -> (result: Self)
        ensures
            result@ == self@,
    {
        let mut filters: Vec<Filter> = Vec::new();
        let mut i: usize = 0;
        while i < self.filters.len()
            invariant
                i <= self.filters@.len(),
                filters@ == self.filters@.take(i as int),
            decreases self.filters.len() - i,
        {
            filters.push(self.filters[i].clone());
            assert(filters@ =~= self.filters@.take(i + 1));
            i = i + 1;
        }
        assert(filters@ =~= self.filters@);
        let mut sort: Vec<SortKey> = Vec::new();
        let mut i: usize = 0;
        while i < self.sort.len()
            invariant
                i <= self.sort@.len(),
                sort@ == self.sort@.take(i as int),
            decreases self.sort.len() - i,
        {
            sort.push(self.sort[i]);
            assert(sort@ =~= self.sort@.take(i + 1));
            i = i + 1;
        }
        assert(sort@ =~= self.sort@);
        QuerySpec {
            kind: self.kind,
            filters,
            text_query: match &self.text_query {
                Some(query) => Some(query.clone()),
                None => None,
            },
            sort,
            top: self.top,
            projection: self.projection.clone(),
        }
    }
}

/// A value of the expected type; anything else sorts as absent.
pub open spec fn sort_value(value: Option<ValueView>, expected: FieldType) -> Option<ValueView> {
    match value {
        Some(value) if value.field_type() == Some(expected) => Some(value),
        _ => None,
    }
}

/// Order by one key. Absent values come last whatever the direction.
pub open spec fn compare_by_key(
    left: Option<ValueView>,
    right: Option<ValueView>,
    direction: SortDirection,
) -> Order {
    match (left, right) {
        (None, None) => Order::Equal,
        (None, Some(_)) => Order::Greater,
        (Some(_), None) => Order::Less,
        (Some(left), Some(right)) => match compare_values(left, right) {
            None => Order::Equal,
            Some(found) => match direction {
                SortDirection::Asc => found,
                SortDirection::Desc => found.flipped(),
            },
        },
    }
}

/// Order of two records by one key.
pub open spec fn key_order<R: FieldAccess>(left: R, right: R, key: SortKey) -> Order {
    compare_by_key(
        sort_value(left.field_view(key.name()@), key.value_type()),
        sort_value(right.field_view(key.name()@), key.value_type()),
        key.way(),
    )
}

/// Order of two records by the keys from `from` on, the first difference deciding.
pub open spec fn record_order<R: FieldAccess>(left: R, right: R, keys: Seq<SortKey>, from: int) -> Order
    decreases keys.len() - from,
{
    if from >= keys.len() {
        Order::Equal
    } else if key_order(left, right, keys[from]) != Order::Equal {
        key_order(left, right, keys[from])
    } else {
        record_order(left, right, keys, from + 1)
    }
}

/// The ranking of records that a list of keys makes.
pub open spec fn ranking<R: FieldAccess>(keys: Seq<SortKey>) -> spec_fn(R, R) -> Order {
    |left: R, right: R| record_order(left, right, keys, 0)
}

proof fn lemma_values_flip(left: ValueView, right: ValueView)
    requires
        left.field_type() == right.field_type(),
        left.field_type() is Some,
    ensures
        compare_values(left, right) is Some,
        compare_values(right, left) == Some(compare_values(left, right)->0.flipped()),
{
    if let (ValueView::Str(a), ValueView::Str(b)) = (left, right) {
        order::lemma_compare_text_flips(text::lowercase(a), text::lowercase(b));
    }
}

proof fn lemma_values_transitive(a: ValueView, b: ValueView, c: ValueView)
    requires
        a.field_type() == b.field_type(),
        b.field_type() == c.field_type(),
        a.field_type() is Some,
    ensures
        compare_values(a, b)->0 != Order::Greater && compare_values(b, c)->0 != Order::Greater
            ==> compare_values(a, c)->0 != Order::Greater,
        compare_values(a, b)->0 != Order::Less && compare_values(b, c)->0 != Order::Less
            ==> compare_values(a, c)->0 != Order::Less,
{
    lemma_values_flip(a, b);
    lemma_values_flip(b, c);
    lemma_values_flip(a, c);
    if let (ValueView::Str(x), ValueView::Str(y), ValueView::Str(z)) = (a, b, c) {
        let (x, y, z) = (text::lowercase(x), text::lowercase(y), text::lowercase(z));
        if order::compare_text(x, y) != Order::Greater && order::compare_text(y, z)
            != Order::Greater {
            order::lemma_compare_text_transitive(x, y, z);
        }
        if order::compare_text(z, y) != Order::Greater && order::compare_text(y, x)
            != Order::Greater {
            order::lemma_compare_text_transitive(z, y, x);
        }
    }
}

proof fn lemma_key_flips<R: FieldAccess>(left: R, right: R, key: SortKey)
    ensures
        key_order(right, left, key) == key_order(left, right, key).flipped(),
{
    let a = sort_value(left.field_view(key.name()@), key.value_type());
    let b = sort_value(right.field_view(key.name()@), key.value_type());
    if let (Some(a), Some(b)) = (a, b) {
        lemma_values_flip(a, b);
    }
}

proof fn lemma_key_transitive<R: FieldAccess>(a: R, b: R, c: R, key: SortKey)
    requires
        key_order(a, b, key) != Order::Greater,
        key_order(b, c, key) != Order::Greater,
    ensures
        key_order(a, c, key) != Order::Greater,
{
    let x = sort_value(a.field_view(key.name()@), key.value_type());
    let y = sort_value(b.field_view(key.name()@), key.value_type());
    let z = sort_value(c.field_view(key.name()@), key.value_type());
    if let (Some(x), Some(y), Some(z)) = (x, y, z) {
        lemma_values_flip(x, y);
        lemma_values_flip(y, z);
        lemma_values_flip(x, z);
        lemma_values_transitive(x, y, z);
    }
}

proof fn lemma_records_flip<R: FieldAccess>(left: R, right: R, keys: Seq<SortKey>, from: int)
    requires
        0 <= from <= keys.len(),
    ensures
        record_order(right, left, keys, from) == record_order(left, right, keys, from).flipped(),
    decreases keys.len() - from,
{
    if from < keys.len() {
        lemma_key_flips(left, right, keys[from]);
        lemma_records_flip(left, right, keys, from + 1);
    }
}

proof fn lemma_records_transitive<R: FieldAccess>(a: R, b: R, c: R, keys: Seq<SortKey>, from: int)
    requires
        0 <= from <= keys.len(),
        record_order(a, b, keys, from) != Order::Greater,
        record_order(b, c, keys, from) != Order::Greater,
    ensures
        record_order(a, c, keys, from) != Order::Greater,
    decreases keys.len() - from,
{
    if from < keys.len() {
        let key = keys[from];
        assert(key_order(a, b, key) != Order::Greater);
        assert(key_order(b, c, key) != Order::Greater);
        lemma_key_transitive(a, b, c, key);
        if key_order(a, c, key) == Order::Equal {
            lemma_key_flips(a, b, key);
            lemma_key_flips(b, c, key);
            lemma_key_flips(a, c, key);
            lemma_key_transitive(c, a, b, key);
            lemma_key_transitive(b, c, a, key);
            lemma_records_transitive(a, b, c, keys, from + 1);
        }
    }
}

/// The order of records is a total preorder: any two records compare, swapping them flips the
/// order, and the order is transitive.
pub proof fn law_record_order_is_a_ranking<R: FieldAccess>(keys: Seq<SortKey>)
    ensures
        order::is_ranking(ranking::<R>(keys)),
{
    let rank = ranking::<R>(keys);
    assert forall|a: R, b: R| #[trigger] rank(b, a) == rank(a, b).flipped() by {
        lemma_records_flip(a, b, keys, 0);
    }
    assert forall|a: R, b: R, c: R|
        #[trigger] rank(a, b) != Order::Greater && #[trigger] rank(b, c)
            != Order::Greater implies rank(a, c) != Order::Greater by {
        lemma_records_transitive(a, b, c, keys, 0);
    }
}

/// A record without a value of the key's type never comes before one that has it, in either
/// direction.
pub proof fn law_absent_values_come_last<R: FieldAccess>(left: R, right: R, key: SortKey)
    requires
        sort_value(left.field_view(key.name()@), key.value_type()) is Some,
        sort_value(right.field_view(key.name()@), key.value_type()) is None,
    ensures
        key_order(left, right, key) == Order::Less,
        key_order(right, left, key) == Order::Greater,
{
}

/// Integer fields are ordered as integers.
pub proof fn law_integers_sort_natively<R: FieldAccess>(
    left: R,
    right: R,
    key: SortKey,
    a: i64,
    b: i64,
)
    requires
        key.value_type() == FieldType::Int,
        left.field_view(key.name()@) == Some(ValueView::Int(a)),
        right.field_view(key.name()@) == Some(ValueView::Int(b)),
    ensures
        key.way() == SortDirection::Asc ==> key_order(left, right, key) == order::compare_int(
            a as int,
            b as int,
        ),
        key.way() == SortDirection::Desc ==> key_order(left, right, key) == order::compare_int(
            b as int,
            a as int,
        ),
{
}

fn compare_sort_field<R: FieldAccess>(left: &R, right: &R, key: SortKey) -> (result: Order)
    ensures
        result == key_order(*left, *right, key),
{
    let a = typed_sort_value(left.field(key.field()), key.field_type());
    let b = typed_sort_value(right.field(key.field()), key.field_type());
    match (a, b) {
        (None, None) => Order::Equal,
        (None, Some(_)) => Order::Greater,
        (Some(_), None) => Order::Less,
        (Some(a), Some(b)) => match compare_non_null(a, b) {
            None => Order::Equal,
            Some(found) => match key.direction() {
                SortDirection::Asc => found,
                SortDirection::Desc => found.reverse(),
            },
        },
    }
}

fn typed_sort_value(value: Option<FieldValueRef<'_>>, expected: FieldType) -> (result: Option<
    FieldValueRef<'_>,
>)
    ensures
        outcome::option_view(result) == sort_value(outcome::option_view(value), expected),
{
    match value {
        Some(value) => match value.field_type() {
            Some(found) if found == expected => Some(value),
            _ => None,
        },
        None => None,
    }
}

fn compare_records<R: FieldAccess>(left: &R, right: &R, keys: &Vec<SortKey>) -> (result: Order)
    ensures
        result == record_order(*left, *right, keys@, 0),
{
    let mut i: usize = 0;
    while i < keys.len()
        invariant
            i <= keys@.len(),
            record_order(*left, *right, keys@, 0) == record_order(*left, *right, keys@, i as int),
        decreases keys.len() - i,
    {
        let found = compare_sort_field(left, right, keys[i]);
        if found != Order::Equal {
            return found;
        }
        i = i + 1;
    }
    Order::Equal
}

/// Whether a record passes every filter and the text query.
pub open spec fn selects<R: FieldAccess>(spec_view: QuerySpecView, record: R) -> bool {
    &&& forall|i: int|
        0 <= i < spec_view.filters.len() ==> accepts(
            #[trigger] spec_view.filters[i],
            record.field_view(spec_view.filters[i].field@),
        )
    &&& match spec_view.text_query {
        Some(query) => finds(query, record),
        None => true,
    }
}

/// The records that pass a query, in their first order.
pub open spec fn selected<R: FieldAccess>(spec_view: QuerySpecView, records: Seq<R>) -> Seq<R> {
    records.filter(|record: R| selects(spec_view, record))
}

/// As many records as the limit allows.
pub open spec fn limited<R>(records: Seq<R>, top: Option<usize>) -> Seq<R> {
    match top {
        Some(top) if top < records.len() => records.take(top as int),
        _ => records,
    }
}

/// The first record of another kind than the query's, from `from` on.
pub open spec fn first_stranger<R: FieldAccess>(kind: RecordKind, records: Seq<R>, from: int) -> Option<
    RecordKind,
>
    decreases records.len() - from,
{
    if from >= records.len() {
        None
    } else if records[from].kind_view() != kind {
        Some(records[from].kind_view())
    } else {
        first_stranger(kind, records, from + 1)
    }
}

/// Runs queries over records.
#[derive(Clone, Copy, Debug)]
pub struct QueryEngine {}

impl QueryEngine {
    pub fn new() -> (result: Self) {
        QueryEngine {  }
    }

    fn admits<R: FieldAccess>(query: &QuerySpec, record: &R) -> (result: bool)
        ensures
            result == selects(query@, *record),
    {
        let ghost filters = query@.filters;
        let mut i: usize = 0;
        while i < query.filters.len()
            invariant
                filters == filter_views(query.filters@),
                filters == query@.filters,
                i <= query.filters@.len(),
                forall|j: int|
                    0 <= j < i ==> accepts(
                        #[trigger] filters[j],
                        record.field_view(filters[j].field@),
                    ),
            decreases query.filters.len() - i,
        {
            assert(filters[i as int] == query.filters@[i as int]@);
            if !query.filters[i].matches(record) {
                return false;
            }
            i = i + 1;
        }
        match &query.text_query {
            Some(text_query) => text_query.matches(record),
            None => true,
        }
    }

    /// Selects, sorts and limits records. Sorting is stable, and the limit comes after it.
    pub fn execute<R: FieldAccess>(
        &self,
        records: Vec<R>,
        errors: Vec<TargetError>,
        successful_targets: usize,
        query: &QuerySpec,
    ) -> (result: Result<QueryOutcome<R>, DomainError>)
        ensures
            match result {
                Err(error) => first_stranger(query@.kind, records@, 0) matches Some(actual)
                    && error@ == (DomainErrorView::RecordKindMismatch {
                    expected: query@.kind.text(),
                    actual: actual.text(),
                }),
                Ok(outcome) => {
                    &&& first_stranger(query@.kind, records@, 0) is None
                    &&& exists|sorted: Seq<R>|
                        order::is_stable_sort(
                            selected(query@, records@),
                            sorted,
                            ranking::<R>(query@.sort),
                        ) && outcome.data@ == #[trigger] limited(sorted, query@.top)
                    &&& outcome.meta.matched == selected(query@, records@).len()
                    &&& outcome.meta.returned == outcome.data@.len()
                    &&& outcome.meta.partial == (errors@.len() > 0 && successful_targets > 0)
                    &&& outcome.errors == errors
                },
            },
    {
        let ghost source = records@;
        let ghost keep = |record: R| selects(query@, record);
        let mut i: usize = 0;
        while i < records.len()
            invariant
                records@ == source,
                i <= records@.len(),
                first_stranger(query@.kind, source, 0) == first_stranger(
                    query@.kind,
                    source,
                    i as int,
                ),
            decreases records.len() - i,
        {
            let actual = records[i].record_kind();
            if actual != query.kind {
                return Err(
                    DomainError::RecordKindMismatch {
                        expected: query.kind.as_str(),
                        actual: actual.as_str(),
                    },
                );
            }
            i = i + 1;
        }
        let mut kept: Vec<R> = Vec::new();
        assert(source.take(0).filter(keep) =~= Seq::<R>::empty());
        for record in it: records
            invariant
                it.seq() == source,
                keep == (|record: R| selects(query@, record)),
                kept@ == source.take(it.index() as int).filter(keep),
        {
            proof {
                let i = it.index() as int;
                assert(source.take(i + 1) =~= source.take(i).push(source[i]));
                source.take(i).lemma_filter_push(source[i], keep);
            }
            if QueryEngine::admits(query, &record) {
                kept.push(record);
            }
        }
        assert(source.take(source.len() as int) =~= source);
        assert(kept@ == selected(query@, source));
        let matched: usize = kept.len();
        let ghost rank = ranking::<R>(query@.sort);
        proof {
            law_record_order_is_a_ranking::<R>(query@.sort);
        }
        let compare = |left: &R, right: &R| -> (found: Order)
            ensures
                found == record_order(*left, *right, query.sort@, 0),
            { compare_records(left, right, &query.sort) };
        let mut data = order::stable_sort(kept, &compare, Ghost(rank));
        let ghost sorted = data@;
        if let Some(top) = query.top {
            data.truncate(top.get());
        }
        assert(data@ =~= limited(sorted, query@.top));
        Ok(QueryOutcome::new(data, errors, matched, successful_targets))
    }
}

} // verus!
