//! Errors of the domain: their codes and the texts shown to the operator.

use vstd::prelude::*;
use vstd::string::*;

use crate::number;

verus! {

#[derive(Clone, Debug, PartialEq, Eq)]
#[allow(inconsistent_fields)]
pub enum DomainError {
    InvalidClusterAlias { value: String, reason: &'static str },
    InvalidRasEndpoint { value: String, reason: &'static str },
    InvalidPlatformVersion { value: String },
    InvalidUuid { entity: &'static str, value: String },
    InvalidAuth { reason: &'static str },
    InvalidAuthOverride { reason: &'static str },
    InvalidMask { position: usize, reason: String },
    InvalidFilterSyntax { input: String, reason: &'static str },
    UnknownFilterOperator { operator: String },
    UnknownField { field: String },
    FieldNotApplicable { field: String, record_kind: &'static str },
    OperatorNotAllowed { field: String, operator: &'static str },
    InvalidFieldValue { field: String, expected: &'static str },
    InvalidSortSyntax { input: String, reason: &'static str },
    FieldNotSortable { field: String },
    InvalidTop { value: String },
    InvalidProjection { input: String, reason: &'static str },
    RecordKindMismatch { expected: &'static str, actual: &'static str },
    EmptyKillPlan,
    DuplicateKillTarget,
    MissingKillIdentity { field: &'static str },
}

/// A domain error as a mathematical value.
pub enum DomainErrorView {
    InvalidClusterAlias { value: Seq<char>, reason: Seq<char> },
    InvalidRasEndpoint { value: Seq<char>, reason: Seq<char> },
    InvalidPlatformVersion { value: Seq<char> },
    InvalidUuid { entity: Seq<char>, value: Seq<char> },
    InvalidAuth { reason: Seq<char> },
    InvalidAuthOverride { reason: Seq<char> },
    InvalidMask { position: nat, reason: Seq<char> },
    InvalidFilterSyntax { input: Seq<char>, reason: Seq<char> },
    UnknownFilterOperator { operator: Seq<char> },
    UnknownField { field: Seq<char> },
    FieldNotApplicable { field: Seq<char>, record_kind: Seq<char> },
    OperatorNotAllowed { field: Seq<char>, operator: Seq<char> },
    InvalidFieldValue { field: Seq<char>, expected: Seq<char> },
    InvalidSortSyntax { input: Seq<char>, reason: Seq<char> },
    FieldNotSortable { field: Seq<char> },
    InvalidTop { value: Seq<char> },
    InvalidProjection { input: Seq<char>, reason: Seq<char> },
    RecordKindMismatch { expected: Seq<char>, actual: Seq<char> },
    EmptyKillPlan,
    DuplicateKillTarget,
    MissingKillIdentity { field: Seq<char> },
}

impl View for DomainError {
    type V = DomainErrorView;

    open spec fn view(&self) -> DomainErrorView {
        match self {
            DomainError::InvalidClusterAlias { value, reason } => DomainErrorView::InvalidClusterAlias { value: value@, reason: reason@ },
            DomainError::InvalidRasEndpoint { value, reason } => DomainErrorView::InvalidRasEndpoint { value: value@, reason: reason@ },
            DomainError::InvalidPlatformVersion { value } => DomainErrorView::InvalidPlatformVersion { value: value@ },
            DomainError::InvalidUuid { entity, value } => DomainErrorView::InvalidUuid { entity: entity@, value: value@ },
            DomainError::InvalidAuth { reason } => DomainErrorView::InvalidAuth { reason: reason@ },
            DomainError::InvalidAuthOverride { reason } => DomainErrorView::InvalidAuthOverride { reason: reason@ },
            DomainError::InvalidMask { position, reason } => DomainErrorView::InvalidMask { position: *position as nat, reason: reason@ },
            DomainError::InvalidFilterSyntax { input, reason } => DomainErrorView::InvalidFilterSyntax { input: input@, reason: reason@ },
            DomainError::UnknownFilterOperator { operator } => DomainErrorView::UnknownFilterOperator { operator: operator@ },
            DomainError::UnknownField { field } => DomainErrorView::UnknownField { field: field@ },
            DomainError::FieldNotApplicable { field, record_kind } => DomainErrorView::FieldNotApplicable { field: field@, record_kind: record_kind@ },
            DomainError::OperatorNotAllowed { field, operator } => DomainErrorView::OperatorNotAllowed { field: field@, operator: operator@ },
            DomainError::InvalidFieldValue { field, expected } => DomainErrorView::InvalidFieldValue { field: field@, expected: expected@ },
            DomainError::InvalidSortSyntax { input, reason } => DomainErrorView::InvalidSortSyntax { input: input@, reason: reason@ },
            DomainError::FieldNotSortable { field } => DomainErrorView::FieldNotSortable { field: field@ },
            DomainError::InvalidTop { value } => DomainErrorView::InvalidTop { value: value@ },
            DomainError::InvalidProjection { input, reason } => DomainErrorView::InvalidProjection { input: input@, reason: reason@ },
            DomainError::RecordKindMismatch { expected, actual } => DomainErrorView::RecordKindMismatch { expected: expected@, actual: actual@ },
            DomainError::EmptyKillPlan => DomainErrorView::EmptyKillPlan,
            DomainError::DuplicateKillTarget => DomainErrorView::DuplicateKillTarget,
            DomainError::MissingKillIdentity { field } => DomainErrorView::MissingKillIdentity { field: field@ },
        }
    }
}

impl DomainErrorView {
    /// The stable machine-readable code of an error.
    pub open spec fn code(self) -> Seq<char> {
        match self {
            DomainErrorView::InvalidClusterAlias { .. } => "invalid_cluster_alias"@,
            DomainErrorView::InvalidRasEndpoint { .. } => "invalid_ras_endpoint"@,
            DomainErrorView::InvalidPlatformVersion { .. } => "invalid_platform_version"@,
            DomainErrorView::InvalidUuid { .. } => "invalid_uuid"@,
            DomainErrorView::InvalidAuth { .. } => "invalid_auth"@,
            DomainErrorView::InvalidAuthOverride { .. } => "invalid_auth_override"@,
            DomainErrorView::InvalidMask { .. } => "invalid_mask"@,
            DomainErrorView::InvalidFilterSyntax { .. } => "invalid_filter"@,
            DomainErrorView::UnknownFilterOperator { .. } => "unknown_filter_operator"@,
            DomainErrorView::UnknownField { .. } => "unknown_field"@,
            DomainErrorView::FieldNotApplicable { .. } => "field_not_applicable"@,
            DomainErrorView::OperatorNotAllowed { .. } => "operator_not_allowed"@,
            DomainErrorView::InvalidFieldValue { .. } => "invalid_field_value"@,
            DomainErrorView::InvalidSortSyntax { .. } => "invalid_sort"@,
            DomainErrorView::FieldNotSortable { .. } => "field_not_sortable"@,
            DomainErrorView::InvalidTop { .. } => "invalid_top"@,
            DomainErrorView::InvalidProjection { .. } => "invalid_projection"@,
            DomainErrorView::RecordKindMismatch { .. } => "record_kind_mismatch"@,
            DomainErrorView::EmptyKillPlan => "empty_kill_plan"@,
            DomainErrorView::DuplicateKillTarget => "duplicate_kill_target"@,
            DomainErrorView::MissingKillIdentity { .. } => "missing_kill_identity"@,
        }
    }

    /// The text shown to the operator.
    pub open spec fn message(self) -> Seq<char> {
        match self {
            DomainErrorView::InvalidClusterAlias { value, reason } => "Некорректный alias кластера `"@ + value + "`: "@ + reason,
            DomainErrorView::InvalidRasEndpoint { value, reason } => "Некорректный адрес RAS `"@ + value + "`: "@ + reason,
            DomainErrorView::InvalidPlatformVersion { value } => "Некорректная версия платформы `"@ + value + "`: ожидаются четыре числовых компонента"@,
            DomainErrorView::InvalidUuid { entity, value } => "Некорректный "@ + entity + " UUID `"@ + value + "`"@,
            DomainErrorView::InvalidAuth { reason } => "Некорректная конфигурация аутентификации: "@ + reason,
            DomainErrorView::InvalidAuthOverride { reason } => "Некорректное переопределение credentials: "@ + reason,
            DomainErrorView::InvalidMask { position, reason } => "Некорректная маска в позиции "@ + number::decimal(position) + ": "@ + reason,
            DomainErrorView::InvalidFilterSyntax { input, reason } => "Некорректный фильтр `"@ + input + "`: "@ + reason,
            DomainErrorView::UnknownFilterOperator { operator } => "Неизвестный оператор фильтра `"@ + operator + "`"@,
            DomainErrorView::UnknownField { field } => "Неизвестное каноническое поле `"@ + field + "`"@,
            DomainErrorView::FieldNotApplicable { field, record_kind } => "Поле `"@ + field + "` неприменимо к записям типа `"@ + record_kind + "`"@,
            DomainErrorView::OperatorNotAllowed { field, operator } => "Оператор `"@ + operator + "` недоступен для поля `"@ + field + "`"@,
            DomainErrorView::InvalidFieldValue { field, expected } => "Некорректное значение поля `"@ + field + "`: ожидается "@ + expected,
            DomainErrorView::InvalidSortSyntax { input, reason } => "Некорректная сортировка `"@ + input + "`: "@ + reason,
            DomainErrorView::FieldNotSortable { field } => "Поле `"@ + field + "` не поддерживает сортировку"@,
            DomainErrorView::InvalidTop { value } => "Некорректное значение top `"@ + value + "`: ожидается положительное целое число"@,
            DomainErrorView::InvalidProjection { input, reason } => "Некорректная проекция колонок `"@ + input + "`: "@ + reason,
            DomainErrorView::RecordKindMismatch { expected, actual } => "Запрос типа `"@ + expected + "` получил запись типа `"@ + actual + "`"@,
            DomainErrorView::EmptyKillPlan => "План разрушительной операции не может быть пустым"@,
            DomainErrorView::DuplicateKillTarget => "Снимок содержит повторяющуюся цель разрушительной операции"@,
            DomainErrorView::MissingKillIdentity { field } => "В записи отсутствует обязательный идентификатор для разрушительной операции: "@ + field,
        }
    }
}

impl DomainError {
    /// The stable machine-readable code of the error.
    pub fn code(&self) -> (result: &'static str)
        ensures
            result@ == self@.code(),
    {
        match self {
            DomainError::InvalidClusterAlias { .. } => "invalid_cluster_alias",
            DomainError::InvalidRasEndpoint { .. } => "invalid_ras_endpoint",
            DomainError::InvalidPlatformVersion { .. } => "invalid_platform_version",
            DomainError::InvalidUuid { .. } => "invalid_uuid",
            DomainError::InvalidAuth { .. } => "invalid_auth",
            DomainError::InvalidAuthOverride { .. } => "invalid_auth_override",
            DomainError::InvalidMask { .. } => "invalid_mask",
            DomainError::InvalidFilterSyntax { .. } => "invalid_filter",
            DomainError::UnknownFilterOperator { .. } => "unknown_filter_operator",
            DomainError::UnknownField { .. } => "unknown_field",
            DomainError::FieldNotApplicable { .. } => "field_not_applicable",
            DomainError::OperatorNotAllowed { .. } => "operator_not_allowed",
            DomainError::InvalidFieldValue { .. } => "invalid_field_value",
            DomainError::InvalidSortSyntax { .. } => "invalid_sort",
            DomainError::FieldNotSortable { .. } => "field_not_sortable",
            DomainError::InvalidTop { .. } => "invalid_top",
            DomainError::InvalidProjection { .. } => "invalid_projection",
            DomainError::RecordKindMismatch { .. } => "record_kind_mismatch",
            DomainError::EmptyKillPlan => "empty_kill_plan",
            DomainError::DuplicateKillTarget => "duplicate_kill_target",
            DomainError::MissingKillIdentity { .. } => "missing_kill_identity",
        }
    }

    /// The text shown to the operator.
    pub fn message(&self) -> (result: String)
        ensures
            result@ == self@.message(),
    {
        match self {
            DomainError::InvalidClusterAlias { value, reason } => {
                let mut result = "Некорректный alias кластера `".to_owned();
                result.push_str(value.as_str());
                result.push_str("`: ");
                result.push_str(reason);
                result
            },
            DomainError::InvalidRasEndpoint { value, reason } => {
                let mut result = "Некорректный адрес RAS `".to_owned();
                result.push_str(value.as_str());
                result.push_str("`: ");
                result.push_str(reason);
                result
            },
            DomainError::InvalidPlatformVersion { value } => {
                let mut result = "Некорректная версия платформы `".to_owned();
                result.push_str(value.as_str());
                result.push_str("`: ожидаются четыре числовых компонента");
                result
            },
            DomainError::InvalidUuid { entity, value } => {
                let mut result = "Некорректный ".to_owned();
                result.push_str(entity);
                result.push_str(" UUID `");
                result.push_str(value.as_str());
                result.push_str("`");
                result
            },
            DomainError::InvalidAuth { reason } => {
                let mut result = "Некорректная конфигурация аутентификации: ".to_owned();
                result.push_str(reason);
                result
            },
            DomainError::InvalidAuthOverride { reason } => {
                let mut result = "Некорректное переопределение credentials: ".to_owned();
                result.push_str(reason);
                result
            },
            DomainError::InvalidMask { position, reason } => {
                let mut result = "Некорректная маска в позиции ".to_owned();
                result.push_str(number::format_u64(*position as u64).as_str());
                result.push_str(": ");
                result.push_str(reason.as_str());
                result
            },
            DomainError::InvalidFilterSyntax { input, reason } => {
                let mut result = "Некорректный фильтр `".to_owned();
                result.push_str(input.as_str());
                result.push_str("`: ");
                result.push_str(reason);
                result
            },
            DomainError::UnknownFilterOperator { operator } => {
                let mut result = "Неизвестный оператор фильтра `".to_owned();
                result.push_str(operator.as_str());
                result.push_str("`");
                result
            },
            DomainError::UnknownField { field } => {
                let mut result = "Неизвестное каноническое поле `".to_owned();
                result.push_str(field.as_str());
                result.push_str("`");
                result
            },
            DomainError::FieldNotApplicable { field, record_kind } => {
                let mut result = "Поле `".to_owned();
                result.push_str(field.as_str());
                result.push_str("` неприменимо к записям типа `");
                result.push_str(record_kind);
                result.push_str("`");
                result
            },
            DomainError::OperatorNotAllowed { field, operator } => {
                let mut result = "Оператор `".to_owned();
                result.push_str(operator);
                result.push_str("` недоступен для поля `");
                result.push_str(field.as_str());
                result.push_str("`");
                result
            },
            DomainError::InvalidFieldValue { field, expected } => {
                let mut result = "Некорректное значение поля `".to_owned();
                result.push_str(field.as_str());
                result.push_str("`: ожидается ");
                result.push_str(expected);
                result
            },
            DomainError::InvalidSortSyntax { input, reason } => {
                let mut result = "Некорректная сортировка `".to_owned();
                result.push_str(input.as_str());
                result.push_str("`: ");
                result.push_str(reason);
                result
            },
            DomainError::FieldNotSortable { field } => {
                let mut result = "Поле `".to_owned();
                result.push_str(field.as_str());
                result.push_str("` не поддерживает сортировку");
                result
            },
            DomainError::InvalidTop { value } => {
                let mut result = "Некорректное значение top `".to_owned();
                result.push_str(value.as_str());
                result.push_str("`: ожидается положительное целое число");
                result
            },
            DomainError::InvalidProjection { input, reason } => {
                let mut result = "Некорректная проекция колонок `".to_owned();
                result.push_str(input.as_str());
                result.push_str("`: ");
                result.push_str(reason);
                result
            },
            DomainError::RecordKindMismatch { expected, actual } => {
                let mut result = "Запрос типа `".to_owned();
                result.push_str(expected);
                result.push_str("` получил запись типа `");
                result.push_str(actual);
                result.push_str("`");
                result
            },
            DomainError::EmptyKillPlan => "План разрушительной операции не может быть пустым".to_owned(),
            DomainError::DuplicateKillTarget => "Снимок содержит повторяющуюся цель разрушительной операции".to_owned(),
            DomainError::MissingKillIdentity { field } => {
                let mut result = "В записи отсутствует обязательный идентификатор для разрушительной операции: ".to_owned();
                result.push_str(field);
                result
            },
        }
    }
}

} // verus!
