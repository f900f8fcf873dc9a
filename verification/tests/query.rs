//! Filters, text queries, sorting, limits and projections.

use std::fmt::Debug;

use onecadmin::domain::field_value::FieldValue;
use onecadmin::domain::fields::FieldRegistry;
use onecadmin::domain::identity::{ClusterUuid, SessionUuid, Uuid};
use onecadmin::domain::model::{ClusterSource, RecordKind, SessionRecord};
use onecadmin::domain::query::{Filter, Projection, QueryEngine, QuerySpec, Top};
use onecadmin::domain::timestamp::Timestamp;
use onecadmin::domain::value::ClusterAlias;

fn ok<T, E: Debug>(result: Result<T, E>) -> T {
    result.unwrap_or_else(|error| panic!("{error:?}"))
}

fn source(alias: &str) -> ClusterSource {
    ClusterSource::new(
        ok(ClusterAlias::new(alias)),
        ClusterUuid::new(Uuid::from_u128(1)),
        "cluster",
        ok("ras.local:1545".parse()),
    )
}

fn session(id: u128, cpu: Option<i64>, user: &str, host: &str) -> SessionRecord {
    let mut record = SessionRecord::new(source("dev"), SessionUuid::new(Uuid::from_u128(id)));
    record.infobase = Some("Accounting".to_owned());
    record.cpu_time_total = cpu;
    record.user_name = Some(user.to_owned());
    record.host = Some(host.to_owned());
    record
}

fn ids(records: &[SessionRecord]) -> Vec<u128> {
    records.iter().map(|record| record.session.into_uuid().as_u128()).collect()
}

#[test]
fn filter_splits_only_first_two_colons() {
    let registry = FieldRegistry::new();
    let filter =
        ok(Filter::parse("user_name:eq:DOMAIN\\user:role", RecordKind::Session, &registry));
    let record = session(1, Some(1), "domain\\USER:ROLE", "host");

    assert!(filter.matches(&record));
}

#[test]
fn typed_filter_validation_happens_during_parse() {
    let registry = FieldRegistry::new();
    let refused = |text: &str| Filter::parse(text, RecordKind::Session, &registry).is_err();

    assert!(refused("cpu_time_total:gt:not-a-number"));
    assert!(refused("user_name:gt:a"));
    assert!(refused("cpu_time:eq:1"));
    assert!(refused("started_at:gt:not-a-date"));
}

#[test]
fn repeated_filters_are_and_and_text_query_fields_are_or() {
    let registry = FieldRegistry::new();
    let spec = ok(QuerySpec::parse(
        RecordKind::Session,
        &["cpu_time_total:ge:10", "user_name:like:admin%"],
        Some("PC-%"),
        &["session_id:asc"],
        None,
        None,
        &registry,
    ));
    let records = vec![
        session(1, Some(20), "Administrator", "PC-01"),
        session(2, Some(5), "Administrator", "PC-02"),
        session(3, Some(20), "User", "PC-03"),
    ];
    let outcome = ok(QueryEngine::new().execute(records, Vec::new(), 1, &spec));

    assert_eq!(outcome.meta.matched, 1);
    assert_eq!(outcome.data[0].session, SessionUuid::new(Uuid::from_u128(1)));
}

#[test]
fn sort_is_typed_stable_and_null_is_always_last() {
    let registry = FieldRegistry::new();
    let spec = ok(QuerySpec::parse(
        RecordKind::Session,
        &[],
        None,
        &["cpu_time_total:desc", "user_name:asc"],
        None,
        None,
        &registry,
    ));
    let records = vec![
        session(1, None, "z", "host"),
        session(2, Some(10), "b", "host"),
        session(3, Some(100), "a", "host"),
        session(4, Some(10), "A", "host"),
        session(5, None, "a", "host"),
    ];
    let outcome = ok(QueryEngine::new().execute(records, Vec::new(), 1, &spec));

    assert_eq!(ids(&outcome.data), vec![3, 4, 2, 5, 1]);
}

#[test]
fn top_is_applied_after_global_sort() {
    let registry = FieldRegistry::new();
    let spec = ok(QuerySpec::parse(
        RecordKind::Session,
        &[],
        None,
        &["cpu_time_total:desc"],
        Some("2"),
        Some("cluster,cpu_time_total"),
        &registry,
    ));
    let records = vec![
        session(1, Some(1), "a", "host"),
        session(2, Some(100), "b", "host"),
        session(3, Some(50), "c", "host"),
    ];
    let outcome = ok(QueryEngine::new().execute(records, Vec::new(), 2, &spec));

    assert_eq!(outcome.meta.matched, 3);
    assert_eq!(outcome.meta.returned, 2);
    assert_eq!(outcome.data[0].cpu_time_total, Some(100));
    assert_eq!(outcome.data[1].cpu_time_total, Some(50));
}

#[test]
fn datetime_comparisons_are_typed() {
    let registry = FieldRegistry::new();
    let filter = ok(Filter::parse(
        "started_at:ge:2026-08-11T10:00:00+03:00",
        RecordKind::Session,
        &registry,
    ));
    let mut record = session(1, Some(1), "user", "host");
    record.started_at = Timestamp::parse_rfc3339("2026-08-11T07:00:00Z");
    assert!(record.started_at.is_some());

    assert!(filter.matches(&record));
}

#[test]
fn star_projection_includes_canonical_and_unknown_fields() {
    let registry = FieldRegistry::new();
    let projection = ok(Projection::parse(Some("*"), RecordKind::Session, &registry));
    let mut record = session(1, Some(1), "user", "host");
    record.extra.insert("future_metric".to_owned(), FieldValue::Int(42));
    let row = projection.project(&record);

    assert!(row.contains_key("session_id"));
    assert_eq!(row.get("future_metric"), Some(&FieldValue::Int(42)));
    assert_eq!(row.keys().last().map(String::as_str), Some("future_metric"));
}

#[test]
fn top_and_projection_reject_invalid_values() {
    let registry = FieldRegistry::new();

    assert!("0".parse::<Top>().is_err());
    assert!("-1".parse::<Top>().is_err());
    assert!(Projection::parse(Some("cpu_time"), RecordKind::Session, &registry).is_err());
    assert!(Projection::parse(Some("cluster,*"), RecordKind::Session, &registry).is_err());
}

#[test]
fn integer_sort_matches_native_order() {
    let registry = FieldRegistry::new();
    let spec = ok(QuerySpec::parse(
        RecordKind::Session,
        &[],
        None,
        &["cpu_time_total:asc"],
        None,
        None,
        &registry,
    ));
    let mut state: u64 = 88172645463325252;
    for length in [0usize, 1, 2, 17, 60, 99] {
        let mut values: Vec<i64> = Vec::new();
        if length == 60 {
            values.extend([i64::MAX, i64::MIN, 0, -1, i64::MIN, i64::MAX]);
        }
        for _ in 0..length {
            state ^= state << 13;
            state ^= state >> 7;
            state ^= state << 17;
            values.push(if state % 2 == 0 { state as i64 } else { (state % 41) as i64 - 20 });
        }
        let records = values
            .iter()
            .enumerate()
            .map(|(index, value)| session(index as u128 + 1, Some(*value), "user", "host"))
            .collect::<Vec<_>>();
        let outcome = ok(QueryEngine::new().execute(records, Vec::new(), 1, &spec));
        let actual =
            outcome.data.iter().filter_map(|record| record.cpu_time_total).collect::<Vec<_>>();
        let mut expected = values;
        expected.sort();
        assert_eq!(actual, expected);
    }
}

#[test]
fn a_record_of_another_kind_stops_the_query() {
    let registry = FieldRegistry::new();
    let spec = ok(QuerySpec::new(RecordKind::Connection, &registry));
    let records = vec![session(1, None, "a", "b")];
    assert!(QueryEngine::new().execute(records, Vec::new(), 1, &spec).is_err());
}

#[test]
fn each_operator_compares_numbers() {
    let registry = FieldRegistry::new();
    let record = session(1, Some(10), "user", "host");
    for (text, expected) in [
        ("cpu_time_total:eq:10", true),
        ("cpu_time_total:ne:10", false),
        ("cpu_time_total:gt:10", false),
        ("cpu_time_total:ge:10", true),
        ("cpu_time_total:lt:11", true),
        ("cpu_time_total:le:9", false),
    ] {
        let filter = ok(Filter::parse(text, RecordKind::Session, &registry));
        assert_eq!(filter.matches(&record), expected, "{text}");
    }
}

#[test]
fn columns_and_fields_never_repeat() {
    let registry = FieldRegistry::new();
    for kind in
        [RecordKind::Infobase, RecordKind::Session, RecordKind::Connection, RecordKind::Process]
    {
        let definitions = registry.definitions(kind);
        for (index, definition) in definitions.iter().enumerate() {
            assert!(definition.applies_to(kind));
            assert_eq!(registry.definition(kind, definition.name), Ok(*definition));
            assert!(definitions[..index].iter().all(|before| before.name != definition.name));
        }

        let all = ok(Projection::parse(Some("*"), kind, &registry));
        assert!(all.is_all());
        let names: Vec<&str> = definitions.iter().map(|definition| definition.name).collect();
        assert_eq!(all.columns().to_vec(), names);

        let usual = ok(Projection::parse(None, kind, &registry));
        assert!(!usual.is_all());
        assert_eq!(usual.columns().to_vec(), registry.default_columns(kind));
        for (index, column) in usual.columns().iter().enumerate() {
            assert!(!usual.columns()[..index].contains(column));
        }
        assert!(Projection::parse(Some("cluster,cluster"), kind, &registry).is_err());
    }
}
