//! Values, credentials, fields, masks, records and plans.

use std::collections::HashSet;
use std::fmt::Debug;

use onecadmin::domain::auth::{AuthConfig, AuthMode, SecretString};
use onecadmin::domain::error::DomainError;
use onecadmin::domain::field_value::{FieldValue, FieldValueRef};
use onecadmin::domain::fields::{FieldRegistry, FieldUnit, FilterOperator, SortDirection};
use onecadmin::domain::identity::{
    ClusterUuid, ConnectionUuid, InfobaseUuid, ProcessUuid, SessionUuid, Uuid,
};
use onecadmin::domain::kill::{
    ConnectionKillPlan, ProcessKillPlan, SessionKillPlan, SnapshotId, DEFAULT_SESSION_KILL_MESSAGE,
};
use onecadmin::domain::mask::SqlMask;
use onecadmin::domain::model::{
    ClusterSource, ConnectionRecord, DiscoveredCluster, FieldAccess, InfobaseAuthOverride,
    InfobaseAuthPolicy, InfobaseRecord, ProcessRecord, RecordKind, SessionRecord,
};
use onecadmin::domain::outcome::{QueryOutcome, TargetError, TargetErrorKind};
use onecadmin::domain::timestamp::Timestamp;
use onecadmin::domain::value::{ClusterAlias, RasEndpoint};
use onecadmin::domain::version::PlatformVersion;

fn ok<T, E: Debug>(result: Result<T, E>) -> T {
    result.unwrap_or_else(|error| panic!("{error:?}"))
}

fn source() -> ClusterSource {
    ClusterSource::new(
        ok(ClusterAlias::new("dev")),
        ClusterUuid::new(Uuid::from_u128(1)),
        "Development",
        ok("ras.local:1545".parse()),
    )
}

fn password(user: &str, secret: &str) -> AuthConfig {
    ok(AuthConfig::password(user, SecretString::new(secret)))
}

#[test]
fn debug_never_contains_password() {
    let auth = password("administrator", "top-secret");
    let debug = auth.debug_text();

    assert!(!debug.contains("top-secret"));
    assert!(debug.contains("[REDACTED]"));
}

#[test]
fn explicit_zeroize_clears_credentials() {
    let mut auth = password("administrator", "top-secret");

    auth.zeroize();

    assert_eq!(auth.user(), Some(""));
    assert_eq!(auth.password_secret().map(SecretString::expose_secret), Some(""));
}

#[test]
fn auth_modes_do_not_fall_back_to_empty_passwords() {
    assert!(AuthConfig::password("user", SecretString::new("")).is_err());
    assert_eq!(AuthConfig::none().mode(), AuthMode::NoAuth);
}

#[test]
fn registry_rejects_alias_and_inapplicable_fields() {
    let registry = FieldRegistry::new();

    assert!(matches!(
        registry.definition(RecordKind::Session, "cpu_time"),
        Err(DomainError::UnknownField { .. })
    ));
    assert!(matches!(
        registry.definition(RecordKind::Connection, "cpu_time_total"),
        Err(DomainError::FieldNotApplicable { .. })
    ));
}

#[test]
fn operators_follow_field_types() {
    let registry = FieldRegistry::new();
    let takes = |field: &str, operator: FilterOperator| {
        registry.validate_operator(RecordKind::Session, field, operator).is_ok()
    };

    assert!(takes("cpu_time_total", FilterOperator::Gt));
    assert!(takes("user_name", FilterOperator::Like));
    assert!(!takes("user_name", FilterOperator::Gt));
    assert!(!takes("session_id", FilterOperator::Like));
}

#[test]
fn defaults_match_the_contract() {
    let registry = FieldRegistry::new();

    assert_eq!(
        registry.default_columns(RecordKind::Connection),
        vec![
            "cluster",
            "infobase",
            "conn_id",
            "host",
            "application",
            "connected_at",
            "session_number",
            "process",
        ]
    );
    assert_eq!(
        registry
            .default_sort(RecordKind::Session)
            .iter()
            .map(|key| (key.field(), key.direction()))
            .collect::<Vec<_>>(),
        vec![
            ("cluster", SortDirection::Asc),
            ("infobase", SortDirection::Asc),
            ("session_id", SortDirection::Asc),
        ]
    );
}

#[test]
fn all_numeric_metrics_have_explicit_units_where_units_are_meaningful() {
    let registry = FieldRegistry::new();
    let unit = |field: &str| registry.definition(RecordKind::Session, field).map(|found| found.unit);

    assert_eq!(unit("memory_current"), Ok(Some(FieldUnit::Bytes)));
    assert_eq!(unit("cpu_time_total"), Ok(Some(FieldUnit::Milliseconds)));
    assert_eq!(unit("calls_all"), Ok(Some(FieldUnit::Count)));
}

#[test]
fn session_plan_uses_one_snapshot_and_default_message() {
    let records = vec![SessionRecord::new(source(), SessionUuid::new(Uuid::from_u128(2)))];
    let snapshot = SnapshotId::new(Uuid::from_u128(100));
    let plan = ok(SessionKillPlan::from_records(snapshot, &records, None));

    assert_eq!(plan.snapshot_id(), snapshot);
    assert_eq!(plan.len(), 1);
    assert_eq!(plan.message(), DEFAULT_SESSION_KILL_MESSAGE);
}

#[test]
fn duplicate_compound_identity_is_rejected() {
    let record = || SessionRecord::new(source(), SessionUuid::new(Uuid::from_u128(2)));
    let result = SessionKillPlan::from_records(
        SnapshotId::new(Uuid::from_u128(100)),
        &[record(), record()],
        None,
    );

    assert_eq!(result.err(), Some(DomainError::DuplicateKillTarget));
}

#[test]
fn connection_plan_keeps_process_and_connection_from_same_record() {
    let mut record = ConnectionRecord::new(
        source(),
        ConnectionUuid::new(Uuid::from_u128(3)),
        ProcessUuid::new(Uuid::from_u128(4)),
    );
    record.infobase_uuid = Some(InfobaseUuid::new(Uuid::from_u128(5)));
    let plan =
        ok(ConnectionKillPlan::from_records(SnapshotId::new(Uuid::from_u128(100)), &[record]));

    assert_eq!(plan.targets()[0].connection_id.into_uuid().as_u128(), 3);
    assert_eq!(plan.targets()[0].process_id.into_uuid().as_u128(), 4);
}

#[test]
fn connection_plan_requires_infobase_identity_for_credentials() {
    let record = ConnectionRecord::new(
        source(),
        ConnectionUuid::new(Uuid::from_u128(3)),
        ProcessUuid::new(Uuid::from_u128(4)),
    );

    assert!(matches!(
        ConnectionKillPlan::from_records(SnapshotId::new(Uuid::from_u128(100)), &[record]),
        Err(DomainError::MissingKillIdentity { field: "infobase_uuid" })
    ));
}

#[test]
fn plans_are_not_empty() {
    let snapshot = SnapshotId::new(Uuid::from_u128(100));
    assert!(SessionKillPlan::from_records(snapshot, &[], None).is_err());
    assert!(ConnectionKillPlan::from_records(snapshot, &[]).is_err());
    assert!(ProcessKillPlan::from_records(snapshot, &[]).is_err());
    assert_ne!(SnapshotId::random(), SnapshotId::random());
}

#[test]
fn no_wildcards_means_exact_case_insensitive_match() {
    let mask = ok(SqlMask::parse("zup_corp"));

    assert!(mask.matches("ZUP_CORP"));
    assert!(!mask.matches("prefix-zup_corp"));
    assert!(!mask.matches("zup_corp-suffix"));
}

#[test]
fn percent_and_underscore_have_sql_like_meaning() {
    let mask = ok(SqlMask::parse("APP-_%"));

    assert!(mask.matches("app-X"));
    assert!(mask.matches("APP-123"));
    assert!(!mask.matches("APP-"));
}

#[test]
fn escaped_metacharacters_are_literals() {
    let mask = ok(SqlMask::parse(r"100\%\_\\done"));

    assert!(mask.matches(r"100%_\done"));
    assert!(!mask.has_wildcards());
}

#[test]
fn invalid_escapes_are_rejected() {
    assert!(SqlMask::parse(r"name\x").is_err());
    assert!(SqlMask::parse("name\\").is_err());
}

#[test]
fn matching_is_unicode_case_insensitive() {
    let mask = ok(SqlMask::parse("ПОЛЬЗОВАТЕЛЬ%"));

    assert!(mask.matches("пользователь 1"));
}

#[test]
fn literal_patterns_never_turn_into_substring_search() {
    for value in ["", "a", "A.b-9", "zup.corp", "0123456789", "...", "---"] {
        let mask = ok(SqlMask::parse(value));
        assert!(mask.matches(value));
        assert!(!mask.matches(&format!("x{value}")));
        assert!(!mask.has_wildcards());
    }
}

#[test]
fn percent_matches_any_suffix() {
    for prefix in ["", "a", "A.b-9"] {
        for suffix in ["", "x", "\n", "%_\\", "кластер", "a\nb"] {
            let mask = ok(SqlMask::parse(&format!("{prefix}%")));
            assert!(mask.matches(&format!("{prefix}{suffix}")));
        }
    }
}

#[test]
fn masks_do_not_read_regular_expressions() {
    let mask = ok(SqlMask::parse("a.c(d)*[e]^$|"));
    assert!(mask.matches("A.C(D)*[E]^$|"));
    assert!(!mask.matches("abc(d)*[e]^$|"));
    assert!(ok(SqlMask::parse("_")).matches("\n"));
    assert!(!ok(SqlMask::parse("_")).matches(""));
}

#[test]
fn known_source_fields_win_over_unknown_extras() {
    let mut record = SessionRecord::new(source(), SessionUuid::new(Uuid::from_u128(2)));
    record.extra.insert("cluster".to_owned(), FieldValue::Str("evil".to_owned()));
    record.extra.insert("future_field".to_owned(), FieldValue::Str("preserved".to_owned()));

    assert_eq!(record.field("cluster"), Some(FieldValueRef::Str("dev")));
    assert_eq!(record.field("future_field"), Some(FieldValueRef::Str("preserved")));
}

#[test]
fn every_known_optional_field_is_visible_as_null() {
    let record = SessionRecord::new(source(), SessionUuid::new(Uuid::from_u128(2)));

    assert_eq!(record.field("user_name"), Some(FieldValueRef::Null));
    assert_eq!(record.field("missing"), None);
}

#[test]
fn every_registered_field_is_readable() {
    let registry = FieldRegistry::new();
    let session = SessionRecord::new(source(), SessionUuid::new(Uuid::from_u128(2)));
    for definition in registry.definitions(RecordKind::Session) {
        assert!(session.field(definition.name).is_some(), "{}", definition.name);
    }
    let connection = ConnectionRecord::new(
        source(),
        ConnectionUuid::new(Uuid::from_u128(3)),
        ProcessUuid::new(Uuid::from_u128(4)),
    );
    for definition in registry.definitions(RecordKind::Connection) {
        assert!(connection.field(definition.name).is_some(), "{}", definition.name);
    }
    let process = ProcessRecord::new(source(), ProcessUuid::new(Uuid::from_u128(4)));
    for definition in registry.definitions(RecordKind::Process) {
        assert!(process.field(definition.name).is_some(), "{}", definition.name);
    }
}

#[test]
fn connection_string_always_contains_cluster_port() {
    let cluster = ok(DiscoveredCluster::new(
        ClusterUuid::new(Uuid::from_u128(1)),
        "cluster",
        "srv.local",
        1541,
    ));

    assert_eq!(
        InfobaseRecord::build_connection_string(&cluster, "WorkFlow_TEST"),
        "Srvr=\"srv.local:1541\";Ref=\"WorkFlow_TEST\";"
    );
}

#[test]
fn infobase_override_prefers_uuid_then_exact_case_insensitive_name() {
    let id = InfobaseUuid::new(Uuid::from_u128(10));
    let by_name = ok(InfobaseAuthOverride::new(
        Some("Accounting".to_owned()),
        None,
        password("name-user", "name-secret"),
    ));
    let by_uuid = ok(InfobaseAuthOverride::new(
        Some("Other".to_owned()),
        Some(id),
        password("admin", "password"),
    ));
    let policy = ok(InfobaseAuthPolicy::new(AuthConfig::none(), vec![by_name, by_uuid]));

    assert_eq!(policy.resolve(Some(id), "Accounting").mode(), AuthMode::Password);
    assert_eq!(policy.resolve(Some(id), "Accounting").user(), Some("admin"));
    assert_eq!(policy.resolve(None, "ACCOUNTING").mode(), AuthMode::Password);
    assert_eq!(policy.resolve(None, "Accounting%").mode(), AuthMode::NoAuth);
}

#[test]
fn conflicting_overrides_are_refused() {
    let named = |name: &str| {
        ok(InfobaseAuthOverride::new(Some(name.to_owned()), None, AuthConfig::none()))
    };
    assert!(matches!(
        InfobaseAuthPolicy::new(AuthConfig::none(), vec![named("Base"), named("BASE")]),
        Err(DomainError::InvalidAuthOverride { .. })
    ));
    assert!(InfobaseAuthOverride::new(None, None, AuthConfig::none()).is_err());
}

fn timeout_error() -> TargetError {
    TargetError::new(
        ok(ClusterAlias::new("dev")),
        ok("ras.local:1545".parse()),
        TargetErrorKind::Timeout,
        "timeout",
    )
}

#[test]
fn partial_requires_at_least_one_successful_target() {
    let partial = QueryOutcome::new(vec![1], vec![timeout_error()], 1, 1);
    let failed = QueryOutcome::<i32>::new(Vec::new(), vec![timeout_error()], 0, 0);

    assert!(partial.meta.partial);
    assert!(!failed.meta.partial);
    assert!(failed.is_all_failed());
}

#[test]
fn empty_success_is_not_an_error() {
    let outcome = QueryOutcome::<i32>::new(Vec::new(), Vec::new(), 0, 2);

    assert!(outcome.is_empty_success());
    assert!(!outcome.is_all_failed());
}

#[test]
fn aliases_are_case_insensitively_equal_and_hash_compatible() {
    let lower = ok(ClusterAlias::new("prod.eu"));
    let upper = ok(ClusterAlias::new("PROD.EU"));
    let aliases = HashSet::from([lower.clone()]);

    assert_eq!(lower, upper);
    assert!(aliases.contains(&upper));
}

#[test]
fn alias_rejects_non_ascii_and_spaces() {
    assert!(ClusterAlias::new("prod eu").is_err());
    assert!(ClusterAlias::new("прод").is_err());
    assert!(ClusterAlias::new("").is_err());
}

#[test]
fn endpoint_parses_dns_ipv4_and_bracketed_ipv6() {
    let dns: RasEndpoint = ok("RV-DEV-1C01:1545".parse());
    let ipv6: RasEndpoint = ok("[2001:db8::1]:1545".parse());

    assert_eq!(dns.host(), "RV-DEV-1C01");
    assert_eq!(dns.port(), 1545);
    assert_eq!(ipv6.as_str(), "[2001:db8::1]:1545");
    assert!("2001:db8::1:1545".parse::<RasEndpoint>().is_err());
    assert!("host:0".parse::<RasEndpoint>().is_err());
}

#[test]
fn hosts_with_colons_are_ipv6_addresses() {
    for (host, expected) in [
        ("::", true),
        ("::1", true),
        ("2001:db8::1", true),
        ("1:2:3:4:5:6:7:8", true),
        ("1:2:3:4:5:6:7::", true),
        ("::ffff:1.2.3.4", true),
        ("1:2:3:4:5:6:1.2.3.4", true),
        ("1::2::3", false),
        ("1:2:3:4:5:6:7", false),
        ("12345::", false),
        ("::ffff:1.2.3", false),
        ("::ffff:1.2.3.256", false),
        (":::", false),
        ("fe80:", false),
    ] {
        assert_eq!(RasEndpoint::new(host, 1545).is_ok(), expected, "{host}");
        assert_eq!(format!("[{host}]:1545").parse::<RasEndpoint>().is_ok(), expected, "{host}");
    }
}

#[test]
fn endpoint_text_reads_back() {
    for text in ["a:1", "srv-1.local:65535", "[::1]:1545", "10.0.0.1:1545"] {
        assert_eq!(ok(text.parse::<RasEndpoint>()).as_str(), text);
    }
    for text in ["", "a", "a:", ":1", "a:65536", "a b:1", "[::1]1545", "a/b:1", "a:1:2"] {
        assert!(text.parse::<RasEndpoint>().is_err(), "{text}");
    }
}

#[test]
fn platform_version_requires_exactly_four_numbers() {
    let version: PlatformVersion = ok("8.3.20.1710".parse());

    assert_eq!(version.components(), [8, 3, 20, 1710]);
    assert!(version.is_supported());
    assert!("8.3.20".parse::<PlatformVersion>().is_err());
    assert!("8.3.20.1.2".parse::<PlatformVersion>().is_err());
    assert!("8.3.x.1".parse::<PlatformVersion>().is_err());
}

#[test]
fn platform_version_round_trips() {
    for part in [0, 1, 9, 10, 1710, u32::MAX] {
        let version = PlatformVersion::new(part, 3, part, 0);
        assert_eq!(version.to_text().parse::<PlatformVersion>(), Ok(version));
    }
}

#[test]
fn identifiers_read_back_and_agree_with_the_outside_crate() {
    for value in [0, 1, u128::MAX, 0x0123_4567_89ab_cdef_0123_4567_89ab_cdef] {
        let text = Uuid::from_u128(value).to_text();
        assert_eq!(text, uuid::Uuid::from_u128(value).hyphenated().to_string());
        assert_eq!(Uuid::parse_str(&text), Some(Uuid::from_u128(value)));
    }
    for text in [
        "aaaaaaaabbbbccccddddeeeeeeeeeeee",
        "{aaaaaaaa-bbbb-cccc-dddd-eeeeeeeeeeee}",
        "urn:uuid:AAAAAAAA-bbbb-cccc-dddd-eeeeeeeeeeee",
        "aaaaaaaa-bbbb-cccc-dddd-eeeeeeeeeee",
        "aaaaaaaa-bbbb-cccc-ddddeeeeeeeeeeeee",
        "gaaaaaaa-bbbb-cccc-dddd-eeeeeeeeeeee",
        "",
    ] {
        let expected = uuid::Uuid::parse_str(text).ok().map(|found| found.as_u128());
        assert_eq!(Uuid::parse_str(text).map(|found| found.as_u128()), expected, "{text}");
    }
    assert!(!Uuid::new_v4().is_nil());
    let text = Uuid::new_v4().to_text();
    assert_eq!(text.as_bytes()[14], b'4', "the version");
    assert!(b"89ab".contains(&text.as_bytes()[19]), "the variant");
}

#[test]
fn moments_agree_with_the_outside_crate() {
    for text in [
        "2026-08-11T10:20:30+03:00",
        "2026-08-11T07:20:30Z",
        "1969-12-31T23:59:59.5-01:30",
        "2000-02-29T00:00:00.123456789Z",
    ] {
        let outside = ok(chrono::DateTime::parse_from_rfc3339(text));
        let found = Timestamp::parse_rfc3339(text).unwrap_or_else(|| panic!("{text}"));
        assert_eq!(
            found.to_text(false),
            outside.to_rfc3339_opts(chrono::SecondsFormat::AutoSi, false)
        );
        assert_eq!(
            found.to_text(true),
            outside.to_rfc3339_opts(chrono::SecondsFormat::AutoSi, true)
        );
    }
    assert!(Timestamp::parse_rfc3339("2026-02-30T00:00:00Z").is_none());
    assert_eq!(
        Timestamp::parse_rfc3339("2026-08-11T10:00:00+03:00"),
        Timestamp::parse_rfc3339("2026-08-11T07:00:00Z")
    );
}
