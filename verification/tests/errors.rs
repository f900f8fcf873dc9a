//! Every error, with an input that gives it and the text that the operator reads.

use onecadmin::application::ports::{config_error, PortErrorKind};
use onecadmin::cli::grid::OutputError;
use onecadmin::domain::auth::AuthConfig;
use onecadmin::domain::error::DomainError;
use onecadmin::domain::fields::{FieldRegistry, SortKey};
use onecadmin::domain::identity::{
    ClusterUuid, ConnectionUuid, InfobaseUuid, ProcessUuid, SessionUuid, Uuid,
};
use onecadmin::domain::kill::{ConnectionKillPlan, SessionKillPlan, SnapshotId};
use onecadmin::domain::mask::SqlMask;
use onecadmin::domain::model::{
    ClusterSource, ConnectionRecord, InfobaseAuthOverride, InfobaseAuthPolicy, RecordKind,
    SessionRecord,
};
use onecadmin::domain::query::{Filter, Projection, QueryEngine, QuerySpec, Top};
use onecadmin::domain::value::{ClusterAlias, RasEndpoint};
use onecadmin::domain::version::PlatformVersion;
use onecadmin::infrastructure::config::error::{
    AclError, ConfigError, SafeYamlError, ValidationError,
};
use onecadmin::infrastructure::config::model::{
    AuthConfig as StoredAuth, ClusterConfig, Config, DiscoveredCluster, InfobaseAuthConfig,
    InfobaseAuthOverride as StoredOverride, LogLevel, Password, RacConfig, RacVersion, RasConfig,
};
use onecadmin::infrastructure::config::path::select_config_path;
use onecadmin::infrastructure::config::store::{apply_change, ConfigChange, OverrideSelector};
use onecadmin::infrastructure::rac::error::{classify_diagnostic, RacError, RacErrorKind};
use onecadmin::infrastructure::rac::parser::{parse_rac_records, RacParseErrorKind};
use onecadmin::infrastructure::rac::process::{
    IoFailure, ProcessIoStage, RacArguments, RacProcessError, RedactedInvocation,
};
use onecadmin::infrastructure::windows::identity::IdentityError;

fn refused<T>(result: Result<T, DomainError>, code: &str, message: &str) {
    match result {
        Ok(_) => panic!("accepted where `{code}` is due"),
        Err(error) => {
            assert_eq!(error.code(), code);
            assert_eq!(error.message(), message);
        }
    }
}

fn source() -> ClusterSource {
    ClusterSource::new(
        ClusterAlias::new("dev").unwrap_or_else(|error| panic!("{}", error.message())),
        ClusterUuid::new(Uuid::from_u128(1)),
        "Development",
        RasEndpoint::new("ras.local", 1545).unwrap_or_else(|error| panic!("{}", error.message())),
    )
}

#[test]
fn values_that_are_refused() {
    refused(
        ClusterAlias::new(""),
        "invalid_cluster_alias",
        "Некорректный alias кластера ``: alias не может быть пустым",
    );
    refused(
        PlatformVersion::parse("8.3.25"),
        "invalid_platform_version",
        "Некорректная версия платформы `8.3.25`: ожидаются четыре числовых компонента",
    );
    refused(SessionUuid::parse("17"), "invalid_uuid", "Некорректный session UUID `17`");
    assert!(matches!(
        RasEndpoint::parse("ras.local"),
        Err(DomainError::InvalidRasEndpoint { .. })
    ));
    assert!(matches!(
        AuthConfig::password("", onecadmin::domain::auth::SecretString::new("x")),
        Err(DomainError::InvalidAuth { .. })
    ));
    assert!(matches!(
        InfobaseAuthOverride::new(None, None, AuthConfig::none()),
        Err(DomainError::InvalidAuthOverride { .. })
    ));
    let by_name = || {
        InfobaseAuthOverride::new(Some("zup".to_owned()), None, AuthConfig::none())
            .unwrap_or_else(|error| panic!("{}", error.message()))
    };
    assert!(matches!(
        InfobaseAuthPolicy::new(AuthConfig::none(), vec![by_name(), by_name()]),
        Err(DomainError::InvalidAuthOverride { .. })
    ));
    refused(
        SqlMask::parse("ab\\c"),
        "invalid_mask",
        "Некорректная маска в позиции 2: escape `\\c` не поддерживается; разрешены \\%, \\_ и \\\\",
    );
    refused(
        SqlMask::parse("да\\"),
        "invalid_mask",
        "Некорректная маска в позиции 4: обратная косая черта без экранируемого символа",
    );
}

#[test]
fn queries_that_are_refused() {
    let registry = FieldRegistry::new();
    let filter = |input: &str| Filter::parse(input, RecordKind::Session, &registry);
    assert!(matches!(filter("host"), Err(DomainError::InvalidFilterSyntax { .. })));
    refused(
        filter("host:about:x"),
        "unknown_filter_operator",
        "Неизвестный оператор фильтра `about`",
    );
    refused(filter("nope:eq:x"), "unknown_field", "Неизвестное каноническое поле `nope`");
    refused(
        filter("conn_id:eq:1"),
        "field_not_applicable",
        "Поле `conn_id` неприменимо к записям типа `session`",
    );
    refused(
        filter("session_id:like:1%"),
        "operator_not_allowed",
        "Оператор `like` недоступен для поля `session_id`",
    );
    assert!(matches!(
        filter("session_id:eq:one"),
        Err(DomainError::InvalidFieldValue { .. })
    ));
    refused(
        SortKey::parse("host", RecordKind::Session, &registry),
        "invalid_sort",
        "Некорректная сортировка `host`: ожидается формат field:asc или field:desc",
    );
    refused(
        Top::parse("0"),
        "invalid_top",
        "Некорректное значение top `0`: ожидается положительное целое число",
    );
    assert!(matches!(
        Projection::parse(Some("host,host"), RecordKind::Session, &registry),
        Err(DomainError::InvalidProjection { .. })
    ));
    let query = QuerySpec::new(RecordKind::Connection, &registry)
        .unwrap_or_else(|error| panic!("{}", error.message()));
    let record = SessionRecord::new(source(), SessionUuid::new(Uuid::from_u128(2)));
    refused(
        QueryEngine::new().execute(vec![record], Vec::new(), 1, &query),
        "record_kind_mismatch",
        "Запрос типа `connection` получил запись типа `session`",
    );
    assert_eq!(
        DomainError::FieldNotSortable { field: "x".to_owned() }.message(),
        "Поле `x` не поддерживает сортировку"
    );
}

#[test]
fn plans_that_are_refused() {
    let snapshot = SnapshotId::new(Uuid::from_u128(7));
    refused(
        SessionKillPlan::from_records(snapshot, &[], None),
        "empty_kill_plan",
        "План разрушительной операции не может быть пустым",
    );
    let session = || SessionRecord::new(source(), SessionUuid::new(Uuid::from_u128(2)));
    refused(
        SessionKillPlan::from_records(snapshot, &[session(), session()], None),
        "duplicate_kill_target",
        "Снимок содержит повторяющуюся цель разрушительной операции",
    );
    let connection = ConnectionRecord::new(
        source(),
        ConnectionUuid::new(Uuid::from_u128(3)),
        ProcessUuid::new(Uuid::from_u128(4)),
    );
    refused(
        ConnectionKillPlan::from_records(snapshot, &[connection]),
        "missing_kill_identity",
        "В записи отсутствует обязательный идентификатор для разрушительной операции: infobase_uuid",
    );
    let mut found = ConnectionRecord::new(
        source(),
        ConnectionUuid::new(Uuid::from_u128(3)),
        ProcessUuid::new(Uuid::from_u128(4)),
    );
    found.infobase_uuid = Some(InfobaseUuid::new(Uuid::from_u128(5)));
    assert!(ConnectionKillPlan::from_records(snapshot, &[found]).is_ok());
}

fn cluster() -> ClusterConfig {
    ClusterConfig {
        ras: RasConfig { host: "ras.local".to_owned(), port: 1545 },
        discovered_cluster: DiscoveredCluster {
            uuid: Uuid::from_u128(1),
            name: "Development".to_owned(),
            host: "cluster.local".to_owned(),
            port: 1541,
        },
        rac: RacConfig::default(),
        cluster_auth: StoredAuth::none(),
        infobase_auth: InfobaseAuthConfig::default(),
    }
}

fn invalid(change: impl FnOnce(&mut ClusterConfig)) -> String {
    let mut value = cluster();
    change(&mut value);
    let mut config = Config::default();
    config.clusters.insert("dev".to_owned(), value);
    match config.validate() {
        Ok(()) => panic!("a bad cluster was accepted"),
        Err(error) => error.message(),
    }
}

#[test]
fn clusters_that_are_invalid() {
    assert_eq!(
        invalid(|value| value.ras.host = String::new()),
        "clusters.dev.ras.host must not be empty"
    );
    assert_eq!(
        invalid(|value| value.ras.port = 0),
        "clusters.dev.ras.port must be in the range 1..=65535"
    );
    assert_eq!(
        invalid(|value| value.discovered_cluster.host = String::new()),
        "clusters.dev.discovered_cluster.host must not be empty"
    );
    assert_eq!(
        invalid(|value| value.discovered_cluster.port = 0),
        "clusters.dev.discovered_cluster.port must be in the range 1..=65535"
    );
    assert_eq!(
        invalid(|value| value.rac.path = Some(String::new())),
        "clusters.dev.rac.path must not be an empty path"
    );
    assert_eq!(
        invalid(|value| value.rac.version = RacVersion::Exact("8.2.1.1".to_owned())),
        "invalid RAC version `8.2.1.1` in clusters.dev.rac.version; expected `auto` or 8.3.20+"
    );
    assert_eq!(
        invalid(|value| value.cluster_auth = StoredAuth::password("", Password::new("x"))),
        "clusters.dev.cluster_auth.user must not be empty"
    );
    assert_eq!(
        invalid(|value| value.cluster_auth = StoredAuth::password("x", Password::new(""))),
        "clusters.dev.cluster_auth.password must not be empty"
    );
    assert_eq!(
        invalid(|value| value.infobase_auth.default = StoredAuth::os("x", Some(String::new()))),
        "clusters.dev.infobase_auth.default.os_user must not be empty"
    );
    let uuid = Uuid::from_u128(9);
    assert_eq!(
        invalid(|value| value.infobase_auth.overrides = vec![
            StoredOverride::none("ZUP", None),
            StoredOverride::none("zup", None),
        ]),
        "duplicate infobase override name `zup` in cluster `dev` at indexes 0 and 1"
    );
    assert_eq!(
        invalid(|value| value.infobase_auth.overrides = vec![
            StoredOverride::none("one", Some(uuid)),
            StoredOverride::none("two", Some(uuid)),
        ]),
        "duplicate infobase override UUID `00000000-0000-0000-0000-000000000009` in cluster `dev` at indexes 0 and 1"
    );
}

#[test]
fn configurations_that_are_invalid() {
    let message = |config: Config| match config.validate() {
        Ok(()) => panic!("a bad configuration was accepted"),
        Err(error) => error.message(),
    };
    assert_eq!(
        message(Config { schema_version: 2, ..Config::default() }),
        "unsupported schema_version 2; expected 1"
    );
    let mut config = Config::default();
    config.settings.timeout_seconds = 0;
    assert_eq!(message(config), "settings.timeout_seconds must be greater than zero");
    let mut config = Config::default();
    config.settings.log_level = LogLevel::Unsupported("VERBOSE".to_owned());
    assert_eq!(
        message(config),
        "unsupported settings.log_level `VERBOSE`; use TRACE, DEBUG, INFO, WARN, or ERROR"
    );
    let mut config = Config::default();
    config.settings.rac_path = Some(String::new());
    assert_eq!(message(config), "settings.rac_path must not be an empty path");
    let mut config = Config::default();
    config.clusters.insert("a b".to_owned(), cluster());
    assert_eq!(
        message(config),
        "invalid cluster alias `a b`; allowed characters are ASCII letters, digits, '.', '_', '-', and ':'"
    );
    let mut config = Config::default();
    config.clusters.insert("Dev".to_owned(), cluster());
    config.clusters.insert("dev".to_owned(), cluster());
    assert_eq!(message(config), "cluster aliases `Dev` and `dev` are equal ignoring ASCII case");
}

#[test]
fn failures_of_the_configuration_are_told() {
    let path = || "config.yaml".to_owned();
    let cases = [
        (ConfigError::EmptyConfigPath, "configuration path is empty"),
        (
            ConfigError::AppDataUnavailable,
            "APPDATA is not set; pass --config or set ONECADMIN_CONFIG",
        ),
        (
            ConfigError::NotFound { path: path() },
            "configuration file does not exist: \"config.yaml\"",
        ),
        (
            ConfigError::AlreadyExists { path: path() },
            "configuration file already exists: \"config.yaml\"",
        ),
        (
            ConfigError::Io { action: "read", path: path(), source: "denied".to_owned() },
            "cannot read \"config.yaml\": denied",
        ),
        (
            ConfigError::Lock { mode: "shared", path: path(), source: "busy".to_owned() },
            "cannot acquire shared configuration lock \"config.yaml\": busy",
        ),
        (
            ConfigError::Yaml {
                path: path(),
                diagnostic: SafeYamlError::new("invalid YAML syntax", Some((3, 7))),
            },
            "invalid YAML configuration \"config.yaml\": invalid YAML syntax at line 3, column 7",
        ),
        (
            ConfigError::Validation { problem: ValidationError::InvalidTimeout },
            "settings.timeout_seconds must be greater than zero",
        ),
        (ConfigError::Serialization, "cannot serialize validated configuration"),
        (
            ConfigError::SerializationInvariant,
            "serialized configuration did not pass its own schema validation",
        ),
        (
            ConfigError::Acl { path: path(), source: AclError::new("no account") },
            "cannot protect temporary configuration \"config.yaml\" for the current user: no account",
        ),
        (
            ConfigError::AtomicReplace { path: path(), source: "denied".to_owned() },
            "cannot atomically replace configuration \"config.yaml\": denied",
        ),
    ];
    for (error, expected) in cases {
        assert_eq!(error.message(), expected);
    }
    assert_eq!(
        select_config_path(Some(String::new()), None, None),
        Err(ConfigError::EmptyConfigPath)
    );
    assert_eq!(select_config_path(None, None, None), Err(ConfigError::AppDataUnavailable));
}

#[test]
fn changes_that_are_refused() {
    let mut config = Config::default();
    config.clusters.insert("Dev".to_owned(), cluster());
    let refused = |change: ConfigChange| match apply_change(&config, change) {
        Ok(_) => panic!("a bad change was made"),
        Err(error) => error,
    };
    let taken = refused(ConfigChange::AddCluster { alias: "dev".to_owned(), cluster: cluster() });
    assert_eq!(taken.message(), "cluster `dev` already exists as `Dev`");
    assert_eq!(config_error(&taken).kind, PortErrorKind::Conflict);
    let unknown = refused(ConfigChange::RemoveCluster { alias: "prod".to_owned() });
    assert_eq!(unknown.message(), "cluster `prod` was not found");
    assert_eq!(config_error(&unknown).kind, PortErrorKind::NotFound);
    let absent = refused(ConfigChange::RemoveOverride {
        cluster: "DEV".to_owned(),
        selector: OverrideSelector::by_name("zup"),
    });
    assert_eq!(absent.message(), "infobase override `zup` was not found in cluster `Dev`");
    assert_eq!(config_error(&absent).code, "credential_override_not_found");
    assert_eq!(
        config_error(&ConfigError::NotFound { path: "a".to_owned() }).code,
        "config_not_found"
    );
    assert_eq!(
        config_error(&ConfigError::Validation { problem: ValidationError::InvalidTimeout }).code,
        "invalid_config"
    );
    assert_eq!(config_error(&ConfigError::Serialization).code, "config_io_failed");
}

#[test]
fn output_that_cannot_be_read() {
    let failure = |text: &str| match parse_rac_records(text) {
        Ok(_) => panic!("bad output was read"),
        Err(error) => (error.line(), error.kind()),
    };
    assert_eq!(failure("name : a\nbroken"), (2, RacParseErrorKind::MissingSeparator));
    assert_eq!(failure(" : a"), (1, RacParseErrorKind::EmptyKey));
    assert_eq!(
        failure("user-name : a\nuser_name : b"),
        (2, RacParseErrorKind::DuplicateNormalizedKey)
    );
}

#[test]
fn failures_of_the_utility_are_told_apart() {
    let kinds = [
        (RacErrorKind::ProtocolIncompatible, true),
        (RacErrorKind::NotFound, false),
        (RacErrorKind::UnsupportedVersion, false),
        (RacErrorKind::Dns, false),
        (RacErrorKind::ConnectionRefused, false),
        (RacErrorKind::Timeout, false),
        (RacErrorKind::Auth, false),
        (RacErrorKind::CommandSyntax, false),
        (RacErrorKind::Parse, false),
        (RacErrorKind::Cancelled, false),
        (RacErrorKind::Unknown, false),
    ];
    let mut codes: Vec<&str> = Vec::new();
    for (kind, falls_back) in kinds {
        let error = RacError::new(kind);
        assert_eq!(error.kind(), kind);
        assert_eq!(error.allows_version_fallback(), falls_back);
        assert!(!codes.contains(&error.code()));
        codes.push(error.code());
    }
    assert_eq!(classify_diagnostic("nothing that is known"), RacErrorKind::Unknown);
}

#[test]
fn failures_of_processes_are_told() {
    let invocation = || RedactedInvocation::new("rac", &RacArguments::plain(&["cluster", "list"]));
    let failed = RacProcessError::Io {
        stage: ProcessIoStage::Spawn,
        failure: IoFailure::new("NotFound", Some(2)),
        invocation: invocation(),
    };
    assert_eq!(
        failed.to_text(),
        format!(
            "ошибка запуска RAC (Spawn, NotFound, OS Some(2)): {}",
            invocation().to_text()
        )
    );
    assert_eq!(failed.io_kind(), Some("NotFound"));
    assert_eq!(RacError::from_process(&failed).kind(), RacErrorKind::NotFound);
    let late = RacProcessError::Timeout { invocation: invocation() };
    assert_eq!(
        late.to_text(),
        format!("превышено время ожидания RAC: {}", invocation().to_text())
    );
    assert!(late.is_timeout() && !late.is_cancelled());
    assert_eq!(RacError::from_process(&late).kind(), RacErrorKind::Timeout);
    let cancelled = RacProcessError::Cancelled { invocation: invocation() };
    assert_eq!(
        cancelled.to_text(),
        format!("вызов RAC отменен: {}", invocation().to_text())
    );
    assert!(cancelled.is_cancelled() && !cancelled.is_timeout());
    assert_eq!(RacError::from_process(&cancelled).kind(), RacErrorKind::Cancelled);
}

#[test]
fn failures_of_identity_and_output_are_told() {
    assert_eq!(
        IdentityError::EmptyExpectedIdentity.message(),
        "ожидаемая учетная запись Windows (os_user) не может быть пустой"
    );
    assert_eq!(
        IdentityError::IdentityMismatch { expected: "a".to_owned(), actual: "b".to_owned() }
            .message(),
        "текущая учетная запись Windows не совпадает с ожидаемой: ожидалась a, процесс запущен от b"
    );
    assert_eq!(
        IdentityError::IdentityUnavailable { details: "нет".to_owned() }.message(),
        "не удалось определить текущую учетную запись Windows: USERDOMAIN/USERNAME отсутствуют или неполны; нет"
    );
    assert_ne!(
        OutputError::Json("x".to_owned()).message(),
        OutputError::Csv("x".to_owned()).message()
    );
    assert!(OutputError::Io("x".to_owned()).message().ends_with('x'));
}

#[test]
fn diagnostics_are_classified_alike_before_and_after_folding() {
    for diagnostic in [
        "Администратор НЕ Аутентифицирован, ещё раз",
        "CONNECTION REFUSED",
        "Узёл не найден",
        "Timed Out while connecting; access denied",
        "nothing that is known",
    ] {
        let folded = diagnostic.to_lowercase().replace('ё', "е");
        let kind = classify_diagnostic(diagnostic);
        assert_eq!(classify_diagnostic(&folded), kind, "{diagnostic}");
        assert_ne!(kind, RacErrorKind::Parse);
        assert_ne!(kind, RacErrorKind::Cancelled);
    }
    assert_eq!(classify_diagnostic("Узёл не найден"), RacErrorKind::Dns);
    assert_eq!(
        classify_diagnostic("access denied: timed out"),
        RacErrorKind::Timeout,
        "the first kind wins"
    );
}

#[test]
fn lower_case_is_settled() {
    let all: String = (char::MIN..=char::MAX).collect();
    let once = all.to_lowercase();
    assert_eq!(once.to_lowercase(), once);
    for c in once.chars() {
        let alone = c.to_string();
        assert_eq!(alone.to_lowercase(), alone);
    }
    for c in ('a'..='z').chain('а'..='я').chain(['ё']) {
        let alone = c.to_string();
        assert_eq!(alone.to_lowercase(), alone);
    }
    for c in '\0'..='\x7f' {
        assert_eq!(c.to_string().to_lowercase(), c.to_ascii_lowercase().to_string());
    }
}
