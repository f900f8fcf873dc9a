//! What is logged and recorded, and the paths and accounts of the system.

use std::path::PathBuf;

use serde_json::Value;

use onecadmin::bootstrap::{is_to_be_created, redactor_from_config, timeout_seconds};
use onecadmin::domain::identity::Uuid;
use onecadmin::domain::timestamp::Timestamp;
use onecadmin::infrastructure::config::error::ConfigError;
use onecadmin::infrastructure::config::model::{
    AuthConfig, ClusterConfig, Config, DiscoveredCluster, InfobaseAuthConfig, InfobaseAuthOverride,
    Password, RacConfig, RasConfig,
};
use onecadmin::infrastructure::telemetry::audit::{
    audit_line, sanitize_event, AuditContext, AuditEvent, AuditResult, AuditWriteError,
};
use onecadmin::infrastructure::telemetry::audit_actions;
use onecadmin::infrastructure::telemetry::logging::{
    LOG_FILE_COUNT, LOG_FILE_SIZE_BYTES, LoggingError, RedactingBuffer,
};
use onecadmin::infrastructure::telemetry::redaction::{SecretRedactor, REDACTED};
use onecadmin::infrastructure::windows::acl::{
    plan_restriction, protection, restriction_from, AclRestriction, AclRun,
};
use onecadmin::infrastructure::windows::identity::{
    confirm_identity, identities_equal, system_identity, IdentityError, IdentitySource, WindowsIdentity, WindowsIdentityProvider,
};
use onecadmin::infrastructure::windows::paths::{
    APPDATA_ENV, APP_DIRECTORY_NAME, CONFIG_FILE_NAME, LOCALAPPDATA_ENV, LOG_DIRECTORY_NAME, TECHNICAL_LOG_FILE_NAME, default_config_path, default_logs_directory, WindowsPathError, WindowsPaths,
};

fn moment(text: &str) -> Timestamp {
    Timestamp::parse_rfc3339(text).unwrap_or_else(|| panic!("{text}"))
}

#[test]
fn writes_one_complete_utf8_json_line_without_passwords() {
    let redactor = SecretRedactor::with_secrets(&["plain-text-password"]);
    let cluster_uuid = Uuid::new_v4();
    let infobase_uuid = Uuid::new_v4();
    let session_uuid = Uuid::new_v4();
    let event = AuditEvent::new(
        moment("2026-08-11T10:11:12Z"),
        r"DOMAIN\Иванов",
        audit_actions::SESSION_KILL,
        AuditResult::Failure,
    )
    .with_context(AuditContext {
        cluster_alias: Some("prod".to_owned()),
        cluster_uuid: Some(cluster_uuid),
        infobase_name: Some("Зарплата".to_owned()),
        infobase_uuid: Some(infobase_uuid),
        session_uuid: Some(session_uuid),
        connection_uuid: None,
        numeric_id: Some(42),
        message: Some("Причина с переводом\nстроки --password plain-text-password".to_owned()),
        reason: Some("password: plain-text-password".to_owned()),
    })
    .with_error("rac_failed", "rac --cluster-pwd=plain-text-password завершился с ошибкой");

    let bytes = audit_line(&event, &redactor).unwrap_or_else(|error| panic!("{error}"));
    assert_eq!(bytes.iter().filter(|byte| **byte == b'\n').count(), 1);
    assert_eq!(bytes.last(), Some(&b'\n'));
    let text = String::from_utf8(bytes).unwrap_or_else(|error| panic!("{error}"));
    assert!(!text.contains("plain-text-password"));
    assert!(text.contains("[REDACTED]"));

    let value: Value =
        serde_json::from_str(text.trim_end()).unwrap_or_else(|error| panic!("{error}"));
    assert_eq!(value["timestamp"], "2026-08-11T10:11:12Z");
    assert_eq!(value["windows_user"], r"DOMAIN\Иванов");
    assert_eq!(value["action"], audit_actions::SESSION_KILL);
    assert_eq!(value["cluster_alias"], "prod");
    assert_eq!(value["cluster_uuid"], cluster_uuid.to_text());
    assert_eq!(value["infobase_name"], "Зарплата");
    assert_eq!(value["infobase_uuid"], infobase_uuid.to_text());
    assert_eq!(value["session_uuid"], session_uuid.to_text());
    assert_eq!(value["numeric_id"], 42);
    assert_eq!(value["result"], "failure");
    assert_eq!(value["error_code"], "rac_failed");
    assert!(value.get("connection_uuid").is_some());
    assert!(value.get("reason").is_some());
    assert!(value.get("error").is_some());
}

#[test]
fn debug_output_omits_free_form_message_reason_and_error() {
    let mut event =
        AuditEvent::new(moment("2026-08-11T10:11:12Z"), "user", "action", AuditResult::Failure);
    event.context.message = Some("--password secret-one".to_owned());
    event.context.reason = Some("password: secret-two".to_owned());
    event.error = Some("secret-three".to_owned());

    let debug = event.debug_text();
    assert!(!debug.contains("secret-one"));
    assert!(!debug.contains("secret-two"));
    assert!(!debug.contains("secret-three"));
    assert!(debug.starts_with("AuditEvent { timestamp: 2026-08-11T10:11:12Z, windows_user: \"user\""));
}

#[test]
fn sanitizing_keeps_what_is_no_text() {
    let redactor = SecretRedactor::with_secrets(&["swordfish"]);
    let mut event =
        AuditEvent::new(moment("2026-08-11T10:11:12Z"), "swordfish", "act", AuditResult::Partial);
    event.context.numeric_id = Some(7);
    let clean = sanitize_event(&event, &redactor);
    assert_eq!(clean.windows_user, REDACTED);
    assert_eq!(clean.action, "act");
    assert_eq!(clean.context.numeric_id, Some(7));
    assert_eq!(clean.result, AuditResult::Partial);
}

#[test]
fn writer_preserves_utf8_and_redacts_across_write_chunks() {
    let redactor = SecretRedactor::with_secrets(&["секрет"]);
    let mut buffer = RedactingBuffer::new();
    let mut output = buffer.write(&redactor, "Русский текст --password ".as_bytes());
    assert!(output.is_empty());
    output.extend(buffer.write(&redactor, "секрет\nСледующая строка".as_bytes()));
    output.extend(buffer.flush(&redactor));

    let output = String::from_utf8(output).unwrap_or_else(|error| panic!("{error}"));
    assert!(output.contains("Русский текст"));
    assert!(output.contains("Следующая строка"));
    assert!(output.contains(REDACTED));
    assert!(!output.contains("секрет"));
}

#[test]
fn bytes_that_are_no_text_are_replaced() {
    let mut buffer = RedactingBuffer::new();
    let output = buffer.write(&SecretRedactor::new(), &[0x61, 0xff, 0x0a]);
    assert_eq!(output, "a\u{fffd}\n".as_bytes());
}

#[test]
fn rotation_configuration_is_five_ten_mebibyte_files() {
    assert_eq!(LOG_FILE_COUNT, 5);
    assert_eq!(LOG_FILE_SIZE_BYTES, 10 * 1024 * 1024);
}

#[test]
fn redacts_password_flags_and_named_values() {
    let redactor = SecretRedactor::new();
    let input = "rac --cluster-pwd hunter2 --infobase-password=secret password: yaml-secret, JSON=ok, \"password\":\"json-secret\"";

    let output = redactor.redact(input);
    assert!(!output.contains("hunter2"));
    assert!(!output.contains("secret"));
    assert!(!output.contains("yaml-secret"));
    assert!(!output.contains("json-secret"));
    assert!(output.contains(REDACTED));
    assert!(output.contains("JSON=ok"));
}

#[test]
fn redacts_separate_and_inline_argv_passwords() {
    let redactor = SecretRedactor::new();
    let redacted = redactor.redact_argv_lossy(&[
        "rac.exe",
        "--cluster-pwd",
        "very-secret",
        "--infobase-password=also-secret",
        "--port",
        "1545",
    ]);

    assert_eq!(redacted[2], REDACTED);
    assert_eq!(redacted[3], format!("--infobase-password={REDACTED}"));
    assert_eq!(redacted[4], "--port");
    assert_eq!(redacted[5], "1545");
    assert!(!format!("{redacted:?}").contains("very-secret"));
    assert!(!format!("{redacted:?}").contains("also-secret"));
}

#[test]
fn registered_secrets_are_removed_from_errors_and_debug_output() {
    let redactor = SecretRedactor::with_secrets(&["swordfish"]);
    let error = std::io::Error::other("ошибка входа для swordfish");

    assert_eq!(
        redactor.redact(&error.to_string()),
        format!("ошибка входа для {REDACTED}")
    );
    assert!(!redactor.debug_text().contains("swordfish"));
}

#[test]
fn keeps_non_secret_russian_text() {
    let redactor = SecretRedactor::new();
    assert_eq!(
        redactor.redact("Сеанс завершен администратором"),
        "Сеанс завершен администратором"
    );
}

#[test]
fn longer_secrets_are_replaced_first() {
    let mut redactor = SecretRedactor::with_secrets(&["tiger", "tiger-lily", ""]);
    assert_eq!(redactor.secret_count(), 2);
    assert_eq!(redactor.redact("tiger-lily tiger"), format!("{REDACTED} {REDACTED}"));
    assert!(!redactor.register_secret("tiger"));
    redactor.clear_secrets();
    assert_eq!(redactor.redact("tiger"), "tiger");
}

#[test]
fn empty_path_is_a_best_effort_failure() {
    let account = Ok(WindowsIdentity::new(r"DOMAIN\user", IdentitySource::Environment));
    let result = plan_restriction("", true, account, None)
        .err()
        .unwrap_or_else(|| panic!("an empty path has no restriction"));
    assert!(!result.is_applied());
    assert!(matches!(result, AclRestriction::NotApplied { .. }));
}

#[test]
fn a_restriction_is_applied_only_by_a_successful_run() {
    let account = Ok(WindowsIdentity::new(r"DOMAIN\user", IdentitySource::Environment));
    let command = plan_restriction("config.yaml", true, account, Some(r"C:\Windows".to_owned()))
        .unwrap_or_else(|_| panic!("a command"));
    assert!(command.program.to_lowercase().contains("icacls"));
    assert!(command.arguments.iter().any(|argument| argument == "config.yaml"));
    assert!(restriction_from(&AclRun::Finished { success: true, code: Some(0) }).is_applied());
    let failed = restriction_from(&AclRun::Finished { success: false, code: Some(5) });
    assert!(!failed.is_applied());
    assert!(protection(failed).is_err());
    let missing = AclRun::NotStarted { program: "icacls".to_owned(), error: "нет".to_owned() };
    assert!(!restriction_from(&missing).is_applied());
}

struct FixedIdentityProvider(&'static str);

impl WindowsIdentityProvider for FixedIdentityProvider {
    fn current_identity(&self) -> Result<WindowsIdentity, IdentityError> {
        Ok(WindowsIdentity::new(self.0, IdentitySource::Environment))
    }
}

#[test]
fn expected_identity_is_case_insensitive() {
    let provider = FixedIdentityProvider(r"DOMAIN\Ivanov");

    let identity = provider
        .verify_expected(r"domain\IVANOV")
        .unwrap_or_else(|error| panic!("{}", error.message()));
    assert_eq!(identity.as_os_str(), r"DOMAIN\Ivanov");
}

#[test]
fn mismatch_error_names_expected_and_actual_accounts() {
    let provider = FixedIdentityProvider(r"DOMAIN\actual");

    let error = provider
        .verify_expected(r"DOMAIN\expected")
        .err()
        .unwrap_or_else(|| panic!("another account"));
    let message = error.message();
    assert!(message.contains(r"DOMAIN\expected"));
    assert!(message.contains(r"DOMAIN\actual"));
    assert!(provider.verify_expected("").is_err());
}

#[test]
fn the_account_is_told_by_the_system_or_the_environment() {
    let name = |api: Option<&str>, domain: Option<&str>, user: Option<&str>| {
        system_identity(
            api.map(str::to_owned),
            domain.map(str::to_owned),
            user.map(str::to_owned),
        )
        .ok()
        .map(|found| found.into_os_string())
    };
    assert_eq!(name(Some("A\\b"), Some("C"), Some("d")), Some("A\\b".to_owned()));
    assert_eq!(name(None, Some("C"), Some("d")), Some("C\\d".to_owned()));
    assert_eq!(name(None, None, Some("d")), Some("d".to_owned()));
    assert_eq!(name(None, None, None), None);
}

#[test]
fn builds_specified_default_paths() {
    let roaming = PathBuf::from("profile").join("roaming");
    let local = PathBuf::from("profile").join("local");
    let paths =
        WindowsPaths::from_roots(&roaming.to_string_lossy(), &local.to_string_lossy());

    assert_eq!(
        PathBuf::from(paths.config_file()),
        roaming.join(APP_DIRECTORY_NAME).join(CONFIG_FILE_NAME)
    );
    assert_eq!(
        PathBuf::from(paths.logs_directory()),
        local.join(APP_DIRECTORY_NAME).join(LOG_DIRECTORY_NAME)
    );
    assert_eq!(
        PathBuf::from(paths.technical_log_file()),
        local.join(APP_DIRECTORY_NAME).join(LOG_DIRECTORY_NAME).join(TECHNICAL_LOG_FILE_NAME)
    );
}

#[test]
fn reports_missing_and_empty_environment_roots() {
    assert_eq!(
        WindowsPaths::from_environment_values(None, Some("local".to_owned())).err(),
        Some(WindowsPathError::MissingEnvironmentVariable { variable: APPDATA_ENV })
    );
    assert_eq!(
        WindowsPaths::from_environment_values(Some("roaming".to_owned()), Some(String::new()))
            .err(),
        Some(WindowsPathError::EmptyEnvironmentVariable { variable: LOCALAPPDATA_ENV })
    );
}

#[test]
fn every_configured_password_is_registered_before_logging() {
    let mut config = Config::default();
    config.clusters.insert(
        "dev".to_owned(),
        ClusterConfig {
            ras: RasConfig { host: "ras.local".to_owned(), port: 1545 },
            discovered_cluster: DiscoveredCluster {
                uuid: Uuid::from_u128(1),
                name: "cluster".to_owned(),
                host: "cluster.local".to_owned(),
                port: 1541,
            },
            rac: RacConfig::default(),
            cluster_auth: AuthConfig::password("admin", Password::new("cluster-secret")),
            infobase_auth: InfobaseAuthConfig {
                default: AuthConfig::password("admin", Password::new("base-secret")),
                overrides: vec![InfobaseAuthOverride::password(
                    "Accounting",
                    None,
                    "admin",
                    Password::new("override-secret"),
                )],
            },
        },
    );

    let redactor = redactor_from_config(&config);
    let rendered = redactor.redact("cluster-secret base-secret override-secret обычный-текст");
    assert!(!rendered.contains("cluster-secret"));
    assert!(!rendered.contains("base-secret"));
    assert!(!rendered.contains("override-secret"));
    assert!(rendered.contains("обычный-текст"));
}

#[test]
fn settings_are_chosen_before_a_command_runs() {
    let config = Config::default();
    assert_eq!(timeout_seconds(None, &config), config.settings.timeout_seconds);
    assert_eq!(timeout_seconds(Some(5), &config), 5);
    assert!(is_to_be_created(&ConfigError::NotFound { path: "a".to_owned() }));
    assert!(!is_to_be_created(&ConfigError::EmptyConfigPath));
}

#[test]
fn failures_of_the_log_are_told() {
    let missing = WindowsPathError::MissingEnvironmentVariable { variable: "APPDATA" };
    let cases = [
        (
            LoggingError::WindowsPath { error: missing },
            "не удалось определить каталог технического лога: переменная окружения Windows APPDATA не задана",
        ),
        (
            LoggingError::CreateDirectory { path: "logs".to_owned(), source: "denied".to_owned() },
            "не удалось создать каталог технического лога \"logs\": denied",
        ),
        (
            LoggingError::OpenLog { path: "logs/a.log".to_owned(), source: "denied".to_owned() },
            "не удалось открыть технический лог \"logs/a.log\": denied",
        ),
        (
            LoggingError::InvalidFilter { filter: "a=b=c".to_owned(), details: "bad".to_owned() },
            "некорректный фильтр уровня технического лога \"a=b=c\": bad",
        ),
        (
            LoggingError::InstallSubscriber { details: "twice".to_owned() },
            "не удалось установить глобальный tracing subscriber: twice",
        ),
    ];
    for (error, expected) in cases {
        assert_eq!(error.message(), expected);
    }
}

#[test]
fn failures_of_the_journal_are_told() {
    let empty = WindowsPathError::EmptyEnvironmentVariable { variable: "LOCALAPPDATA" };
    let cases = [
        (
            AuditWriteError::WindowsPath { error: empty },
            "не удалось определить путь аудита: переменная окружения Windows LOCALAPPDATA содержит пустой путь",
        ),
        (
            AuditWriteError::InvalidPath { path: "audit.jsonl".to_owned() },
            "путь файла аудита не содержит каталога: \"audit.jsonl\"",
        ),
        (
            AuditWriteError::Serialize { reason: "bad".to_owned() },
            "не удалось сериализовать событие аудита: bad",
        ),
        (
            AuditWriteError::Io {
                operation: "открыть",
                path: "logs/audit.jsonl".to_owned(),
                source: "denied".to_owned(),
            },
            "не удалось открыть файл аудита \"logs/audit.jsonl\": denied",
        ),
    ];
    for (error, expected) in cases {
        assert_eq!(error.message(), expected);
    }
}

#[test]
fn default_paths_need_both_roots() {
    let roaming = Some("roaming".to_owned());
    let local = Some("local".to_owned());
    let config: PathBuf = ["roaming", "onecadmin", "config.yaml"].iter().collect();
    let logs: PathBuf = ["local", "onecadmin", "logs"].iter().collect();
    assert_eq!(
        default_config_path(roaming.clone(), local.clone()),
        Ok(config.to_string_lossy().into_owned())
    );
    assert_eq!(
        default_logs_directory(roaming.clone(), local),
        Ok(logs.to_string_lossy().into_owned())
    );
    assert_eq!(
        default_config_path(roaming, None),
        Err(WindowsPathError::MissingEnvironmentVariable { variable: "LOCALAPPDATA" })
    );
    assert_eq!(
        default_logs_directory(None, None),
        Err(WindowsPathError::MissingEnvironmentVariable { variable: "APPDATA" })
    );
}

#[test]
fn events_are_recorded_under_the_current_account() {
    let at = moment("2026-08-11T10:11:12Z");
    let event = AuditEvent::for_current_user(
        at,
        &FixedIdentityProvider(r"DOMAIN\Иванов"),
        audit_actions::CLUSTER_ADD,
        AuditResult::Success,
    )
    .unwrap_or_else(|error| panic!("{}", error.message()));
    assert_eq!(event.windows_user, r"DOMAIN\Иванов");
    assert_eq!(event.action, audit_actions::CLUSTER_ADD);
    assert_eq!(event.timestamp, at);
    assert!(event.error.is_none() && event.context.cluster_alias.is_none());

    let unknown = IdentityError::IdentityUnavailable { details: "нет".to_owned() };
    let failure = AuditEvent::by_account(at, Err(unknown), "action", AuditResult::Success).err();
    assert!(matches!(failure, Some(IdentityError::IdentityUnavailable { .. })));
}

#[test]
fn an_account_is_confirmed_by_its_name() {
    let account = || Ok(WindowsIdentity::new("ΟΔΟΣ", IdentitySource::WindowsApi));
    assert!(confirm_identity("οδοσ", account(), Some(true)).is_ok());
    assert!(matches!(
        confirm_identity("ΟΔΟΣ", account(), Some(false)),
        Err(IdentityError::IdentityMismatch { .. })
    ));
    assert!(matches!(
        confirm_identity("", account(), Some(true)),
        Err(IdentityError::EmptyExpectedIdentity)
    ));
    assert!(confirm_identity("οδος", account(), None).is_ok());
    assert!(confirm_identity("οδοσ", account(), None).is_err());
    assert!(identities_equal("DOMAIN\\Ivanov", "domain\\IVANOV", None));
    assert!(!identities_equal("DOMAIN\\Ivanov", "domain\\IVANOV", Some(false)));
}

struct OrdinalProvider;

impl WindowsIdentityProvider for OrdinalProvider {
    fn current_identity(&self) -> Result<WindowsIdentity, IdentityError> {
        Ok(WindowsIdentity::new("ΟΔΟΣ", IdentitySource::WindowsApi))
    }

    fn compare_by_system(&self, actual: &str, expected: &str) -> Option<bool> {
        Some(actual.len() == expected.len())
    }
}

#[test]
fn the_comparison_of_the_system_decides_where_it_has_one() {
    assert!(OrdinalProvider.verify_expected("οδοσ").is_ok());
    assert!(OrdinalProvider.verify_expected("οδος, но длиннее").is_err());
    assert!(FixedIdentityProvider("ΟΔΟΣ").verify_expected("οδοσ").is_err());
}

#[test]
fn a_secret_of_the_letters_of_the_marker_is_gone() {
    let redactor = SecretRedactor::with_secrets(&["TRACED", "CAT", "DEAD"]);
    let shown = redactor.redact("TRACED and CAT are DEAD: TRACEDCAT");
    for secret in ["TRACED", "CAT", "DEAD"] {
        assert!(!shown.contains(secret), "{shown}");
    }
    assert_eq!(shown, format!("{REDACTED} and {REDACTED} are {REDACTED}: {REDACTED}{REDACTED}"));
}
