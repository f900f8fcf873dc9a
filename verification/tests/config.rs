//! The configuration: its validation, its paths and its changes.

use std::fmt::Debug;
use std::path::PathBuf;

use onecadmin::domain::identity::Uuid;
use onecadmin::infrastructure::config::document::{
    check_source, cst_path_key_safe, try_render_cst, yaml_error, yaml_fragment, YamlFailure,
};
use onecadmin::infrastructure::config::error::{ConfigError, ValidationError};
use onecadmin::infrastructure::config::model::{
    AuthConfig, ClusterConfig, Config, DiscoveredCluster, InfobaseAuthConfig, InfobaseAuthOverride,
    LogLevel, Password, RacConfig, RasConfig,
};
use onecadmin::infrastructure::config::path::select_config_path;
use onecadmin::infrastructure::config::store::{
    apply_change, find_cluster_key, lock_file_name, AclProtection, AclProtector, ConfigChange, CstEdit, FormatPreservation, NoopAclProtector, OverrideSelector,
};
use onecadmin::infrastructure::config::update::{
    accept_config, ensure_roundtrip, render_update, same_config,
};

fn ok<T, E: Debug>(result: Result<T, E>) -> T {
    result.unwrap_or_else(|error| panic!("{error:?}"))
}

fn done<T>(result: Result<T, ConfigError>) -> T {
    result.unwrap_or_else(|error| panic!("{}", error.message()))
}

fn cluster() -> ClusterConfig {
    ClusterConfig {
        ras: RasConfig { host: "ras.example.test".to_owned(), port: 1545 },
        discovered_cluster: DiscoveredCluster {
            uuid: Uuid::from_u128(0),
            name: "Development".to_owned(),
            host: "cluster.example.test".to_owned(),
            port: 1541,
        },
        rac: RacConfig::default(),
        cluster_auth: AuthConfig::password("admin", Password::new("secret")),
        infobase_auth: InfobaseAuthConfig::default(),
    }
}

fn with_cluster(alias: &str, value: ClusterConfig) -> Config {
    let mut config = Config::default();
    config.clusters.insert(alias.to_owned(), value);
    config
}

#[test]
fn validates_aliases_case_insensitively() {
    let mut config = with_cluster("Dev", cluster());
    config.clusters.insert("dev".to_owned(), cluster());
    assert!(matches!(config.validate(), Err(ValidationError::DuplicateAlias { .. })));

    let config = with_cluster("bad alias", cluster());
    assert!(matches!(config.validate(), Err(ValidationError::InvalidAlias { .. })));
}

#[test]
fn validates_timeout_ports_schema_and_log_level() {
    let mut config = Config::default();
    config.settings.timeout_seconds = 0;
    assert_eq!(config.validate(), Err(ValidationError::InvalidTimeout));

    let config = Config { schema_version: 2, ..Config::default() };
    assert!(matches!(
        config.validate(),
        Err(ValidationError::UnsupportedSchemaVersion { .. })
    ));

    let mut config = Config::default();
    config.settings.log_level = LogLevel::Unsupported("VERBOSE".to_owned());
    assert!(matches!(config.validate(), Err(ValidationError::InvalidLogLevel { .. })));

    let mut invalid_cluster = cluster();
    invalid_cluster.ras.port = 0;
    let config = with_cluster("dev", invalid_cluster);
    assert!(matches!(config.validate(), Err(ValidationError::InvalidPort { .. })));
}

#[test]
fn rejects_duplicate_override_names_and_uuids() {
    let uuid = Uuid::new_v4();
    let mut value = cluster();
    value.infobase_auth.overrides = vec![
        InfobaseAuthOverride::none("ZUP", Some(uuid)),
        InfobaseAuthOverride::none("zup", None),
    ];
    assert!(matches!(
        with_cluster("dev", value).validate(),
        Err(ValidationError::DuplicateOverrideName { .. })
    ));

    let mut value = cluster();
    value.infobase_auth.overrides = vec![
        InfobaseAuthOverride::none("first", Some(uuid)),
        InfobaseAuthOverride::none("second", Some(uuid)),
    ];
    assert!(matches!(
        with_cluster("dev", value).validate(),
        Err(ValidationError::DuplicateOverrideUuid { .. })
    ));
}

#[test]
fn password_debug_is_redacted() {
    let password = Password::new("do-not-print-me");
    let debug = password.debug_text();
    assert!(!debug.contains(password.expose_secret()));
    assert!(debug.contains("REDACTED"));
}

#[test]
fn override_resolution_prefers_uuid_then_unicode_casefolded_name() {
    let uuid = Uuid::new_v4();
    let auth = InfobaseAuthConfig {
        default: AuthConfig::none(),
        overrides: vec![
            InfobaseAuthOverride::password("Baza", Some(uuid), "uuid-user", Password::new("one")),
            InfobaseAuthOverride::os(
                "Production",
                None,
                "name-user",
                Some("DOMAIN\\user".to_owned()),
            ),
        ],
    };

    let found = |id: Option<Uuid>, name: &str| {
        auth.find_override(id, name).map(|entry| entry.infobase().to_owned())
    };
    assert_eq!(found(Some(uuid), "Production"), Some("Baza".to_owned()));
    assert_eq!(found(None, "production"), Some("Production".to_owned()));
    assert_eq!(found(None, "missing"), None);
}

#[test]
fn path_priority_is_cli_then_environment_then_appdata() {
    let select = |cli: Option<&str>, environment: Option<&str>| {
        PathBuf::from(done(select_config_path(
            cli.map(str::to_owned),
            environment.map(str::to_owned),
            Some("appdata".to_owned()),
        )))
    };
    assert_eq!(select(Some("cli.yaml"), Some("env.yaml")), PathBuf::from("cli.yaml"));
    assert_eq!(select(None, Some("env.yaml")), PathBuf::from("env.yaml"));
    assert_eq!(
        select(None, None),
        PathBuf::from("appdata").join("onecadmin").join("config.yaml")
    );
}

#[test]
fn empty_environment_value_falls_back_to_appdata() {
    let selected =
        done(select_config_path(None, Some(String::new()), Some("appdata".to_owned())));
    assert_eq!(
        PathBuf::from(selected),
        PathBuf::from("appdata").join("onecadmin").join("config.yaml")
    );
    assert!(matches!(
        select_config_path(None, None, None),
        Err(ConfigError::AppDataUnavailable)
    ));
    assert!(matches!(
        select_config_path(Some(String::new()), None, None),
        Err(ConfigError::EmptyConfigPath)
    ));
}

#[test]
fn changes_are_made_to_a_copy() {
    let config = Config::default();
    let (config, edit) = done(apply_change(
        &config,
        ConfigChange::AddCluster { alias: "dev".to_owned(), cluster: cluster() },
    ));
    assert!(matches!(edit, CstEdit::AddCluster { alias } if alias == "dev"));
    assert_eq!(find_cluster_key(&config, "DEV"), Some("dev"));
    let again = apply_change(
        &config,
        ConfigChange::AddCluster { alias: "DEV".to_owned(), cluster: cluster() },
    );
    assert!(matches!(again, Err(ConfigError::ClusterAlreadyExists { .. })));

    let (config, _) = done(apply_change(
        &config,
        ConfigChange::AddOverride {
            cluster: "DEV".to_owned(),
            entry: InfobaseAuthOverride::none("zup_corp", Some(Uuid::new_v4())),
        },
    ));
    assert_eq!(config.clusters["dev"].infobase_auth.overrides.len(), 1);
    let remove = |name: &str| ConfigChange::RemoveOverride {
        cluster: "dev".to_owned(),
        selector: OverrideSelector::by_name(name),
    };
    assert!(matches!(
        apply_change(&config, remove("other")),
        Err(ConfigError::OverrideNotFound { .. })
    ));
    let (config, edit) = done(apply_change(&config, remove("ZUP_CORP")));
    assert!(matches!(edit, CstEdit::RemoveOverride { index: 0, .. }));
    let (config, _) =
        done(apply_change(&config, ConfigChange::RemoveCluster { alias: "DEV".to_owned() }));
    assert!(config.clusters.is_empty());
    assert!(matches!(
        apply_change(&config, ConfigChange::RemoveCluster { alias: "dev".to_owned() }),
        Err(ConfigError::ClusterNotFound { .. })
    ));
}

#[test]
fn targeted_edits_keep_comments() {
    let source = "# keep this comment\nschema_version: 1\nclusters:\n  old:\n    a: 1\n  dev:\n    a: 2\n";
    let edited = try_render_cst(
        source,
        &Config::default(),
        &CstEdit::RemoveCluster { alias: "old".to_owned() },
        None,
        None,
    )
    .unwrap_or_else(|| panic!("the edit is possible"));
    assert!(edited.contains("# keep this comment"));
    assert!(!edited.contains("old:"));
    assert!(edited.contains("dev:"));
    let added = try_render_cst(
        "# keep this comment\nschema_version: 1\nclusters: {}\n",
        &with_cluster("new", cluster()),
        &CstEdit::AddCluster { alias: "new".to_owned() },
        Some("a: 3"),
        Some("new:\n  a: 3"),
    )
    .unwrap_or_else(|| panic!("the edit is possible"));
    assert!(added.contains("# keep this comment"));
    assert!(added.contains("new:"));
    assert!(added.contains("a: 3"));
    assert!(cst_path_key_safe("dev-1_x"));
    assert!(!cst_path_key_safe("prod.eu"));
    assert!(!cst_path_key_safe(""));
    assert_eq!(yaml_fragment("a: 1\r\n\n"), "a: 1");
}

#[test]
fn only_texts_that_read_back_are_written() {
    let desired = with_cluster("dev", cluster());
    let mut reordered = with_cluster("b", cluster());
    reordered.clusters.insert("a".to_owned(), cluster());
    let mut ordered = with_cluster("a", cluster());
    ordered.clusters.insert("b".to_owned(), cluster());
    assert!(same_config(&reordered, &ordered));
    assert!(!same_config(&desired, &Config::default()));

    let edited = Some(("edited".to_owned(), Ok(with_cluster("dev", cluster()))));
    let (text, kept) = done(render_update(edited, &desired, Ok("anew".to_owned())));
    assert_eq!(text, "edited");
    assert!(matches!(kept, FormatPreservation::TargetedCst));
    let stale = Some(("edited".to_owned(), Ok(Config::default())));
    let (text, kept) = done(render_update(stale, &desired, Ok("anew".to_owned())));
    assert_eq!(text, "anew");
    assert!(matches!(kept, FormatPreservation::CanonicalFallback));

    assert!(ensure_roundtrip(Ok(with_cluster("dev", cluster())), &desired).is_ok());
    assert!(matches!(
        ensure_roundtrip(Ok(Config::default()), &desired),
        Err(ConfigError::SerializationInvariant)
    ));
    assert!(accept_config(Config { schema_version: 9, ..Config::default() }).is_err());
}

#[test]
fn diagnostics_of_yaml_name_no_values() {
    let error = yaml_error(&YamlFailure::UnknownField("password".to_owned()), Some((3, 7)));
    assert_eq!(error.detail(), "unknown field `password`");
    assert_eq!(error.line(), Some(3));
    assert_eq!(error.column(), Some(7));
    assert_eq!(yaml_error(&YamlFailure::Syntax, None).detail(), "invalid YAML syntax");
}

#[test]
fn log_levels_are_read_without_regard_to_case() {
    assert_eq!(ok(LogLevel::parse("info")), LogLevel::Info);
    assert!(LogLevel::parse("verbose").is_err());
    assert!(!LogLevel::from_yaml("verbose").is_supported());
}

#[test]
fn the_lock_stands_beside_the_configuration() {
    assert_eq!(lock_file_name(Some("config.yaml")), Ok("config.yaml.lock".to_owned()));
    assert_eq!(lock_file_name(Some("")), Err(ConfigError::EmptyConfigPath));
    assert_eq!(lock_file_name(None), Err(ConfigError::EmptyConfigPath));
}

#[test]
fn files_are_left_as_they_are_without_a_protector() {
    assert!(matches!(
        NoopAclProtector {}.protect_current_user("config.yaml"),
        Ok(AclProtection::NotConfigured)
    ));
}

fn complaint(source: &str) -> String {
    check_source(source).err().map_or_else(String::new, |error| error.detail().to_owned())
}

#[test]
fn the_text_of_a_configuration_is_checked_before_it_is_read() {
    assert!(check_source("schema_version: 1\nsettings:\n  timeout_seconds: 30\n").is_ok());
    assert!(check_source("any: [shape, will, do]\n").is_ok());

    assert_eq!(complaint("a: 1\na: 2\n"), yaml_error(&YamlFailure::RepeatedKey, None).detail());
    assert_eq!(complaint("a: [1, 2\n"), "invalid YAML syntax");
    assert_eq!(
        complaint("a: 1\n---\nb: 2\n"),
        yaml_error(&YamlFailure::MoreThanOneDocument, None).detail()
    );
    assert_eq!(complaint("a: *nowhere\n"), yaml_error(&YamlFailure::Data, None).detail());

    let repeated = check_source("first: 1\nsecond: 2\nfirst: 3\n").err();
    assert_eq!(repeated.and_then(|error| error.line()), Some(3));
}
