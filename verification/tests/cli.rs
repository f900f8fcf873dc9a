//! The command line: arguments, requests, confirmations and output.

use std::fmt::Debug;
use std::io::{BufRead, Cursor};

use serde_json::Value;

use onecadmin::application::clusters::ClusterRemoveOutcome;
use onecadmin::application::error::{AppError, AppErrorCategory, AppExitCode, ExitCodePolicy};
use onecadmin::application::outcome::{ActionError, ActionItemOutcome, ActionOutcome, Approval};
use onecadmin::cli::actions::{
    action_exit_code, connection_kill_prompt, connection_preview_projection,
    finish_process_kill, finish_session_kill, process_kill_prompt, process_preview_projection,
    render_connection_action, render_session_action, sanitize_action_outcome, session_kill_prompt,
    session_preview_projection, SESSION_PREVIEW_LABEL,
};
use onecadmin::cli::args::{
    parse_secret, parse_timeout, parse_top, render_parse_error, AuthModeArg, Cli, CliCommand,
    ClusterAddArgs, ClusterCommand, ConnectionCommand, ConnectionKillArgs, ConnectionSelectors,
    InfobaseCommand, InfobaseSearchArgs, OutputFormat, ProcessKillArgs, ProcessSelectors, QueryOptions, SessionCommand, SessionKillArgs,
    SessionListArgs, SessionSelectors,
};
use onecadmin::cli::cells::{
    format_bytes, format_microseconds, format_milliseconds, format_seconds, TableCell,
};
use onecadmin::cli::confirm::{confirm_with_io, Confirmation};
use onecadmin::cli::dispatch::{
    begin_run, cluster_removal_preview, cluster_removal_prompt, command_required,
    finish_cluster_removal, finish_run, redactor_for_cli, render_action_output, render_app_error, render_cluster_mutation,
    render_preview, render_query, request_approval, sanitize_target_errors, CliRunResult,
    DispatchFailure,
};
use onecadmin::cli::grid::{Document, OutputError};
use onecadmin::cli::output::{
    render_errors_for_stderr, table_cells, OutputRenderer, RenderedOutput,
};
use onecadmin::cli::requests::{
    base_query_spec, build_cluster_add_request, build_connection_kill_request,
    build_infobase_request, build_process_kill_request, build_process_list_request,
    build_session_kill_request, build_session_list_request,
};
use onecadmin::domain::auth::{AuthConfig, SecretString};
use onecadmin::domain::fields::FieldRegistry;
use onecadmin::domain::identity::{
    ClusterUuid, ConnectionUuid, InfobaseUuid, ProcessUuid, SessionUuid, Uuid,
};
use onecadmin::domain::kill::{ConnectionKillTarget, ProcessKillTarget, SessionKillTarget};
use onecadmin::domain::model::{
    ClusterSource, ClusterTarget, DiscoveredCluster, InfobaseAuthPolicy, RacPolicy, RecordKind,
    SessionRecord,
};
use onecadmin::domain::outcome::{QueryOutcome, TargetError, TargetErrorKind};
use onecadmin::domain::query::{Projection, Top};
use onecadmin::domain::timestamp::Timestamp;
use onecadmin::domain::value::ClusterAlias;
use onecadmin::infrastructure::telemetry::redaction::{SecretRedactor, REDACTED};
use onecadmin::json::JsonScalar;

fn ok<T, E: Debug>(result: Result<T, E>) -> T {
    result.unwrap_or_else(|error| panic!("{error:?}"))
}

fn failed<T, E>(result: Result<T, E>) -> E {
    result.err().unwrap_or_else(|| panic!("a failure was expected"))
}

fn text(bytes: &[u8]) -> String {
    ok(String::from_utf8(bytes.to_vec()))
}

fn json(bytes: &[u8]) -> Value {
    ok(serde_json::from_slice(bytes))
}

fn some(value: &str) -> Option<String> {
    Some(value.to_owned())
}

fn options() -> QueryOptions {
    QueryOptions { filter: Vec::new(), sort: Vec::new(), top: None, columns: None }
}

fn session_selectors() -> SessionSelectors {
    SessionSelectors {
        cluster: None,
        infobase: None,
        query: None,
        id: None,
        number: None,
        user: None,
        host: None,
        app: None,
    }
}

fn connection_selectors() -> ConnectionSelectors {
    ConnectionSelectors {
        cluster: None,
        infobase: None,
        query: None,
        id: None,
        number: None,
        host: None,
        application: None,
        process: None,
    }
}

fn cli(command: Option<CliCommand>, format: OutputFormat) -> Cli {
    Cli { config: None, rac_path: None, timeout: None, format, no_color: true, command }
}

fn add_args() -> ClusterAddArgs {
    ClusterAddArgs {
        name: ok(ClusterAlias::new("dev")),
        ras: ok("RV-DEV-1C01:1545".parse()),
        auth: AuthModeArg::Password,
        user: some("administrator"),
        password: Some(SecretString::new("secret")),
        infobase_auth: Some(AuthModeArg::Password),
        infobase_user: some("ib-admin"),
        infobase_password: Some(SecretString::new("ib-secret")),
    }
}

fn add_command(args: ClusterAddArgs) -> Option<CliCommand> {
    Some(CliCommand::Cluster { command: ClusterCommand::Add(args) })
}

fn kill_command(args: SessionKillArgs) -> Option<CliCommand> {
    Some(CliCommand::Session { command: SessionCommand::Kill(args) })
}

#[test]
fn no_subcommand_selects_tui_and_root_options_are_typed() {
    let cli = Cli {
        config: some("custom.yaml"),
        rac_path: some("rac.exe"),
        timeout: Some(ok(parse_timeout("15"))),
        format: OutputFormat::Json,
        no_color: true,
        command: None,
    };

    assert!(cli.is_tui_mode());
    assert_eq!(cli.timeout, Some(15));
    assert_eq!(cli.format, OutputFormat::Json);
    assert!(cli.no_color);
    assert!(parse_timeout("0").is_err());
    assert!(parse_timeout("x").is_err());
}

#[test]
fn cluster_add_accepts_pwd_alias_and_validates_conditionally() {
    let mut args = add_args();
    args.password = Some(parse_secret("secret"));
    assert_eq!(args.name.as_str(), "dev");
    assert_eq!(args.password.as_ref().map(SecretString::expose_secret), Some("secret"));
    assert_eq!(ok(args.cluster_auth()).user(), Some("administrator"));
    assert_eq!(ok(args.infobase_auth()).user(), Some("ib-admin"));
    assert!(cli(add_command(args), OutputFormat::Table).validate().is_ok());
}

#[test]
fn auth_requirements_are_checked_by_validate_not_clap_relations() {
    let mut args = add_args();
    args.user = None;
    args.password = None;
    args.infobase_auth = None;
    args.infobase_user = None;
    args.infobase_password = None;

    let error = failed(cli(add_command(args), OutputFormat::Table).validate());
    assert_eq!(error.code(), "invalid_auth");
    assert!(error.message().contains("--user"));

    let mut args = add_args();
    args.auth = AuthModeArg::NoAuth;
    let error = failed(args.validate());
    assert_eq!(
        error.message(),
        "Параметр `--user` недопустим при режиме аутентификации `none`"
    );
}

fn search_args() -> InfobaseSearchArgs {
    InfobaseSearchArgs {
        pattern: "zup_%".to_owned(),
        cluster: some("prod%"),
        columns: some("cluster,infobase"),
    }
}

#[test]
fn infobase_search_contract_has_positional_pattern_and_cluster_scope() {
    let args = search_args();
    assert_eq!(args.pattern, "zup_%");
    assert_eq!(args.cluster.as_deref(), Some("prod%"));
    let command = Some(CliCommand::Infobase { command: InfobaseCommand::Search(args) });
    let cli = cli(command, OutputFormat::Csv);
    assert_eq!(cli.format, OutputFormat::Csv);
    assert!(cli.validate().is_ok());

    let (request, projection) =
        ok(build_infobase_request(&some("rac.exe"), &search_args(), &FieldRegistry::new()));
    assert_eq!(request.name.source(), "zup_%");
    assert_eq!(request.clusters.source(), Some("prod%"));
    assert_eq!(request.rac_options.explicit_path.as_deref(), Some("rac.exe"));
    assert_eq!(projection.columns(), &["cluster", "infobase"]);
}

#[test]
fn session_list_accepts_all_query_controls_and_inherited_format() {
    let args = SessionListArgs {
        selectors: SessionSelectors {
            cluster: None,
            infobase: some("zup%"),
            query: some(r"DOMAIN\\user"),
            id: Some(SessionUuid::new(Uuid::from_u128(1))),
            number: Some(12),
            user: some("admin%"),
            host: some("PC-%"),
            app: some("1CV8%"),
        },
        query: QueryOptions {
            filter: vec!["cpu_time_total:gt:1".to_owned(), "memory_current:ge:2".to_owned()],
            sort: vec!["cpu_time_total:desc".to_owned(), "started_at:asc".to_owned()],
            top: Some(ok(parse_top("10"))),
            columns: some("cluster,session_id,cpu_time_total"),
        },
    };
    assert_eq!(args.query.filter.len(), 2);
    assert_eq!(args.query.sort.len(), 2);
    assert_eq!(args.query.top.map(Top::get), Some(10));
    let command = Some(CliCommand::Session { command: SessionCommand::List(args) });
    let cli = cli(command, OutputFormat::Json);
    assert!(cli.validate().is_ok());
    assert_eq!(cli.format, OutputFormat::Json);
    assert!(parse_top("0").is_err());
}

#[test]
fn destructive_selector_guard_excludes_cluster_but_includes_filter() {
    let args = |filter: &[&str]| SessionKillArgs {
        selectors: SessionSelectors { cluster: some("dev"), ..session_selectors() },
        query: QueryOptions {
            filter: filter.iter().map(|text| (*text).to_owned()).collect(),
            ..options()
        },
        message: some("Завершено администратором"),
        force: true,
    };
    assert!(!args(&[]).has_selector());
    assert_eq!(
        failed(cli(kill_command(args(&[])), OutputFormat::Table).validate()).code(),
        "selector_required"
    );
    assert!(args(&["user_name:eq:test"]).has_selector());
    let filtered = cli(kill_command(args(&["user_name:eq:test"])), OutputFormat::Table);
    assert!(filtered.validate().is_ok());

    let registry = FieldRegistry::new();
    let narrow = ok(build_session_kill_request(&None, &args(&["user_name:eq:test"]), &registry));
    assert!(narrow.selection.has_destructive_selector());
    assert_eq!(narrow.message.as_deref(), Some("Завершено администратором"));
    let broad = ok(build_session_kill_request(&None, &args(&[]), &registry));
    assert!(!broad.selection.has_destructive_selector());
}

#[test]
fn connection_kill_has_all_selectors_and_same_guard() {
    let args = ConnectionKillArgs {
        selectors: ConnectionSelectors {
            id: Some(ConnectionUuid::new(Uuid::from_u128(1))),
            number: Some(154),
            host: some("APP-%"),
            application: some("1CV8%"),
            process: Some(ProcessUuid::new(Uuid::from_u128(2))),
            ..connection_selectors()
        },
        query: QueryOptions {
            sort: vec!["connected_at:desc".to_owned()],
            top: Some(ok(parse_top("3"))),
            columns: some("cluster,connection,process"),
            ..options()
        },
        force: true,
    };
    assert!(args.has_selector());
    assert_eq!(args.selectors.number, Some(154));
    assert!(args.selectors.process.is_some());
    let request = ok(build_connection_kill_request(&None, &args, &FieldRegistry::new()));
    assert!(request.selection.has_destructive_selector());
    let command = Some(CliCommand::Connection { command: ConnectionCommand::Kill(args) });
    assert!(cli(command, OutputFormat::Table).validate().is_ok());

    let empty =
        ConnectionKillArgs { selectors: connection_selectors(), query: options(), force: true };
    assert_eq!(failed(empty.validate(&FieldRegistry::new())).code(), "selector_required");
}

#[test]
fn invalid_columns_fail_before_io_and_error_can_be_rendered_in_russian() {
    let args = SessionListArgs {
        selectors: session_selectors(),
        query: QueryOptions { columns: some("cpu_time"), ..options() },
    };
    let command = Some(CliCommand::Session { command: SessionCommand::List(args) });
    let error = failed(cli(command, OutputFormat::Table).validate());
    let rendered =
        render_parse_error(&format!("error: {}\n\nUsage: onecadmin [OPTIONS]\n", error.message()));

    assert!(rendered.contains("ошибка:"));
    assert!(rendered.contains("Неизвестное каноническое поле"));
    assert!(rendered.contains("Использование:"));
}

fn confirmed(
    input: &mut Cursor<&[u8]>,
    stderr: &mut Vec<u8>,
    interactive: bool,
    prompt: &str,
    preview: &str,
) -> Confirmation {
    let write = |shown: &str| {
        stderr.extend_from_slice(shown.as_bytes());
        Ok(())
    };
    let read = || {
        let mut line = String::new();
        match input.read_line(&mut line) {
            Ok(0) => Ok(None),
            Ok(_) => Ok(Some(line)),
            Err(error) => Err(error.to_string()),
        }
    };
    ok(confirm_with_io(write, read, interactive, prompt, preview))
}

#[test]
fn confirmation_writes_preview_and_prompt_only_to_supplied_stderr() {
    let mut input = Cursor::new("да\n".as_bytes());
    let mut stderr = Vec::new();

    let result =
        confirmed(&mut input, &mut stderr, true, "Продолжить?", "Будет завершен 1 сеанс");

    assert_eq!(result, Confirmation::Confirmed);
    let rendered = text(&stderr);
    assert!(rendered.starts_with("Будет завершен 1 сеанс\n"));
    assert!(rendered.ends_with("Продолжить? [y/N]: "));
}

#[test]
fn non_interactive_input_is_explicit_and_never_reads_an_answer() {
    let mut input = Cursor::new("yes\n".as_bytes());
    let mut stderr = Vec::new();

    let result = confirmed(&mut input, &mut stderr, false, "Продолжить?", "Предпросмотр");

    assert_eq!(result, Confirmation::NonInteractive);
    assert_eq!(input.position(), 0);
    assert_eq!(stderr, "Предпросмотр\n".as_bytes());
}

#[test]
fn empty_or_unknown_answer_declines_safely() {
    for answer in ["\n", "maybe\n", "n\n", ""] {
        let mut input = Cursor::new(answer.as_bytes());
        let mut stderr = Vec::new();
        let result = confirmed(&mut input, &mut stderr, true, "Удалить?", "");
        assert_eq!(result, Confirmation::Declined);
    }
    for answer in ["y\n", " YES \r\n", "д", "да\n"] {
        let mut input = Cursor::new(answer.as_bytes());
        let mut stderr = Vec::new();
        let result = confirmed(&mut input, &mut stderr, true, "Удалить?", "");
        assert_eq!(result, Confirmation::Confirmed, "{answer}");
    }
}

#[test]
fn failures_of_the_terminal_are_told() {
    let broken = |_: &str| Err("закрыт".to_owned());
    let unread = || panic!("nothing may be read");
    assert_eq!(confirm_with_io(broken, unread, true, "?", ""), Err("закрыт".to_owned()));
    let error =
        failed(request_approval(false, "?", &Vec::new(), |_: &str, _: &str| Err("нет".to_owned())));
    assert_eq!(error.code(), "confirmation_io");
    assert_eq!(error.message(), "Не удалось запросить подтверждение: нет");
}

fn source() -> ClusterSource {
    ClusterSource::new(
        ok(ClusterAlias::new("dev")),
        ClusterUuid::new(Uuid::from_u128(1)),
        "Development",
        ok("ras.local:1545".parse()),
    )
}

fn timeout_error() -> TargetError {
    TargetError::new(
        ok(ClusterAlias::new("prod")),
        ok("prod.local:1545".parse()),
        TargetErrorKind::Timeout,
        "Истек тайм-аут",
    )
}

#[test]
fn cli_result_exposes_application_exit_code_and_both_streams() {
    let result = CliRunResult::new(
        RenderedOutput { stdout: b"data".to_vec(), stderr: b"warning".to_vec() },
        AppExitCode::PartialSuccess,
    );

    assert_eq!(result.stdout, b"data");
    assert_eq!(result.stderr, b"warning");
    assert_eq!(result.app_exit_code(), AppExitCode::PartialSuccess);
    assert_eq!(result.rendered_output(), result.into_rendered_output());
}

#[test]
fn what_precedes_the_error_stream_stands_on_its_own_lines() {
    let preceded = |prefix: &str, stderr: &str| {
        let mut result = CliRunResult {
            stdout: Vec::new(),
            stderr: stderr.as_bytes().to_vec(),
            exit_code: AppExitCode::Success,
        };
        result.prepend_stderr(prefix.as_bytes().to_vec());
        text(&result.stderr)
    };
    assert_eq!(preceded("a", "b"), "a\nb");
    assert_eq!(preceded("a\n", "b"), "a\nb");
    assert_eq!(preceded("a", ""), "a");
    assert_eq!(preceded("", "b"), "b");
}

#[test]
fn session_request_keeps_uuid_in_session_and_number_in_session_id() {
    let args = SessionListArgs {
        selectors: SessionSelectors {
            id: Some(SessionUuid::new(Uuid::from_u128(2))),
            number: Some(42),
            ..session_selectors()
        },
        query: QueryOptions { columns: some("cluster,session,session_id"), ..options() },
    };
    let query = ok(args.query_spec(&FieldRegistry::new()));
    let fields = query.filters().iter().map(|filter| filter.field()).collect::<Vec<_>>();

    assert!(fields.contains(&"session"));
    assert!(fields.contains(&"session_id"));
    assert_eq!(args.selectors.number, Some(42));
    assert_eq!(args.selectors.id.map(|value| value.into_uuid()), Some(Uuid::from_u128(2)));
    assert_eq!(query.projection().columns(), &["cluster", "session", "session_id"]);
}

#[test]
fn cluster_scope_is_not_promoted_to_a_destructive_query_filter() {
    let selectors = SessionSelectors { cluster: some("dev"), ..session_selectors() };
    let registry = FieldRegistry::new();
    let query = ok(base_query_spec(
        RecordKind::Session,
        &options(),
        selectors.query.as_deref(),
        &registry,
    ));

    assert!(query.filters().is_empty());
    assert!(query.text_query().is_none());
    assert_eq!(selectors.cluster.as_deref(), Some("dev"));
    let (request, _) = ok(build_session_list_request(&None, &selectors, &options(), &registry));
    assert_eq!(request.clusters.source(), Some("dev"));
    assert!(!request.has_destructive_selector());
}

#[test]
fn requests_tell_the_first_thing_that_is_wrong() {
    let registry = FieldRegistry::new();
    let mut selectors = session_selectors();
    selectors.cluster = some("");
    selectors.user = some("a\\");
    let error = failed(build_session_list_request(&None, &selectors, &options(), &registry));
    assert_eq!(error.code(), "invalid_cluster_selector");
    selectors.cluster = None;
    let error = failed(build_session_list_request(&None, &selectors, &options(), &registry));
    assert_ne!(error.code(), "invalid_cluster_selector");
    let request = ok(build_cluster_add_request(&None, &add_args()));
    assert_eq!(request.alias.as_str(), "dev");
    assert_eq!(request.infobase_auth.default_auth().user(), Some("ib-admin"));
}

fn projection(columns: &str) -> Projection {
    ok(Projection::parse(Some(columns), RecordKind::Session, &FieldRegistry::new()))
}

#[test]
fn read_rendering_maps_partial_to_five_and_empty_success_to_zero() {
    let columns = projection("session,session_id");
    let mut record = SessionRecord::new(source(), SessionUuid::new(Uuid::from_u128(2)));
    record.session_id = Some(17);
    let partial = QueryOutcome::new(vec![record], vec![timeout_error()], 1, 1);
    let renderer = OutputRenderer::new(OutputFormat::Json, true);
    let result = ok(render_query(&renderer, &partial, &columns, &Vec::new(), 120));
    let value = json(&result.stdout);

    assert_eq!(result.exit_code, AppExitCode::PartialSuccess);
    assert_eq!(value["data"][0]["session"], Uuid::from_u128(2).to_text());
    assert_eq!(value["data"][0]["session_id"], 17);
    assert_eq!(value["errors"][0]["code"], "timeout");

    let empty = QueryOutcome::<SessionRecord>::new(Vec::new(), Vec::new(), 0, 1);
    let result = ok(render_query(&renderer, &empty, &columns, &Vec::new(), 120));
    assert_eq!(result.exit_code, AppExitCode::Success);
}

fn session_target(uuid: u128, number: i64) -> SessionKillTarget {
    SessionKillTarget {
        cluster: source().cluster,
        cluster_uuid: ClusterUuid::new(Uuid::from_u128(1)),
        ras_address: ok("ras.local:1545".parse()),
        infobase: some("Accounting"),
        infobase_uuid: None,
        session_id: SessionUuid::new(Uuid::from_u128(uuid)),
        session_number: Some(number),
    }
}

fn session_outcome() -> ActionOutcome<SessionKillTarget> {
    ActionOutcome::new(vec![
        ActionItemOutcome::success(session_target(2, 17)),
        ActionItemOutcome::failed(
            session_target(3, 18),
            ActionError::new("authentication_failed", "Нет доступа"),
        ),
    ])
}

#[test]
fn session_action_summary_uses_canonical_identity_and_reports_each_failure() {
    let outcome = session_outcome();
    let exit_code = action_exit_code(&outcome, &Vec::new());
    let result = ok(render_session_action(
        OutputFormat::Json,
        120,
        &outcome,
        &Vec::new(),
        exit_code,
        &SecretRedactor::new(),
    ));
    let value = json(&result.stdout);

    assert_eq!(result.exit_code, AppExitCode::PartialSuccess);
    assert_eq!(value["data"][0]["session"], Uuid::from_u128(2).to_text());
    assert_eq!(value["data"][0]["session_id"], 17);
    assert_eq!(value["data"][1]["status"], "failed");
    assert_eq!(value["errors"][0]["session"], Uuid::from_u128(3).to_text());
    assert_eq!(value["errors"][0]["session_id"], 18);
    assert_eq!(value["errors"][0]["code"], "authentication_failed");
    assert_eq!(value["meta"]["attempted"], 2);
    assert_eq!(value["meta"]["partial"], true);
    assert!(result.stderr.is_empty());
}

#[test]
fn actions_in_csv_have_their_errors_on_the_error_stream() {
    let target = ConnectionKillTarget {
        cluster: source().cluster,
        cluster_uuid: ClusterUuid::new(Uuid::from_u128(1)),
        ras_address: ok("ras.local:1545".parse()),
        infobase: None,
        infobase_uuid: InfobaseUuid::new(Uuid::from_u128(4)),
        process_id: ProcessUuid::new(Uuid::from_u128(5)),
        connection_id: ConnectionUuid::new(Uuid::from_u128(6)),
        connection_number: None,
    };
    let mut item = ActionItemOutcome::cancelled(target);
    item.error = None;
    let outcome = ActionOutcome::new(vec![item]);
    let mut error = timeout_error();
    error.message = "rac --cluster-pwd=tiger".to_owned();
    let result = ok(render_connection_action(
        OutputFormat::Csv,
        120,
        &outcome,
        &vec![error],
        action_exit_code(&outcome, &Vec::new()),
        &SecretRedactor::with_secrets(&["tiger"]),
    ));
    let id = |value: u128| Uuid::from_u128(value).to_text();
    assert_eq!(
        text(&result.stdout),
        format!(
            "cluster,ras_address,infobase,connection,conn_id,process,status\r\ndev,ras.local:1545,,{},,{},cancelled\r\n",
            id(6),
            id(5)
        )
    );
    let stderr = text(&result.stderr);
    assert!(stderr.starts_with(
        "cluster,ras_address,infobase,connection,conn_id,process,stage,code,message\r\n"
    ));
    assert!(stderr.contains(&format!(
        "dev,ras.local:1545,,{},,{},action,action_failed,Действие завершилось без диагностического сообщения\r\n",
        id(6),
        id(5)
    )));
    assert!(stderr.contains("prod,prod.local:1545,,,,,selection,timeout,"));
    assert!(!stderr.contains("tiger"));
    assert!(stderr.contains(REDACTED));
}

#[test]
fn an_action_is_partial_where_some_targets_could_not_be_selected() {
    let outcome = || ActionOutcome::new(vec![ActionItemOutcome::success(session_target(2, 17))]);
    let preview = b"preview".to_vec();
    let result = ok(finish_session_kill(
        OutputFormat::Json,
        120,
        Ok(outcome()),
        &vec![timeout_error()],
        preview.clone(),
        &SecretRedactor::new(),
    )
    .map_err(|failure| failure.error));
    assert_eq!(result.exit_code, AppExitCode::PartialSuccess);
    let value = json(&result.stdout);
    assert_eq!(value["meta"]["selection_failed"], 1);
    assert_eq!(value["meta"]["partial"], true);
    assert_eq!(value["errors"][0]["session"], Value::Null);
    assert_eq!(result.stderr, preview);

    let failure = failed(finish_session_kill(
        OutputFormat::Json,
        120,
        Err(AppError::cancelled()),
        &Vec::new(),
        preview.clone(),
        &SecretRedactor::new(),
    ));
    assert_eq!(failure.error.code(), "cancelled");
    assert_eq!(failure.stderr_prefix, preview);
}

#[test]
fn secrets_are_taken_out_of_errors() {
    let redactor = SecretRedactor::with_secrets(&["tiger"]);
    let mut errors = vec![timeout_error()];
    errors[0].message = "пароль tiger".to_owned();
    sanitize_target_errors(&mut errors, &redactor);
    assert_eq!(errors[0].message, format!("пароль {REDACTED}"));
    let outcome = ActionOutcome::new(vec![ActionItemOutcome::failed(
        1,
        ActionError::new("code", "tiger"),
    )]);
    let clean = sanitize_action_outcome(outcome, &redactor);
    assert_eq!(clean.items[0].error, Some(ActionError::new("code", REDACTED)));
    assert_eq!(clean.meta.failed, 1);
}

#[test]
fn json_command_errors_have_stable_shape_and_redact_cli_passwords() {
    let mut args = add_args();
    args.password = Some(SecretString::new("hunter2"));
    let cli = cli(add_command(args), OutputFormat::Json);
    let error = AppError::new(
        AppErrorCategory::AllTargetsFailed,
        "rac_failed",
        "rac failed: password=hunter2",
    );
    let result = render_app_error(
        OutputFormat::Json,
        120,
        &error,
        &redactor_for_cli(&cli),
        error.app_exit_code(),
    );
    let value = json(&result.stdout);

    assert!(!text(&result.stdout).contains("hunter2"));
    assert_eq!(value["data"], Value::Array(Vec::new()));
    assert_eq!(value["errors"][0]["scope"], "command");
    assert_eq!(value["errors"][0]["code"], "rac_failed");
    assert_eq!(value["meta"]["partial"], false);
}

#[test]
fn command_errors_in_csv_name_their_targets() {
    let error = AppError::all_targets_failed(vec![timeout_error()]);
    let result = render_app_error(
        OutputFormat::Csv,
        120,
        &error,
        &SecretRedactor::new(),
        error.app_exit_code(),
    );
    assert!(result.stdout.is_empty());
    let stderr = text(&result.stderr);
    assert!(stderr.starts_with("scope,cluster,ras_address,code,message\r\ncommand,,,"));
    assert!(stderr.contains("target,prod,prod.local:1545,timeout,Истек тайм-аут\r\n"));
}

#[test]
fn non_interactive_and_declined_confirmation_map_to_six() {
    let preview = b"preview".to_vec();
    let error = failed(request_approval(false, "Продолжить?", &preview, |_: &str, _: &str| {
        Ok(Confirmation::NonInteractive)
    }));
    assert_eq!(error.app_exit_code(), AppExitCode::Cancelled);
    assert_eq!(error.code(), "confirmation_required");

    let error = failed(request_approval(false, "Продолжить?", &preview, |_: &str, _: &str| {
        Ok(Confirmation::Declined)
    }));
    assert_eq!(error.app_exit_code().value(), 6);
    assert_eq!(error.code(), "confirmation_declined");

    let confirmed = ok(request_approval(false, "?", &preview, |prompt: &str, shown: &str| {
        assert_eq!((prompt, shown), ("?", "preview"));
        Ok(Confirmation::Confirmed)
    }));
    assert_eq!(confirmed, (Approval::Confirmed, false));
    let forced =
        ok(request_approval(true, "?", &preview, |_: &str, _: &str| panic!("nobody is asked")));
    assert_eq!(forced, (Approval::Forced, true));
}

#[test]
fn an_interruption_is_told_from_a_refusal() {
    let redactor = SecretRedactor::new();
    let declined = || {
        Err(DispatchFailure::with_stderr(AppError::confirmation_required(), b"preview".to_vec()))
    };
    let result = finish_run(OutputFormat::Csv, 120, &redactor, false, declined());
    assert_eq!(result.exit_code, AppExitCode::Cancelled);
    assert!(text(&result.stderr).starts_with("preview\nscope,"));
    let result = finish_run(OutputFormat::Csv, 120, &redactor, true, declined());
    assert_eq!(result.exit_code, AppExitCode::Interrupted);
    assert!(text(&result.stderr).contains("interrupted"));
    let failure = finish_run(OutputFormat::Csv, 120, &redactor, false, Err(command_required()));
    assert_eq!(failure.exit_code, AppExitCode::InvalidInput);

    let idle = cli(None, OutputFormat::Csv);
    assert!(begin_run(&idle, false, 120, &redactor).is_none());
    let begun = begin_run(&idle, true, 120, &redactor);
    assert_eq!(begun.map(|result| result.exit_code), Some(AppExitCode::Interrupted));
    let output = DispatchFailure::output(&OutputError::Io("диск".to_owned()), Vec::new());
    assert_eq!(output.error.message(), "Не удалось записать вывод: диск");
    assert_eq!(
        OutputError::Json("a".to_owned()).message(),
        "Не удалось сериализовать JSON: a"
    );
    assert_eq!(OutputError::Csv("a".to_owned()).message(), "Не удалось сформировать CSV: a");
}

fn cluster_target() -> ClusterTarget {
    ClusterTarget::new(
        ok(ClusterAlias::new("dev")),
        ok("ras.local:1545".parse()),
        ok(DiscoveredCluster::new(
            ClusterUuid::new(Uuid::from_u128(1)),
            "cluster",
            "cluster.local",
            1541,
        )),
        RacPolicy::Auto,
        AuthConfig::none(),
        InfobaseAuthPolicy::default(),
    )
}

#[test]
fn changes_to_clusters_are_shown_in_every_format() {
    let target = cluster_target();
    let id = Uuid::from_u128(1).to_text();
    let result = ok(render_cluster_mutation("added", &target, "c.yaml", OutputFormat::Json, 120));
    let value = json(&result.stdout);
    assert_eq!(value["data"][0]["cluster_uuid"], id);
    assert_eq!(value["data"][0]["action"], "added");
    assert_eq!(value["meta"]["succeeded"], 1);
    assert_eq!(value["errors"], Value::Array(Vec::new()));
    let result = ok(render_cluster_mutation("added", &target, "c.yaml", OutputFormat::Csv, 120));
    assert_eq!(
        text(&result.stdout),
        format!(
            "action,cluster,cluster_uuid,ras_address,config_path\r\nadded,dev,{id},ras.local:1545,c.yaml\r\n"
        )
    );
    assert_eq!(
        cluster_removal_preview(&target),
        format!(
            "Будет удалено подключение: cluster=dev, cluster_uuid={id}, ras_address=ras.local:1545\n"
        )
    );
    assert_eq!(cluster_removal_prompt(&target), "Удалить подключение к кластеру `dev`?");
    let removed =
        Ok(ClusterRemoveOutcome { removed: cluster_target(), config_path: "c.yaml".to_owned() });
    let result = ok(finish_cluster_removal(OutputFormat::Table, 200, removed, b"seen".to_vec())
        .map_err(|failure| failure.error));
    assert!(text(&result.stdout).contains("removed"));
    assert_eq!(result.stderr, b"seen");
}

fn session() -> SessionRecord {
    let id = Uuid::parse_str("aaaaaaaa-bbbb-cccc-dddd-eeeeeeeeeeee")
        .unwrap_or_else(|| panic!("an identity"));
    let mut record = SessionRecord::new(
        ClusterSource::new(
            ok(ClusterAlias::new("dev")),
            ClusterUuid::new(Uuid::from_u128(1)),
            "Разработка",
            ok("ras.local:1545".parse()),
        ),
        SessionUuid::new(id),
    );
    record.infobase = some("Бухгалтерия, основная");
    record.user_name = some("DOMAIN\\Иванов");
    record.cpu_time_total = Some(1_500_000);
    record.memory_current = Some(1_536);
    record.started_at = Timestamp::parse_rfc3339("2026-08-11T10:20:30+03:00");
    record
}

fn outcome(errors: Vec<TargetError>) -> QueryOutcome<SessionRecord> {
    QueryOutcome::new(vec![session()], errors, 1, 1)
}

fn shown(cell: &TableCell) -> String {
    match cell {
        TableCell::Text(value) => value.clone(),
        TableCell::Scaled { value, first, second, decimals, unit } => {
            let scaled = *value as f64 / *first as f64 / *second as f64;
            format!("{scaled:.*} {unit}", *decimals)
        }
        TableCell::Moment(value) => value.to_text(false),
    }
}

fn shown_cells(found: &QueryOutcome<SessionRecord>, columns: &Projection) -> Vec<Vec<String>> {
    table_cells(RecordKind::Session, &found.data, columns, &FieldRegistry::new())
        .iter()
        .map(|row| row.iter().map(shown).collect())
        .collect()
}

fn rendered(
    renderer: OutputRenderer,
    errors: Vec<TargetError>,
    columns: &str,
) -> RenderedOutput {
    let found = outcome(errors);
    let columns = projection(columns);
    let width = renderer.effective_width(None);
    ok(renderer.render(&found, &columns, &shown_cells(&found, &columns), width))
}

#[test]
fn json_uses_envelope_selected_columns_typed_values_and_utf8() {
    let output = rendered(
        OutputRenderer::new(OutputFormat::Json, true),
        Vec::new(),
        "cluster,session,user_name,cpu_time_total,started_at",
    );
    let value = json(&output.stdout);

    assert_eq!(value["data"][0]["cluster"], "dev");
    assert_eq!(value["data"][0]["session"], "aaaaaaaa-bbbb-cccc-dddd-eeeeeeeeeeee");
    assert_eq!(value["data"][0]["cpu_time_total"], 1_500_000);
    assert_eq!(value["data"][0]["started_at"], "2026-08-11T10:20:30+03:00");
    assert_eq!(value["meta"]["matched"], 1);
    assert_eq!(value["errors"], Value::Array(Vec::new()));
    assert!(text(&output.stdout).contains("Иванов"));
    assert!(!text(&output.stdout).contains("\\u0418"));
    assert!(output.stderr.is_empty());
}

#[test]
fn csv_is_rfc4180_crlf_and_uses_exact_projection_order() {
    let output = rendered(
        OutputRenderer::new(OutputFormat::Csv, true),
        Vec::new(),
        "infobase,session,cpu_time_total,started_at",
    );
    let csv = text(&output.stdout);

    assert!(csv.starts_with("infobase,session,cpu_time_total,started_at\r\n"));
    assert!(csv.contains("\"Бухгалтерия, основная\""));
    assert!(csv.contains("aaaaaaaa-bbbb-cccc-dddd-eeeeeeeeeeee"));
    assert!(csv.contains(",1500000,2026-08-11T10:20:30+03:00\r\n"));
    assert!(!csv.replace("\r\n", "").contains('\n'));
}

#[test]
fn table_formats_units_for_humans_without_changing_machine_formats() {
    let output = rendered(
        OutputRenderer::new(OutputFormat::Table, true).with_terminal_width(160),
        Vec::new(),
        "cpu_time_total,memory_current",
    );
    let table = text(&output.stdout);

    assert!(table.contains("25.0 min"));
    assert!(table.contains("1.5 KiB"));
    assert!(table.ends_with("┘\n"));
}

#[test]
fn table_and_csv_errors_are_separate_stderr_payloads() {
    let output = rendered(
        OutputRenderer::new(OutputFormat::Csv, true),
        vec![timeout_error()],
        "cluster,session_id",
    );
    let stderr = text(&output.stderr);

    assert!(stderr.starts_with("cluster,ras_address,code,message\r\n"));
    assert!(stderr.contains("prod,prod.local:1545,timeout,Истек тайм-аут\r\n"));
    assert!(!text(&output.stdout).contains("Истек тайм-аут"));
    let nothing = ok(render_errors_for_stderr(&Vec::new(), OutputFormat::Csv, None));
    assert!(nothing.is_empty());
    let embedded = ok(render_errors_for_stderr(&vec![timeout_error()], OutputFormat::Json, None));
    assert!(embedded.is_empty());
}

#[test]
fn all_formats_use_the_same_requested_columns() {
    let json_output =
        rendered(OutputRenderer::new(OutputFormat::Json, true), Vec::new(), "user_name,cluster");
    let csv =
        rendered(OutputRenderer::new(OutputFormat::Csv, true), Vec::new(), "user_name,cluster");

    let parsed = json(&json_output.stdout);
    let keys = parsed["data"][0]
        .as_object()
        .map(|object| object.keys().cloned().collect::<Vec<_>>())
        .unwrap_or_default();
    assert_eq!(keys, ["user_name", "cluster"]);
    assert!(text(&csv.stdout).starts_with("user_name,cluster\r\n"));
}

#[test]
fn units_are_chosen_by_size() {
    for (value, expected) in [
        (0, "0 B"),
        (1023, "1023 B"),
        (-1023, "-1023 B"),
        (1024, "1.0 KiB"),
        (-1536, "-1.5 KiB"),
        (1_048_576, "1.0 MiB"),
        (1_073_741_824, "1.0 GiB"),
        (1_099_511_627_776, "1.0 TiB"),
        (i64::MIN, "-8388608.0 TiB"),
    ] {
        assert_eq!(shown(&format_bytes(value)), expected);
    }
    assert_eq!(shown(&format_microseconds(999)), "999 us");
    assert_eq!(shown(&format_microseconds(1_500)), "1.5 ms");
    assert_eq!(shown(&format_microseconds(2_000_000)), "2.00 s");
    assert_eq!(shown(&format_milliseconds(-999)), "-999 ms");
    assert_eq!(shown(&format_milliseconds(60_000)), "1.0 min");
    assert_eq!(shown(&format_seconds(59)), "59.00 s");
    assert_eq!(shown(&format_seconds(3_600)), "1.0 h");
}

#[test]
fn widths_have_a_floor_and_a_default() {
    let renderer = OutputRenderer::new(OutputFormat::Table, false);
    assert_eq!(renderer.effective_width(None), 120);
    assert_eq!(renderer.effective_width(Some(80)), 80);
    assert_eq!(renderer.effective_width(Some(5)), 20);
    assert_eq!(renderer.with_terminal_width(40).effective_width(Some(80)), 40);
    assert_eq!(renderer.format(), OutputFormat::Table);
    assert!(!renderer.no_color());
}

#[test]
fn previews_count_what_was_selected() {
    let columns = ok(session_preview_projection(&FieldRegistry::new()));
    assert_eq!(columns.columns().len(), 7);
    assert!(connection_preview_projection(&FieldRegistry::new()).is_ok());
    let found = outcome(Vec::new());
    let cells = shown_cells(&found, &columns);
    let preview = |format: OutputFormat| {
        text(&ok(render_preview(
            &OutputRenderer::new(format, true),
            &found.data,
            &vec![timeout_error()],
            &columns,
            SESSION_PREVIEW_LABEL,
            &cells,
            160,
        )))
    };
    assert!(preview(OutputFormat::Table).starts_with("Выбрано сеансов: 1\n┌"));
    assert!(preview(OutputFormat::Table).contains("Истек тайм-аут"));
    assert!(preview(OutputFormat::Csv).starts_with("cluster,infobase,session,"));
    assert_eq!(session_kill_prompt(3), "Завершить выбранные сеансы (3)?");
    assert_eq!(connection_kill_prompt(1), "Разорвать выбранные соединения (1)?");
}

#[test]
fn a_row_of_another_length_than_the_header_is_no_csv() {
    let header = vec!["first".to_owned(), "second".to_owned()];
    let cell = |text: &str| ("name".to_owned(), JsonScalar::Text(Some(text.to_owned())));
    let rows = |lengths: &[usize]| {
        lengths.iter().map(|length| (0..*length).map(|_| cell("x")).collect()).collect::<Vec<_>>()
    };
    let render = |format, lengths: &[usize]| {
        let document = Document { data: rows(lengths), errors: Vec::new(), meta: Vec::new() };
        render_action_output(format, 80, &header, &header, document, AppExitCode::Success)
    };
    assert_eq!(
        render(OutputFormat::Csv, &[2, 3]).err(),
        Some(OutputError::Csv(
            "CSV error: found record with 3 fields, but the previous record has 2 fields".to_owned()
        ))
    );
    assert_eq!(
        ok(render(OutputFormat::Csv, &[2])).stdout,
        b"first,second\r\nx,x\r\n".to_vec()
    );
    assert!(render(OutputFormat::Table, &[2, 3]).is_ok());
}

#[test]
fn the_turning_off_of_processes_is_shown() {
    let target = ProcessKillTarget {
        cluster: ok(ClusterAlias::new("prod")),
        cluster_uuid: ClusterUuid::new(Uuid::from_u128(1)),
        ras_address: ok("ras.local:1545".parse()),
        process_id: ProcessUuid::new(Uuid::from_u128(7)),
        pid: Some(4242),
    };
    let done = ActionOutcome::new(vec![ActionItemOutcome::success(target)]);
    let result = ok(finish_process_kill(
        OutputFormat::Json,
        120,
        Ok(done),
        &Vec::new(),
        Vec::new(),
        &SecretRedactor::new(),
    )
    .map_err(|failure| failure.error));
    assert_eq!(result.exit_code, AppExitCode::Success);
    let value = json(&result.stdout);
    assert_eq!(value["data"][0]["process"], Uuid::from_u128(7).to_text());
    assert_eq!(value["data"][0]["pid"], 4242);
    assert_eq!(process_kill_prompt(2), "Выключить выбранные рабочие процессы (2)?");
    assert!(process_preview_projection(&FieldRegistry::new()).is_ok());
}

#[test]
fn process_commands_are_read_as_requests() {
    let registry = FieldRegistry::new();
    let selectors = || ProcessSelectors { cluster: some("prod%"), id: None, pid: Some(42), server: None };
    let columns = QueryOptions { columns: some("cluster,pid"), ..options() };
    let (request, shown) =
        ok(build_process_list_request(&some("rac.exe"), &selectors(), &columns, &registry));
    assert_eq!(request.pid, Some(42));
    assert_eq!(request.rac_options.explicit_path.as_deref(), Some("rac.exe"));
    assert_eq!(shown.columns().to_vec(), vec!["cluster", "pid"]);

    let args = ProcessKillArgs { selectors: selectors(), query: options(), force: false };
    assert!(ok(build_process_kill_request(&None, &args, &registry))
        .selection
        .has_destructive_selector());
    let everywhere = ProcessKillArgs {
        selectors: ProcessSelectors { pid: None, ..selectors() },
        query: options(),
        force: false,
    };
    assert!(!ok(build_process_kill_request(&None, &everywhere, &registry))
        .selection
        .has_destructive_selector());

    let unknown = QueryOptions { columns: some("no_such_column"), ..options() };
    assert!(build_process_list_request(&None, &selectors(), &unknown, &registry).is_err());
    let nowhere = ProcessSelectors { cluster: some(""), ..selectors() };
    assert!(build_process_list_request(&None, &nowhere, &options(), &registry).is_err());
}

#[test]
fn csv_fields_are_quoted_where_they_must_be() {
    let render = |fields: &[&str]| {
        let row = fields
            .iter()
            .map(|field| ("name".to_owned(), JsonScalar::Text(Some((*field).to_owned()))))
            .collect();
        let header: Vec<String> = fields.iter().map(|_| "h".to_owned()).collect();
        let document = Document { data: vec![row], errors: Vec::new(), meta: Vec::new() };
        let done = ok(render_action_output(
            OutputFormat::Csv,
            80,
            &header,
            &header,
            document,
            AppExitCode::Success,
        ));
        let written = text(&done.stdout).to_owned();
        written.split_once("\r\n").map_or_else(String::new, |(_, rest)| rest.to_owned())
    };
    assert_eq!(render(&["a", "б в", "#x"]), "a,б в,#x\r\n");
    assert_eq!(render(&["a,b", "say \"x\"", "c\nd", "e\r"]), "\"a,b\",\"say \"\"x\"\"\",\"c\nd\",\"e\r\"\r\n");
    assert_eq!(render(&[""]), "\"\"\r\n");
    assert_eq!(render(&["", ""]), ",\r\n");
    assert_eq!(render(&["\""]), "\"\"\"\"\r\n");
}
