//! The utility: its arguments, its output, its versions and where it is found.

use std::cmp::Ordering;

use encoding_rs::{IBM866, WINDOWS_1251};

use onecadmin::domain::identity::Uuid;
use onecadmin::infrastructure::rac::arguments::{RacArgumentBuilder, RacCredentials};
use onecadmin::infrastructure::rac::encoding::{decode_rac_output, RacEncoding};
use onecadmin::infrastructure::rac::error::{classify_diagnostic, RacError, RacErrorKind};
use onecadmin::infrastructure::rac::gateway::{
    endpoint_cache_key, interpret_output, CacheEffect, CandidateCache, ExecutionState, RacExecution,
};
use onecadmin::infrastructure::rac::locator::{
    canonical_deduplicate, canonical_path_key, compare_candidates, discover_paths, CandidateSearch,
    Finding, Place, RacCandidate, RacOrigin, RacVersionSelection, SearchPolicy,
};
use onecadmin::infrastructure::rac::parser::{
    parse_rac_records, RacParseErrorKind, RacRecordParser,
};
use onecadmin::infrastructure::rac::process::{
    IoFailure, ProcessStatus, RacArguments, RacProcessOutput, RacProcessRun, RacProcessRunner,
    RedactedInvocation, RunAction, RunEvent,
};
use onecadmin::infrastructure::rac::registry::{
    extract_registry_candidates, registry_queries, registry_variables, Variable,
};
use onecadmin::infrastructure::rac::version::{PlatformVersion, RacVersionProbe};
use onecadmin::order::Order;

fn ok<T, E>(result: Result<T, E>) -> T {
    result.unwrap_or_else(|_| panic!("a success was expected"))
}

fn nil() -> Uuid {
    Uuid::from_u128(0)
}

fn version(text: &str) -> PlatformVersion {
    ok(text.parse())
}

fn candidate(path: &str, text: &str, origin: RacOrigin) -> RacCandidate {
    RacCandidate { path: path.to_owned(), version: version(text), origin }
}

#[test]
fn builds_cluster_list_as_separate_arguments() {
    let arguments = RacArgumentBuilder::new().cluster_list("server.example:1545");

    assert_eq!(arguments.raw(), &["cluster", "list", "server.example:1545"]);
}

#[test]
fn redacts_password_in_arguments_credentials_and_invocation() {
    let secret = "do-not-log-this";
    let credentials = RacCredentials::password("administrator", secret);
    let arguments = RacArgumentBuilder::new().session_list("server:1545", nil(), &credentials);
    let invocation = RedactedInvocation::new("rac.exe", &arguments);

    assert!(arguments.raw().iter().any(|value| value.contains(secret)));
    assert!(!arguments.debug_text().contains(secret));
    assert!(!credentials.debug_text().contains(secret));
    assert!(!format!("{invocation:?}").contains(secret));
    assert!(!invocation.to_text().contains(secret));
}

#[test]
fn disconnect_uses_process_and_connection_from_same_snapshot() {
    let process_id = Uuid::new_v4();
    let connection_id = Uuid::new_v4();
    let arguments = RacArgumentBuilder::new().connection_disconnect(
        "server:1545",
        nil(),
        process_id,
        connection_id,
        &RacCredentials::NoAuth,
        &RacCredentials::NoAuth,
    );

    assert!(arguments.raw().contains(&format!("--process={}", process_id.to_text())));
    assert!(arguments.raw().contains(&format!("--connection={}", connection_id.to_text())));
}

#[test]
fn strict_utf8_has_priority() {
    let source = "cluster : 00000000-0000-0000-0000-000000000000\nname : Тест\n";
    let decoded = decode_rac_output(source.as_bytes());

    assert_eq!(decoded.encoding(), RacEncoding::Utf8);
    assert_eq!(decoded.text(), source);
}

#[test]
fn detects_windows_1251_diagnostic() {
    let source = "Ошибка аутентификации пользователя: неверный пароль";
    let (bytes, _, had_errors) = WINDOWS_1251.encode(source);
    assert!(!had_errors);

    let decoded = decode_rac_output(&bytes);

    assert_eq!(decoded.encoding(), RacEncoding::Windows1251);
    assert_eq!(decoded.text(), source);
}

#[test]
fn detects_cp866_diagnostic() {
    let source = "Ошибка подключения к серверу: время ожидания истекло";
    let (bytes, _, had_errors) = IBM866.encode(source);
    assert!(!had_errors);

    let decoded = decode_rac_output(&bytes);

    assert_eq!(decoded.encoding(), RacEncoding::Ibm866);
    assert_eq!(decoded.text(), source);
}

#[test]
fn ascii_is_valid_utf8() {
    let decoded = decode_rac_output(b"host : server\r\nport : 1541\r\n");

    assert_eq!(decoded.encoding(), RacEncoding::Utf8);
}

#[test]
fn classifies_russian_and_english_diagnostics() {
    let cases = [
        (
            "The administration server version is not supported by this client",
            RacErrorKind::ProtocolIncompatible,
        ),
        ("Ошибка аутентификации: неверный пароль администратора", RacErrorKind::Auth),
        ("No such host is known (getaddrinfo failed)", RacErrorKind::Dns),
        (
            "Подключение не установлено, т.к. конечный компьютер отверг запрос",
            RacErrorKind::ConnectionRefused,
        ),
        ("Unknown option --future", RacErrorKind::CommandSyntax),
        ("Истекло время ожидания операции", RacErrorKind::Timeout),
    ];

    for (diagnostic, expected) in cases {
        assert_eq!(classify_diagnostic(diagnostic), expected, "{diagnostic}");
    }
    assert_eq!(classify_diagnostic("нечто иное"), RacErrorKind::Unknown);
}

#[test]
fn fallback_is_only_allowed_for_protocol_mismatch() {
    for kind in [
        RacErrorKind::Dns,
        RacErrorKind::ConnectionRefused,
        RacErrorKind::Timeout,
        RacErrorKind::Auth,
        RacErrorKind::CommandSyntax,
        RacErrorKind::Unknown,
    ] {
        assert!(!kind.allows_version_fallback());
    }
    assert!(RacErrorKind::ProtocolIncompatible.allows_version_fallback());
}

#[test]
fn endpoint_cache_is_case_insensitive() {
    assert_eq!(
        endpoint_cache_key(" RAS-SERVER.EXAMPLE:1545 "),
        endpoint_cache_key("ras-server.example:1545")
    );
}

#[test]
fn the_cache_forgets_what_it_is_told_to() {
    let mut cache = CandidateCache::new();
    cache.insert("Server:1545", candidate("a", "8.3.20.1", RacOrigin::Path));
    assert!(cache.get(" server:1545 ").is_some());
    cache.insert("server:1545", candidate("b", "8.3.21.1", RacOrigin::Path));
    assert_eq!(cache.get("SERVER:1545").map(|found| found.path), Some("b".to_owned()));
    cache.remove("SERVER:1545");
    assert!(cache.get("server:1545").is_none());
    cache.insert("x:1", candidate("c", "8.3.21.1", RacOrigin::Path));
    cache.clear();
    assert!(cache.get("x:1").is_none());
}

#[test]
fn automatic_candidates_sort_newest_first_then_by_origin() {
    let mut candidates = [
        candidate(r"C:\old\rac.exe", "8.3.20.1", RacOrigin::Path),
        candidate(r"C:\new-b\rac.exe", "8.3.25.1", RacOrigin::Registry),
        candidate(r"C:\new-a\rac.exe", "8.3.25.1", RacOrigin::Path),
    ];

    candidates.sort_by(|left, right| match compare_candidates(left, right) {
        Order::Less => Ordering::Less,
        Order::Equal => Ordering::Equal,
        Order::Greater => Ordering::Greater,
    });

    assert_eq!(candidates[0].origin, RacOrigin::Path);
    assert_eq!(candidates[1].origin, RacOrigin::Registry);
    assert_eq!(candidates[2].version, PlatformVersion::new(8, 3, 20, 1));
}

#[test]
fn canonical_key_is_case_insensitive_and_separator_independent() {
    assert_eq!(
        canonical_path_key(r"C:\Program Files\1cv8\rac.exe"),
        canonical_path_key("c:/program files/1CV8/RAC.EXE")
    );
}

#[test]
fn derives_rac_path_from_registry_install_directory() {
    let output = concat_lines(&[
        "HKEY_LOCAL_MACHINE\\SOFTWARE\\1C\\1Cv8\\8.3.25.1",
        "    InstallDir    REG_SZ    C:\\Program Files\\1cv8\\8.3.25.1",
    ]);

    assert_eq!(
        extract_registry_candidates(&output, &Vec::new()),
        vec![r"C:\Program Files\1cv8\8.3.25.1\bin\rac.exe".to_owned()]
    );
}

fn concat_lines(lines: &[&str]) -> String {
    lines.iter().map(|line| format!("{line}\r\n")).collect()
}

#[test]
fn registry_values_are_expanded() {
    let output = concat_lines(&["    InstallDir    REG_EXPAND_SZ    %ProgramFiles%\\1cv8\\8.3.25.1"]);
    assert_eq!(registry_variables(&output), vec!["ProgramFiles".to_owned()]);
    let variables =
        vec![Variable { name: "ProgramFiles".to_owned(), value: r"D:\Apps".to_owned() }];
    assert_eq!(
        extract_registry_candidates(&output, &variables),
        vec![r"D:\Apps\1cv8\8.3.25.1\bin\rac.exe".to_owned()]
    );
}

#[test]
fn copies_are_found_once_and_the_newest_is_tried_first() {
    let policy = SearchPolicy::isolated().with_global_path("global/rac").with_cluster_path("own/rac");
    let places = discover_paths(&policy, &Vec::new(), &Vec::new(), &Vec::new());
    assert_eq!(
        places.iter().map(|place| place.origin).collect::<Vec<_>>(),
        vec![RacOrigin::ClusterConfig, RacOrigin::GlobalConfig]
    );
    let findings = vec![
        Finding { file: Some("C:/x/rac.exe".to_owned()), origin: RacOrigin::ClusterConfig },
        Finding { file: None, origin: RacOrigin::Path },
        Finding { file: Some(r"c:\X\rac.exe".to_owned()), origin: RacOrigin::GlobalConfig },
    ];
    let kept = canonical_deduplicate(findings);
    assert_eq!(kept.len(), 1);
    assert_eq!(kept[0].origin, RacOrigin::ClusterConfig);
}

#[test]
fn a_search_tells_unsupported_copies_from_none() {
    let place = |path: &str| Place { path: path.to_owned(), origin: RacOrigin::Path };
    let policy = SearchPolicy::isolated();
    let mut search = CandidateSearch::new();
    ok(search.note(&policy, place("a"), Ok(version("8.3.20.5"))));
    ok(search.note(&policy, place("b"), Ok(version("8.3.25.5"))));
    let found = ok(search.finish());
    assert_eq!(found[0].path, "b");
    assert_eq!(found[1].path, "a");

    let mut search = CandidateSearch::new();
    ok(search.note(&policy, place("a"), Ok(version("8.3.1.5"))));
    assert_eq!(search.finish().err().map(|e| e.kind()), Some(RacErrorKind::UnsupportedVersion));
    assert_eq!(
        CandidateSearch::new().finish().err().map(|e| e.kind()),
        Some(RacErrorKind::NotFound)
    );
    let mut exact = SearchPolicy::isolated();
    exact.version = RacVersionSelection::Exact(version("8.3.24.1"));
    assert!(exact.accepts_version(version("8.3.24.1")));
    assert!(!exact.accepts_version(version("8.3.25.1")));
}

#[test]
fn an_execution_falls_back_only_where_the_protocol_differs() {
    let newest = candidate("new", "8.3.25.1", RacOrigin::Path);
    let older = candidate("old", "8.3.20.1", RacOrigin::Path);
    let run = RacExecution::begin(None, &SearchPolicy::isolated())
        .candidates_found(Ok(vec![newest.clone(), older.clone()]));
    assert!(matches!(run.state(), ExecutionState::Trying { current, .. } if current.path == "new"));
    let (run, effect) = run.run_answered(Err(RacError::new(RacErrorKind::ProtocolIncompatible)));
    assert!(matches!(effect, CacheEffect::Keep));
    assert!(matches!(run.state(), ExecutionState::Trying { current, .. } if current.path == "old"));
    let (run, effect) = run.run_answered(Ok(Vec::new()));
    assert!(matches!(effect, CacheEffect::Remember(found) if found.path == "old"));
    assert!(matches!(run.into_answer(), Some(Ok(_))));

    let run = RacExecution::begin(None, &SearchPolicy::isolated())
        .candidates_found(Ok(vec![newest, older]));
    let (run, _) = run.run_answered(Err(RacError::new(RacErrorKind::Auth)));
    assert!(matches!(run.into_answer(), Some(Err(error)) if error.kind() == RacErrorKind::Auth));
}

fn rac_8_3_20() -> String {
    concat_lines(&[
        "cluster : 11111111-1111-1111-1111-111111111111",
        "name : First cluster",
        "host : server-1",
        "port : 1541",
        "description : ",
        "",
        "cluster : 22222222-2222-2222-2222-222222222222",
        "name : Value: with: colons",
    ])
}

#[test]
fn parses_crlf_records_empty_values_and_colons() {
    let records = ok(parse_rac_records(&rac_8_3_20()));

    assert_eq!(records.len(), 2);
    assert_eq!(records[0].get("description"), Some(""));
    assert_eq!(records[1].get("name"), Some("Value: with: colons"));
}

#[test]
fn normalizes_kebab_case_and_keeps_unknown_fields() {
    let source = "session : aaaaaaaa-aaaa-aaaa-aaaa-aaaaaaaaaaaa\nsession-id : 17\ncpu-time-total : 123456\nfuture-field : preserved\n";
    let records = ok(RacRecordParser::parse(source));
    let record = &records[0];

    assert_eq!(record.get("session"), Some("aaaaaaaa-aaaa-aaaa-aaaa-aaaaaaaaaaaa"));
    assert_eq!(record.get("session_id"), Some("17"));
    assert_eq!(record.get("cpu_time_total"), Some("123456"));
    assert_eq!(record.get("future_field"), Some("preserved"));
}

#[test]
fn accepts_multiple_blank_lines_and_no_trailing_newline() {
    let records = ok(parse_rac_records("host: first\n\n\n host: second"));

    assert_eq!(records.len(), 2);
    assert_eq!(records[1].get("host"), Some("second"));
}

#[test]
fn parse_error_never_contains_source_line() {
    let secret = "password=must-not-escape";
    let error = parse_rac_records(secret).err().unwrap_or_else(|| panic!("no separator"));

    assert_eq!(error.kind(), RacParseErrorKind::MissingSeparator);
    assert!(!format!("{error:?}").contains(secret));
    assert!(!error.message().contains(secret));
}

#[test]
fn duplicate_normalized_keys_are_rejected() {
    let error = parse_rac_records("future-field: one\nfuture_field: two\n")
        .err()
        .unwrap_or_else(|| panic!("a key twice"));

    assert_eq!(error.kind(), RacParseErrorKind::DuplicateNormalizedKey);
    let empty = parse_rac_records("a: 1\n : 2\n").err().unwrap_or_else(|| panic!("no key"));
    assert_eq!(empty.kind(), RacParseErrorKind::EmptyKey);
    assert_eq!(empty.line(), 2);
}

#[test]
fn plain_arguments_redact_both_option_forms() {
    let arguments = RacArguments::plain(&[
        "session",
        "list",
        "--cluster-pwd=first-secret",
        "--infobase-pwd",
        "second-secret",
    ]);
    let debug = arguments.debug_text();

    assert!(!debug.contains("first-secret"));
    assert!(!debug.contains("second-secret"));
    assert!(debug.matches("<redacted>").count() >= 2);
}

#[test]
fn a_run_that_takes_too_long_is_stopped() {
    let arguments = RacArguments::plain(&["--version"]);
    let mut run = RacProcessRun::new("rac", &arguments);
    assert!(matches!(run.advance(RunEvent::Spawned), RunAction::AwaitExit));
    assert!(matches!(run.advance(RunEvent::DeadlinePassed), RunAction::StopProcessAndReaders));
    let result = run.into_result().unwrap_or_else(|| panic!("a result"));
    assert!(result.err().map(|error| error.is_timeout()).unwrap_or(false));

    let mut run = RacProcessRun::new("rac", &arguments);
    run.advance(RunEvent::SpawnFailed(IoFailure::new("not found", Some(2))));
    let error = run.into_result().and_then(Result::err).unwrap_or_else(|| panic!("an error"));
    assert_eq!(error.io_kind(), Some("not found"));

    let mut run = RacProcessRun::new("rac", &arguments);
    run.advance(RunEvent::Spawned);
    assert!(matches!(
        run.advance(RunEvent::Exited(ProcessStatus::new(Some(0)))),
        RunAction::AwaitStdout
    ));
    assert!(matches!(run.advance(RunEvent::StreamRead(b"out".to_vec())), RunAction::AwaitStderr));
    assert!(matches!(run.advance(RunEvent::StreamRead(Vec::new())), RunAction::Finish));
    let output = ok(run.into_result().unwrap_or_else(|| panic!("a result")));
    assert_eq!(output.stdout(), b"out");
}

fn output(code: i32, stdout: &str, stderr: &str) -> RacProcessOutput {
    let arguments = RacArguments::plain(&["--version"]);
    RacProcessOutput::new(
        ProcessStatus::new(Some(code)),
        stdout.as_bytes().to_vec(),
        stderr.as_bytes().to_vec(),
        RedactedInvocation::new("rac", &arguments),
    )
}

#[test]
fn answers_are_read_from_the_streams() {
    assert_eq!(ok(interpret_output(&output(0, "a : 1\n\na : 2\n", ""))).len(), 2);
    let failed = interpret_output(&output(1, "", "Ошибка аутентификации")).err();
    assert_eq!(failed.map(|error| error.kind()), Some(RacErrorKind::Auth));
    let garbled = interpret_output(&output(0, "нет разделителя", "")).err();
    assert_eq!(garbled.map(|error| error.kind()), Some(RacErrorKind::Parse));
}

#[test]
fn parses_and_formats_all_four_components() {
    let version: PlatformVersion = ok("8.3.20.1710".parse());

    assert_eq!(version.components(), [8, 3, 20, 1710]);
    assert_eq!(version.build(), 1710);
    assert_eq!(version.to_text(), "8.3.20.1710");
}

#[test]
fn extracts_version_from_rac_banner() {
    let version = ok(PlatformVersion::from_rac_output(
        "1C:Enterprise 8.3 Remote Administration Client (8.3.25.1501)\r\n",
    ));

    assert_eq!(version, PlatformVersion::new(8, 3, 25, 1501));
    let probe = RacVersionProbe::new(RacProcessRunner::new(1000));
    assert_eq!(probe.arguments().raw(), &["--version"]);
    assert_eq!(ok(probe.interpret(&output(0, "8.3.25.1501\n", ""))), version);
    assert!(probe.interpret(&output(0, "нет версии", "")).is_err());
}

#[test]
fn rejects_semver_and_incomplete_versions() {
    assert!("8.3.20".parse::<PlatformVersion>().is_err());
    assert!("8.3.20.1-beta".parse::<PlatformVersion>().is_err());
    assert!("8.3.20.1.2".parse::<PlatformVersion>().is_err());
}

#[test]
fn versions_have_platform_ordering() {
    assert!(PlatformVersion::new(8, 3, 24, 100) > PlatformVersion::new(8, 3, 23, u32::MAX));
    assert!(!PlatformVersion::new(8, 3, 19, 9999).is_supported());
    assert!(PlatformVersion::new(8, 3, 20, 1).is_supported());
}

#[test]
fn registered_places_are_read_as_windows_paths() {
    let utility = |place: &str| {
        let output = format!("    Path    REG_SZ    {place}\r\n");
        extract_registry_candidates(&output, &Vec::new()).join("|")
    };
    assert_eq!(utility(r"\\?\C:\1cv8\bin"), r"\\?\C:\1cv8\bin\rac.exe");
    assert_eq!(utility(r"\\?\UNC\server\bin"), r"\\?\UNC\server\bin\bin\rac.exe");
    assert_eq!(utility(r"\\?\UNC\server\share\bin"), r"\\?\UNC\server\share\bin\rac.exe");
    assert_eq!(utility(r"\\?\C:\1cv8/bin"), r"\\?\C:\1cv8/bin\bin\rac.exe");
    assert_eq!(utility(r"\\?\C:/foo/bin"), r"\\?\C:\foo/bin\bin\rac.exe");
    assert_eq!(utility(r"\\?\C:/bin"), r"\\?\C:\bin\rac.exe");
    assert_eq!(utility(r"\\?\C:\a\\bin"), r"\\?\C:\a\bin\rac.exe");
    assert_eq!(utility(r"\\?\C:\a\.\bin\"), r"\\?\C:\a\.\bin\rac.exe");
    assert_eq!(utility(r"\\?\C:\a\\b\1cv8.exe"), r"\\?\C:\a\b\rac.exe");
    assert_eq!(utility(r"\\?\C:"), r"\\?\C:\bin\rac.exe");
    assert_eq!(utility(r"\\?\UNC\server\\bin"), r"\\?\UNC\server\bin\rac.exe");
    assert_eq!(utility(r"\\?\UNC/server\share"), r"\\?\UNC/server\share\bin\rac.exe");
    assert_eq!(utility(r"//?/C:/bin"), r"//?/C:/bin\rac.exe");
    assert_eq!(utility(r"\\.\\1cv8.exe"), r"\\.\\rac.exe");
    assert_eq!(utility(r"\\.\device\bin"), r"\\.\device\bin\rac.exe");
    assert_eq!(utility(r"C:\.\1cv8.exe"), r"C:\rac.exe");
    assert_eq!(utility(r"C:1cv8.exe"), r"C:rac.exe");
    assert_eq!(utility(r"\\server\bin"), r"\\server\bin\bin\rac.exe");
    assert_eq!(utility(r"C:/1cv8/bin"), r"C:/1cv8/bin\rac.exe");
    assert_eq!(utility(r"C:\1cv8\1cv8.exe,0"), r"C:\1cv8\rac.exe");
    assert_eq!(utility(r"%A%\%B%%"), r"%A%\%B%%\bin\rac.exe");
    assert_eq!(registry_variables("  Path  REG_SZ  %A%\\%B%%\n"), vec!["A".to_owned(), "B".to_owned()]);
}

#[test]
fn the_registry_is_asked_for_each_value_below_each_root() {
    let queries = registry_queries();
    assert_eq!(queries.len(), 9);
    let shown = RedactedInvocation::new("reg.exe", &queries[4]).to_text();
    assert!(shown.contains("WOW6432Node") && shown.contains("InstallDir"), "{shown}");
}
