//! The services, driven step by step with the answers that their collaborators would give.

use std::fmt::Debug;

use indexmap::IndexMap;

use onecadmin::application::clusters::{
    audit_cluster_add, audit_cluster_remove, check_cluster_remove, complete_audit,
    finish_cluster_remove, load_config_snapshot, prepare_cluster_remove, AdditionStep,
    AuditedChange, ClusterAddRequest, ClusterAddition,
};
use onecadmin::application::connections::{
    audit_connection_outcome, connection_credentials, prepare_connection_kill, ConnectionKillRequest,
};
use onecadmin::application::conversion::{
    auth_to_rac_credentials, config_auth_to_domain, convert_config_snapshot, domain_auth_to_config,
    ApplicationConfigSnapshot, ConfiguredTarget, RacOptions,
};
use onecadmin::application::credentials::{
    check_override_add, check_override_remove, credential_overrides, CredentialOverrideAddRequest,
    CredentialOverrideRemoveRequest, CredentialOverrideSelector,
};
use onecadmin::application::diagnostics::update_diagnostics;
use onecadmin::application::error::{
    target_kind_from_rac, AppError, AppErrorCategory, AppExitCode, ExitCodePolicy,
};
use onecadmin::application::kill::{
    collect_outcomes, group_members, group_targets, home_cluster, GroupRun, GroupStep,
};
use onecadmin::application::listing::{infobases_for_live, list_outcome};
use onecadmin::application::normalize::{normalize_connection, normalize_session};
use onecadmin::application::outcome::{ActionError, ActionItemOutcome, ActionOutcome, Approval};
use onecadmin::application::ports::{PortError, PortErrorKind, RawConfigSnapshot};
use onecadmin::application::processes::{require_process_selector, ProcessKillRequest};
use onecadmin::application::sessions::{
    audit_session_outcome, prepare_session_kill, require_session_selector, session_query,
    sessions_for_target, SessionKillRequest, SessionListRequest,
};
use onecadmin::application::targets::{
    live_cluster, live_cluster_policy, select_configured_targets, ClusterSelector,
};
use onecadmin::domain::auth::{AuthConfig, SecretString};
use onecadmin::domain::field_value::FieldValue;
use onecadmin::domain::fields::FieldRegistry;
use onecadmin::domain::identity::{
    ClusterUuid, ConnectionUuid, InfobaseUuid, ProcessUuid, SessionUuid, Uuid,
};
use onecadmin::domain::kill::{ConnectionKillPlan, SessionKillPlan, SnapshotId};
use onecadmin::domain::model::{
    ClusterSource, ClusterTarget, ConnectionRecord, DiscoveredCluster, InfobaseAuthOverride,
    InfobaseAuthPolicy, RacPolicy, SessionRecord,
};
use onecadmin::domain::outcome::{QueryOutcome, TargetErrorKind};
use onecadmin::domain::timestamp::Timestamp;
use onecadmin::domain::value::ClusterAlias;
use onecadmin::infrastructure::config::model as config;
use onecadmin::infrastructure::rac::arguments::{RacAuthMode, RacCredentials};
use onecadmin::infrastructure::rac::error::{RacError, RacErrorKind};
use onecadmin::infrastructure::rac::locator::{RacCandidate, RacOrigin, SearchPolicy};
use onecadmin::infrastructure::rac::parser::RacRecord;
use onecadmin::infrastructure::rac::version::PlatformVersion;
use onecadmin::infrastructure::telemetry::audit::AuditResult;

fn ok<T, E: Debug>(result: Result<T, E>) -> T {
    result.unwrap_or_else(|error| panic!("{error:?}"))
}

fn uuid(value: u128) -> Uuid {
    Uuid::from_u128(value)
}

fn alias(value: &str) -> ClusterAlias {
    ok(ClusterAlias::new(value))
}

fn record(fields: &[(&str, &str)]) -> RacRecord {
    let mut record = RacRecord::new();
    for (name, value) in fields {
        record.insert(name, value);
    }
    record
}

fn cluster_record(id: Uuid, host: &str) -> RacRecord {
    record(&[
        ("cluster", &id.to_text()),
        ("name", &format!("Cluster {}", id.to_text())),
        ("host", host),
        ("port", "1541"),
    ])
}

fn raw_snapshot(entries: &[(&str, &str, Uuid)], infobase_password: bool) -> RawConfigSnapshot {
    let mut clusters = IndexMap::new();
    for (name, host, id) in entries {
        clusters.insert(
            (*name).to_owned(),
            config::ClusterConfig {
                ras: config::RasConfig { host: (*host).to_owned(), port: 1545 },
                discovered_cluster: config::DiscoveredCluster {
                    uuid: *id,
                    name: format!("Cluster {name}"),
                    host: (*host).to_owned(),
                    port: 1541,
                },
                rac: config::RacConfig::default(),
                cluster_auth: config::AuthConfig::none(),
                infobase_auth: config::InfobaseAuthConfig {
                    default: if infobase_password {
                        config::AuthConfig::password("ib-admin", config::Password::new("secret"))
                    } else {
                        config::AuthConfig::none()
                    },
                    overrides: Vec::new(),
                },
            },
        );
    }
    RawConfigSnapshot {
        path: "config.yaml".to_owned(),
        config: config::Config {
            schema_version: config::CONFIG_SCHEMA_VERSION,
            settings: config::Settings::default(),
            clusters,
        },
    }
}

fn converted(snapshot: RawConfigSnapshot) -> ApplicationConfigSnapshot {
    ok(load_config_snapshot(false, Ok(snapshot), false, &SearchPolicy::isolated()))
}

fn source(name: &str, id: Uuid) -> ClusterSource {
    ClusterSource::new(alias(name), ClusterUuid::new(id), "Cluster", ok("good.local:1545".parse()))
}

fn moment() -> Timestamp {
    Timestamp::parse_rfc3339("2026-08-11T10:00:00+03:00").unwrap_or_else(|| panic!("moment"))
}

#[test]
fn config_is_converted_and_sorted_by_case_insensitive_alias() {
    let mut snapshot = raw_snapshot(
        &[("zeta", "ras.local", Uuid::new_v4()), ("Alpha", "ras.local", Uuid::new_v4())],
        false,
    );
    snapshot.path = "config.yaml".to_owned();

    let converted = ok(convert_config_snapshot(snapshot, &SearchPolicy::isolated()));
    assert_eq!(converted.targets[0].target.alias.as_str(), "Alpha");
    assert_eq!(converted.targets[1].target.alias.as_str(), "zeta");
}

#[test]
fn exit_codes_match_the_public_contract() {
    assert_eq!(AppError::invalid("bad", "Ошибка").app_exit_code().value(), 2);
    assert_eq!(AppError::cancelled().app_exit_code().value(), 6);
    assert_eq!(AppError::no_objects("session").app_exit_code().value(), 7);
    assert_eq!(AppError::interrupted().app_exit_code().value(), 130);
    assert_eq!(AppError::internal("x", "y").app_exit_code().value(), 1);
    assert_eq!(
        AppError::new(AppErrorCategory::RacNotFound, "x", "y").app_exit_code().value(),
        3
    );
    assert_eq!(AppError::all_targets_failed(Vec::new()).app_exit_code().value(), 4);
    assert_eq!(AppExitCode::PartialSuccess.value(), 5);
    assert_eq!(AppExitCode::Success.value(), 0);
}

#[test]
fn approval_never_prompts_inside_application() {
    assert_eq!(Approval::from_flags(false, true).ok(), Some(Approval::Forced));
    assert_eq!(Approval::from_flags(true, false).ok(), Some(Approval::Confirmed));
    assert_eq!(
        Approval::from_flags(false, false).err().map(|error| error.code()),
        Some("confirmation_required")
    );
}

fn target(name: &str) -> ConfiguredTarget {
    ConfiguredTarget {
        target: ClusterTarget::new(
            alias(name),
            ok("ras.local:1545".parse()),
            ok(DiscoveredCluster::new(
                ClusterUuid::new(Uuid::new_v4()),
                "cluster",
                "cluster.local",
                1541,
            )),
            RacPolicy::Auto,
            AuthConfig::none(),
            InfobaseAuthPolicy::default(),
        ),
        search_policy: SearchPolicy::isolated(),
        cluster_credentials: RacCredentials::none(),
    }
}

#[test]
fn selector_prefers_exact_alias_with_underscore_then_uses_mask() {
    let snapshot = ApplicationConfigSnapshot {
        path: "config.yaml".to_owned(),
        timeout: 30,
        global_rac_path: None,
        targets: vec![target("prod_1"), target("prodX1")],
    };
    let exact = ok(ClusterSelector::parse(Some("prod_1")));
    let selected = ok(select_configured_targets(&snapshot, &exact));
    assert_eq!(selected.len(), 1);
    assert_eq!(selected[0].target.alias.as_str(), "prod_1");

    let mask = ok(ClusterSelector::parse(Some("prod%")));
    assert_eq!(ok(select_configured_targets(&snapshot, &mask)).len(), 2);

    for (text, message) in [
        ("dev%", "Маска кластера `dev%` не выбрала ни одной цели"),
        ("dev", "Кластер с alias `dev` не найден"),
    ] {
        let missing = ok(ClusterSelector::parse(Some(text)));
        let error = select_configured_targets(&snapshot, &missing)
            .err()
            .unwrap_or_else(|| panic!("nothing matches {text}"));
        assert_eq!((error.code(), error.message()), ("cluster_not_found", message));
    }
    assert!(ClusterSelector::parse(Some("")).is_err());
    assert_eq!(ok(select_configured_targets(&snapshot, &ClusterSelector::all())).len(), 2);
}

#[test]
fn session_swaps_rac_uuid_and_numeric_session_fields() {
    let record = record(&[
        ("session", &uuid(2).to_text()),
        ("session-id", "42"),
        ("cpu-time-total", "123"),
        ("hibernate", "true"),
        ("started-at", "2026-08-11T10:00:00+03:00"),
        ("future-field", "preserved"),
    ]);

    let session = ok(normalize_session(&record, source("dev", uuid(1))));
    assert_eq!(session.session.into_uuid().as_u128(), 2);
    assert_eq!(session.session_id, Some(42));
    assert_eq!(session.cpu_time_total, Some(123));
    assert_eq!(session.hibernate, Some(true));
    assert!(session.started_at.is_some());
    assert_eq!(
        session.extra.get("future_field"),
        Some(&FieldValue::Str("preserved".to_owned()))
    );
}

#[test]
fn malformed_required_uuid_rejects_record_but_optional_value_is_preserved() {
    let invalid = record(&[("connection", "not-a-uuid"), ("process", &uuid(3).to_text())]);
    assert_eq!(
        normalize_connection(&invalid, source("dev", uuid(1))).err().map(|error| error.code()),
        Some("invalid_required_uuid")
    );

    let session =
        record(&[("session", &uuid(2).to_text()), ("cpu-time-total", "future-format")]);
    let session = ok(normalize_session(&session, source("dev", uuid(1))));
    assert_eq!(session.cpu_time_total, None);
    assert_eq!(
        session.extra.get("rac_raw_cpu_time_total"),
        Some(&FieldValue::Str("future-format".to_owned()))
    );
}

#[test]
fn session_fanout_returns_partial_data_and_joined_infobase() {
    let snapshot = converted(raw_snapshot(
        &[("z-good", "good.local", uuid(1)), ("a-bad", "bad.local", uuid(2))],
        false,
    ));
    let request = SessionListRequest::default();
    let asked = ok(session_query(&request, &FieldRegistry::new()));
    let mut results = Vec::new();
    for configured in ok(select_configured_targets(&snapshot, &request.clusters)) {
        let policy = ok(live_cluster_policy(&configured, &request.rac_options, false));
        let reply = if configured.target.ras.as_str() == "bad.local:1545" {
            Err(RacError::new(RacErrorKind::Timeout))
        } else {
            Ok(vec![cluster_record(uuid(1), "good.local")])
        };
        let live = match live_cluster(&configured, policy, &reply) {
            Ok(live) => live,
            Err(error) => {
                results.push(Err(error));
                continue;
            }
        };
        let infobases = ok(infobases_for_live(
            &configured,
            &live,
            &Ok(vec![record(&[("infobase", &uuid(100).to_text()), ("name", "Accounting")])]),
        ));
        results.push(sessions_for_target(
            &configured,
            &live,
            &infobases,
            &Ok(vec![record(&[
                ("session", &uuid(200).to_text()),
                ("session-id", "7"),
                ("infobase", &uuid(100).to_text()),
                ("user-name", "DOMAIN\\user"),
                ("host", "PC-01"),
            ])]),
        ));
    }
    let outcome = ok(list_outcome(results, false, &asked));

    assert_eq!(outcome.data.len(), 1);
    assert_eq!(outcome.data[0].infobase.as_deref(), Some("Accounting"));
    assert_eq!(outcome.errors.len(), 1);
    assert_eq!(outcome.errors[0].kind, TargetErrorKind::Timeout);
    assert!(outcome.meta.partial);
    assert_eq!(outcome.app_exit_code(), AppExitCode::PartialSuccess);
}

#[test]
fn repeated_identities_in_an_answer_are_refused() {
    let snapshot = converted(raw_snapshot(&[("dev", "good.local", uuid(1))], false));
    let configured = &snapshot.targets[0];
    let live = ok(live_cluster(
        configured,
        SearchPolicy::isolated(),
        &Ok(vec![cluster_record(uuid(1), "good.local")]),
    ));
    let same = || record(&[("session", &uuid(200).to_text())]);
    let error = sessions_for_target(configured, &live, &Vec::new(), &Ok(vec![same(), same()]))
        .err()
        .unwrap_or_else(|| panic!("a repeated identity is refused"));
    assert_eq!(error.kind, TargetErrorKind::InvalidResponse);
    assert_eq!(
        error.message,
        format!("RAC вернул повторяющийся UUID сеанса {}", uuid(200).to_text())
    );
}

#[test]
fn live_cluster_must_be_the_configured_one() {
    let snapshot = converted(raw_snapshot(&[("dev", "good.local", uuid(1))], false));
    let configured = &snapshot.targets[0];
    let asked = |records: Vec<RacRecord>| {
        live_cluster(configured, SearchPolicy::isolated(), &Ok(records))
            .err()
            .map(|error| error.message)
    };
    assert_eq!(
        asked(Vec::new()),
        Some("RAS должен вернуть ровно один кластер, получено: 0".to_owned())
    );
    assert_eq!(
        asked(vec![cluster_record(uuid(2), "good.local")]),
        Some(format!(
            "RAS вернул другой кластер: ожидался UUID {}, получен {}",
            uuid(1).to_text(),
            uuid(2).to_text()
        ))
    );
    assert_eq!(asked(vec![cluster_record(uuid(1), "good.local")]), None);
    let cancelled = live_cluster_policy(configured, &RacOptions::default(), true);
    assert_eq!(cancelled.err().map(|error| error.kind), Some(TargetErrorKind::Cancelled));
    assert!(converted(raw_snapshot(&[], false)).targets.is_empty());
}

#[test]
fn destructive_guard_runs_before_config_or_rac_io() {
    let error = require_session_selector(&SessionKillRequest::default())
        .err()
        .unwrap_or_else(|| panic!("selector guard must reject the request"));

    assert_eq!(error.code(), "selector_required");
    assert!(require_process_selector(&ProcessKillRequest::default()).is_err());
    let found = QueryOutcome::new(Vec::new(), Vec::new(), 0, 1);
    let connections =
        prepare_connection_kill(&ConnectionKillRequest::default(), SnapshotId::random(), found);
    assert_eq!(connections.err().map(|error| error.code()), Some("selector_required"));
}

#[test]
fn nothing_found_is_not_planned() {
    let mut request = SessionKillRequest::default();
    request.selection.number = Some(7);
    assert!(require_session_selector(&request).is_ok());
    let found = QueryOutcome::new(Vec::new(), Vec::new(), 0, 1);
    let error = prepare_session_kill(&request, SnapshotId::random(), found)
        .err()
        .unwrap_or_else(|| panic!("an empty plan is refused"));
    assert_eq!(error.code(), "no_objects");
    assert_eq!(error.message(), "Не найдено сеансов для завершения");

    let records = vec![SessionRecord::new(source("dev", uuid(1)), SessionUuid::new(uuid(2)))];
    let found = QueryOutcome::new(records, Vec::new(), 1, 1);
    let prepared = ok(prepare_session_kill(&request, SnapshotId::random(), found));
    assert_eq!(prepared.plan.len(), 1);
    assert!(!prepared.is_partial());
}

#[test]
fn cluster_remove_never_treats_underscore_as_a_mask() {
    let snapshot = converted(raw_snapshot(&[("prodX1", "good.local", uuid(1))], false));

    let error = prepare_cluster_remove("prod_1", &snapshot)
        .err()
        .unwrap_or_else(|| panic!("remove must require an exact alias"));

    assert_eq!(error.code(), "no_objects");
}

#[test]
fn a_removal_needs_the_planned_cluster() {
    let snapshot = converted(raw_snapshot(&[("dev", "good.local", uuid(1))], false));
    let plan = ok(prepare_cluster_remove("DEV", &snapshot));
    assert!(check_cluster_remove(&plan, &snapshot, false).is_ok());
    assert_eq!(
        check_cluster_remove(&plan, &snapshot, true).err().map(|error| error.code()),
        Some("cancelled")
    );
    let replaced = converted(raw_snapshot(&[("dev", "good.local", uuid(9))], false));
    assert!(check_cluster_remove(&plan, &replaced, false).is_err());

    let done = ok(finish_cluster_remove(&plan, Ok(raw_snapshot(&[], false))));
    assert_eq!(done.removed.alias.as_str(), "dev");
    assert_eq!(done.config_path, "config.yaml");
    let event = audit_cluster_remove(moment(), r"DOMAIN\operator", &plan, None);
    assert_eq!(event.result, AuditResult::Success);
    assert_eq!(event.context.cluster_alias.as_deref(), Some("dev"));
}

#[test]
fn an_effect_that_was_not_recorded_is_told() {
    let unrecorded = || Some(PortError::new(PortErrorKind::Internal, "audit", "журнал закрыт"));
    let told = complete_audit(Ok(7), unrecorded(), AuditedChange::ClusterRemoved)
        .err()
        .unwrap_or_else(|| panic!("an unrecorded effect is an error"));
    assert!(told.message().contains("Подключение удалено"));
    assert_eq!(told.app_exit_code(), AppExitCode::Internal);
    assert_eq!(complete_audit(Ok(7), None, AuditedChange::ClusterRemoved).ok(), Some(7));
    let failed: Result<(), AppError> =
        complete_audit(Err(AppError::cancelled()), unrecorded(), AuditedChange::ClusterRemoved);
    let failed = failed.err().unwrap_or_else(|| panic!("a failure stays one"));
    assert_eq!(failed.code(), "cancelled");
    assert!(failed.audit_error().is_some());
}

#[test]
fn credential_overrides_are_loaded_through_the_typed_snapshot() {
    let mut snapshot = raw_snapshot(&[("dev", "good.local", uuid(1))], false);
    let Some(cluster) = snapshot.config.clusters.get_mut("dev") else {
        panic!("test cluster must exist");
    };
    cluster
        .infobase_auth
        .overrides
        .push(config::InfobaseAuthOverride::none("Accounting", Some(uuid(100))));
    let snapshot = converted(snapshot);

    let overrides = ok(credential_overrides("DEV", &snapshot));

    assert_eq!(overrides.len(), 1);
    assert_eq!(overrides[0].infobase(), Some("Accounting"));
    assert_eq!(overrides[0].infobase_uuid(), Some(InfobaseUuid::new(uuid(100))));

    let removed = ok(check_override_remove(
        &CredentialOverrideRemoveRequest {
            cluster: alias("dev"),
            selector: ok(CredentialOverrideSelector::by_name("accounting")),
        },
        &snapshot,
        false,
    ));
    assert_eq!(removed.infobase(), Some("Accounting"));
    let entry = || {
        ok(InfobaseAuthOverride::new(Some("Trade".to_owned()), None, AuthConfig::none()))
    };
    let known = CredentialOverrideAddRequest { cluster: alias("DEV"), entry: entry() };
    assert!(check_override_add(&known, &snapshot, false).is_ok());
    assert_eq!(
        check_override_add(&known, &snapshot, true).err().map(|error| error.code()),
        Some("cancelled")
    );
    let unknown = CredentialOverrideAddRequest { cluster: alias("prod"), entry: entry() };
    assert_eq!(
        check_override_add(&unknown, &snapshot, false).err().map(|error| error.code()),
        Some("cluster_not_found")
    );
    assert!(CredentialOverrideSelector::by_name("").is_err());
}

#[test]
fn session_kill_continues_after_item_error_and_audits_every_item() {
    let cluster_uuid = uuid(1);
    let snapshot = converted(raw_snapshot(&[("dev", "good.local", cluster_uuid)], false));
    let records = [10, 11]
        .into_iter()
        .map(|id| SessionRecord::new(source("dev", cluster_uuid), SessionUuid::new(uuid(id))))
        .collect::<Vec<_>>();
    let plan = ok(SessionKillPlan::from_records(SnapshotId::random(), &records, None));

    let mut terminated = Vec::new();
    let mut events = Vec::new();
    let mut finished = Vec::new();
    for group in group_targets(plan.targets()) {
        let members = group_members(plan.targets(), &group);
        assert!(home_cluster(&snapshot.targets, &members[0].1).is_some());
        let mut run = GroupRun::new(members, None);
        loop {
            match run.begin(false) {
                GroupStep::Run => {
                    let id = run.current().unwrap_or_else(|| panic!("a target")).session_id;
                    terminated.push(id.into_uuid().as_u128());
                    if id.into_uuid().as_u128() == 10 {
                        run.ran(&Err(RacError::new(RacErrorKind::Auth)));
                    } else {
                        run.ran(&Ok(Vec::new()));
                    }
                }
                GroupStep::Record => {}
                GroupStep::Finished => break,
            }
            let item = run.pending().unwrap_or_else(|| panic!("an outcome"));
            events.push(audit_session_outcome(moment(), r"DOMAIN\operator", plan.message(), item));
            run.recorded(None);
        }
        finished.push(run.finish());
    }
    let outcome = collect_outcomes(finished);

    assert_eq!(outcome.meta.failed, 1);
    assert_eq!(outcome.meta.succeeded, 1);
    assert_eq!(outcome.app_exit_code(), AppExitCode::PartialSuccess);
    assert_eq!(terminated, vec![10, 11]);
    assert_eq!(events.len(), 2);
    assert_eq!(events[0].result, AuditResult::Failure);
    assert_eq!(events[1].result, AuditResult::Success);
    assert_eq!(events[1].context.message.as_deref(), Some(plan.message()));
}

#[test]
fn a_cancelled_group_leaves_the_rest_alone() {
    let records = [10, 11]
        .into_iter()
        .map(|id| SessionRecord::new(source("dev", uuid(1)), SessionUuid::new(uuid(id))))
        .collect::<Vec<_>>();
    let plan = ok(SessionKillPlan::from_records(SnapshotId::random(), &records, None));
    let groups = group_targets(plan.targets());
    assert_eq!(groups.len(), 1);
    let mut run = GroupRun::new(group_members(plan.targets(), &groups[0]), None);
    assert!(matches!(run.begin(false), GroupStep::Run));
    run.ran(&Ok(Vec::new()));
    run.recorded(Some(ActionError::new("audit", "журнал закрыт")));
    while !matches!(run.begin(true), GroupStep::Finished) {
        assert!(run.current().is_none() || run.pending().is_some());
        run.recorded(None);
    }
    let outcome = collect_outcomes(vec![run.finish()]);
    assert_eq!(outcome.meta.succeeded, 1);
    assert_eq!(outcome.meta.cancelled, 1);
    assert_eq!(outcome.meta.audit_failed, 1);
    assert_eq!(outcome.app_exit_code(), AppExitCode::Cancelled);
}

#[test]
fn connection_kill_keeps_pair_and_uses_matching_infobase_credentials() {
    let cluster_uuid = uuid(1);
    let snapshot = converted(raw_snapshot(&[("dev", "good.local", cluster_uuid)], true));
    let mut record = ConnectionRecord::new(
        source("dev", cluster_uuid),
        ConnectionUuid::new(uuid(21)),
        ProcessUuid::new(uuid(20)),
    );
    record.infobase = Some("Accounting".to_owned());
    record.infobase_uuid = Some(InfobaseUuid::new(uuid(100)));
    let plan = ok(ConnectionKillPlan::from_records(SnapshotId::random(), &[record]));

    let mut disconnected = Vec::new();
    let groups = group_targets(plan.targets());
    let mut run = GroupRun::new(group_members(plan.targets(), &groups[0]), None);
    while let GroupStep::Run = run.begin(false) {
        {
            let target = run.current().unwrap_or_else(|| panic!("a target"));
            let configured =
                home_cluster(&snapshot.targets, target).unwrap_or_else(|| panic!("its cluster"));
            let found = ok(connection_credentials(configured, target));
            disconnected.push((
                target.process_id.into_uuid().as_u128(),
                target.connection_id.into_uuid().as_u128(),
                found.credentials.mode(),
                found.credentials.username().map(str::to_owned),
            ));
        }
        run.ran(&Ok(Vec::new()));
        let item = run.pending().unwrap_or_else(|| panic!("an outcome"));
        let event = audit_connection_outcome(moment(), r"DOMAIN\operator", item);
        assert_eq!(event.context.connection_uuid, Some(uuid(21)));
        run.recorded(None);
    }
    let outcome = collect_outcomes(vec![run.finish()]);

    assert_eq!(outcome.meta.succeeded, 1);
    assert_eq!(
        disconnected,
        vec![(20, 21, RacAuthMode::Password, Some("ib-admin".to_owned()))]
    );
}

fn add_request() -> ClusterAddRequest {
    ClusterAddRequest::new(alias("new"), ok("good.local:1545".parse()), AuthConfig::none())
}

#[test]
fn a_cluster_is_written_only_after_it_was_authenticated() {
    let mut addition = ClusterAddition::new(add_request(), false);
    let mut written = None;
    loop {
        let step = match addition.step() {
            AdditionStep::Load => "load",
            AdditionStep::Verify { .. } => "verify",
            AdditionStep::ListClusters { .. } => "clusters",
            AdditionStep::ListInfobases { cluster, credentials, .. } => {
                assert_eq!(cluster.uuid.into_uuid(), uuid(1));
                assert_eq!(credentials.mode(), RacAuthMode::NoAuth);
                assert!(written.is_none());
                "infobases"
            }
            AdditionStep::Write { cluster } => {
                written = Some(cluster.clone());
                "write"
            }
            AdditionStep::Finished => break,
        };
        addition = match step {
            "load" => addition.loaded(
                Ok(converted(raw_snapshot(&[], false))),
                &SearchPolicy::isolated(),
            ),
            "verify" => addition.verified(None),
            "clusters" => addition.listed(&Ok(vec![cluster_record(uuid(1), "good.local")])),
            "infobases" => addition.authenticated(&Ok(Vec::new()), false),
            _ => {
                let mut raw = raw_snapshot(&[], false);
                raw.config.clusters.insert(
                    "new".to_owned(),
                    written.clone().unwrap_or_else(|| panic!("what was written")),
                );
                addition.written(Ok(converted(raw)))
            }
        };
    }
    let (configured, path) = ok(addition.into_result().unwrap_or_else(|| panic!("a result")));
    assert_eq!(path, "config.yaml");
    assert_eq!(configured.target.alias.as_str(), "new");
    assert_eq!(configured.target.discovered_cluster.uuid.into_uuid(), uuid(1));
}

#[test]
fn a_known_alias_is_not_added_again() {
    let addition = ClusterAddition::new(add_request(), false).loaded(
        Ok(converted(raw_snapshot(&[("NEW", "good.local", uuid(1))], false))),
        &SearchPolicy::isolated(),
    );
    let result = addition.into_result().unwrap_or_else(|| panic!("a result"));
    assert!(result.is_err());

    let cancelled = ClusterAddition::new(add_request(), true).into_result();
    assert_eq!(
        cancelled.and_then(Result::err).map(|error| error.code()),
        Some("cancelled")
    );
}

#[test]
fn a_failed_addition_is_audited_as_one() {
    let event = audit_cluster_add(
        moment(),
        r"DOMAIN\operator",
        &alias("new"),
        &Err(AppError::internal("io", "диск полон")),
    );
    assert_eq!(event.result, AuditResult::Failure);
    assert_eq!(event.error_code.as_deref(), Some("io"));
}

#[test]
fn credentials_read_back_from_the_configuration() {
    let auth = ok(AuthConfig::password("admin", SecretString::new("top-secret")));
    let stored = ok(domain_auth_to_config(&auth));
    assert!(ok(config_auth_to_domain(&stored)) == auth);
    let used = ok(auth_to_rac_credentials(&auth));
    assert_eq!(used.username(), Some("admin"));
    assert_eq!(used.mode(), RacAuthMode::Password);
}

#[test]
fn exit_codes_of_actions_follow_their_items() {
    let code = |items: Vec<ActionItemOutcome<u8>>| ActionOutcome::new(items).app_exit_code();
    let failed = || ActionItemOutcome::failed(1, ActionError::new("a", "b"));
    assert_eq!(code(Vec::new()), AppExitCode::NoObjects);
    assert_eq!(code(vec![ActionItemOutcome::success(1)]), AppExitCode::Success);
    assert_eq!(code(vec![failed()]), AppExitCode::AllTargetsFailed);
    assert_eq!(
        code(vec![ActionItemOutcome::success(1), failed()]),
        AppExitCode::PartialSuccess
    );
    assert_eq!(
        code(vec![failed(), ActionItemOutcome::cancelled(1)]),
        AppExitCode::Cancelled
    );
    assert_eq!(
        code(vec![
            ActionItemOutcome::success(1).with_audit_error(ActionError::new("audit", "нет"))
        ]),
        AppExitCode::Internal
    );
}

#[test]
fn kinds_of_failures_are_told_apart() {
    assert_eq!(target_kind_from_rac(RacErrorKind::Timeout), TargetErrorKind::Timeout);
    assert_eq!(target_kind_from_rac(RacErrorKind::Auth), TargetErrorKind::Authentication);
    assert_eq!(target_kind_from_rac(RacErrorKind::NotFound), TargetErrorKind::RacNotFound);
    assert_eq!(target_kind_from_rac(RacErrorKind::Dns), TargetErrorKind::Unavailable);
    assert_eq!(target_kind_from_rac(RacErrorKind::Cancelled), TargetErrorKind::Cancelled);
    assert_eq!(target_kind_from_rac(RacErrorKind::Parse), TargetErrorKind::InvalidResponse);
}

#[test]
fn diagnostics_name_the_copies_in_use() {
    let targets = vec![target("dev"), target("prod")];
    let candidate = RacCandidate {
        path: r"C:\rac.exe".to_owned(),
        version: PlatformVersion::new(8, 3, 24, 1),
        origin: RacOrigin::Registry,
    };
    let shown = update_diagnostics(&targets, &vec![None, Some(candidate)], &Vec::new(), moment());
    assert_eq!(shown.selected_rac.len(), 1);
    assert_eq!(shown.selected_rac[0].cluster.as_str(), "prod");
    assert_eq!(shown.selected_rac[0].path, r"C:\rac.exe");
    assert_eq!(shown.updated_at, Some(moment()));
}

#[test]
fn a_session_is_the_same_with_its_identity_and_number_swapped() {
    let id = uuid(0x1234);
    let as_printed = record(&[
        ("session", &id.to_text()),
        ("session-id", "-17"),
        ("host", "client"),
        ("future-field", "preserved"),
    ]);
    let swapped = record(&[
        ("session", "-17"),
        ("session-id", &id.to_text()),
        ("host", "client"),
        ("future-field", "preserved"),
    ]);
    let first = ok(normalize_session(&as_printed, source("dev", uuid(1))));
    let second = ok(normalize_session(&swapped, source("dev", uuid(1))));
    assert_eq!(first.session.into_uuid(), id);
    assert_eq!(first.session_id, Some(-17));
    assert!(first == second);

    let not_a_number =
        record(&[("session", "not a number"), ("session-id", &id.to_text())]);
    let kept = ok(normalize_session(&not_a_number, source("dev", uuid(1))));
    assert_eq!(kept.session.into_uuid(), id);
    assert_eq!(kept.session_id, None);
    assert_eq!(
        kept.extra.get("rac_raw_session"),
        Some(&FieldValue::Str("not a number".to_owned()))
    );
}

#[test]
fn requests_to_terminate_select_nothing_by_default() {
    let sessions = SessionKillRequest::default().selection;
    assert!(sessions.query.is_none() && sessions.rac_options.explicit_path.is_none());
    let connections = ConnectionKillRequest::default().selection;
    assert!(connections.query.is_none() && connections.rac_options.explicit_path.is_none());
    let processes = ProcessKillRequest::default().selection;
    assert!(processes.query.is_none() && processes.rac_options.explicit_path.is_none());
}
