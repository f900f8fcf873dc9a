//! What the journal holds of an action: every part under its own name, under the account that acted.

use vstd::prelude::*;
use vstd::string::*;

use crate::domain::auth::{AuthConfig, AuthView, SecretString};
use crate::domain::error::DomainError;
use crate::domain::identity;
use crate::domain::timestamp::Timestamp;
use crate::infrastructure::telemetry::audit;
use crate::infrastructure::telemetry::audit::{AuditEvent, AuditResult, EventView};
use crate::infrastructure::telemetry::logging;
use crate::infrastructure::telemetry::redaction;
use crate::infrastructure::windows::identity::{
    confirm_identity, system_identity, IdentityError, WindowsIdentity,
};
use crate::json::{JsonView, RowView};
use crate::outcome;
use crate::text;

verus! {

/// A member of an object under a name.
pub open spec fn holds(row: RowView, name: Seq<char>, value: JsonView) -> bool {
    row.contains((name, value))
}

/// A text that may be missing.
pub open spec fn text_or_null(value: Option<Seq<char>>) -> JsonView {
    match value {
        Some(value) => JsonView::Text(value),
        None => JsonView::Null,
    }
}

/// An identity that may be missing.
pub open spec fn id_or_null(value: Option<u128>) -> JsonView {
    match value {
        Some(value) => JsonView::Text(identity::uuid_text(value)),
        None => JsonView::Null,
    }
}

/// A number that may be missing.
pub open spec fn count_or_null(value: Option<u64>) -> JsonView {
    match value {
        Some(value) => JsonView::Int(value as int),
        None => JsonView::Null,
    }
}

proof fn lemma_holds(row: RowView, at: int, name: Seq<char>, value: JsonView)
    requires
        0 <= at < row.len(),
        row[at] == (name, value),
    ensures
        holds(row, name, value),
{
}

/// A record of the journal holds the moment, the account, the action, the cluster, the infobase, the
/// session, the connection, the number, the message, the reason, the result and the error, each under its
/// own name, and nothing else.
pub proof fn law_records_hold_each_part_under_its_name(event: EventView)
    ensures
        ({
            let row = audit::event_row(event);
            let context = event.context;
            &&& row.len() == 15
            &&& holds(row, "timestamp"@, JsonView::Text(event.timestamp.text(true)))
            &&& holds(row, "windows_user"@, JsonView::Text(event.windows_user))
            &&& holds(row, "action"@, JsonView::Text(event.action))
            &&& holds(row, "cluster_alias"@, text_or_null(context.cluster_alias))
            &&& holds(row, "cluster_uuid"@, id_or_null(context.cluster_uuid))
            &&& holds(row, "infobase_name"@, text_or_null(context.infobase_name))
            &&& holds(row, "infobase_uuid"@, id_or_null(context.infobase_uuid))
            &&& holds(row, "session_uuid"@, id_or_null(context.session_uuid))
            &&& holds(row, "connection_uuid"@, id_or_null(context.connection_uuid))
            &&& holds(row, "numeric_id"@, count_or_null(context.numeric_id))
            &&& holds(row, "message"@, text_or_null(context.message))
            &&& holds(row, "reason"@, text_or_null(context.reason))
            &&& holds(row, "result"@, JsonView::Text(result_name(event.result)))
            &&& holds(row, "error_code"@, text_or_null(event.error_code))
            &&& holds(row, "error"@, text_or_null(event.error))
        }),
{
    let row = audit::event_row(event);
    let context = event.context;
    lemma_holds(row, 0, "timestamp"@, JsonView::Text(event.timestamp.text(true)));
    lemma_holds(row, 1, "windows_user"@, JsonView::Text(event.windows_user));
    lemma_holds(row, 2, "action"@, JsonView::Text(event.action));
    lemma_holds(row, 3, "cluster_alias"@, text_or_null(context.cluster_alias));
    lemma_holds(row, 4, "cluster_uuid"@, id_or_null(context.cluster_uuid));
    lemma_holds(row, 5, "infobase_name"@, text_or_null(context.infobase_name));
    lemma_holds(row, 6, "infobase_uuid"@, id_or_null(context.infobase_uuid));
    lemma_holds(row, 7, "session_uuid"@, id_or_null(context.session_uuid));
    lemma_holds(row, 8, "connection_uuid"@, id_or_null(context.connection_uuid));
    lemma_holds(row, 9, "numeric_id"@, count_or_null(context.numeric_id));
    lemma_holds(row, 10, "message"@, text_or_null(context.message));
    lemma_holds(row, 11, "reason"@, text_or_null(context.reason));
    lemma_holds(row, 12, "result"@, JsonView::Text(result_name(event.result)));
    lemma_holds(row, 13, "error_code"@, text_or_null(event.error_code));
    lemma_holds(row, 14, "error"@, text_or_null(event.error));
}

/// How a result is called in the journal.
pub open spec fn result_name(result: AuditResult) -> Seq<char> {
    match result {
        AuditResult::Success => "success"@,
        AuditResult::Failure => "failure"@,
        AuditResult::Partial => "partial"@,
        AuditResult::Cancelled => "cancelled"@,
    }
}

/// Taking secrets out of a record changes its texts alone, each into its own redacted text: identities,
/// numbers, the moment and the result stay.
pub proof fn law_redaction_keeps_identities(secrets: Seq<Seq<char>>, event: EventView)
    ensures
        ({
            let written = audit::sanitized(secrets, event);
            &&& written.timestamp == event.timestamp
            &&& written.result == event.result
            &&& written.context.cluster_uuid == event.context.cluster_uuid
            &&& written.context.infobase_uuid == event.context.infobase_uuid
            &&& written.context.session_uuid == event.context.session_uuid
            &&& written.context.connection_uuid == event.context.connection_uuid
            &&& written.context.numeric_id == event.context.numeric_id
            &&& written.windows_user == redaction::redacted(secrets, event.windows_user)
            &&& written.action == redaction::redacted(secrets, event.action)
            &&& is_redacted(secrets, event.context.cluster_alias, written.context.cluster_alias)
            &&& is_redacted(secrets, event.context.infobase_name, written.context.infobase_name)
            &&& is_redacted(secrets, event.context.message, written.context.message)
            &&& is_redacted(secrets, event.context.reason, written.context.reason)
            &&& is_redacted(secrets, event.error_code, written.error_code)
            &&& is_redacted(secrets, event.error, written.error)
        }),
{
}

/// A text that may be missing is written without secrets, and stays missing where it is.
pub open spec fn is_redacted(
    secrets: Seq<Seq<char>>,
    value: Option<Seq<char>>,
    written: Option<Seq<char>>,
) -> bool {
    match value {
        Some(value) => written == Some(redaction::redacted(secrets, value)),
        None => written is None,
    }
}

/// A record is under the account that acts, with its action, its moment and its result, and without an
/// account there is no record.
pub proof fn law_records_are_under_the_acting_account(
    timestamp: Timestamp,
    account: Result<WindowsIdentity, IdentityError>,
    action: &str,
    result: AuditResult,
    event: Result<AuditEvent, IdentityError>,
)
    requires
        call_ensures(AuditEvent::by_account, (timestamp, account, action, result), event),
    ensures
        event is Ok <==> account is Ok,
        event is Ok ==> {
            &&& event->Ok_0@.windows_user == account->Ok_0@.account_name
            &&& event->Ok_0@.timestamp == timestamp
            &&& event->Ok_0@.action == action@
            &&& event->Ok_0@.result == result
            &&& event->Ok_0@.error is None
        },
{
    assert(outcome::result_view(event) is Ok <==> event is Ok);
}

/// An account is the expected one where the system says so, or, where the system does not compare accounts,
/// where the names are the same but for case; an empty name is nobody's.
pub proof fn law_only_the_expected_account_is_confirmed(
    expected: &str,
    account: WindowsIdentity,
    by_system: Option<bool>,
    result: Result<WindowsIdentity, IdentityError>,
)
    requires
        call_ensures(
            confirm_identity,
            (expected, Ok::<WindowsIdentity, IdentityError>(account), by_system),
            result,
        ),
    ensures
        result is Ok <==> expected@.len() > 0 && (match by_system {
            Some(equal) => equal,
            None => text::lowercase(account@.account_name) == text::lowercase(expected@),
        }),
        result is Ok ==> result->Ok_0@ == account@,
{
    assert(outcome::result_view(result) is Ok <==> result is Ok);
}

/// The account is the one that the system tells; only without it, that of the environment, with its domain
/// before its name where there is one.
pub proof fn law_the_system_tells_the_account_first(
    from_api: Option<String>,
    domain: Option<String>,
    username: Option<String>,
    result: Result<WindowsIdentity, IdentityError>,
)
    requires
        call_ensures(system_identity, (from_api, domain, username), result),
    ensures
        from_api is Some ==> result is Ok && result->Ok_0@.account_name == from_api->0@,
        from_api is None && username is Some && username->0@.len() > 0 ==> result is Ok && (
        result->Ok_0@.account_name == username->0@ || domain is Some
            && result->Ok_0@.account_name == domain->0@ + "\\"@ + username->0@),
        from_api is None && username is Some && username->0@.len() > 0 && domain is Some
            && domain->0@.len() > 0 ==> result->Ok_0@.account_name == domain->0@ + "\\"@
            + username->0@,
        from_api is None && (username is None || username->0@.len() == 0) ==> result is Err,
{
    assert(outcome::result_view(result) is Ok <==> result is Ok);
}

/// Credentials hold the user and the password that they are made of, and need both.
pub proof fn law_credentials_need_a_user_and_a_password(
    user: &str,
    password: SecretString,
    result: Result<AuthConfig, DomainError>,
)
    requires
        call_ensures(AuthConfig::password, (user, password), result),
    ensures
        result is Ok <==> user@.len() > 0 && password@.len() > 0,
        result is Ok ==> result->Ok_0@ == (AuthView::Password {
            user: user@,
            password: password@,
        }),
{
    assert(outcome::result_view(result) is Ok <==> result is Ok);
}

proof fn lemma_bare(flag: Seq<char>)
    ensures
        redaction::bare_flag(flag).len() > 0 ==> flag.len() > 0 && redaction::bare_flag(flag).last()
            == text::lower_char(if flag.last() == '_' {
            '-'
        } else {
            flag.last()
        }),
    decreases flag.len(),
{
    if flag.len() > 0 && (flag[0] == '-' || flag[0] == '/') {
        lemma_bare(flag.drop_first());
    }
}

/// An option whose name ends in `-pwd` or `-password` takes a password, and so do `--pwd` and `--password`;
/// what follows it is not logged. An option that does not end in a `d` takes none.
pub proof fn law_password_options_are_known(name: Seq<char>, flag: Seq<char>)
    requires
        name.len() > 0,
        name[0] != '-' && name[0] != '/',
        flag.len() > 0 ==> flag.last() != 'd' && flag.last() != 'D',
    ensures
        redaction::takes_password("--"@ + name + "-pwd"@),
        redaction::takes_password("--"@ + name + "-password"@),
        redaction::takes_password("--"@ + "pwd"@),
        redaction::takes_password("--"@ + "password"@),
        !redaction::takes_password(flag),
{
    reveal_strlit("--");
    reveal_strlit("pwd");
    reveal_strlit("password");
    reveal_strlit("passwd");
    reveal_strlit("-pwd");
    reveal_strlit("-password");
    reveal_strlit("-passwd");
    lemma_dashed(name + "-pwd"@);
    lemma_dashed(name + "-password"@);
    lemma_dashed("pwd"@);
    lemma_dashed("password"@);
    assert("--"@ + (name + "-pwd"@) =~= "--"@ + name + "-pwd"@);
    assert("--"@ + (name + "-password"@) =~= "--"@ + name + "-password"@);
    let short = redaction::bare_flag("--"@ + name + "-pwd"@);
    let long = redaction::bare_flag("--"@ + name + "-password"@);
    assert(short.subrange(short.len() - 4, short.len() as int) =~= "-pwd"@);
    assert(long.subrange(long.len() - 9, long.len() as int) =~= "-password"@);
    assert(redaction::bare_flag("--"@ + "pwd"@) =~= "pwd"@);
    assert(redaction::bare_flag("--"@ + "password"@) =~= "password"@);
    lemma_bare(flag);
    if redaction::takes_password(flag) {
        let bare = redaction::bare_flag(flag);
        assert(bare.len() > 0);
        if "-password"@.is_suffix_of(bare) {
            assert(bare.last() == "-password"@.last());
        } else if "-passwd"@.is_suffix_of(bare) {
            assert(bare.last() == "-passwd"@.last());
        } else if "-pwd"@.is_suffix_of(bare) {
            assert(bare.last() == "-pwd"@.last());
        }
        assert(bare.last() == 'd');
    }
}

proof fn lemma_dashed(name: Seq<char>)
    requires
        name.len() > 0,
        name[0] != '-' && name[0] != '/',
    ensures
        redaction::bare_flag("--"@ + name) == text::lower(text::replaced(name, '_', '-')),
{
    reveal_strlit("--");
    let whole = "--"@ + name;
    reveal_with_fuel(redaction::bare_flag, 3);
    assert(whole.drop_first().drop_first() =~= name);
}

/// The password behind its option, and the one assigned to it, are not logged; the option is.
pub proof fn law_passwords_are_not_logged(
    secrets: Seq<Seq<char>>,
    flag: Seq<char>,
    password: Seq<char>,
)
    requires
        redaction::takes_password(flag),
        !flag.contains('='),
    ensures
        redaction::logged_arguments(secrets, seq![flag, password])[0] == flag,
        redaction::logged_arguments(secrets, seq![flag, password])[1] == "[REDACTED]"@,
        redaction::logged_arguments(secrets, seq![flag + seq!['='] + password])[0] == flag + "="@
            + "[REDACTED]"@,
{
    let pair = seq![flag, password];
    let whole = flag + seq!['='] + password;
    text::lemma_first_index(flag, '=', 0);
    if text::first_index(flag, '=', 0) < flag.len() {
        assert(flag.contains(flag[text::first_index(flag, '=', 0)]));
    }
    assert(redaction::assigned_flag(flag) is None);
    assert(!redaction::follows_flag(pair, 0));
    assert(redaction::follows_flag(pair, 1));
    text::lemma_first_index_after(flag, '=', password);
    assert(whole.take(flag.len() as int) =~= flag);
    assert(!redaction::follows_flag(seq![whole], 0));
}

/// A line of the log ends in a line feed where it did before.
pub proof fn law_lines_keep_their_end(secrets: Seq<Seq<char>>, line: Seq<u8>)
    requires
        line.len() > 0,
        line.last() == 0x0a,
    ensures
        logging::written_line(secrets, line).last() == 0x0a,
        logging::written_line(secrets, line).drop_last() == vstd::utf8::encode_utf8(
            redaction::redacted(secrets, logging::lossy_text(line.drop_last())),
        ),
{
    assert(logging::written_line(secrets, line).drop_last() =~= vstd::utf8::encode_utf8(
        redaction::redacted(secrets, logging::lossy_text(line.drop_last())),
    ));
}

} // verus!
