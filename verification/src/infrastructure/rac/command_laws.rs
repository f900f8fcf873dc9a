//! What the commands of the `rac` utility name: the object they are for, its cluster and the server.

use vstd::prelude::*;
use vstd::string::*;

use crate::domain::identity;
use crate::domain::identity::Uuid;
use crate::infrastructure::rac::arguments::{CredentialsView, RacArgumentBuilder, RacCredentials};
use crate::infrastructure::rac::process::RacArguments;

verus! {

proof fn lemma_hex_digit(left: nat, right: nat)
    requires
        left < 16,
        right < 16,
        identity::hex_digit(left) == identity::hex_digit(right),
    ensures
        left == right,
{
}

proof fn lemma_hex_length(value: nat, count: nat)
    ensures
        identity::hex(value, count).len() == count,
    decreases count,
{
    if count > 0 {
        lemma_hex_length(value / 16, (count - 1) as nat);
    }
}

/// Sixteen to a power.
spec fn power16(count: nat) -> nat
    decreases count,
{
    if count == 0 {
        1
    } else {
        16 * power16((count - 1) as nat)
    }
}

proof fn lemma_hex_injective(left: nat, right: nat, count: nat)
    requires
        left < power16(count),
        right < power16(count),
        identity::hex(left, count) == identity::hex(right, count),
    ensures
        left == right,
    decreases count,
{
    if count > 0 {
        let a = identity::hex(left / 16, (count - 1) as nat);
        let b = identity::hex(right / 16, (count - 1) as nat);
        let x = identity::hex_digit(left % 16);
        let y = identity::hex_digit(right % 16);
        assert(a.push(x).last() == b.push(y).last());
        assert(a.push(x).drop_last() =~= a);
        assert(b.push(y).drop_last() =~= b);
        lemma_hex_digit(left % 16, right % 16);
        lemma_hex_injective(left / 16, right / 16, (count - 1) as nat);
    }
}

/// Identifiers that differ have texts that differ.
pub proof fn law_identity_texts_differ(left: u128, right: u128)
    requires
        left != right,
    ensures
        identity::uuid_text(left) != identity::uuid_text(right),
{
    let a = identity::hex(left as nat, 32);
    let b = identity::hex(right as nat, 32);
    lemma_hex_length(left as nat, 32);
    lemma_hex_length(right as nat, 32);
    let s = identity::uuid_text(left);
    let t = identity::uuid_text(right);
    if s == t {
        assert forall|i: int| 0 <= i < 32 implies a[i] == b[i] by {
            let at = if i < 8 {
                i
            } else if i < 12 {
                i + 1
            } else if i < 16 {
                i + 2
            } else if i < 20 {
                i + 3
            } else {
                i + 4
            };
            assert(s[at] == a[i]);
            assert(t[at] == b[i]);
        }
        assert(a =~= b);
        assert(power16(32) == 0x1_0000_0000_0000_0000_0000_0000_0000_0000) by {
            reveal_with_fuel(power16, 33);
        }
        lemma_hex_injective(left as nat, right as nat, 32);
    }
}

/// An option that names an identity.
spec fn named(option: Seq<char>, id: u128) -> Seq<char> {
    option + identity::uuid_text(id)
}

proof fn lemma_named_differ(option: Seq<char>, left: u128, right: u128)
    ensures
        named(option, left) == named(option, right) ==> left == right,
{
    if left != right {
        law_identity_texts_differ(left, right);
        let a = named(option, left);
        let b = named(option, right);
        assert(a.skip(option.len() as int) =~= identity::uuid_text(left));
        assert(b.skip(option.len() as int) =~= identity::uuid_text(right));
    }
}

/// The options that tell the utility who asks, under the given names of user and password.
pub open spec fn credential_options(
    user: Seq<char>,
    password: Seq<char>,
    credentials: CredentialsView,
) -> Seq<Seq<char>> {
    match credentials {
        CredentialsView::NoAuth => Seq::empty(),
        CredentialsView::Os { username } => seq![user + username],
        CredentialsView::Password { username, password: secret } => seq![
            user + username,
            password + secret,
        ],
    }
}

/// The command to end a session names the cluster and the session that it was asked for, tells the
/// users why where there is a message, says who asks, and goes to the server it was asked for.
pub proof fn law_terminate_names_its_session(
    builder: RacArgumentBuilder,
    ras_address: &str,
    cluster_id: Uuid,
    session_id: Uuid,
    message: Option<&str>,
    credentials: RacCredentials,
    result: RacArguments,
)
    requires
        call_ensures(
            RacArgumentBuilder::session_terminate,
            (&builder, ras_address, cluster_id, session_id, message, &credentials),
            result,
        ),
    ensures
        result@.raw[0] == "session"@,
        result@.raw[1] == "terminate"@,
        result@.raw[2] == "--cluster="@ + identity::uuid_text(cluster_id@),
        result@.raw[3] == "--session="@ + identity::uuid_text(session_id@),
        result@.raw.skip(4) == (match message {
            Some(message) => seq!["--error-message="@ + message@],
            None => Seq::empty(),
        }) + credential_options("--cluster-user="@, "--cluster-pwd="@, credentials@)
            + seq![ras_address@],
        !(credentials@ is Password) ==> result@.redacted == result@.raw,
{
    reveal_strlit("=");
    reveal_strlit("--cluster");
    reveal_strlit("--cluster=");
    reveal_strlit("--session");
    reveal_strlit("--session=");
    reveal_strlit("--error-message");
    reveal_strlit("--error-message=");
    lemma_credential_names();
    assert("--cluster"@ + "="@ =~= "--cluster="@);
    assert("--session"@ + "="@ =~= "--session="@);
    assert("--error-message"@ + "="@ =~= "--error-message="@);
}

proof fn lemma_credential_names()
    ensures
        "--cluster-user"@ + "="@ == "--cluster-user="@,
        "--cluster-pwd"@ + "="@ == "--cluster-pwd="@,
        "--infobase-user"@ + "="@ == "--infobase-user="@,
        "--infobase-pwd"@ + "="@ == "--infobase-pwd="@,
{
    reveal_strlit("=");
    reveal_strlit("--cluster-user");
    reveal_strlit("--cluster-user=");
    reveal_strlit("--cluster-pwd");
    reveal_strlit("--cluster-pwd=");
    reveal_strlit("--infobase-user");
    reveal_strlit("--infobase-user=");
    reveal_strlit("--infobase-pwd");
    reveal_strlit("--infobase-pwd=");
    assert("--cluster-user"@ + "="@ =~= "--cluster-user="@);
    assert("--cluster-pwd"@ + "="@ =~= "--cluster-pwd="@);
    assert("--infobase-user"@ + "="@ =~= "--infobase-user="@);
    assert("--infobase-pwd"@ + "="@ =~= "--infobase-pwd="@);
}

/// The commands to end two different sessions differ, whatever else they are given.
pub proof fn law_terminate_commands_differ(
    builder: RacArgumentBuilder,
    ras_address: &str,
    cluster_id: Uuid,
    first_id: Uuid,
    second_id: Uuid,
    message: Option<&str>,
    credentials: RacCredentials,
    first: RacArguments,
    second: RacArguments,
)
    requires
        first_id@ != second_id@,
        call_ensures(
            RacArgumentBuilder::session_terminate,
            (&builder, ras_address, cluster_id, first_id, message, &credentials),
            first,
        ),
        call_ensures(
            RacArgumentBuilder::session_terminate,
            (&builder, ras_address, cluster_id, second_id, message, &credentials),
            second,
        ),
    ensures
        first@.raw != second@.raw,
{
    law_terminate_names_its_session(
        builder,
        ras_address,
        cluster_id,
        first_id,
        message,
        credentials,
        first,
    );
    law_terminate_names_its_session(
        builder,
        ras_address,
        cluster_id,
        second_id,
        message,
        credentials,
        second,
    );
    lemma_named_differ("--session="@, first_id@, second_id@);
}

/// The command to turn a working process off names the cluster and the process that it was asked for,
/// says who asks, and goes to the server it was asked for.
pub proof fn law_turn_off_names_its_process(
    builder: RacArgumentBuilder,
    ras_address: &str,
    cluster_id: Uuid,
    process_id: Uuid,
    credentials: RacCredentials,
    result: RacArguments,
)
    requires
        call_ensures(
            RacArgumentBuilder::process_turn_off,
            (&builder, ras_address, cluster_id, process_id, &credentials),
            result,
        ),
    ensures
        result@.raw[0] == "process"@,
        result@.raw[1] == "turn-off"@,
        result@.raw[2] == "--cluster="@ + identity::uuid_text(cluster_id@),
        result@.raw[3] == "--process="@ + identity::uuid_text(process_id@),
        result@.raw.skip(4) == credential_options(
            "--cluster-user="@,
            "--cluster-pwd="@,
            credentials@,
        ) + seq![ras_address@],
        !(credentials@ is Password) ==> result@.redacted == result@.raw,
{
    reveal_strlit("=");
    reveal_strlit("--cluster");
    reveal_strlit("--cluster=");
    reveal_strlit("--process");
    reveal_strlit("--process=");
    assert("--cluster"@ + "="@ =~= "--cluster="@);
    assert("--process"@ + "="@ =~= "--process="@);
    lemma_credential_names();
}

/// The commands to turn two different working processes off differ, whatever else they are given.
pub proof fn law_turn_off_commands_differ(
    builder: RacArgumentBuilder,
    ras_address: &str,
    cluster_id: Uuid,
    first_id: Uuid,
    second_id: Uuid,
    credentials: RacCredentials,
    first: RacArguments,
    second: RacArguments,
)
    requires
        first_id@ != second_id@,
        call_ensures(
            RacArgumentBuilder::process_turn_off,
            (&builder, ras_address, cluster_id, first_id, &credentials),
            first,
        ),
        call_ensures(
            RacArgumentBuilder::process_turn_off,
            (&builder, ras_address, cluster_id, second_id, &credentials),
            second,
        ),
    ensures
        first@.raw != second@.raw,
{
    law_turn_off_names_its_process(
        builder,
        ras_address,
        cluster_id,
        first_id,
        credentials,
        first,
    );
    law_turn_off_names_its_process(
        builder,
        ras_address,
        cluster_id,
        second_id,
        credentials,
        second,
    );
    lemma_named_differ("--process="@, first_id@, second_id@);
}

/// The command to break a connection names the cluster, the process and the connection that it was asked
/// for, says who asks of the cluster and who of the infobase, and goes to the server it was asked for.
pub proof fn law_disconnect_names_its_connection(
    builder: RacArgumentBuilder,
    ras_address: &str,
    cluster_id: Uuid,
    process_id: Uuid,
    connection_id: Uuid,
    cluster: RacCredentials,
    infobase: RacCredentials,
    result: RacArguments,
)
    requires
        call_ensures(
            RacArgumentBuilder::connection_disconnect,
            (&builder, ras_address, cluster_id, process_id, connection_id, &cluster, &infobase),
            result,
        ),
    ensures
        result@.raw[0] == "connection"@,
        result@.raw[1] == "disconnect"@,
        result@.raw[2] == "--cluster="@ + identity::uuid_text(cluster_id@),
        result@.raw[3] == "--process="@ + identity::uuid_text(process_id@),
        result@.raw[4] == "--connection="@ + identity::uuid_text(connection_id@),
        result@.raw.skip(5) == credential_options(
            "--cluster-user="@,
            "--cluster-pwd="@,
            cluster@,
        ) + credential_options("--infobase-user="@, "--infobase-pwd="@, infobase@)
            + seq![ras_address@],
        !(cluster@ is Password) && !(infobase@ is Password) ==> result@.redacted == result@.raw,
{
    reveal_strlit("=");
    reveal_strlit("--cluster");
    reveal_strlit("--cluster=");
    reveal_strlit("--process");
    reveal_strlit("--process=");
    reveal_strlit("--connection");
    reveal_strlit("--connection=");
    assert("--cluster"@ + "="@ =~= "--cluster="@);
    assert("--process"@ + "="@ =~= "--process="@);
    assert("--connection"@ + "="@ =~= "--connection="@);
    lemma_credential_names();
}

/// The commands to break two different connections differ, whatever else they are given.
pub proof fn law_disconnect_commands_differ(
    builder: RacArgumentBuilder,
    ras_address: &str,
    cluster_id: Uuid,
    process_id: Uuid,
    first_id: Uuid,
    second_id: Uuid,
    cluster: RacCredentials,
    infobase: RacCredentials,
    first: RacArguments,
    second: RacArguments,
)
    requires
        first_id@ != second_id@,
        call_ensures(
            RacArgumentBuilder::connection_disconnect,
            (&builder, ras_address, cluster_id, process_id, first_id, &cluster, &infobase),
            first,
        ),
        call_ensures(
            RacArgumentBuilder::connection_disconnect,
            (&builder, ras_address, cluster_id, process_id, second_id, &cluster, &infobase),
            second,
        ),
    ensures
        first@.raw != second@.raw,
{
    law_disconnect_names_its_connection(
        builder,
        ras_address,
        cluster_id,
        process_id,
        first_id,
        cluster,
        infobase,
        first,
    );
    law_disconnect_names_its_connection(
        builder,
        ras_address,
        cluster_id,
        process_id,
        second_id,
        cluster,
        infobase,
        second,
    );
    lemma_named_differ("--connection="@, first_id@, second_id@);
}

/// The command that lists infobases names the cluster that it was asked for, says who asks, and goes to the
/// server it was asked for.
pub proof fn law_infobase_list_names_its_cluster(
    builder: RacArgumentBuilder,
    ras_address: &str,
    cluster_id: Uuid,
    credentials: RacCredentials,
    result: RacArguments,
)
    requires
        call_ensures(
            RacArgumentBuilder::infobase_list,
            (&builder, ras_address, cluster_id, &credentials),
            result,
        ),
    ensures
        result@.raw[0] == "infobase"@,
        result@.raw[1] == "summary"@,
        result@.raw[2] == "list"@,
        result@.raw[3] == "--cluster="@ + identity::uuid_text(cluster_id@),
        result@.raw.skip(4) == credential_options(
            "--cluster-user="@,
            "--cluster-pwd="@,
            credentials@,
        ) + seq![ras_address@],
        !(credentials@ is Password) ==> result@.redacted == result@.raw,
{
    reveal_strlit("=");
    reveal_strlit("--cluster");
    reveal_strlit("--cluster=");
    assert("--cluster"@ + "="@ =~= "--cluster="@);
    lemma_credential_names();
}

/// The command that lists sessions names the cluster that it was asked for, says who asks, and goes to the
/// server it was asked for.
pub proof fn law_session_list_names_its_cluster(
    builder: RacArgumentBuilder,
    ras_address: &str,
    cluster_id: Uuid,
    credentials: RacCredentials,
    result: RacArguments,
)
    requires
        call_ensures(
            RacArgumentBuilder::session_list,
            (&builder, ras_address, cluster_id, &credentials),
            result,
        ),
    ensures
        result@.raw[0] == "session"@,
        result@.raw[1] == "list"@,
        result@.raw[2] == "--cluster="@ + identity::uuid_text(cluster_id@),
        result@.raw.skip(3) == credential_options(
            "--cluster-user="@,
            "--cluster-pwd="@,
            credentials@,
        ) + seq![ras_address@],
        !(credentials@ is Password) ==> result@.redacted == result@.raw,
{
    reveal_strlit("=");
    reveal_strlit("--cluster");
    reveal_strlit("--cluster=");
    assert("--cluster"@ + "="@ =~= "--cluster="@);
    lemma_credential_names();
}

/// The command that lists connections names the cluster that it was asked for, says who asks, and goes to the
/// server it was asked for.
pub proof fn law_connection_list_names_its_cluster(
    builder: RacArgumentBuilder,
    ras_address: &str,
    cluster_id: Uuid,
    credentials: RacCredentials,
    result: RacArguments,
)
    requires
        call_ensures(
            RacArgumentBuilder::connection_list,
            (&builder, ras_address, cluster_id, &credentials),
            result,
        ),
    ensures
        result@.raw[0] == "connection"@,
        result@.raw[1] == "list"@,
        result@.raw[2] == "--cluster="@ + identity::uuid_text(cluster_id@),
        result@.raw.skip(3) == credential_options(
            "--cluster-user="@,
            "--cluster-pwd="@,
            credentials@,
        ) + seq![ras_address@],
        !(credentials@ is Password) ==> result@.redacted == result@.raw,
{
    reveal_strlit("=");
    reveal_strlit("--cluster");
    reveal_strlit("--cluster=");
    assert("--cluster"@ + "="@ =~= "--cluster="@);
    lemma_credential_names();
}

/// The command that lists working processes names the cluster that it was asked for, says who asks, and goes to the
/// server it was asked for.
pub proof fn law_process_list_names_its_cluster(
    builder: RacArgumentBuilder,
    ras_address: &str,
    cluster_id: Uuid,
    credentials: RacCredentials,
    result: RacArguments,
)
    requires
        call_ensures(
            RacArgumentBuilder::process_list,
            (&builder, ras_address, cluster_id, &credentials),
            result,
        ),
    ensures
        result@.raw[0] == "process"@,
        result@.raw[1] == "list"@,
        result@.raw[2] == "--cluster="@ + identity::uuid_text(cluster_id@),
        result@.raw.skip(3) == credential_options(
            "--cluster-user="@,
            "--cluster-pwd="@,
            credentials@,
        ) + seq![ras_address@],
        !(credentials@ is Password) ==> result@.redacted == result@.raw,
{
    reveal_strlit("=");
    reveal_strlit("--cluster");
    reveal_strlit("--cluster=");
    assert("--cluster"@ + "="@ =~= "--cluster="@);
    lemma_credential_names();
}

/// The commands that need no credentials: the version, the clusters of a server, and one of them.
pub proof fn law_open_commands_name_their_server(
    builder: RacArgumentBuilder,
    ras_address: &str,
    cluster_id: Uuid,
    credentials: RacCredentials,
    version: RacArguments,
    clusters: RacArguments,
    cluster: RacArguments,
)
    requires
        call_ensures(RacArgumentBuilder::version, (&builder,), version),
        call_ensures(RacArgumentBuilder::cluster_list, (&builder, ras_address), clusters),
        call_ensures(
            RacArgumentBuilder::cluster_info,
            (&builder, ras_address, cluster_id, &credentials),
            cluster,
        ),
    ensures
        version@.raw == seq!["--version"@],
        clusters@.raw == seq!["cluster"@, "list"@, ras_address@],
        cluster@.raw == seq![
            "cluster"@,
            "info"@,
            "--cluster="@ + identity::uuid_text(cluster_id@),
            ras_address@,
        ],
{
    reveal_strlit("=");
    reveal_strlit("--cluster");
    reveal_strlit("--cluster=");
    assert("--cluster"@ + "="@ =~= "--cluster="@);
}

} // verus!
