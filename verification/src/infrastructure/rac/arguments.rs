//! The commands of the `rac` utility.

use vstd::prelude::*;
use vstd::string::*;

use crate::domain::auth;
use crate::domain::identity;
use crate::domain::identity::Uuid;
use crate::infrastructure::rac::process::{ArgumentsView, RacArguments};
use crate::outcome;
use crate::text;

verus! {

#[derive(Clone, Copy, Debug, PartialEq, Eq, Structural)]
pub enum RacAuthMode {
    NoAuth,
    Password,
    Os,
}

/// A password for the utility, shown in its arguments alone.
pub struct RacSecret {
    value: String,
}

impl View for RacSecret {
    type V = Seq<char>;

    closed spec fn view(&self) -> Seq<char> {
        self.value@
    }
}

impl RacSecret {
    pub fn new(value: &str) -> (result: Self)
        ensures
            result@ == value@,
    {
        RacSecret { value: value.to_owned() }
    }

    /// The password, for the arguments of the process alone.
    pub fn expose_secret(&self) -> (result: &str)
        ensures
            result@ == self@,
    {
        self.value.as_str()
    }

    /// Overwrites the password.
    pub fn zeroize(&mut self)
        ensures
            final(self)@ == Seq::<char>::empty(),
    {
        auth::wipe(&mut self.value);
    }

    /// What a log may show of the password.
    pub fn debug_text(&self) -> (result: String)
        ensures
            result@ == "RacSecret(<redacted>)"@,
    {
        "RacSecret(<redacted>)".to_owned()
    }
}

/// A password that is no longer used is overwritten.
impl Drop for RacSecret {
    fn drop(&mut self)
        opens_invariants none
        no_unwind
    {
        auth::wipe(&mut self.value);
    }
}

impl Clone for RacSecret {
    fn clone(&self) -> (result: Self)
        ensures
            result == *self,
    {
        RacSecret { value: self.value.clone() }
    }
}

/// Who the utility says it is.
pub enum RacCredentials {
    NoAuth,
    Password { username: String, password: RacSecret },
    Os { username: String },
}

pub enum CredentialsView {
    NoAuth,
    Password { username: Seq<char>, password: Seq<char> },
    Os { username: Seq<char> },
}

impl View for RacCredentials {
    type V = CredentialsView;

    open spec fn view(&self) -> CredentialsView {
        match self {
            RacCredentials::NoAuth => CredentialsView::NoAuth,
            RacCredentials::Password { username, password } => CredentialsView::Password {
                username: username@,
                password: password@,
            },
            RacCredentials::Os { username } => CredentialsView::Os { username: username@ },
        }
    }
}

impl CredentialsView {
    /// What a log may show.
    pub open spec fn debug_text(self) -> Seq<char> {
        match self {
            CredentialsView::NoAuth => "RacCredentials::None"@,
            CredentialsView::Password { username, .. } => "RacCredentials::Password { username: "@
                + text::shown(username) + ", password: \"<redacted>\" }"@,
            CredentialsView::Os { username } => "RacCredentials::Os { username: "@ + text::shown(
                username,
            ) + " }"@,
        }
    }
}

impl RacCredentials {
    pub fn none() -> (result: Self)
        ensures
            result@ == CredentialsView::NoAuth,
    {
        RacCredentials::NoAuth
    }

    pub fn password(username: &str, password: &str) -> (result: Self)
        ensures
            result@ == (CredentialsView::Password { username: username@, password: password@ }),
    {
        RacCredentials::Password {
            username: username.to_owned(),
            password: RacSecret::new(password),
        }
    }

    /// A user whom the operating system vouches for.
    pub fn os(username: &str) -> (result: Self)
        ensures
            result@ == (CredentialsView::Os { username: username@ }),
    {
        RacCredentials::Os { username: username.to_owned() }
    }

    pub fn mode(&self) -> (result: RacAuthMode)
        ensures
            result == (match self@ {
                CredentialsView::NoAuth => RacAuthMode::NoAuth,
                CredentialsView::Password { .. } => RacAuthMode::Password,
                CredentialsView::Os { .. } => RacAuthMode::Os,
            }),
    {
        match self {
            RacCredentials::NoAuth => RacAuthMode::NoAuth,
            RacCredentials::Password { .. } => RacAuthMode::Password,
            RacCredentials::Os { .. } => RacAuthMode::Os,
        }
    }

    pub fn username(&self) -> (result: Option<&str>)
        ensures
            outcome::option_view(result) == (match self@ {
                CredentialsView::NoAuth => None,
                CredentialsView::Password { username, .. } => Some(username),
                CredentialsView::Os { username } => Some(username),
            }),
    {
        match self {
            RacCredentials::NoAuth => None,
            RacCredentials::Password { username, .. } => Some(username.as_str()),
            RacCredentials::Os { username } => Some(username.as_str()),
        }
    }

    /// What a log may show of the credentials: never the password.
    pub fn debug_text(&self) -> (result: String)
        ensures
            result@ == self@.debug_text(),
    {
        match self {
            RacCredentials::NoAuth => "RacCredentials::None".to_owned(),
            RacCredentials::Password { username, .. } => {
                let mut result = "RacCredentials::Password { username: ".to_owned();
                result.push_str(text::show(username.as_str()).as_str());
                result.push_str(", password: \"<redacted>\" }");
                result
            },
            RacCredentials::Os { username } => {
                let mut result = "RacCredentials::Os { username: ".to_owned();
                result.push_str(text::show(username.as_str()).as_str());
                result.push_str(" }");
                result
            },
        }
    }
}

impl Clone for RacCredentials {
    fn clone(&self) -> (result: Self)
        ensures
            result == *self,
    {
        match self {
            RacCredentials::NoAuth => RacCredentials::NoAuth,
            RacCredentials::Password { username, password } => RacCredentials::Password {
                username: username.clone(),
                password: password.clone(),
            },
            RacCredentials::Os { username } => RacCredentials::Os { username: username.clone() },
        }
    }
}

impl Default for RacCredentials {
    fn default() -> (result: Self)
        ensures
            result@ == CredentialsView::NoAuth,
    {
        RacCredentials::NoAuth
    }
}

/// Whose credentials an option carries.
#[derive(Clone, Copy)]
pub enum CredentialScope {
    Cluster,
    Infobase,
}

impl CredentialScope {
    pub open spec fn user_text(self) -> Seq<char> {
        match self {
            CredentialScope::Cluster => "--cluster-user"@,
            CredentialScope::Infobase => "--infobase-user"@,
        }
    }

    pub open spec fn password_text(self) -> Seq<char> {
        match self {
            CredentialScope::Cluster => "--cluster-pwd"@,
            CredentialScope::Infobase => "--infobase-pwd"@,
        }
    }

    fn user_option(self) -> (result: &'static str)
        ensures
            result@ == self.user_text(),
    {
        match self {
            CredentialScope::Cluster => "--cluster-user",
            CredentialScope::Infobase => "--infobase-user",
        }
    }

    fn password_option(self) -> (result: &'static str)
        ensures
            result@ == self.password_text(),
    {
        match self {
            CredentialScope::Cluster => "--cluster-pwd",
            CredentialScope::Infobase => "--infobase-pwd",
        }
    }
}

/// `option=value`.
pub open spec fn assignment(option: Seq<char>, value: Seq<char>) -> Seq<char> {
    option + "="@ + value
}

impl ArgumentsView {
    /// With `option=value`, which a log may show.
    pub open spec fn with_option(self, option: Seq<char>, value: Seq<char>) -> ArgumentsView {
        self.with_public(assignment(option, value))
    }

    /// With an identity as the value of an option.
    pub open spec fn with_id(self, option: Seq<char>, id: u128) -> ArgumentsView {
        self.with_option(option, identity::uuid_text(id))
    }

    /// With the credentials, the password hidden from logs.
    pub open spec fn with_credentials(
        self,
        scope: CredentialScope,
        credentials: CredentialsView,
    ) -> ArgumentsView {
        match credentials {
            CredentialsView::NoAuth => self,
            CredentialsView::Password { username, password } => self.with_option(
                scope.user_text(),
                username,
            ).with_secret(assignment(scope.password_text(), password), scope.password_text()),
            CredentialsView::Os { username } => self.with_option(scope.user_text(), username),
        }
    }

    /// The words of a command.
    pub open spec fn command(words: Seq<Seq<char>>) -> ArgumentsView {
        ArgumentsView { raw: words, redacted: words }
    }
}

fn command_prefix(parts: &[&str]) -> (result: RacArguments)
    ensures
        result@ == ArgumentsView::command(text::str_views(parts@)),
{
    let mut arguments = RacArguments::empty();
    let ghost words = text::str_views(parts@);
    let mut i: usize = 0;
    assert(words.take(0) =~= Seq::<Seq<char>>::empty());
    while i < parts.len()
        invariant
            i <= parts@.len(),
            words == text::str_views(parts@),
            arguments@.raw == words.take(i as int),
            arguments@.redacted == words.take(i as int),
        decreases parts.len() - i,
    {
        assert(words.take(i + 1) =~= words.take(i as int).push(words[i as int]));
        arguments.push_public(parts[i]);
        i = i + 1;
    }
    assert(words.take(words.len() as int) =~= words);
    arguments
}

fn push_public_option(arguments: &mut RacArguments, option: &str, value: &str)
    ensures
        final(arguments)@ == old(arguments)@.with_option(option@, value@),
{
    let mut argument = option.to_owned();
    argument.push_str("=");
    argument.push_str(value);
    arguments.push_public(argument.as_str());
}

fn push_id(arguments: &mut RacArguments, option: &str, id: Uuid)
    ensures
        final(arguments)@ == old(arguments)@.with_id(option@, id@),
{
    push_public_option(arguments, option, id.to_text().as_str());
}

fn push_secret_option(arguments: &mut RacArguments, option: &str, value: &RacSecret)
    ensures
        final(arguments)@ == old(arguments)@.with_secret(assignment(option@, value@), option@),
{
    let mut raw = option.to_owned();
    raw.push_str("=");
    raw.push_str(value.expose_secret());
    arguments.push_secret(raw, option);
}

fn push_credentials(
    arguments: &mut RacArguments,
    scope: CredentialScope,
    credentials: &RacCredentials,
)
    ensures
        final(arguments)@ == old(arguments)@.with_credentials(scope, credentials@),
{
    match credentials {
        RacCredentials::NoAuth => {},
        RacCredentials::Password { username, password } => {
            push_public_option(arguments, scope.user_option(), username.as_str());
            push_secret_option(arguments, scope.password_option(), password);
        },
        RacCredentials::Os { username } => {
            push_public_option(arguments, scope.user_option(), username.as_str());
        },
    }
}

/// A command on a cluster: its words, the cluster, the credentials and the address of the server.
pub open spec fn cluster_command(
    words: Seq<Seq<char>>,
    ras_address: Seq<char>,
    cluster_id: u128,
    credentials: CredentialsView,
) -> ArgumentsView {
    ArgumentsView::command(words).with_id("--cluster"@, cluster_id).with_credentials(
        CredentialScope::Cluster,
        credentials,
    ).with_public(ras_address)
}

fn build_cluster_command(
    words: &[&str],
    ras_address: &str,
    cluster_id: Uuid,
    credentials: &RacCredentials,
) -> (result: RacArguments)
    ensures
        result@ == cluster_command(
            text::str_views(words@),
            ras_address@,
            cluster_id@,
            credentials@,
        ),
{
    let mut arguments = command_prefix(words);
    push_id(&mut arguments, "--cluster", cluster_id);
    push_credentials(&mut arguments, CredentialScope::Cluster, credentials);
    arguments.push_public(ras_address);
    arguments
}

/// The command that ends a session.
pub open spec fn terminate_command(
    ras_address: Seq<char>,
    cluster_id: u128,
    session_id: u128,
    message: Option<Seq<char>>,
    credentials: CredentialsView,
) -> ArgumentsView {
    let named = ArgumentsView::command(seq!["session"@, "terminate"@]).with_id(
        "--cluster"@,
        cluster_id,
    ).with_id("--session"@, session_id);
    let explained = match message {
        Some(message) => named.with_option("--error-message"@, message),
        None => named,
    };
    explained.with_credentials(CredentialScope::Cluster, credentials).with_public(ras_address)
}

/// The command that breaks a connection.
pub open spec fn disconnect_command(
    ras_address: Seq<char>,
    cluster_id: u128,
    process_id: u128,
    connection_id: u128,
    cluster_credentials: CredentialsView,
    infobase_credentials: CredentialsView,
) -> ArgumentsView {
    ArgumentsView::command(seq!["connection"@, "disconnect"@]).with_id(
        "--cluster"@,
        cluster_id,
    ).with_id("--process"@, process_id).with_id("--connection"@, connection_id).with_credentials(
        CredentialScope::Cluster,
        cluster_credentials,
    ).with_credentials(CredentialScope::Infobase, infobase_credentials).with_public(ras_address)
}

/// The command that turns a working process off.
pub open spec fn turn_off_command(
    ras_address: Seq<char>,
    cluster_id: u128,
    process_id: u128,
    credentials: CredentialsView,
) -> ArgumentsView {
    ArgumentsView::command(seq!["process"@, "turn-off"@]).with_id(
        "--cluster"@,
        cluster_id,
    ).with_id("--process"@, process_id).with_credentials(
        CredentialScope::Cluster,
        credentials,
    ).with_public(ras_address)
}

#[derive(Clone, Copy, Debug)]
pub struct RacArgumentBuilder {}

impl RacArgumentBuilder {
    pub fn new() -> (result: Self) {
        RacArgumentBuilder {  }
    }

    pub fn version(&self) -> (result: RacArguments)
        ensures
            result@ == ArgumentsView::command(seq!["--version"@]),
    {
        let words = ["--version"];
        assert(text::str_views(words@) =~= seq!["--version"@]);
        command_prefix(&words)
    }

    pub fn cluster_list(&self, ras_address: &str) -> (result: RacArguments)
        ensures
            result@ == ArgumentsView::command(seq!["cluster"@, "list"@]).with_public(ras_address@),
    {
        let words = ["cluster", "list"];
        assert(text::str_views(words@) =~= seq!["cluster"@, "list"@]);
        let mut arguments = command_prefix(&words);
        arguments.push_public(ras_address);
        arguments
    }

    /// The command takes no credentials.
    pub fn cluster_info(
        &self,
        ras_address: &str,
        cluster_id: Uuid,
        _cluster_credentials: &RacCredentials,
    ) -> (result: RacArguments)
        ensures
            result@ == ArgumentsView::command(seq!["cluster"@, "info"@]).with_id(
                "--cluster"@,
                cluster_id@,
            ).with_public(ras_address@),
    {
        let words = ["cluster", "info"];
        assert(text::str_views(words@) =~= seq!["cluster"@, "info"@]);
        let mut arguments = command_prefix(&words);
        push_id(&mut arguments, "--cluster", cluster_id);
        arguments.push_public(ras_address);
        arguments
    }

    /// The utility calls this `infobase summary list`.
    pub fn infobase_list(
        &self,
        ras_address: &str,
        cluster_id: Uuid,
        cluster_credentials: &RacCredentials,
    ) -> (result: RacArguments)
        ensures
            result@ == cluster_command(
                seq!["infobase"@, "summary"@, "list"@],
                ras_address@,
                cluster_id@,
                cluster_credentials@,
            ),
    {
        let words = ["infobase", "summary", "list"];
        assert(text::str_views(words@) =~= seq!["infobase"@, "summary"@, "list"@]);
        build_cluster_command(&words, ras_address, cluster_id, cluster_credentials)
    }

    pub fn session_list(
        &self,
        ras_address: &str,
        cluster_id: Uuid,
        cluster_credentials: &RacCredentials,
    ) -> (result: RacArguments)
        ensures
            result@ == cluster_command(
                seq!["session"@, "list"@],
                ras_address@,
                cluster_id@,
                cluster_credentials@,
            ),
    {
        let words = ["session", "list"];
        assert(text::str_views(words@) =~= seq!["session"@, "list"@]);
        build_cluster_command(&words, ras_address, cluster_id, cluster_credentials)
    }

    pub fn session_terminate(
        &self,
        ras_address: &str,
        cluster_id: Uuid,
        session_id: Uuid,
        message: Option<&str>,
        cluster_credentials: &RacCredentials,
    ) -> (result: RacArguments)
        ensures
            result@ == terminate_command(
                ras_address@,
                cluster_id@,
                session_id@,
                outcome::option_view(message),
                cluster_credentials@,
            ),
    {
        let words = ["session", "terminate"];
        assert(text::str_views(words@) =~= seq!["session"@, "terminate"@]);
        let mut arguments = command_prefix(&words);
        push_id(&mut arguments, "--cluster", cluster_id);
        push_id(&mut arguments, "--session", session_id);
        match message {
            Some(message) => {
                push_public_option(&mut arguments, "--error-message", message);
            },
            None => {},
        }
        push_credentials(&mut arguments, CredentialScope::Cluster, cluster_credentials);
        arguments.push_public(ras_address);
        arguments
    }

    pub fn connection_list(
        &self,
        ras_address: &str,
        cluster_id: Uuid,
        cluster_credentials: &RacCredentials,
    ) -> (result: RacArguments)
        ensures
            result@ == cluster_command(
                seq!["connection"@, "list"@],
                ras_address@,
                cluster_id@,
                cluster_credentials@,
            ),
    {
        let words = ["connection", "list"];
        assert(text::str_views(words@) =~= seq!["connection"@, "list"@]);
        build_cluster_command(&words, ras_address, cluster_id, cluster_credentials)
    }

    pub fn connection_disconnect(
        &self,
        ras_address: &str,
        cluster_id: Uuid,
        process_id: Uuid,
        connection_id: Uuid,
        cluster_credentials: &RacCredentials,
        infobase_credentials: &RacCredentials,
    ) -> (result: RacArguments)
        ensures
            result@ == disconnect_command(
                ras_address@,
                cluster_id@,
                process_id@,
                connection_id@,
                cluster_credentials@,
                infobase_credentials@,
            ),
    {
        let words = ["connection", "disconnect"];
        assert(text::str_views(words@) =~= seq!["connection"@, "disconnect"@]);
        let mut arguments = command_prefix(&words);
        push_id(&mut arguments, "--cluster", cluster_id);
        push_id(&mut arguments, "--process", process_id);
        push_id(&mut arguments, "--connection", connection_id);
        push_credentials(&mut arguments, CredentialScope::Cluster, cluster_credentials);
        push_credentials(&mut arguments, CredentialScope::Infobase, infobase_credentials);
        arguments.push_public(ras_address);
        arguments
    }

    pub fn process_list(
        &self,
        ras_address: &str,
        cluster_id: Uuid,
        cluster_credentials: &RacCredentials,
    ) -> (result: RacArguments)
        ensures
            result@ == cluster_command(
                seq!["process"@, "list"@],
                ras_address@,
                cluster_id@,
                cluster_credentials@,
            ),
    {
        let words = ["process", "list"];
        assert(text::str_views(words@) =~= seq!["process"@, "list"@]);
        build_cluster_command(&words, ras_address, cluster_id, cluster_credentials)
    }

    pub fn process_turn_off(
        &self,
        ras_address: &str,
        cluster_id: Uuid,
        process_id: Uuid,
        cluster_credentials: &RacCredentials,
    ) -> (result: RacArguments)
        ensures
            result@ == turn_off_command(
                ras_address@,
                cluster_id@,
                process_id@,
                cluster_credentials@,
            ),
    {
        let words = ["process", "turn-off"];
        assert(text::str_views(words@) =~= seq!["process"@, "turn-off"@]);
        let mut arguments = command_prefix(&words);
        push_id(&mut arguments, "--cluster", cluster_id);
        push_id(&mut arguments, "--process", process_id);
        push_credentials(&mut arguments, CredentialScope::Cluster, cluster_credentials);
        arguments.push_public(ras_address);
        arguments
    }
}

/// The same credentials with another password.
pub open spec fn with_password(credentials: CredentialsView, password: Seq<char>) -> CredentialsView {
    match credentials {
        CredentialsView::Password { username, .. } => CredentialsView::Password {
            username,
            password,
        },
        _ => credentials,
    }
}

/// What a log shows of a command does not depend on the passwords in it.
pub proof fn law_commands_hide_passwords(
    words: Seq<Seq<char>>,
    ras_address: Seq<char>,
    cluster_id: u128,
    first_id: u128,
    second_id: u128,
    message: Option<Seq<char>>,
    cluster: CredentialsView,
    infobase: CredentialsView,
    password: Seq<char>,
)
    ensures
        cluster_command(words, ras_address, cluster_id, cluster).redacted == cluster_command(
            words,
            ras_address,
            cluster_id,
            with_password(cluster, password),
        ).redacted,
        terminate_command(ras_address, cluster_id, first_id, message, cluster).redacted
            == terminate_command(
            ras_address,
            cluster_id,
            first_id,
            message,
            with_password(cluster, password),
        ).redacted,
        turn_off_command(ras_address, cluster_id, first_id, cluster).redacted == turn_off_command(
            ras_address,
            cluster_id,
            first_id,
            with_password(cluster, password),
        ).redacted,
        disconnect_command(
            ras_address,
            cluster_id,
            first_id,
            second_id,
            cluster,
            infobase,
        ).redacted == disconnect_command(
            ras_address,
            cluster_id,
            first_id,
            second_id,
            with_password(cluster, password),
            with_password(infobase, password),
        ).redacted,
        cluster.debug_text() == with_password(cluster, password).debug_text(),
{
}

/// A command to break a connection names the process and the connection it was asked for.
pub proof fn law_disconnect_names_its_pair(
    ras_address: Seq<char>,
    cluster_id: u128,
    process_id: u128,
    connection_id: u128,
    cluster: CredentialsView,
    infobase: CredentialsView,
)
    ensures
        ({
            let arguments = disconnect_command(
                ras_address,
                cluster_id,
                process_id,
                connection_id,
                cluster,
                infobase,
            ).raw;
            &&& arguments[3] == assignment("--process"@, identity::uuid_text(process_id))
            &&& arguments[4] == assignment("--connection"@, identity::uuid_text(connection_id))
        }),
{
}

} // verus!
