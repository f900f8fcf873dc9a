//! What a diagnostic of the utility means, and what is hidden of its commands.

use vstd::prelude::*;
use vstd::string::*;

use crate::infrastructure::rac::error;
use crate::infrastructure::rac::error::RacErrorKind;
use crate::infrastructure::rac::gateway;
use crate::infrastructure::rac::process;
use crate::text;

verus! {

/// A diagnostic is of a kind only where it holds a phrase of that kind, and says nothing only where it holds
/// none.
pub proof fn law_kinds_rest_on_their_phrases(diagnostic: Seq<char>)
    ensures
        ({
            let kind = error::kind_of(diagnostic);
            &&& kind is ProtocolIncompatible <==> text::contains_some(
                diagnostic,
                error::protocol_needles(),
            )
            &&& kind is Timeout ==> text::contains_some(diagnostic, error::timeout_needles())
            &&& kind is Dns ==> text::contains_some(diagnostic, error::dns_needles())
            &&& kind is ConnectionRefused ==> text::contains_some(
                diagnostic,
                error::refusal_needles(),
            )
            &&& kind is Auth ==> text::contains_some(diagnostic, error::auth_needles())
            &&& kind is CommandSyntax ==> text::contains_some(diagnostic, error::syntax_needles())
            &&& kind is UnsupportedVersion ==> text::contains_some(
                diagnostic,
                error::version_needles(),
            )
            &&& kind is NotFound ==> text::contains_some(diagnostic, error::missing_needles())
            &&& kind is Unknown <==> error::tells_nothing(diagnostic)
            &&& !(kind is Parse) && !(kind is Cancelled)
        }),
{
}

/// Whether a diagnostic holds a phrase.
pub open spec fn says(diagnostic: Seq<char>, phrase: Seq<char>) -> bool {
    text::contains(diagnostic, phrase)
}

/// The phrases that the utility uses are told for what they say, wherever in a diagnostic they stand; the
/// protocol goes before waiting, waiting before names, names before refusals, refusals before passwords.
pub proof fn law_phrases_are_told_for_what_they_say(diagnostic: Seq<char>)
    ensures
        ({
            let kind = error::kind_of(diagnostic);
            let protocol = says(diagnostic, "incompatible protocol"@) || says(
                diagnostic,
                "protocol version mismatch"@,
            ) || says(diagnostic, "несовместимая версия протокола"@);
            let timeout = says(diagnostic, "timed out"@) || says(diagnostic, "timeout"@) || says(
                diagnostic,
                "истекло время ожидания"@,
            );
            let name = says(diagnostic, "no such host is known"@) || says(
                diagnostic,
                "host not found"@,
            ) || says(diagnostic, "узел не найден"@);
            let refusal = says(diagnostic, "connection refused"@) || says(
                diagnostic,
                "actively refused"@,
            ) || says(diagnostic, "соединение отклонено"@);
            let password = says(diagnostic, "authentication failed"@) || says(
                diagnostic,
                "invalid user or password"@,
            );
            &&& protocol ==> kind is ProtocolIncompatible
            &&& timeout ==> kind is Timeout || kind is ProtocolIncompatible
            &&& name ==> kind is Dns || kind is Timeout || kind is ProtocolIncompatible
            &&& refusal ==> kind is ConnectionRefused || kind is Dns || kind is Timeout
                || kind is ProtocolIncompatible
            &&& password ==> kind is Auth || kind is ConnectionRefused || kind is Dns
                || kind is Timeout || kind is ProtocolIncompatible
        }),
{
    let p = error::protocol_needles();
    assert(p[0] == "incompatible protocol"@ && p[1] == "protocol version mismatch"@ && p[7]
        == "несовместимая версия протокола"@);
    let t = error::timeout_needles();
    assert(t[0] == "timed out"@ && t[1] == "timeout"@ && t[4] == "истекло время ожидания"@);
    let n = error::dns_needles();
    assert(n[0] == "no such host is known"@ && n[4] == "host not found"@ && n[9] == "узел не найден"@);
    let r = error::refusal_needles();
    assert(r[0] == "connection refused"@ && r[1] == "actively refused"@ && r[6]
        == "соединение отклонено"@);
    let a = error::auth_needles();
    assert(a[0] == "authentication failed"@ && a[2] == "invalid user or password"@);
}

/// What the error stream says goes before what the output says.
pub proof fn law_the_error_stream_speaks_first(stdout: Seq<char>, stderr: Seq<char>)
    ensures
        ({
            let told = error::kind_of(error::folded(stderr));
            &&& !(told is Unknown) ==> gateway::diagnosed(stdout, stderr) == told
            &&& told is Unknown ==> gateway::diagnosed(stdout, stderr) == error::kind_of(
                error::folded(stdout),
            )
        }),
{
}

/// Every kind of error has the code that scripts know it by.
pub proof fn law_errors_have_their_codes(kind: RacErrorKind)
    ensures
        kind.text() == (if kind is ProtocolIncompatible {
            "protocol_incompatible"@
        } else if kind is NotFound {
            "not_found"@
        } else if kind is UnsupportedVersion {
            "unsupported_version"@
        } else if kind is Dns {
            "dns"@
        } else if kind is ConnectionRefused {
            "connection_refused"@
        } else if kind is Timeout {
            "timeout"@
        } else if kind is Auth {
            "auth"@
        } else if kind is CommandSyntax {
            "command_syntax"@
        } else if kind is Parse {
            "parse"@
        } else if kind is Cancelled {
            "cancelled"@
        } else {
            "unknown"@
        }),
{
}

/// The passwords of the commands are hidden, behind their options and assigned to them, in whatever case
/// the option is written.
pub proof fn law_options_of_passwords_are_secret(option: Seq<char>, password: Seq<char>)
    requires
        text::lower(option) == "--cluster-pwd"@ || text::lower(option) == "--infobase-pwd"@
            || text::lower(option) == "--cluster-password"@ || text::lower(option)
            == "--infobase-password"@ || text::lower(option) == "--password"@ || text::lower(option)
            == "--pwd"@,
        !option.contains('='),
    ensures
        process::is_hidden(seq![option, password], 1),
        process::is_secret_assignment(option + seq!['='] + password),
{
    let all = process::secret_options();
    assert(all[0] == "--cluster-pwd"@ && all[1] == "--cluster-password"@ && all[2]
        == "--infobase-pwd"@ && all[3] == "--infobase-password"@ && all[4] == "--password"@ && all[5]
        == "--pwd"@);
    assert(process::is_secret_name(option));
    text::lemma_first_index_after(option, '=', password);
    assert((option + seq!['='] + password).take(option.len() as int) =~= option);
    text::lemma_first_index(option, '=', 0);
    if text::first_index(option, '=', 0) < option.len() {
        assert(option.contains(option[text::first_index(option, '=', 0)]));
    }
    reveal_with_fuel(process::is_hidden, 3);
    let pair = seq![option, password];
    assert(pair[0] == option);
    assert(!process::is_hidden(pair, 0));
}

} // verus!
