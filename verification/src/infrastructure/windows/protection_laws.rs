//! Whose file the configuration is, and when it counts as protected.

use vstd::prelude::*;
use vstd::string::*;

use crate::infrastructure::path;
use crate::infrastructure::windows::acl::{
    plan_restriction, restriction_from, AclCommand, AclRestriction, AclRun, RestrictionView,
};
use crate::infrastructure::windows::identity::{
    identities_equal, IdentityError, WindowsIdentity,
};
use crate::infrastructure::windows::paths::{PathProblem, WindowsPathError, WindowsPaths};
use crate::text;

verus! {

/// Names of accounts are compared without regard to case, unless the system compares them: its answer is
/// the answer.
pub proof fn law_account_names_ignore_case(
    actual: &str,
    expected: &str,
    by_system: Option<bool>,
    equal: bool,
)
    requires
        call_ensures(identities_equal, (actual, expected, by_system), equal),
    ensures
        by_system is Some ==> equal == by_system->0,
        by_system is None && actual@ == expected@ ==> equal,
        by_system is None ==> (equal <==> text::lowercase(actual@) == text::lowercase(expected@)),
{
}

/// Everybody but the account loses the rights to the file: the first argument is the file, inherited rights
/// go, and the one grant is to the account.
pub proof fn law_the_account_alone_keeps_its_rights(
    file: &str,
    supported: bool,
    account: Result<WindowsIdentity, IdentityError>,
    system_root: Option<String>,
    result: Result<AclCommand, AclRestriction>,
)
    requires
        call_ensures(plan_restriction, (file, supported, account, system_root), result),
    ensures
        result is Ok <==> {
            &&& file@.len() > 0
            &&& supported
            &&& account is Ok
            &&& system_root is Some
            &&& system_root->0@.len() > 0
        },
        result is Ok ==> {
            let arguments = text::views(result->Ok_0.arguments@);
            &&& arguments.len() == 4
            &&& arguments[0] == file@
            &&& arguments[1] == "/inheritance:r"@
            &&& arguments[2] == "/grant:r"@
            &&& arguments[3] == account->Ok_0@.account_name + ":(F)"@
        },
        result is Err ==> result->Err_0@ is NotApplied,
{
}

/// A file counts as restricted exactly where the program ran and succeeded.
pub proof fn law_only_a_run_that_succeeded_restricts(run: AclRun, result: AclRestriction)
    requires
        call_ensures(restriction_from, (&run,), result),
    ensures
        result@ == RestrictionView::Applied <==> run is Finished && run->success,
{
}

/// The files of the user stand below the two roots of the profile, and a root that is missing or empty is
/// told.
pub proof fn law_both_roots_are_needed(
    roaming: Option<String>,
    local: Option<String>,
    result: Result<WindowsPaths, WindowsPathError>,
)
    requires
        call_ensures(WindowsPaths::from_environment_values, (roaming, local), result),
    ensures
        result is Ok <==> {
            &&& roaming is Some && roaming->0@.len() > 0
            &&& local is Some && local->0@.len() > 0
        },
        result is Ok ==> path::is_nested(
            result->Ok_0@.config_file,
            roaming->0@,
            "onecadmin"@,
            "config.yaml"@,
        ) && path::is_nested(result->Ok_0@.logs_directory, local->0@, "onecadmin"@, "logs"@),
        roaming is None ==> result->Err_0@ == (PathProblem::MissingEnvironmentVariable {
            variable: "APPDATA"@,
        }),
        roaming is Some && roaming->0@.len() == 0 ==> result->Err_0@
            == (PathProblem::EmptyEnvironmentVariable { variable: "APPDATA"@ }),
        roaming is Some && roaming->0@.len() > 0 && local is None ==> result->Err_0@
            == (PathProblem::MissingEnvironmentVariable { variable: "LOCALAPPDATA"@ }),
{
}

} // verus!
