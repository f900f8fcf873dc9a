//! Restricting the configuration file to its owner.

use vstd::prelude::*;
use vstd::string::*;

use crate::infrastructure::config::error::AclError;
use crate::infrastructure::config::store::AclProtection;
use crate::infrastructure::path;
use crate::infrastructure::windows::identity::{
    AccountView, IdentityError, IdentityProblem, WindowsIdentity,
};
use crate::number;
use crate::outcome;
use crate::text;

verus! {

/// Whether a file was restricted, and if not, why.
#[derive(Debug, PartialEq, Eq)]
pub enum AclRestriction {
    Applied,
    NotApplied { reason: String },
}

pub enum RestrictionView {
    Applied,
    NotApplied { reason: Seq<char> },
}

impl View for AclRestriction {
    type V = RestrictionView;

    open spec fn view(&self) -> RestrictionView {
        match self {
            AclRestriction::Applied => RestrictionView::Applied,
            AclRestriction::NotApplied { reason } => RestrictionView::NotApplied {
                reason: reason@,
            },
        }
    }
}

impl AclRestriction {
    pub fn is_applied(&self) -> (result: bool)
        ensures
            result == (self@ == RestrictionView::Applied),
    {
        match self {
            AclRestriction::Applied => true,
            AclRestriction::NotApplied { .. } => false,
        }
    }
}

fn not_applied(reason: &str) -> (result: AclRestriction)
    ensures
        result@ == (RestrictionView::NotApplied { reason: reason@ }),
{
    AclRestriction::NotApplied { reason: reason.to_owned() }
}

/// The program that changes the access list, and its arguments.
#[derive(Debug, PartialEq, Eq)]
pub struct AclCommand {
    pub program: String,
    pub arguments: Vec<String>,
}

/// The arguments that take inherited rights away and leave the account full access alone.
pub open spec fn restriction_arguments(file: Seq<char>, account: Seq<char>) -> Seq<Seq<char>> {
    seq![file, "/inheritance:r"@, "/grant:r"@, account + ":(F)"@]
}

/// Why a file cannot be restricted, judged before anything is run.
pub open spec fn obstacle(
    file: Seq<char>,
    supported: bool,
    account: Result<AccountView, IdentityProblem>,
    system_root: Option<Seq<char>>,
) -> Option<Seq<char>> {
    if file.len() == 0 {
        Some("не указан путь к файлу конфигурации"@)
    } else if !supported {
        Some("ограничение ACL поддерживается только в Windows"@)
    } else {
        match account {
            Err(problem) => Some(
                "не удалось определить пользователя для ACL: "@ + problem.message(),
            ),
            Ok(_) => match system_root {
                Some(root) if root.len() > 0 => None,
                _ => Some(
                    "переменная SystemRoot не задана; безопасный путь к icacls.exe неизвестен"@,
                ),
            },
        }
    }
}

/// Plans the restriction of a file. The account and the path are single arguments, never part of a
/// command line.
pub fn plan_restriction(
    file: &str,
    supported: bool,
    account: Result<WindowsIdentity, IdentityError>,
    system_root: Option<String>,
) -> (result: Result<AclCommand, AclRestriction>)
    ensures
        match obstacle(
            file@,
            supported,
            outcome::result_view(account),
            outcome::option_view(system_root),
        ) {
            Some(reason) => result is Err && result->Err_0@ == (RestrictionView::NotApplied {
                reason,
            }),
            None => result is Ok && path::is_nested(
                result->Ok_0.program@,
                system_root->0@,
                "System32"@,
                "icacls.exe"@,
            ) && text::views(result->Ok_0.arguments@) == restriction_arguments(
                file@,
                account->Ok_0@.account_name,
            ),
        },
{
    if file.unicode_len() == 0 {
        return Err(not_applied("не указан путь к файлу конфигурации"));
    }
    if !supported {
        return Err(not_applied("ограничение ACL поддерживается только в Windows"));
    }
    let identity = match account {
        Ok(identity) => identity,
        Err(error) => {
            let mut reason = "не удалось определить пользователя для ACL: ".to_owned();
            reason.push_str(error.message().as_str());
            return Err(AclRestriction::NotApplied { reason });
        },
    };
    let root = match system_root {
        Some(root) => root,
        None => {
            return Err(
                not_applied(
                    "переменная SystemRoot не задана; безопасный путь к icacls.exe неизвестен",
                ),
            );
        },
    };
    if root.as_str().unicode_len() == 0 {
        return Err(
            not_applied("переменная SystemRoot не задана; безопасный путь к icacls.exe неизвестен"),
        );
    }
    proof {
        reveal_strlit("System32");
        reveal_strlit("icacls.exe");
    }
    let directory = path::join_path(root.as_str(), "System32");
    assert(path::is_joined(directory@, root@, "System32"@));
    let program = path::join_path(directory.as_str(), "icacls.exe");
    let ghost name = identity@.account_name;
    let mut grant = identity.into_os_string();
    grant.push_str(":(F)");
    let mut arguments: Vec<String> = Vec::new();
    arguments.push(file.to_owned());
    arguments.push("/inheritance:r".to_owned());
    arguments.push("/grant:r".to_owned());
    arguments.push(grant);
    assert(text::views(arguments@) =~= restriction_arguments(file@, name));
    Ok(AclCommand { program, arguments })
}

/// How the program ended.
#[derive(Debug, PartialEq, Eq)]
pub enum AclRun {
    Finished { success: bool, code: Option<i32> },
    NotStarted { program: String, error: String },
}

pub open spec fn restriction(run: AclRun) -> RestrictionView {
    match run {
        AclRun::Finished { success: true, .. } => RestrictionView::Applied,
        AclRun::Finished { success: false, code: Some(code) } => RestrictionView::NotApplied {
            reason: "icacls.exe завершился с кодом "@ + number::signed_decimal(code as int),
        },
        AclRun::Finished { success: false, code: None } => RestrictionView::NotApplied {
            reason: "icacls.exe был завершен без кода возврата"@,
        },
        AclRun::NotStarted { program, error } => RestrictionView::NotApplied {
            reason: "не удалось запустить "@ + program@ + ": "@ + error@,
        },
    }
}

/// What a run of the program means.
pub fn restriction_from(run: &AclRun) -> (result: AclRestriction)
    ensures
        result@ == restriction(*run),
{
    match run {
        AclRun::Finished { success, code } => {
            if *success {
                return AclRestriction::Applied;
            }
            match code {
                Some(code) => {
                    let mut reason = "icacls.exe завершился с кодом ".to_owned();
                    reason.push_str(number::format_i64(*code as i64).as_str());
                    AclRestriction::NotApplied { reason }
                },
                None => not_applied("icacls.exe был завершен без кода возврата"),
            }
        },
        AclRun::NotStarted { program, error } => {
            let mut reason = "не удалось запустить ".to_owned();
            reason.push_str(program.as_str());
            reason.push_str(": ");
            reason.push_str(error.as_str());
            AclRestriction::NotApplied { reason }
        },
    }
}

/// What a restriction means for the writing of the configuration: a file that was not restricted is
/// an error with the reason.
pub fn protection(restriction: AclRestriction) -> (result: Result<AclProtection, AclError>)
    ensures
        match restriction@ {
            RestrictionView::Applied => result == Ok::<AclProtection, AclError>(
                AclProtection::Applied,
            ),
            RestrictionView::NotApplied { reason } => result is Err && result->Err_0@ == reason,
        },
{
    match restriction {
        AclRestriction::Applied => Ok(AclProtection::Applied),
        AclRestriction::NotApplied { reason } => Err(AclError::new(reason.as_str())),
    }
}


/// What restricts a file to its owner.
pub trait ConfigFileAcl {
    fn restrict_to_current_user(&self, file: &str) -> (result: AclRestriction);
}

} // verus!
