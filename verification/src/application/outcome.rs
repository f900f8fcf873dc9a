//! Outcomes of actions on several targets.

use vstd::prelude::*;
use vstd::string::*;

use crate::application::error::{AppError, AppExitCode, AppProblem, ExitCodePolicy};
use crate::outcome;

verus! {

/// How the operator agreed to an action.
#[derive(Clone, Copy, Debug, PartialEq, Eq, Structural)]
pub enum Approval {
    Confirmed,
    Forced,
}

impl Approval {
    /// An action needs a confirmation or the force flag, which wins.
    pub fn from_flags(confirmed: bool, force: bool) -> (result: Result<Self, AppError>)
        ensures
            match result {
                Ok(approval) => (confirmed || force) && approval == (if force {
                    Approval::Forced
                } else {
                    Approval::Confirmed
                }),
                Err(error) => !confirmed && !force && error@ == AppProblem::confirmation_required(),
            },
    {
        if force {
            Ok(Approval::Forced)
        } else if confirmed {
            Ok(Approval::Confirmed)
        } else {
            Err(AppError::confirmation_required())
        }
    }
}

#[derive(Debug, PartialEq, Eq)]
pub struct ActionError {
    pub code: String,
    pub message: String,
}

pub struct ActionProblem {
    pub code: Seq<char>,
    pub message: Seq<char>,
}

impl View for ActionError {
    type V = ActionProblem;

    open spec fn view(&self) -> ActionProblem {
        ActionProblem { code: self.code@, message: self.message@ }
    }
}

impl ActionError {
    pub fn new(code: &str, message: &str) -> (result: Self)
        ensures
            result@ == (ActionProblem { code: code@, message: message@ }),
    {
        ActionError { code: code.to_owned(), message: message.to_owned() }
    }
}

impl Clone for ActionError {
    fn clone(&self) -> (result: Self)
        ensures
            result == *self,
    {
        ActionError { code: self.code.clone(), message: self.message.clone() }
    }
}

#[derive(Clone, Copy, Debug, PartialEq, Eq, Structural)]
pub enum ActionStatus {
    Success,
    Failed,
    Cancelled,
}

impl ActionStatus {
    pub open spec fn text(self) -> Seq<char> {
        match self {
            ActionStatus::Success => "success"@,
            ActionStatus::Failed => "failed"@,
            ActionStatus::Cancelled => "cancelled"@,
        }
    }

    pub fn code(self) -> (result: &'static str)
        ensures
            result@ == self.text(),
    {
        match self {
            ActionStatus::Success => "success",
            ActionStatus::Failed => "failed",
            ActionStatus::Cancelled => "cancelled",
        }
    }
}

/// What became of one target. The status tells the effect on the target; that the record of it
/// could not be written is kept apart.
#[derive(Debug, PartialEq, Eq)]
pub struct ActionItemOutcome<T> {
    pub target: T,
    pub status: ActionStatus,
    pub error: Option<ActionError>,
    pub audit_error: Option<ActionError>,
}

pub struct ItemView<T> {
    pub target: T,
    pub status: ActionStatus,
    pub error: Option<ActionProblem>,
    pub audit_error: Option<ActionProblem>,
}

impl<T> View for ActionItemOutcome<T> {
    type V = ItemView<T>;

    open spec fn view(&self) -> ItemView<T> {
        ItemView {
            target: self.target,
            status: self.status,
            error: outcome::option_view(self.error),
            audit_error: outcome::option_view(self.audit_error),
        }
    }
}

impl<T> ItemView<T> {
    pub open spec fn succeeded(target: T) -> ItemView<T> {
        ItemView { target, status: ActionStatus::Success, error: None, audit_error: None }
    }

    pub open spec fn failed(target: T, error: ActionProblem) -> ItemView<T> {
        ItemView { target, status: ActionStatus::Failed, error: Some(error), audit_error: None }
    }

    pub open spec fn cancelled(target: T) -> ItemView<T> {
        ItemView {
            target,
            status: ActionStatus::Cancelled,
            error: Some(ActionProblem { code: "cancelled"@, message: "Операция отменена"@ }),
            audit_error: None,
        }
    }

    pub open spec fn unrecorded(self, error: ActionProblem) -> ItemView<T> {
        ItemView { audit_error: Some(error), ..self }
    }
}

impl<T> ActionItemOutcome<T> {
    pub fn success(target: T) -> (result: Self)
        ensures
            result@ == ItemView::succeeded(target),
    {
        ActionItemOutcome { target, status: ActionStatus::Success, error: None, audit_error: None }
    }

    pub fn failed(target: T, error: ActionError) -> (result: Self)
        ensures
            result@ == ItemView::failed(target, error@),
    {
        ActionItemOutcome {
            target,
            status: ActionStatus::Failed,
            error: Some(error),
            audit_error: None,
        }
    }

    pub fn cancelled(target: T) -> (result: Self)
        ensures
            result@ == ItemView::cancelled(target),
    {
        ActionItemOutcome {
            target,
            status: ActionStatus::Cancelled,
            error: Some(ActionError::new("cancelled", "Операция отменена")),
            audit_error: None,
        }
    }

    pub fn with_audit_error(self, error: ActionError) -> (result: Self)
        ensures
            result@ == self@.unrecorded(error@),
    {
        let mut result = self;
        result.audit_error = Some(error);
        result
    }
}

#[derive(Clone, Copy, Debug, PartialEq, Eq, Structural)]
pub struct ActionMeta {
    pub attempted: usize,
    pub succeeded: usize,
    pub failed: usize,
    pub cancelled: usize,
    pub audit_failed: usize,
    pub partial: bool,
}

impl Default for ActionMeta {
    fn default() -> (result: Self)
        ensures
            result == (ActionMeta {
                attempted: 0,
                succeeded: 0,
                failed: 0,
                cancelled: 0,
                audit_failed: 0,
                partial: false,
            }),
    {
        ActionMeta {
            attempted: 0,
            succeeded: 0,
            failed: 0,
            cancelled: 0,
            audit_failed: 0,
            partial: false,
        }
    }
}

/// How many of the first `count` items have a status.
pub open spec fn with_status<T>(
    items: Seq<ActionItemOutcome<T>>,
    status: ActionStatus,
    count: int,
) -> nat
    decreases count,
{
    if count <= 0 {
        0
    } else {
        with_status(items, status, count - 1) + (if items[count - 1].status == status {
            1nat
        } else {
            0nat
        })
    }
}

/// How many of the first `count` items could not be recorded.
pub open spec fn unrecorded<T>(items: Seq<ActionItemOutcome<T>>, count: int) -> nat
    decreases count,
{
    if count <= 0 {
        0
    } else {
        unrecorded(items, count - 1) + (if items[count - 1].audit_error is Some {
            1nat
        } else {
            0nat
        })
    }
}

/// The counts that describe items.
pub open spec fn describes<T>(meta: ActionMeta, items: Seq<ActionItemOutcome<T>>) -> bool {
    let count = items.len() as int;
    &&& meta.attempted == items.len()
    &&& meta.succeeded == with_status(items, ActionStatus::Success, count)
    &&& meta.failed == with_status(items, ActionStatus::Failed, count)
    &&& meta.cancelled == with_status(items, ActionStatus::Cancelled, count)
    &&& meta.audit_failed == unrecorded(items, count)
    &&& meta.partial == (meta.succeeded > 0 && (meta.failed > 0 || meta.cancelled > 0))
}

/// Every item succeeded, failed or was cancelled, and is counted once.
pub proof fn law_every_item_counts_once<T>(meta: ActionMeta, items: Seq<ActionItemOutcome<T>>)
    requires
        describes(meta, items),
    ensures
        meta.succeeded + meta.failed + meta.cancelled == meta.attempted,
        meta.audit_failed <= meta.attempted,
{
    lemma_statuses(items, items.len() as int);
}

proof fn lemma_statuses<T>(items: Seq<ActionItemOutcome<T>>, count: int)
    requires
        0 <= count <= items.len(),
    ensures
        with_status(items, ActionStatus::Success, count) + with_status(
            items,
            ActionStatus::Failed,
            count,
        ) + with_status(items, ActionStatus::Cancelled, count) == count,
        unrecorded(items, count) <= count,
    decreases count,
{
    if count > 0 {
        lemma_statuses(items, count - 1);
    }
}

#[derive(Debug, PartialEq, Eq)]
pub struct ActionOutcome<T> {
    pub items: Vec<ActionItemOutcome<T>>,
    pub meta: ActionMeta,
}

pub struct ActionView<T> {
    pub items: Seq<ItemView<T>>,
    pub meta: ActionMeta,
}

impl<T> View for ActionOutcome<T> {
    type V = ActionView<T>;

    open spec fn view(&self) -> ActionView<T> {
        ActionView {
            items: self.items@.map_values(|item: ActionItemOutcome<T>| item@),
            meta: self.meta,
        }
    }
}

impl<T> ActionOutcome<T> {
    pub fn new(items: Vec<ActionItemOutcome<T>>) -> (result: Self)
        ensures
            result.items == items,
            describes(result.meta, items@),
    {
        let mut succeeded: usize = 0;
        let mut failed: usize = 0;
        let mut cancelled: usize = 0;
        let mut audit_failed: usize = 0;
        let mut i: usize = 0;
        while i < items.len()
            invariant
                0 <= i <= items.len(),
                succeeded == with_status(items@, ActionStatus::Success, i as int),
                failed == with_status(items@, ActionStatus::Failed, i as int),
                cancelled == with_status(items@, ActionStatus::Cancelled, i as int),
                audit_failed == unrecorded(items@, i as int),
            decreases items.len() - i,
        {
            proof {
                lemma_statuses(items@, i as int);
            }
            match items[i].status {
                ActionStatus::Success => succeeded = succeeded + 1,
                ActionStatus::Failed => failed = failed + 1,
                ActionStatus::Cancelled => cancelled = cancelled + 1,
            }
            if items[i].audit_error.is_some() {
                audit_failed = audit_failed + 1;
            }
            i = i + 1;
        }
        let attempted: usize = items.len();
        let partial = succeeded > 0 && (failed > 0 || cancelled > 0);
        ActionOutcome {
            items,
            meta: ActionMeta { attempted, succeeded, failed, cancelled, audit_failed, partial },
        }
    }
}

impl ActionMeta {
    /// The exit code that the counts lead to.
    pub open spec fn code_of(self) -> AppExitCode {
        if self.cancelled > 0 {
            AppExitCode::Cancelled
        } else if self.audit_failed > 0 {
            AppExitCode::Internal
        } else if self.attempted == 0 {
            AppExitCode::NoObjects
        } else if self.failed == 0 {
            AppExitCode::Success
        } else if self.succeeded > 0 {
            AppExitCode::PartialSuccess
        } else {
            AppExitCode::AllTargetsFailed
        }
    }
}

impl<T> ExitCodePolicy for ActionOutcome<T> {
    open spec fn exit_code_of(&self) -> AppExitCode {
        self.meta.code_of()
    }

    fn app_exit_code(&self) -> (result: AppExitCode) {
        if self.meta.cancelled > 0 {
            AppExitCode::Cancelled
        } else if self.meta.audit_failed > 0 {
            AppExitCode::Internal
        } else if self.meta.attempted == 0 {
            AppExitCode::NoObjects
        } else if self.meta.succeeded > 0 && self.meta.failed > 0 {
            AppExitCode::PartialSuccess
        } else if self.meta.failed > 0 {
            AppExitCode::AllTargetsFailed
        } else {
            AppExitCode::Success
        }
    }
}

/// An action exits with success exactly where it had targets, all of them succeeded, and all of that
/// was recorded.
pub proof fn law_success_means_every_item_succeeded<T>(result: ActionOutcome<T>)
    requires
        describes(result.meta, result.items@),
    ensures
        result.exit_code_of() == AppExitCode::Success <==> {
            &&& result.items@.len() > 0
            &&& forall|i: int|
                0 <= i < result.items@.len() ==> (#[trigger] result.items@[i]).status
                    == ActionStatus::Success && result.items@[i].audit_error is None
        },
{
    let items = result.items@;
    lemma_statuses(items, items.len() as int);
    lemma_none_left(items, items.len() as int);
}

proof fn lemma_none_left<T>(items: Seq<ActionItemOutcome<T>>, count: int)
    requires
        0 <= count <= items.len(),
    ensures
        (with_status(items, ActionStatus::Failed, count) == 0 && with_status(
            items,
            ActionStatus::Cancelled,
            count,
        ) == 0 && unrecorded(items, count) == 0) <==> forall|i: int|
            0 <= i < count ==> (#[trigger] items[i]).status == ActionStatus::Success
                && items[i].audit_error is None,
    decreases count,
{
    if count > 0 {
        lemma_none_left(items, count - 1);
        let last = items[count - 1];
        assert(last == items[count - 1]);
        if last.status == ActionStatus::Success && last.audit_error is None {
            assert forall|i: int|
                0 <= i < count && (forall|j: int|
                    0 <= j < count - 1 ==> (#[trigger] items[j]).status == ActionStatus::Success
                        && items[j].audit_error is None) implies (#[trigger] items[i]).status
                == ActionStatus::Success && items[i].audit_error is None by {}
        }
    }
}

} // verus!
