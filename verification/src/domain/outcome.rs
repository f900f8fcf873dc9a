//! Outcomes of queries over several targets, some of which may have failed.

use vstd::prelude::*;
use vstd::string::*;

use crate::domain::value::{ClusterAlias, EndpointView, RasEndpoint};

verus! {

#[derive(Clone, Copy, Debug, PartialEq, Eq, Structural)]
pub enum TargetErrorKind {
    Unavailable,
    Timeout,
    Authentication,
    Protocol,
    InvalidResponse,
    RacNotFound,
    Cancelled,
    Internal,
}

impl TargetErrorKind {
    pub open spec fn text(self) -> Seq<char> {
        match self {
            TargetErrorKind::Unavailable => "target_unavailable"@,
            TargetErrorKind::Timeout => "timeout"@,
            TargetErrorKind::Authentication => "authentication_failed"@,
            TargetErrorKind::Protocol => "protocol_error"@,
            TargetErrorKind::InvalidResponse => "invalid_response"@,
            TargetErrorKind::RacNotFound => "rac_not_found"@,
            TargetErrorKind::Cancelled => "cancelled"@,
            TargetErrorKind::Internal => "internal_error"@,
        }
    }

    /// The stable machine-readable code.
    pub fn code(self) -> (result: &'static str)
        ensures
            result@ == self.text(),
    {
        match self {
            TargetErrorKind::Unavailable => "target_unavailable",
            TargetErrorKind::Timeout => "timeout",
            TargetErrorKind::Authentication => "authentication_failed",
            TargetErrorKind::Protocol => "protocol_error",
            TargetErrorKind::InvalidResponse => "invalid_response",
            TargetErrorKind::RacNotFound => "rac_not_found",
            TargetErrorKind::Cancelled => "cancelled",
            TargetErrorKind::Internal => "internal_error",
        }
    }
}

/// The failure of one target.
#[derive(Debug, PartialEq, Eq)]
pub struct TargetError {
    pub cluster: ClusterAlias,
    pub ras_address: RasEndpoint,
    pub kind: TargetErrorKind,
    pub message: String,
}

/// The failure of one target, as a mathematical value.
pub struct TargetProblem {
    pub cluster: Seq<char>,
    pub ras_address: EndpointView,
    pub kind: TargetErrorKind,
    pub message: Seq<char>,
}

impl View for TargetError {
    type V = TargetProblem;

    open spec fn view(&self) -> TargetProblem {
        TargetProblem {
            cluster: self.cluster@,
            ras_address: self.ras_address@,
            kind: self.kind,
            message: self.message@,
        }
    }
}

impl TargetProblem {
    /// Failures as mathematical values.
    pub open spec fn all(errors: Seq<TargetError>) -> Seq<TargetProblem> {
        errors.map_values(|error: TargetError| error@)
    }
}

impl TargetError {
    pub fn new(
        cluster: ClusterAlias,
        ras_address: RasEndpoint,
        kind: TargetErrorKind,
        message: &str,
    ) -> (result: Self)
        ensures
            result@ == (TargetProblem {
                cluster: cluster@,
                ras_address: ras_address@,
                kind,
                message: message@,
            }),
            result.cluster == cluster,
            result.ras_address == ras_address,
            result.kind == kind,
            result.message@ == message@,
    {
        TargetError { cluster, ras_address, kind, message: message.to_owned() }
    }

    pub fn code(&self) -> (result: &'static str)
        ensures
            result@ == self.kind.text(),
    {
        self.kind.code()
    }
}

impl Clone for TargetError {
    fn clone(&self) -> (result: Self)
        ensures
            result == *self,
    {
        TargetError {
            cluster: self.cluster.clone(),
            ras_address: self.ras_address.clone(),
            kind: self.kind,
            message: self.message.clone(),
        }
    }
}

#[derive(Clone, Copy, Debug, PartialEq, Eq, Structural)]
pub struct QueryMeta {
    pub matched: usize,
    pub returned: usize,
    pub partial: bool,
}

/// Records from the targets that answered, and the failures of the others.
#[derive(Debug, PartialEq, Eq)]
pub struct QueryOutcome<T> {
    pub data: Vec<T>,
    pub errors: Vec<TargetError>,
    pub meta: QueryMeta,
}

impl<T> QueryOutcome<T> {
    pub fn new(
        data: Vec<T>,
        errors: Vec<TargetError>,
        matched: usize,
        successful_targets: usize,
    ) -> (result: Self)
        ensures
            result.data == data,
            result.errors == errors,
            result.meta.matched == matched,
            result.meta.returned == data@.len(),
            result.meta.partial == (errors@.len() > 0 && successful_targets > 0),
    {
        let returned: usize = data.len();
        let partial = errors.len() > 0 && successful_targets > 0;
        QueryOutcome { data, errors, meta: QueryMeta { matched, returned, partial } }
    }

    pub fn is_all_failed(&self) -> (result: bool)
        ensures
            result == (self.errors@.len() > 0 && !self.meta.partial && self.data@.len() == 0),
    {
        self.errors.len() > 0 && !self.meta.partial && self.data.len() == 0
    }

    pub fn is_empty_success(&self) -> (result: bool)
        ensures
            result == (self.data@.len() == 0 && self.errors@.len() == 0),
    {
        self.data.len() == 0 && self.errors.len() == 0
    }
}

} // verus!
