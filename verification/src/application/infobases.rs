//! Infobases: searching for them.

use vstd::prelude::*;
use vstd::string::*;

use crate::application::conversion::RacOptions;
use crate::application::error::{AppError, AppProblem};
use crate::application::targets;
use crate::application::targets::{narrow, ClusterSelector};
use crate::domain::field_value::{FieldValue, ValueView};
use crate::domain::fields::{FieldRegistry, FilterOperator};
use crate::domain::mask;
use crate::domain::mask::SqlMask;
use crate::domain::model::RecordKind;
use crate::domain::query::{QuerySpec, QuerySpecView};
use crate::outcome;

verus! {

/// Which infobases are searched for.
pub struct InfobaseSearchRequest {
    pub name: SqlMask,
    pub clusters: ClusterSelector,
    pub query: Option<QuerySpec>,
    pub rac_options: RacOptions,
}

impl InfobaseSearchRequest {
    /// A search by name in all clusters.
    pub fn new(name: &str) -> (result: Result<Self, AppError>)
        ensures
            match mask::mask_of(name@) {
                Ok(source) => {
                    &&& result is Ok
                    &&& result->Ok_0.name@ == source
                    &&& result->Ok_0.clusters@ is None
                    &&& result->Ok_0.query is None
                    &&& result->Ok_0.rac_options.explicit_path is None
                },
                Err(error) => result is Err && result->Err_0@ == AppProblem::of_domain(error),
            },
    {
        match SqlMask::parse(name) {
            Ok(name) => Ok(
                InfobaseSearchRequest {
                    name,
                    clusters: ClusterSelector::all(),
                    query: None,
                    rac_options: RacOptions::default(),
                },
            ),
            Err(error) => Err(AppError::from_domain(&error)),
        }
    }

    /// The query that a search stands for: its own, with a condition on the name.
    pub open spec fn query_view(self) -> Result<QuerySpecView, AppProblem> {
        targets::narrowed(
            targets::query_for(RecordKind::Infobase, outcome::option_view(self.query)),
            "infobase"@,
            FilterOperator::Like,
            Some(ValueView::Str(self.name@)),
        )
    }
}

/// The query that a search stands for.
pub fn infobase_query(request: &InfobaseSearchRequest, registry: &FieldRegistry) -> (result: Result<
    QuerySpec,
    AppError,
>)
    ensures
        outcome::result_view(result) == request.query_view(),
{
    let asked = targets::resolved_query_spec(RecordKind::Infobase, &request.query, registry);
    narrow(
        asked,
        "infobase",
        FilterOperator::Like,
        Some(FieldValue::Str(request.name.source().to_owned())),
        registry,
    )
}

} // verus!
