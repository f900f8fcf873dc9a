//! The domain: values, records, queries and plans.

pub mod address;
pub mod auth;
pub mod entries;
pub mod error;
pub mod field_names;
pub mod field_value;
pub mod fields;
pub mod filter_laws;
pub mod identity;
pub mod kill;
pub mod mask;
pub mod mask_laws;
pub mod model;
pub mod outcome;
pub mod query;
pub mod query_laws;
pub mod record_laws;
pub mod timestamp;
pub mod type_laws;
pub mod value;
pub mod value_laws;
pub mod version;

pub use error::{DomainError, DomainErrorView};
