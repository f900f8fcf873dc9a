//! The configuration: its model, its validation, and the changes that are made to it.

pub mod change_laws;
pub mod document;
pub mod error;
pub mod model;
pub mod path;
pub mod store;
pub mod update;
pub mod validation;
