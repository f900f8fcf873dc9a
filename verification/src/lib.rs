//! Verified core of `onecadmin`, an administration tool for 1C:Enterprise clusters.

pub mod application;
pub mod bootstrap;
pub mod cli;
pub mod domain;
pub mod infrastructure;
pub mod json;
pub mod number;
pub mod order;
pub mod outcome;
pub mod text;
