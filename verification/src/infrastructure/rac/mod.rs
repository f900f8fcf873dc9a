//! The `rac` utility: its arguments, its runs and its output.

pub mod arguments;
pub mod command_laws;
pub mod decoding_laws;
pub mod diagnosis_laws;
pub mod encoding;
pub mod error;
pub mod gateway;
pub mod locator;
pub mod parser;
pub mod printing_laws;
pub mod process;
pub mod registry;
pub mod search_laws;
pub mod version;
