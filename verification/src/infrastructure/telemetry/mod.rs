//! What is logged, and what is kept out of logs.

pub mod audit;
pub mod audit_actions;
pub mod journal_laws;
pub mod logging;
pub mod redaction;
