//! The command line: its arguments, its confirmations, and what it prints.

pub mod actions;
pub mod args;
pub mod cells;
pub mod confirm;
pub mod dispatch;
pub mod grid;
pub mod output;
pub mod request_laws;
pub mod requests;
pub mod shown_laws;
pub mod stream_laws;
