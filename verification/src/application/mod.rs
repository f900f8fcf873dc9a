//! The services of the tool: what is asked of clusters and what is made of the answers.

pub mod cluster_laws;
pub mod clusters;
pub mod connections;
pub mod conversion;
pub mod credentials;
pub mod diagnostics;
pub mod error;
pub mod infobases;
pub mod kill;
pub mod listing;
pub mod normalize;
pub mod outcome;
pub mod plan_laws;
pub mod ports;
pub mod processes;
pub mod reading_laws;
pub mod selection_laws;
pub mod sessions;
pub mod swapped_session;
pub mod targets;
