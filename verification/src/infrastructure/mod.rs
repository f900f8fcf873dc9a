//! What surrounds the domain: the `rac` utility, configuration, telemetry and the platform.

pub mod config;
pub mod path;
pub mod rac;
pub mod telemetry;
pub mod windows;
