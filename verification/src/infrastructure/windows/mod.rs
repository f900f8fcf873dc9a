//! The user's paths, account and file protection on Windows.

pub mod acl;
pub mod identity;
pub mod paths;
pub mod protection_laws;
