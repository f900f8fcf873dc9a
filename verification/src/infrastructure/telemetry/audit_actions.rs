//! The actions that are recorded.

use vstd::prelude::*;

verus! {

pub const SESSION_KILL: &'static str = "session_kill";

pub const CONNECTION_KILL: &'static str = "connection_kill";

pub const CLUSTER_ADD: &'static str = "cluster_add";

pub const CLUSTER_REMOVE: &'static str = "cluster_remove";

pub const CREDENTIAL_OVERRIDE_CHANGE: &'static str = "credential_override_change";

} // verus!
