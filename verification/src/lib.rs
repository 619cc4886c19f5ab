//! Local control plane for a terminal log viewer: the credential and
//! session state machine that gates every request, the progress model for
//! background indexing work, the long-poll wire contract that publishes
//! it, the script-execution gateway, query compilation, and log-statement
//! lookups.

use vstd::prelude::*;

pub mod auth;
pub mod compile;
pub mod coordinator;
pub mod exec;
pub mod json;
pub mod logmatch;
pub mod poll;
pub mod progress;
pub mod server;
pub mod strutil;

verus! {

} // verus!
