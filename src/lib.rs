//! Decision logic of a `getenv` interposition shim that adds a Java agent flag
//! to `JAVA_TOOL_OPTIONS`: reading the environment snapshot, locating the
//! configuration file, resolving the agent path, and building the value that
//! each intercepted lookup returns.
use vstd::prelude::*;

pub mod agent;
pub mod environment;
pub mod error;
pub mod inject;
pub mod locator;
mod text;

verus! {

} // verus!
