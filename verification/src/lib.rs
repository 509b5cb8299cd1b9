//! Process-lifecycle supervisor for a local tunneling-proxy client.
//!
//! The supervisor owns a task-execution environment, starts the proxy's
//! service task and a shutdown monitor as two concurrent units of work,
//! races them to first completion, tears down every unit still in flight,
//! and maps the race outcome to how the process must end. The proxy's data
//! plane, configuration resolution and logging are external collaborators;
//! this crate verifies the orchestration shell around them.

pub mod env;
pub mod outcome;
pub mod supervisor;
