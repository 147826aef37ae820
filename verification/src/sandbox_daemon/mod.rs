//! The sandbox daemon: ephemeral VMs that callers create, run commands in,
//! read and write files in, list and stop.

pub mod adapters;
pub mod catalog;
pub mod config;
pub mod create;
pub mod ending;
pub mod errors;
pub mod exec;
pub mod fs;
pub mod guide;
pub mod handler_log;
pub mod list;
pub mod reaper;
pub mod registry;
pub mod stop;

pub use crate::sandbox_daemon::errors::SandboxError;
pub use crate::sandbox_daemon::guide::SANDBOX_AGENT_GUIDE;
pub use crate::sandbox_daemon::handler_log::log_handler_result;
pub use crate::sandbox_daemon::registry::SandboxRegistry;
