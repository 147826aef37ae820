//! Decisions of a worker host: how microVMs are booted, supervised and torn
//! down, and how sandboxes are created, executed in, listed, stopped and
//! reaped.
//!
//! Every function here computes on plain values. What touches the machine
//! (sockets, processes, the disk, the clock) lives in the program around the
//! library, which hands the outcomes in and carries the answers out.

pub mod cli;
pub mod daemon_exit;
pub mod encoding;
pub mod ids;
pub mod laws;
pub mod numbers;
pub mod paths;
pub mod sandbox_daemon;
pub mod str_map;
pub mod text;

pub use crate::cli::vm_boot::VmBootArgs;
