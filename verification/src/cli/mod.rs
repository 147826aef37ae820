//! The command line's side: booting VMs and managing workers.

pub mod boot_plan;
pub mod control_proxy;
pub mod dispatch;
pub mod shell_words;
pub mod vm_boot;
pub mod worker_manager;
pub mod worker_manager_daemon;
