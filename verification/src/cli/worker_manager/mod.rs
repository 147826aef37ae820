//! Managed workers: what their VMs are started with and how they are stopped.

pub mod boot_args;
pub mod libkrun;
pub mod lifecycle;
pub mod start;
