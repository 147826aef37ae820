//! What the operations are for, said of their calls: each law takes what an
//! operation was called with and what came back, and states how the two relate.

pub mod argv;
pub mod boot;
pub mod cli;
pub mod create;
pub mod env;
pub mod errors;
pub mod exec;
pub mod exit;
pub mod files;
pub mod guest;
pub mod launch;
pub mod maps;
pub mod places;
pub mod proxy;
pub mod reap;
pub mod sandboxes;
pub mod start;
pub mod words;
pub mod workers;
