//! Files in sandboxes. File operations run beside commands: they neither wait
//! for one nor hold one up, and each counts as a use of the sandbox.

pub mod adapter;
pub mod gate;
pub mod grep;
pub mod ls;
pub mod mv;
pub mod proto;
pub mod rm;
pub mod sed;
pub mod stat;
pub mod write;
