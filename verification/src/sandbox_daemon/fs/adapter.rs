//! What carries operations to a sandbox's files.

use crate::sandbox_daemon::errors::SandboxError;
use crate::sandbox_daemon::fs::proto::{FsOp, FsReply};
use vstd::prelude::*;

verus! {

/// A reference to a channel that a caller streams bytes through, as the caller
/// gave it.
#[derive(Debug, Clone, PartialEq, Eq)]
pub struct StreamChannelRef {
    pub reference: String,
}

/// The bytes of a file to write.
#[derive(Debug, Clone, PartialEq, Eq)]
pub enum WriteBody {
    /// All of them.
    Inline(Vec<u8>),
    /// Where they will come from.
    Channel(StreamChannelRef),
}

/// What carries operations to the files of the sandbox behind a shell socket.
pub trait FsRunner {
    fn fs_call(&self, shell_sock: String, op: FsOp) -> Result<FsReply, SandboxError>;

    fn fs_write_stream(
        &self,
        shell_sock: String,
        path: String,
        mode: String,
        parents: bool,
        body: WriteBody,
    ) -> Result<FsReply, SandboxError>;
}

} // verus!
