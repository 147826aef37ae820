//! Removing a file or directory in a sandbox.

use crate::sandbox_daemon::errors::{fails, SandboxError, SandboxErrorCode};
use crate::sandbox_daemon::fs::adapter::FsRunner;
use crate::sandbox_daemon::fs::gate::{enter, fs_refusal, fs_target, fs_used};
use crate::sandbox_daemon::fs::proto::{unexpected, unexpected_message, FsOp, FsReply, FsResult};
use crate::sandbox_daemon::registry::SandboxRegistry;
use vstd::prelude::*;

verus! {

/// A path to remove.
#[derive(Debug, Clone, PartialEq, Eq)]
pub struct RmRequest {
    pub sandbox_id: String,
    pub path: String,
    /// Remove a directory with everything in it.
    pub recursive: bool,
}

/// Whether something was removed.
#[derive(Debug, Clone, PartialEq, Eq)]
pub struct RmResponse {
    pub removed: bool,
}

/// `r` is the answer to the caller, given what came back from the sandbox: a
/// failure goes on to the caller, and so does the answer to another question.
pub open spec fn rm_answers(
    r: Result<RmResponse, SandboxError>,
    back: Result<FsReply, SandboxError>,
) -> bool {
    match back {
        Err(e) => r == Err::<RmResponse, SandboxError>(e),
        Ok(FsReply { result: FsResult::Rm { removed }, .. }) => r == Ok::<
            RmResponse,
            SandboxError,
        >(RmResponse { removed }),
        Ok(reply) => fails(r, SandboxErrorCode::S216, unexpected_message("Rm"@, reply.shown@)),
    }
}

/// The answer to the caller, given what came back from the sandbox.
pub fn rm_response(back: Result<FsReply, SandboxError>) -> (r: Result<RmResponse, SandboxError>)
    ensures
        rm_answers(r, back),
{
    match back {
        Err(e) => Err(e),
        Ok(FsReply { result: FsResult::Rm { removed }, .. }) => Ok(RmResponse { removed }),
        Ok(reply) => Err(SandboxError::FsIo(unexpected("Rm", reply.shown.as_str()))),
    }
}

/// Remove a file or directory in a sandbox.
pub fn handle_rm<R: FsRunner>(
    req: RmRequest,
    registry: &mut SandboxRegistry,
    runner: &R,
    now: u64,
) -> (r: Result<RmResponse, SandboxError>)
    ensures
        match fs_refusal(req.sandbox_id@, old(registry)@) {
            Some(why) => fails(r, why.0, why.1) && final(registry)@ == old(registry)@,
            None => {
                &&& final(registry)@ == fs_used(req.sandbox_id@, old(registry)@, now)
                &&& exists|back: Result<FsReply, SandboxError>| #[trigger]
                    call_ensures(
                        R::fs_call,
                        (
                            runner,
                            fs_target(req.sandbox_id@, old(registry)@).shell_sock,
                            FsOp::Rm { path: req.path, recursive: req.recursive },
                        ),
                        back,
                    ) && rm_answers(r, back)
            },
        },
{
    let sock = match enter(req.sandbox_id.as_str(), registry, now) {
        Ok(s) => s,
        Err(e) => return Err(e),
    };
    let back = runner.fs_call(
        sock,
        FsOp::Rm { path: req.path, recursive: req.recursive },
    );
    rm_response(back)
}

} // verus!
