//! Listing a directory in a sandbox.

use crate::sandbox_daemon::errors::{fails, SandboxError, SandboxErrorCode};
use crate::sandbox_daemon::fs::adapter::FsRunner;
use crate::sandbox_daemon::fs::gate::{enter, fs_refusal, fs_target, fs_used};
use crate::sandbox_daemon::fs::proto::{
    unexpected, unexpected_message, FsEntry, FsOp, FsReply, FsResult,
};
use crate::sandbox_daemon::registry::SandboxRegistry;
use vstd::prelude::*;

verus! {

/// A directory to list.
#[derive(Debug, Clone, PartialEq, Eq)]
pub struct LsRequest {
    pub sandbox_id: String,
    pub path: String,
}

/// What the directory holds.
#[derive(Debug, Clone, PartialEq, Eq)]
pub struct LsResponse {
    pub entries: Vec<FsEntry>,
}

/// `r` is the answer to the caller, given what came back from the sandbox: a
/// failure goes on to the caller, and so does the answer to another question.
pub open spec fn ls_answers(
    r: Result<LsResponse, SandboxError>,
    back: Result<FsReply, SandboxError>,
) -> bool {
    match back {
        Err(e) => r == Err::<LsResponse, SandboxError>(e),
        Ok(FsReply { result: FsResult::Ls { entries }, .. }) => r == Ok::<
            LsResponse,
            SandboxError,
        >(LsResponse { entries }),
        Ok(reply) => fails(r, SandboxErrorCode::S216, unexpected_message("Ls"@, reply.shown@)),
    }
}

/// The answer to the caller, given what came back from the sandbox.
pub fn ls_response(back: Result<FsReply, SandboxError>) -> (r: Result<LsResponse, SandboxError>)
    ensures
        ls_answers(r, back),
{
    match back {
        Err(e) => Err(e),
        Ok(FsReply { result: FsResult::Ls { entries }, .. }) => Ok(LsResponse { entries }),
        Ok(reply) => Err(SandboxError::FsIo(unexpected("Ls", reply.shown.as_str()))),
    }
}

/// List a directory in a sandbox.
pub fn handle_ls<R: FsRunner>(
    req: LsRequest,
    registry: &mut SandboxRegistry,
    runner: &R,
    now: u64,
) -> (r: Result<LsResponse, SandboxError>)
    ensures
        match fs_refusal(req.sandbox_id@, old(registry)@) {
            Some(why) => fails(r, why.0, why.1) && final(registry)@ == old(registry)@,
            None => {
                &&& final(registry)@ == fs_used(req.sandbox_id@, old(registry)@, now)
                &&& exists|back: Result<FsReply, SandboxError>| #[trigger]
                    call_ensures(
                        R::fs_call,
                        (
                            runner,
                            fs_target(req.sandbox_id@, old(registry)@).shell_sock,
                            FsOp::Ls { path: req.path },
                        ),
                        back,
                    ) && ls_answers(r, back)
            },
        },
{
    let sock = match enter(req.sandbox_id.as_str(), registry, now) {
        Ok(s) => s,
        Err(e) => return Err(e),
    };
    let back = runner.fs_call(
        sock,
        FsOp::Ls { path: req.path },
    );
    ls_response(back)
}

} // verus!
