//! Moving a file or directory in a sandbox.

use crate::sandbox_daemon::errors::{fails, SandboxError, SandboxErrorCode};
use crate::sandbox_daemon::fs::adapter::FsRunner;
use crate::sandbox_daemon::fs::gate::{enter, fs_refusal, fs_target, fs_used};
use crate::sandbox_daemon::fs::proto::{unexpected, unexpected_message, FsOp, FsReply, FsResult};
use crate::sandbox_daemon::registry::SandboxRegistry;
use vstd::prelude::*;

verus! {

/// A path to move.
#[derive(Debug, Clone, PartialEq, Eq)]
pub struct MvRequest {
    pub sandbox_id: String,
    pub src: String,
    pub dst: String,
    /// Replace what is at the destination.
    pub overwrite: bool,
}

/// Whether something was moved.
#[derive(Debug, Clone, PartialEq, Eq)]
pub struct MvResponse {
    pub moved: bool,
}

/// `r` is the answer to the caller, given what came back from the sandbox: a
/// failure goes on to the caller, and so does the answer to another question.
pub open spec fn mv_answers(
    r: Result<MvResponse, SandboxError>,
    back: Result<FsReply, SandboxError>,
) -> bool {
    match back {
        Err(e) => r == Err::<MvResponse, SandboxError>(e),
        Ok(FsReply { result: FsResult::Mv { moved }, .. }) => r == Ok::<
            MvResponse,
            SandboxError,
        >(MvResponse { moved }),
        Ok(reply) => fails(r, SandboxErrorCode::S216, unexpected_message("Mv"@, reply.shown@)),
    }
}

/// The answer to the caller, given what came back from the sandbox.
pub fn mv_response(back: Result<FsReply, SandboxError>) -> (r: Result<MvResponse, SandboxError>)
    ensures
        mv_answers(r, back),
{
    match back {
        Err(e) => Err(e),
        Ok(FsReply { result: FsResult::Mv { moved }, .. }) => Ok(MvResponse { moved }),
        Ok(reply) => Err(SandboxError::FsIo(unexpected("Mv", reply.shown.as_str()))),
    }
}

/// Move a file or directory in a sandbox.
pub fn handle_mv<R: FsRunner>(
    req: MvRequest,
    registry: &mut SandboxRegistry,
    runner: &R,
    now: u64,
) -> (r: Result<MvResponse, SandboxError>)
    ensures
        match fs_refusal(req.sandbox_id@, old(registry)@) {
            Some(why) => fails(r, why.0, why.1) && final(registry)@ == old(registry)@,
            None => {
                &&& final(registry)@ == fs_used(req.sandbox_id@, old(registry)@, now)
                &&& exists|back: Result<FsReply, SandboxError>| #[trigger]
                    call_ensures(
                        R::fs_call,
                        (
                            runner,
                            fs_target(req.sandbox_id@, old(registry)@).shell_sock,
                            FsOp::Mv { src: req.src, dst: req.dst, overwrite: req.overwrite },
                        ),
                        back,
                    ) && mv_answers(r, back)
            },
        },
{
    let sock = match enter(req.sandbox_id.as_str(), registry, now) {
        Ok(s) => s,
        Err(e) => return Err(e),
    };
    let back = runner.fs_call(
        sock,
        FsOp::Mv { src: req.src, dst: req.dst, overwrite: req.overwrite },
    );
    mv_response(back)
}

} // verus!
