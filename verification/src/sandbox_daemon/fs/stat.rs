//! Looking at a file in a sandbox.

use crate::sandbox_daemon::errors::{fails, SandboxError, SandboxErrorCode};
use crate::sandbox_daemon::fs::adapter::FsRunner;
use crate::sandbox_daemon::fs::gate::{enter, fs_refusal, fs_target, fs_used};
use crate::sandbox_daemon::fs::proto::{
    unexpected, unexpected_message, FsEntry, FsOp, FsReply, FsResult,
};
use crate::sandbox_daemon::registry::SandboxRegistry;
use vstd::prelude::*;

verus! {

/// A path to look at.
#[derive(Debug, Clone, PartialEq, Eq)]
pub struct StatRequest {
    pub sandbox_id: String,
    pub path: String,
}

/// What is at the path.
#[derive(Debug, Clone, PartialEq, Eq)]
pub struct StatResponse {
    pub name: String,
    pub is_dir: bool,
    pub size: u64,
    pub mode: String,
    pub mtime: i64,
    pub is_symlink: bool,
}

impl From<FsEntry> for StatResponse {
    fn from(e: FsEntry) -> (r: StatResponse) {
        StatResponse {
            name: e.name,
            is_dir: e.is_dir,
            size: e.size,
            mode: e.mode,
            mtime: e.mtime,
            is_symlink: e.is_symlink,
        }
    }
}

impl vstd::std_specs::convert::FromSpecImpl<FsEntry> for StatResponse {
    open spec fn obeys_from_spec() -> bool {
        true
    }

    open spec fn from_spec(e: FsEntry) -> StatResponse {
        StatResponse {
            name: e.name,
            is_dir: e.is_dir,
            size: e.size,
            mode: e.mode,
            mtime: e.mtime,
            is_symlink: e.is_symlink,
        }
    }
}

/// `r` is the answer to the caller, given what came back from the sandbox: a
/// failure goes on to the caller, and so does the answer to another question.
pub open spec fn stat_answers(
    r: Result<StatResponse, SandboxError>,
    back: Result<FsReply, SandboxError>,
) -> bool {
    match back {
        Err(e) => r == Err::<StatResponse, SandboxError>(e),
        Ok(FsReply { result: FsResult::Stat(entry), .. }) => r == Ok::<StatResponse, SandboxError>(
            StatResponse {
                name: entry.name,
                is_dir: entry.is_dir,
                size: entry.size,
                mode: entry.mode,
                mtime: entry.mtime,
                is_symlink: entry.is_symlink,
            },
        ),
        Ok(reply) => fails(r, SandboxErrorCode::S216, unexpected_message("Stat"@, reply.shown@)),
    }
}

/// The answer to the caller, given what came back from the sandbox.
pub fn stat_response(back: Result<FsReply, SandboxError>) -> (r: Result<StatResponse, SandboxError>)
    ensures
        stat_answers(r, back),
{
    match back {
        Err(e) => Err(e),
        Ok(FsReply { result: FsResult::Stat(entry), .. }) => Ok(StatResponse::from(entry)),
        Ok(reply) => Err(SandboxError::FsIo(unexpected("Stat", reply.shown.as_str()))),
    }
}

/// Look at a file in a sandbox.
pub fn handle_stat<R: FsRunner>(
    req: StatRequest,
    registry: &mut SandboxRegistry,
    runner: &R,
    now: u64,
) -> (r: Result<StatResponse, SandboxError>)
    ensures
        match fs_refusal(req.sandbox_id@, old(registry)@) {
            Some(why) => fails(r, why.0, why.1) && final(registry)@ == old(registry)@,
            None => {
                &&& final(registry)@ == fs_used(req.sandbox_id@, old(registry)@, now)
                &&& exists|back: Result<FsReply, SandboxError>| #[trigger]
                    call_ensures(
                        R::fs_call,
                        (
                            runner,
                            fs_target(req.sandbox_id@, old(registry)@).shell_sock,
                            FsOp::Stat { path: req.path },
                        ),
                        back,
                    ) && stat_answers(r, back)
            },
        },
{
    let sock = match enter(req.sandbox_id.as_str(), registry, now) {
        Ok(s) => s,
        Err(e) => return Err(e),
    };
    let back = runner.fs_call(
        sock,
        FsOp::Stat { path: req.path },
    );
    stat_response(back)
}

} // verus!
