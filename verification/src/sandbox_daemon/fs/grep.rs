//! Searching files in a sandbox.

use crate::sandbox_daemon::errors::{fails, SandboxError, SandboxErrorCode};
use crate::sandbox_daemon::fs::adapter::FsRunner;
use crate::sandbox_daemon::fs::gate::{enter, fs_refusal, fs_target, fs_used};
use crate::sandbox_daemon::fs::proto::{
    unexpected, unexpected_message, FsMatch, FsOp, FsReply, FsResult,
};
use crate::sandbox_daemon::registry::SandboxRegistry;
use vstd::prelude::*;

verus! {

/// A search.
#[derive(Debug, Clone, PartialEq, Eq)]
pub struct GrepRequest {
    pub sandbox_id: String,
    /// A directory, or a file where the search is not recursive.
    pub path: String,
    /// A regular expression.
    pub pattern: String,
    pub recursive: bool,
    pub ignore_case: bool,
    pub include_glob: Vec<String>,
    pub exclude_glob: Vec<String>,
    /// Matches after which the search ends.
    pub max_matches: u64,
    /// Bytes of a line after which it is cut.
    pub max_line_bytes: u64,
}

/// What a search does where the caller does not say: it descends.
pub fn default_recursive() -> (r: bool)
    ensures
        r,
{
    true
}

/// The matches after which a search ends where the caller does not say.
pub fn default_max_matches() -> (r: u64)
    ensures
        r == 10_000,
{
    10_000
}

/// The bytes after which a line is cut where the caller does not say.
pub fn default_max_line_bytes() -> (r: u64)
    ensures
        r == 4096,
{
    4096
}

/// What the search found.
#[derive(Debug, Clone, PartialEq, Eq)]
pub struct GrepResponse {
    pub matches: Vec<FsMatch>,
    /// Whether the search ended early.
    pub truncated: bool,
}

/// `r` is the answer to the caller, given what came back from the sandbox: a
/// failure goes on to the caller, and so does the answer to another question.
pub open spec fn grep_answers(
    r: Result<GrepResponse, SandboxError>,
    back: Result<FsReply, SandboxError>,
) -> bool {
    match back {
        Err(e) => r == Err::<GrepResponse, SandboxError>(e),
        Ok(FsReply { result: FsResult::Grep { matches, truncated }, .. }) => r == Ok::<
            GrepResponse,
            SandboxError,
        >(GrepResponse { matches, truncated }),
        Ok(reply) => fails(r, SandboxErrorCode::S216, unexpected_message("Grep"@, reply.shown@)),
    }
}

/// The answer to the caller, given what came back from the sandbox.
pub fn grep_response(back: Result<FsReply, SandboxError>) -> (r: Result<GrepResponse, SandboxError>)
    ensures
        grep_answers(r, back),
{
    match back {
        Err(e) => Err(e),
        Ok(FsReply { result: FsResult::Grep { matches, truncated }, .. }) => Ok(
            GrepResponse { matches, truncated },
        ),
        Ok(reply) => Err(SandboxError::FsIo(unexpected("Grep", reply.shown.as_str()))),
    }
}

/// Search files in a sandbox.
pub fn handle_grep<R: FsRunner>(
    req: GrepRequest,
    registry: &mut SandboxRegistry,
    runner: &R,
    now: u64,
) -> (r: Result<GrepResponse, SandboxError>)
    ensures
        match fs_refusal(req.sandbox_id@, old(registry)@) {
            Some(why) => fails(r, why.0, why.1) && final(registry)@ == old(registry)@,
            None => {
                &&& final(registry)@ == fs_used(req.sandbox_id@, old(registry)@, now)
                &&& exists|back: Result<FsReply, SandboxError>| #[trigger]
                    call_ensures(
                        R::fs_call,
                        (
                            runner,
                            fs_target(req.sandbox_id@, old(registry)@).shell_sock,
                            FsOp::Grep {
                                path: req.path,
                                pattern: req.pattern,
                                recursive: req.recursive,
                                ignore_case: req.ignore_case,
                                include_glob: req.include_glob,
                                exclude_glob: req.exclude_glob,
                                max_matches: req.max_matches,
                                max_line_bytes: req.max_line_bytes,
                            },
                        ),
                        back,
                    ) && grep_answers(r, back)
            },
        },
{
    let sock = match enter(req.sandbox_id.as_str(), registry, now) {
        Ok(s) => s,
        Err(e) => return Err(e),
    };
    let back = runner.fs_call(
        sock,
        FsOp::Grep {
            path: req.path,
            pattern: req.pattern,
            recursive: req.recursive,
            ignore_case: req.ignore_case,
            include_glob: req.include_glob,
            exclude_glob: req.exclude_glob,
            max_matches: req.max_matches,
            max_line_bytes: req.max_line_bytes,
        },
    );
    grep_response(back)
}

} // verus!
