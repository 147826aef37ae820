//! Replacing text in files of a sandbox.

use crate::ids::uuid_parsed;
use crate::sandbox_daemon::errors::{fails, SandboxError, SandboxErrorCode};
use crate::sandbox_daemon::exec::{bad_id_message, parse_sandbox_id};
use crate::sandbox_daemon::fs::adapter::FsRunner;
use crate::sandbox_daemon::fs::gate::{enter, fs_refusal, fs_target, fs_used};
use crate::sandbox_daemon::fs::proto::{
    unexpected, unexpected_message, FsOp, FsReply, FsResult, FsSedFileResult,
};
use crate::sandbox_daemon::registry::{SandboxRegistry, SandboxState};
use vstd::prelude::*;

verus! {

/// A replacement, in files that are named or in those found under a path:
/// exactly one of the two.
#[derive(Debug, Clone, PartialEq, Eq)]
pub struct SedRequest {
    pub sandbox_id: String,
    pub files: Vec<String>,
    /// A directory or a file to search like grep does.
    pub path: Option<String>,
    pub recursive: bool,
    pub include_glob: Vec<String>,
    pub exclude_glob: Vec<String>,
    pub pattern: String,
    pub replacement: String,
    /// Whether the pattern is a regular expression.
    pub regex: bool,
    pub first_only: bool,
    pub ignore_case: bool,
}

/// What the replacement did.
#[derive(Debug, Clone, PartialEq, Eq)]
pub struct SedResponse {
    pub results: Vec<FsSedFileResult>,
    pub total_replacements: u64,
}

/// What a replacement does where the caller does not say: it descends, and
/// takes the pattern as a regular expression.
pub fn default_true() -> (r: bool)
    ensures
        r,
{
    true
}

/// What is wrong with the choice between files and a path, if anything.
pub open spec fn form_complaint(files: nat, path: bool) -> Option<Seq<char>> {
    if files > 0 && path {
        Some("sed: provide exactly one of files or path, not both"@)
    } else if files == 0 && !path {
        Some("sed: must provide exactly one of files or path"@)
    } else {
        None
    }
}

/// Check the choice between files and a path.
pub fn check_form(files: usize, path: bool) -> (r: Result<(), SandboxError>)
    ensures
        match form_complaint(files as nat, path) {
            Some(m) => fails(r, SandboxErrorCode::S210, m),
            None => r is Ok,
        },
{
    if files > 0 && path {
        return Err(
            SandboxError::FsInvalidRequest(
                "sed: provide exactly one of files or path, not both".to_owned(),
            ),
        );
    }
    if files == 0 && !path {
        return Err(
            SandboxError::FsInvalidRequest(
                "sed: must provide exactly one of files or path".to_owned(),
            ),
        );
    }
    Ok(())
}

/// Why a replacement is refused: the id, then the choice between files and a
/// path, then the sandbox.
pub open spec fn sed_refusal(req: SedRequest, known: Map<u128, SandboxState>) -> Option<
    (SandboxErrorCode, Seq<char>),
> {
    if uuid_parsed(req.sandbox_id@) is None {
        Some((SandboxErrorCode::S001, bad_id_message(req.sandbox_id@)))
    } else {
        match form_complaint(req.files@.len(), req.path is Some) {
            Some(m) => Some((SandboxErrorCode::S210, m)),
            None => fs_refusal(req.sandbox_id@, known),
        }
    }
}

/// `r` is the answer to the caller, given what came back from the sandbox: a
/// failure goes on to the caller, and so does the answer to another question.
pub open spec fn sed_answers(
    r: Result<SedResponse, SandboxError>,
    back: Result<FsReply, SandboxError>,
) -> bool {
    match back {
        Err(e) => r == Err::<SedResponse, SandboxError>(e),
        Ok(FsReply { result: FsResult::Sed { results, total_replacements }, .. }) => r == Ok::<
            SedResponse,
            SandboxError,
        >(SedResponse { results, total_replacements }),
        Ok(reply) => fails(r, SandboxErrorCode::S216, unexpected_message("Sed"@, reply.shown@)),
    }
}

/// The answer to the caller, given what came back from the sandbox.
pub fn sed_response(back: Result<FsReply, SandboxError>) -> (r: Result<SedResponse, SandboxError>)
    ensures
        sed_answers(r, back),
{
    match back {
        Err(e) => Err(e),
        Ok(FsReply { result: FsResult::Sed { results, total_replacements }, .. }) => Ok(
            SedResponse { results, total_replacements },
        ),
        Ok(reply) => Err(SandboxError::FsIo(unexpected("Sed", reply.shown.as_str()))),
    }
}

/// Replace text in files of a sandbox.
pub fn handle_sed<R: FsRunner>(
    req: SedRequest,
    registry: &mut SandboxRegistry,
    runner: &R,
    now: u64,
) -> (r: Result<SedResponse, SandboxError>)
    ensures
        match sed_refusal(req, old(registry)@) {
            Some(why) => fails(r, why.0, why.1) && final(registry)@ == old(registry)@,
            None => {
                &&& final(registry)@ == fs_used(req.sandbox_id@, old(registry)@, now)
                &&& exists|back: Result<FsReply, SandboxError>| #[trigger]
                    call_ensures(
                        R::fs_call,
                        (
                            runner,
                            fs_target(req.sandbox_id@, old(registry)@).shell_sock,
                            FsOp::Sed {
                                files: req.files,
                                path: req.path,
                                recursive: req.recursive,
                                include_glob: req.include_glob,
                                exclude_glob: req.exclude_glob,
                                pattern: req.pattern,
                                replacement: req.replacement,
                                regex: req.regex,
                                first_only: req.first_only,
                                ignore_case: req.ignore_case,
                            },
                        ),
                        back,
                    ) && sed_answers(r, back)
            },
        },
{
    match parse_sandbox_id(req.sandbox_id.as_str()) {
        Ok(_) => {},
        Err(e) => return Err(e),
    }
    match check_form(req.files.len(), req.path.is_some()) {
        Ok(_) => {},
        Err(e) => return Err(e),
    }
    let sock = match enter(req.sandbox_id.as_str(), registry, now) {
        Ok(s) => s,
        Err(e) => return Err(e),
    };
    let back = runner.fs_call(
        sock,
        FsOp::Sed {
            files: req.files,
            path: req.path,
            recursive: req.recursive,
            include_glob: req.include_glob,
            exclude_glob: req.exclude_glob,
            pattern: req.pattern,
            replacement: req.replacement,
            regex: req.regex,
            first_only: req.first_only,
            ignore_case: req.ignore_case,
        },
    );
    sed_response(back)
}

} // verus!
