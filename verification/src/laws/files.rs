//! Laws of working on the files of sandboxes.

use crate::encoding::base64_decoded;
use crate::ids::uuid_parsed;
use crate::sandbox_daemon::errors::SandboxError;
use crate::sandbox_daemon::fs::adapter::{FsRunner, WriteBody};
use crate::sandbox_daemon::fs::gate::enter;
use crate::sandbox_daemon::fs::grep::{
    default_max_line_bytes, default_max_matches, default_recursive, grep_response, handle_grep,
    GrepRequest, GrepResponse,
};
use crate::sandbox_daemon::fs::ls::{handle_ls, ls_response, LsRequest, LsResponse};
use crate::sandbox_daemon::fs::mv::{handle_mv, mv_response, MvRequest, MvResponse};
use crate::sandbox_daemon::fs::proto::{FsOp, FsReply, FsResult};
use crate::sandbox_daemon::fs::rm::{handle_rm, rm_response, RmRequest, RmResponse};
use crate::sandbox_daemon::fs::sed::{
    check_form, default_true, handle_sed, sed_response, SedRequest, SedResponse,
};
use crate::sandbox_daemon::fs::stat::{handle_stat, stat_response, StatRequest, StatResponse};
use crate::sandbox_daemon::fs::write::{
    body_from_b64, default_mode, handle_write, handle_write_with_reader, write_body, write_response,
    ChannelReaderAdapter, WriteContent, WriteRequest, WriteResponse,
};
use crate::sandbox_daemon::registry::{SandboxRegistry, SandboxState};
use vstd::prelude::*;
use vstd::utf8::encode_utf8;

verus! {

/// A sandbox whose files may be worked on: it is known under the id that is
/// named, and runs. A command that runs in it does not matter.
pub open spec fn is_open(sandbox_id: Seq<char>, known: Map<u128, SandboxState>, id: u128) -> bool {
    uuid_parsed(sandbox_id) == Some(id) && known.contains_key(id) && !known[id].stopped
}

/// From `before` to `after`, the sandbox `id` was used at `now`, and nothing else
/// about it or any other changed.
pub open spec fn only_used(
    before: Map<u128, SandboxState>,
    after: Map<u128, SandboxState>,
    id: u128,
    now: u64,
) -> bool {
    &&& after.dom() == before.dom()
    &&& after[id] == SandboxState { last_exec_at: now, ..before[id] }
    &&& forall|other: u128|
        other != id && #[trigger] before.contains_key(other) ==> after[other] == before[other]
}

/// `e` says why no file operation gets to the sandbox that is named.
pub open spec fn says_closed(
    e: SandboxError,
    sandbox_id: Seq<char>,
    known: Map<u128, SandboxState>,
) -> bool {
    match uuid_parsed(sandbox_id) {
        None => e is InvalidRequest,
        Some(id) => if known.contains_key(id) {
            known[id].stopped && e is AlreadyStopped
        } else {
            e is NotFound
        },
    }
}

/// A file operation is let in to an open sandbox, on that sandbox's own socket,
/// and counts as its use; it is kept out of any other, for the reason that it is
/// not open, and then changes nothing.
pub proof fn open_sandboxes_let_files_in(
    call: (&str, &mut SandboxRegistry, u64),
    r: Result<String, SandboxError>,
    id: u128,
)
    requires
        call_ensures(enter, call, r),
    ensures
        is_open(call.0@, old(call.1)@, id) ==> {
            &&& r == Ok::<String, SandboxError>(old(call.1)@[id].shell_sock)
            &&& only_used(old(call.1)@, final(call.1)@, id, call.2)
        },
        r matches Err(e) ==> says_closed(e, call.0@, old(call.1)@) && final(call.1)@
            == old(call.1)@,
        r is Ok ==> exists|open: u128| is_open(call.0@, old(call.1)@, open),
{
    if is_open(call.0@, old(call.1)@, id) {
        assert(final(call.1)@.dom() =~= old(call.1)@.dom());
    }
    if r is Ok {
        assert(is_open(call.0@, old(call.1)@, uuid_parsed(call.0@)->0));
    }
}

/// What comes back of a listing goes to the caller as it is: the answer, or the
/// failure. An answer to another question is a failure too.
pub proof fn ls_answer_is_passed_on(
    back: Result<FsReply, SandboxError>,
    r: Result<LsResponse, SandboxError>,
)
    requires
        call_ensures(ls_response, (back,), r),
    ensures
        back matches Err(e) ==> r == Err::<LsResponse, SandboxError>(e),
        back matches Ok(FsReply { result: FsResult::Ls { entries }, .. }) ==> r == Ok::<
            LsResponse,
            SandboxError,
        >(LsResponse { entries }),
        back is Ok && !(back->Ok_0.result is Ls) ==> r is Err && r->Err_0 is FsIo,
        back is Ok && !(back->Ok_0.result is Ls) ==> r->Err_0->FsIo_0@ == "expected "@ + "Ls"@
            + " result, got "@ + back->Ok_0.shown@,
{
}

/// The directory to list is the caller's, and what the sandbox finds in it is what
/// the caller gets.
pub proof fn ls_is_what_was_asked<R: FsRunner>(
    call: (LsRequest, &mut SandboxRegistry, &R, u64),
    r: Result<LsResponse, SandboxError>,
    id: u128,
)
    requires
        call_ensures(handle_ls::<R>, call, r),
        is_open(call.0.sandbox_id@, old(call.1)@, id),
    ensures
        only_used(old(call.1)@, final(call.1)@, id, call.3),
        exists|back: Result<FsReply, SandboxError>|
            {
                &&& #[trigger] call_ensures(
                    R::fs_call,
                    (call.2, old(call.1)@[id].shell_sock, FsOp::Ls { path: call.0.path }),
                    back,
                )
                &&& back matches Err(e) ==> r == Err::<LsResponse, SandboxError>(e)
                &&& r is Ok <==> back is Ok && back->Ok_0.result is Ls
                &&& back matches Ok(FsReply { result: FsResult::Ls { entries }, .. }) ==> r == Ok::<
            LsResponse,
            SandboxError,
        >(LsResponse { entries })
            },
{
    assert(final(call.1)@.dom() =~= old(call.1)@.dom());
}

/// A listing in a sandbox that is not open fails for that reason and changes
/// nothing.
pub proof fn ls_needs_an_open_sandbox<R: FsRunner>(
    call: (LsRequest, &mut SandboxRegistry, &R, u64),
    r: Result<LsResponse, SandboxError>,
)
    requires
        call_ensures(handle_ls::<R>, call, r),
        !(uuid_parsed(call.0.sandbox_id@) is Some && is_open(
            call.0.sandbox_id@,
            old(call.1)@,
            uuid_parsed(call.0.sandbox_id@)->0,
        )),
    ensures
        r matches Err(e) && says_closed(e, call.0.sandbox_id@, old(call.1)@),
        final(call.1)@ == old(call.1)@,
{
}

/// What comes back of a look at a file goes to the caller as it is: the answer, or the
/// failure. An answer to another question is a failure too.
pub proof fn stat_answer_is_passed_on(
    back: Result<FsReply, SandboxError>,
    r: Result<StatResponse, SandboxError>,
)
    requires
        call_ensures(stat_response, (back,), r),
    ensures
        back matches Err(e) ==> r == Err::<StatResponse, SandboxError>(e),
        back matches Ok(FsReply { result: FsResult::Stat(e), .. }) ==> {
            &&& r is Ok
            &&& r->Ok_0.name == e.name
            &&& r->Ok_0.is_dir == e.is_dir
            &&& r->Ok_0.size == e.size
            &&& r->Ok_0.mode == e.mode
            &&& r->Ok_0.mtime == e.mtime
            &&& r->Ok_0.is_symlink == e.is_symlink
        },
        back is Ok && !(back->Ok_0.result is Stat) ==> r is Err && r->Err_0 is FsIo,
        back is Ok && !(back->Ok_0.result is Stat) ==> r->Err_0->FsIo_0@ == "expected "@ + "Stat"@
            + " result, got "@ + back->Ok_0.shown@,
{
}

/// The file to look at is the caller's, and what the sandbox says of it is what the
/// caller gets.
pub proof fn stat_is_what_was_asked<R: FsRunner>(
    call: (StatRequest, &mut SandboxRegistry, &R, u64),
    r: Result<StatResponse, SandboxError>,
    id: u128,
)
    requires
        call_ensures(handle_stat::<R>, call, r),
        is_open(call.0.sandbox_id@, old(call.1)@, id),
    ensures
        only_used(old(call.1)@, final(call.1)@, id, call.3),
        exists|back: Result<FsReply, SandboxError>|
            {
                &&& #[trigger] call_ensures(
                    R::fs_call,
                    (call.2, old(call.1)@[id].shell_sock, FsOp::Stat { path: call.0.path }),
                    back,
                )
                &&& back matches Err(e) ==> r == Err::<StatResponse, SandboxError>(e)
                &&& r is Ok <==> back is Ok && back->Ok_0.result is Stat
                &&& back matches Ok(FsReply { result: FsResult::Stat(e), .. }) ==> {
            &&& r is Ok
            &&& r->Ok_0.name == e.name
            &&& r->Ok_0.is_dir == e.is_dir
            &&& r->Ok_0.size == e.size
            &&& r->Ok_0.mode == e.mode
            &&& r->Ok_0.mtime == e.mtime
            &&& r->Ok_0.is_symlink == e.is_symlink
        }
            },
{
    assert(final(call.1)@.dom() =~= old(call.1)@.dom());
}

/// A look at a file in a sandbox that is not open fails for that reason and changes
/// nothing.
pub proof fn stat_needs_an_open_sandbox<R: FsRunner>(
    call: (StatRequest, &mut SandboxRegistry, &R, u64),
    r: Result<StatResponse, SandboxError>,
)
    requires
        call_ensures(handle_stat::<R>, call, r),
        !(uuid_parsed(call.0.sandbox_id@) is Some && is_open(
            call.0.sandbox_id@,
            old(call.1)@,
            uuid_parsed(call.0.sandbox_id@)->0,
        )),
    ensures
        r matches Err(e) && says_closed(e, call.0.sandbox_id@, old(call.1)@),
        final(call.1)@ == old(call.1)@,
{
}

/// What comes back of a removal goes to the caller as it is: the answer, or the
/// failure. An answer to another question is a failure too.
pub proof fn rm_answer_is_passed_on(
    back: Result<FsReply, SandboxError>,
    r: Result<RmResponse, SandboxError>,
)
    requires
        call_ensures(rm_response, (back,), r),
    ensures
        back matches Err(e) ==> r == Err::<RmResponse, SandboxError>(e),
        back matches Ok(FsReply { result: FsResult::Rm { removed }, .. }) ==> r == Ok::<
            RmResponse,
            SandboxError,
        >(RmResponse { removed }),
        back is Ok && !(back->Ok_0.result is Rm) ==> r is Err && r->Err_0 is FsIo,
        back is Ok && !(back->Ok_0.result is Rm) ==> r->Err_0->FsIo_0@ == "expected "@ + "Rm"@
            + " result, got "@ + back->Ok_0.shown@,
{
}

/// What is removed is what the caller names, with everything in it only on request,
/// and the caller is told whether it was.
pub proof fn rm_is_what_was_asked<R: FsRunner>(
    call: (RmRequest, &mut SandboxRegistry, &R, u64),
    r: Result<RmResponse, SandboxError>,
    id: u128,
)
    requires
        call_ensures(handle_rm::<R>, call, r),
        is_open(call.0.sandbox_id@, old(call.1)@, id),
    ensures
        only_used(old(call.1)@, final(call.1)@, id, call.3),
        exists|back: Result<FsReply, SandboxError>|
            {
                &&& #[trigger] call_ensures(
                    R::fs_call,
                    (call.2, old(call.1)@[id].shell_sock, FsOp::Rm { path: call.0.path,
                        recursive: call.0.recursive }),
                    back,
                )
                &&& back matches Err(e) ==> r == Err::<RmResponse, SandboxError>(e)
                &&& r is Ok <==> back is Ok && back->Ok_0.result is Rm
                &&& back matches Ok(FsReply { result: FsResult::Rm { removed }, .. }) ==> r == Ok::<
            RmResponse,
            SandboxError,
        >(RmResponse { removed })
            },
{
    assert(final(call.1)@.dom() =~= old(call.1)@.dom());
}

/// A removal in a sandbox that is not open fails for that reason and changes
/// nothing.
pub proof fn rm_needs_an_open_sandbox<R: FsRunner>(
    call: (RmRequest, &mut SandboxRegistry, &R, u64),
    r: Result<RmResponse, SandboxError>,
)
    requires
        call_ensures(handle_rm::<R>, call, r),
        !(uuid_parsed(call.0.sandbox_id@) is Some && is_open(
            call.0.sandbox_id@,
            old(call.1)@,
            uuid_parsed(call.0.sandbox_id@)->0,
        )),
    ensures
        r matches Err(e) && says_closed(e, call.0.sandbox_id@, old(call.1)@),
        final(call.1)@ == old(call.1)@,
{
}

/// What comes back of a move goes to the caller as it is: the answer, or the
/// failure. An answer to another question is a failure too.
pub proof fn mv_answer_is_passed_on(
    back: Result<FsReply, SandboxError>,
    r: Result<MvResponse, SandboxError>,
)
    requires
        call_ensures(mv_response, (back,), r),
    ensures
        back matches Err(e) ==> r == Err::<MvResponse, SandboxError>(e),
        back matches Ok(FsReply { result: FsResult::Mv { moved }, .. }) ==> r == Ok::<
            MvResponse,
            SandboxError,
        >(MvResponse { moved }),
        back is Ok && !(back->Ok_0.result is Mv) ==> r is Err && r->Err_0 is FsIo,
        back is Ok && !(back->Ok_0.result is Mv) ==> r->Err_0->FsIo_0@ == "expected "@ + "Mv"@
            + " result, got "@ + back->Ok_0.shown@,
{
}

/// What is moved, and where to, is what the caller names, over something else only
/// on request, and the caller is told whether it was.
pub proof fn mv_is_what_was_asked<R: FsRunner>(
    call: (MvRequest, &mut SandboxRegistry, &R, u64),
    r: Result<MvResponse, SandboxError>,
    id: u128,
)
    requires
        call_ensures(handle_mv::<R>, call, r),
        is_open(call.0.sandbox_id@, old(call.1)@, id),
    ensures
        only_used(old(call.1)@, final(call.1)@, id, call.3),
        exists|back: Result<FsReply, SandboxError>|
            {
                &&& #[trigger] call_ensures(
                    R::fs_call,
                    (call.2, old(call.1)@[id].shell_sock, FsOp::Mv { src: call.0.src,
                        dst: call.0.dst, overwrite: call.0.overwrite }),
                    back,
                )
                &&& back matches Err(e) ==> r == Err::<MvResponse, SandboxError>(e)
                &&& r is Ok <==> back is Ok && back->Ok_0.result is Mv
                &&& back matches Ok(FsReply { result: FsResult::Mv { moved }, .. }) ==> r == Ok::<
            MvResponse,
            SandboxError,
        >(MvResponse { moved })
            },
{
    assert(final(call.1)@.dom() =~= old(call.1)@.dom());
}

/// A move in a sandbox that is not open fails for that reason and changes
/// nothing.
pub proof fn mv_needs_an_open_sandbox<R: FsRunner>(
    call: (MvRequest, &mut SandboxRegistry, &R, u64),
    r: Result<MvResponse, SandboxError>,
)
    requires
        call_ensures(handle_mv::<R>, call, r),
        !(uuid_parsed(call.0.sandbox_id@) is Some && is_open(
            call.0.sandbox_id@,
            old(call.1)@,
            uuid_parsed(call.0.sandbox_id@)->0,
        )),
    ensures
        r matches Err(e) && says_closed(e, call.0.sandbox_id@, old(call.1)@),
        final(call.1)@ == old(call.1)@,
{
}

/// What comes back of a search goes to the caller as it is: the answer, or the
/// failure. An answer to another question is a failure too.
pub proof fn grep_answer_is_passed_on(
    back: Result<FsReply, SandboxError>,
    r: Result<GrepResponse, SandboxError>,
)
    requires
        call_ensures(grep_response, (back,), r),
    ensures
        back matches Err(e) ==> r == Err::<GrepResponse, SandboxError>(e),
        back matches Ok(FsReply { result: FsResult::Grep { matches, truncated }, .. }) ==> r
            == Ok::<
            GrepResponse,
            SandboxError,
        >(GrepResponse { matches, truncated }),
        back is Ok && !(back->Ok_0.result is Grep) ==> r is Err && r->Err_0 is FsIo,
        back is Ok && !(back->Ok_0.result is Grep) ==> r->Err_0->FsIo_0@ == "expected "@ + "Grep"@
            + " result, got "@ + back->Ok_0.shown@,
{
}

/// The search is the caller's in every respect, and what it finds is what the caller
/// gets.
pub proof fn grep_is_what_was_asked<R: FsRunner>(
    call: (GrepRequest, &mut SandboxRegistry, &R, u64),
    r: Result<GrepResponse, SandboxError>,
    id: u128,
)
    requires
        call_ensures(handle_grep::<R>, call, r),
        is_open(call.0.sandbox_id@, old(call.1)@, id),
    ensures
        only_used(old(call.1)@, final(call.1)@, id, call.3),
        exists|back: Result<FsReply, SandboxError>|
            {
                &&& #[trigger] call_ensures(
                    R::fs_call,
                    (call.2, old(call.1)@[id].shell_sock, FsOp::Grep {
                        path: call.0.path,
                        pattern: call.0.pattern,
                        recursive: call.0.recursive,
                        ignore_case: call.0.ignore_case,
                        include_glob: call.0.include_glob,
                        exclude_glob: call.0.exclude_glob,
                        max_matches: call.0.max_matches,
                        max_line_bytes: call.0.max_line_bytes,
                    }),
                    back,
                )
                &&& back matches Err(e) ==> r == Err::<GrepResponse, SandboxError>(e)
                &&& r is Ok <==> back is Ok && back->Ok_0.result is Grep
                &&& back matches Ok(FsReply { result: FsResult::Grep { matches, truncated }, .. })
                    ==> r == Ok::<
            GrepResponse,
            SandboxError,
        >(GrepResponse { matches, truncated })
            },
{
    assert(final(call.1)@.dom() =~= old(call.1)@.dom());
}

/// A search in a sandbox that is not open fails for that reason and changes
/// nothing.
pub proof fn grep_needs_an_open_sandbox<R: FsRunner>(
    call: (GrepRequest, &mut SandboxRegistry, &R, u64),
    r: Result<GrepResponse, SandboxError>,
)
    requires
        call_ensures(handle_grep::<R>, call, r),
        !(uuid_parsed(call.0.sandbox_id@) is Some && is_open(
            call.0.sandbox_id@,
            old(call.1)@,
            uuid_parsed(call.0.sandbox_id@)->0,
        )),
    ensures
        r matches Err(e) && says_closed(e, call.0.sandbox_id@, old(call.1)@),
        final(call.1)@ == old(call.1)@,
{
}

/// What comes back of a replacement goes to the caller as it is: the answer, or the
/// failure. An answer to another question is a failure too.
pub proof fn sed_answer_is_passed_on(
    back: Result<FsReply, SandboxError>,
    r: Result<SedResponse, SandboxError>,
)
    requires
        call_ensures(sed_response, (back,), r),
    ensures
        back matches Err(e) ==> r == Err::<SedResponse, SandboxError>(e),
        back matches Ok(FsReply { result: FsResult::Sed { results, total_replacements }, .. }) ==> r
            == Ok::<
            SedResponse,
            SandboxError,
        >(SedResponse { results, total_replacements }),
        back is Ok && !(back->Ok_0.result is Sed) ==> r is Err && r->Err_0 is FsIo,
        back is Ok && !(back->Ok_0.result is Sed) ==> r->Err_0->FsIo_0@ == "expected "@ + "Sed"@
            + " result, got "@ + back->Ok_0.shown@,
{
}

/// The replacement is the caller's in every respect, and what it did is what the
/// caller gets.
pub proof fn sed_is_what_was_asked<R: FsRunner>(
    call: (SedRequest, &mut SandboxRegistry, &R, u64),
    r: Result<SedResponse, SandboxError>,
    id: u128,
)
    requires
        call_ensures(handle_sed::<R>, call, r),
        is_open(call.0.sandbox_id@, old(call.1)@, id),
        call.0.files@.len() > 0 <==> call.0.path is None,
    ensures
        only_used(old(call.1)@, final(call.1)@, id, call.3),
        exists|back: Result<FsReply, SandboxError>|
            {
                &&& #[trigger] call_ensures(
                    R::fs_call,
                    (call.2, old(call.1)@[id].shell_sock, FsOp::Sed {
                        files: call.0.files,
                        path: call.0.path,
                        recursive: call.0.recursive,
                        include_glob: call.0.include_glob,
                        exclude_glob: call.0.exclude_glob,
                        pattern: call.0.pattern,
                        replacement: call.0.replacement,
                        regex: call.0.regex,
                        first_only: call.0.first_only,
                        ignore_case: call.0.ignore_case,
                    }),
                    back,
                )
                &&& back matches Err(e) ==> r == Err::<SedResponse, SandboxError>(e)
                &&& r is Ok <==> back is Ok && back->Ok_0.result is Sed
                &&& back matches Ok(FsReply { result: FsResult::Sed { results, total_replacements },
                    .. }) ==> r == Ok::<
            SedResponse,
            SandboxError,
        >(SedResponse { results, total_replacements })
            },
{
    assert(final(call.1)@.dom() =~= old(call.1)@.dom());
}

/// A replacement in a sandbox that is not open fails for that reason and changes
/// nothing.
pub proof fn sed_needs_an_open_sandbox<R: FsRunner>(
    call: (SedRequest, &mut SandboxRegistry, &R, u64),
    r: Result<SedResponse, SandboxError>,
)
    requires
        call_ensures(handle_sed::<R>, call, r),
        !(uuid_parsed(call.0.sandbox_id@) is Some && is_open(
            call.0.sandbox_id@,
            old(call.1)@,
            uuid_parsed(call.0.sandbox_id@)->0,
        )),
        call.0.files@.len() > 0 <==> call.0.path is None,
    ensures
        r matches Err(e) && says_closed(e, call.0.sandbox_id@, old(call.1)@),
        final(call.1)@ == old(call.1)@,
{
}

/// A replacement is in files that are named or in those under a path, and in
/// exactly one of the two; any other is at fault before the sandbox is looked
/// at, and changes nothing.
pub proof fn sed_takes_files_or_a_path<R: FsRunner>(
    call: (SedRequest, &mut SandboxRegistry, &R, u64),
    r: Result<SedResponse, SandboxError>,
)
    requires
        call_ensures(handle_sed::<R>, call, r),
        call.0.files@.len() > 0 <==> call.0.path is Some,
    ensures
        final(call.1)@ == old(call.1)@,
        r is Err,
        uuid_parsed(call.0.sandbox_id@) is Some ==> r->Err_0 is FsInvalidRequest,
        uuid_parsed(call.0.sandbox_id@) is None ==> r->Err_0 is InvalidRequest,
{
}

/// The choice between files and a path is sound if and only if exactly one of
/// the two is made.
pub proof fn form_is_exactly_one(files: usize, path: bool, r: Result<(), SandboxError>)
    requires
        call_ensures(check_form, (files, path), r),
    ensures
        r is Ok <==> (files > 0) != path,
        r matches Err(e) ==> e is FsInvalidRequest,
{
}

/// A search descends, ends after ten thousand matches and cuts lines after 4096
/// bytes where the caller does not say.
pub proof fn search_defaults(recursive: bool, matches_: u64, line: u64)
    requires
        call_ensures(default_recursive, (), recursive),
        call_ensures(default_max_matches, (), matches_),
        call_ensures(default_max_line_bytes, (), line),
    ensures
        recursive,
        matches_ == 10_000,
        line == 4 * 1024,
{
}

/// The bytes of a file are the UTF-8 of the caller's text, or what the caller's
/// Base64 stands for, or those of the caller's channel: of exactly one of them.
pub proof fn body_is_the_callers(
    content: Option<WriteContent>,
    content_b64: Option<String>,
    r: Result<WriteBody, SandboxError>,
)
    requires
        call_ensures(write_body, (content, content_b64), r),
    ensures
        content is Some && content_b64 is Some ==> r is Err,
        content is None && content_b64 is None ==> r is Err,
        content_b64 is None ==> (content matches Some(WriteContent::Utf8(s)) ==> r matches Ok(
            WriteBody::Inline(bytes),
        ) && bytes@ == encode_utf8(s@)),
        content_b64 is None ==> (content matches Some(WriteContent::Stream(c)) ==> r == Ok::<
            WriteBody,
            SandboxError,
        >(WriteBody::Channel(c))),
        content is None ==> (content_b64 matches Some(b64) ==> (r is Ok <==> base64_decoded(
            b64@,
        ) is Ok)),
        content is None ==> (content_b64 matches Some(b64) ==> (r matches Ok(body)
            ==> body is Inline
            && base64_decoded(b64@) == Ok::<Seq<u8>, Seq<char>>(body->Inline_0@))),
        r matches Err(e) ==> e is InvalidRequest,
{
}

/// What comes back of a write goes to the caller as it is: the answer, or the
/// failure. An answer to another question is a failure too.
pub proof fn write_answer_is_passed_on(
    back: Result<FsReply, SandboxError>,
    r: Result<WriteResponse, SandboxError>,
)
    requires
        call_ensures(write_response, (back,), r),
    ensures
        back matches Err(e) ==> r == Err::<WriteResponse, SandboxError>(e),
        back matches Ok(FsReply { result: FsResult::Write { bytes_written, path }, .. }) ==> r
            == Ok::<WriteResponse, SandboxError>(WriteResponse { bytes_written, path }),
        back is Ok && !(back->Ok_0.result is Write) ==> r is Err && r->Err_0 is FsIo,
        back is Ok && !(back->Ok_0.result is Write) ==> r->Err_0->FsIo_0@ == "expected "@ + "Write"@
            + " result, got "@ + back->Ok_0.shown@,
{
}

/// A file is written where the caller says, with the permissions and the
/// directories that the caller asks for and the body that the caller gave; what
/// the sandbox says of it is what the caller gets.
pub proof fn write_is_what_was_asked<R: FsRunner>(
    call: (WriteRequest, &mut SandboxRegistry, &R, u64),
    r: Result<WriteResponse, SandboxError>,
    id: u128,
)
    requires
        call_ensures(handle_write::<R>, call, r),
        is_open(call.0.sandbox_id@, old(call.1)@, id),
        call.0.content is Some <==> call.0.content_b64 is None,
        call.0.content_b64 matches Some(b64) ==> base64_decoded(b64@) is Ok,
    ensures
        only_used(old(call.1)@, final(call.1)@, id, call.3),
        exists|body: WriteBody, back: Result<FsReply, SandboxError>|
            {
                &&& #[trigger] call_ensures(
                    R::fs_write_stream,
                    (
                        call.2,
                        old(call.1)@[id].shell_sock,
                        call.0.path,
                        call.0.mode,
                        call.0.parents,
                        body,
                    ),
                    back,
                )
                &&& call.0.content matches Some(WriteContent::Utf8(s)) ==> body is Inline
                    && body->Inline_0@ == encode_utf8(s@)
                &&& call.0.content matches Some(WriteContent::Stream(c)) ==> body
                    == WriteBody::Channel(c)
                &&& call.0.content_b64 matches Some(b64) ==> body is Inline && base64_decoded(b64@)
                    == Ok::<Seq<u8>, Seq<char>>(body->Inline_0@)
                &&& back matches Err(e) ==> r == Err::<WriteResponse, SandboxError>(e)
                &&& r is Ok <==> back is Ok && back->Ok_0.result is Write
                &&& back matches Ok(FsReply { result: FsResult::Write { bytes_written, path }, .. })
                    ==> r == Ok::<WriteResponse, SandboxError>(
                    WriteResponse { bytes_written, path },
                )
            },
{
    assert(final(call.1)@.dom() =~= old(call.1)@.dom());
}

/// A write whose body is not exactly one, or does not decode, is at fault; one
/// to a sandbox that is not open fails for that reason. Neither changes
/// anything.
pub proof fn write_needs_a_body_and_an_open_sandbox<R: FsRunner>(
    call: (WriteRequest, &mut SandboxRegistry, &R, u64),
    body: Result<WriteBody, SandboxError>,
    r: Result<WriteResponse, SandboxError>,
)
    requires
        call_ensures(handle_write::<R>, call, r),
        call_ensures(write_body, (call.0.content, call.0.content_b64), body),
    ensures
        body is Err ==> r is Err && r->Err_0 is InvalidRequest && final(call.1)@ == old(call.1)@,
        body is Ok && !(uuid_parsed(call.0.sandbox_id@) is Some && is_open(
            call.0.sandbox_id@,
            old(call.1)@,
            uuid_parsed(call.0.sandbox_id@)->0,
        )) ==> r is Err && says_closed(r->Err_0, call.0.sandbox_id@, old(call.1)@) && final(call.1)@
            == old(call.1)@,
{
}

/// A file whose body is at hand is written where, how and with what the caller
/// says.
pub proof fn write_at_hand_is_what_was_asked<R: FsRunner>(
    call: (String, String, String, bool, WriteBody, &mut SandboxRegistry, &R, u64),
    r: Result<WriteResponse, SandboxError>,
    id: u128,
)
    requires
        call_ensures(handle_write_with_reader::<R>, call, r),
        is_open(call.0@, old(call.5)@, id),
    ensures
        only_used(old(call.5)@, final(call.5)@, id, call.7),
        exists|back: Result<FsReply, SandboxError>|
            {
                &&& #[trigger] call_ensures(
                    R::fs_write_stream,
                    (call.6, old(call.5)@[id].shell_sock, call.1, call.2, call.3, call.4),
                    back,
                )
                &&& r is Ok <==> back is Ok && back->Ok_0.result is Write
            },
{
    assert(final(call.5)@.dom() =~= old(call.5)@.dom());
}

/// A reader gets the left-over bytes from the front, as many as it has room for
/// and never none where it has room and there are some; what it does not get
/// stays, in order.
pub proof fn leftover_bytes_come_first(
    call: (&mut ChannelReaderAdapter, usize),
    r: Option<Vec<u8>>,
)
    requires
        call_ensures(ChannelReaderAdapter::read_pending, call, r),
    ensures
        r is None <==> old(call.0).pending().len() == 0 && !old(call.0).ended(),
        r is None ==> final(call.0).pending() == old(call.0).pending(),
        r matches Some(out) ==> {
            &&& out@ + final(call.0).pending() == old(call.0).pending()
            &&& out@.len() <= call.1
            &&& out@.len() == call.1 || final(call.0).pending().len() == 0
        },
        final(call.0).ended() == old(call.0).ended(),
{
    match r {
        Some(out) => {
            assert((out@ + final(call.0).pending()).len() == old(call.0).pending().len());
        },
        None => {},
    }
}

/// A reader gets a chunk's bytes from the front, as many as it has room for, and
/// the rest is left over; the end of the channel is the end for the reader.
pub proof fn chunk_is_split_at_the_room(
    call: (&mut ChannelReaderAdapter, Option<Vec<u8>>, usize),
    r: Vec<u8>,
)
    requires
        call_ensures(ChannelReaderAdapter::read_chunk, call, r),
    ensures
        call.1 matches Some(data) ==> {
            &&& r@ + final(call.0).pending() == data@
            &&& r@.len() <= call.2
            &&& r@.len() == call.2 || final(call.0).pending().len() == 0
            &&& final(call.0).ended() == old(call.0).ended()
        },
        call.1 is None ==> r@.len() == 0 && final(call.0).ended() && final(call.0).pending().len()
            == 0,
{
    match call.1 {
        Some(data) => {
            assert((r@ + final(call.0).pending()).len() == data@.len());
        },
        None => {},
    }
}

/// A decoded body is written to the byte; one that cannot be decoded is refused.
pub proof fn decoded_body_is_kept(
    decoded: Result<Vec<u8>, String>,
    r: Result<WriteBody, SandboxError>,
)
    requires
        call_ensures(body_from_b64, (decoded,), r),
    ensures
        decoded matches Ok(bytes) ==> r matches Ok(WriteBody::Inline(got)) && got@ == bytes@,
        decoded matches Err(why) ==> r matches Err(SandboxError::InvalidRequest(m)) && m@
            == "content_b64 is not valid base64: "@ + why@,
{
}

/// A channel that was just opened has nothing left over and has not ended: a
/// read of it needs a chunk.
pub proof fn new_channel_needs_a_chunk(
    start: ChannelReaderAdapter,
    call: (&mut ChannelReaderAdapter, usize),
    r: Option<Vec<u8>>,
)
    requires
        call_ensures(ChannelReaderAdapter::new, (), start),
        *old(call.0) == start,
        call_ensures(ChannelReaderAdapter::read_pending, call, r),
    ensures
        r is None,
{
}

/// Files that are written may be read by all and written by their owner, and
/// replacing descends, where the caller does not say otherwise.
pub proof fn writing_defaults(mode: String, descend: bool)
    requires
        call_ensures(default_mode, (), mode),
        call_ensures(default_true, (), descend),
    ensures
        mode@ == "0644"@,
        descend,
{
}

/// A write of a body at hand to a sandbox that is not open fails for that reason
/// and changes nothing.
pub proof fn write_at_hand_needs_an_open_sandbox<R: FsRunner>(
    call: (String, String, String, bool, WriteBody, &mut SandboxRegistry, &R, u64),
    r: Result<WriteResponse, SandboxError>,
)
    requires
        call_ensures(handle_write_with_reader::<R>, call, r),
    ensures
        !(uuid_parsed(call.0@) is Some && is_open(
            call.0@,
            old(call.5)@,
            uuid_parsed(call.0@)->0,
        )) ==> r is Err && says_closed(r->Err_0, call.0@, old(call.5)@) && final(call.5)@ == old(call.5)@,
{
}

} // verus!
