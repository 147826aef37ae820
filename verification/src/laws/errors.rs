//! Laws of what failures say and of what is logged of them.

use crate::numbers::{decimal_reads_back, parse_u64};
use crate::sandbox_daemon::errors::{fails, SandboxError, SandboxErrorCode};
use crate::sandbox_daemon::handler_log::{log_handler_result, HandlerRecord};
use vstd::prelude::*;

verus! {

proof fn lemma_codes()
    ensures
        "S001"@ == seq!['S', '0', '0', '1'],
        "S002"@ == seq!['S', '0', '0', '2'],
        "S003"@ == seq!['S', '0', '0', '3'],
        "S004"@ == seq!['S', '0', '0', '4'],
        "S100"@ == seq!['S', '1', '0', '0'],
        "S101"@ == seq!['S', '1', '0', '1'],
        "S200"@ == seq!['S', '2', '0', '0'],
        "S210"@ == seq!['S', '2', '1', '0'],
        "S211"@ == seq!['S', '2', '1', '1'],
        "S212"@ == seq!['S', '2', '1', '2'],
        "S213"@ == seq!['S', '2', '1', '3'],
        "S214"@ == seq!['S', '2', '1', '4'],
        "S215"@ == seq!['S', '2', '1', '5'],
        "S216"@ == seq!['S', '2', '1', '6'],
        "S218"@ == seq!['S', '2', '1', '8'],
        "S300"@ == seq!['S', '3', '0', '0'],
        "S400"@ == seq!['S', '4', '0', '0'],
{
    reveal_strlit("S001");
    reveal_strlit("S002");
    reveal_strlit("S003");
    reveal_strlit("S004");
    reveal_strlit("S100");
    reveal_strlit("S101");
    reveal_strlit("S200");
    reveal_strlit("S210");
    reveal_strlit("S211");
    reveal_strlit("S212");
    reveal_strlit("S213");
    reveal_strlit("S214");
    reveal_strlit("S215");
    reveal_strlit("S216");
    reveal_strlit("S218");
    reveal_strlit("S300");
    reveal_strlit("S400");
}

/// A failure's code is an `S` and three digits. The first digit says what
/// failed: the request for a sandbox, its image, the work in it, its VM, or the
/// machine's room.
pub proof fn codes_say_what_failed(e: &SandboxError, code: SandboxErrorCode, text: &'static str)
    requires
        call_ensures(SandboxError::code, (e,), code),
        call_ensures(SandboxErrorCode::as_str, (code,), text),
    ensures
        text@.len() == 4,
        text@[0] == 'S',
        forall|i: int| 1 <= i < 4 ==> '0' <= #[trigger] text@[i] <= '9',
        text@[1] == '0' <==> *e is InvalidRequest || *e is NotFound || *e is ConcurrentExec
            || *e is AlreadyStopped,
        text@[1] == '1' <==> *e is ImageNotAllowed || *e is RootfsMissing,
        text@[1] == '3' <==> *e is BootFailed,
        text@[1] == '4' <==> *e is ResourceLimit,
        *e is ExecTimedOut <==> text@[1] == '2' && text@[2] == '0',
{
    lemma_codes();
}

/// Each kind of failure has one code, whatever it is about, and callers know it
/// by that code.
pub proof fn each_kind_has_its_code(e: &SandboxError, code: SandboxErrorCode, text: &'static str)
    requires
        call_ensures(SandboxError::code, (e,), code),
        call_ensures(SandboxErrorCode::as_str, (code,), text),
    ensures
        *e is InvalidRequest <==> text@ == "S001"@,
        *e is NotFound <==> text@ == "S002"@,
        *e is ConcurrentExec <==> text@ == "S003"@,
        *e is AlreadyStopped <==> text@ == "S004"@,
        *e is ImageNotAllowed <==> text@ == "S100"@,
        *e is RootfsMissing <==> text@ == "S101"@,
        *e is ExecTimedOut <==> text@ == "S200"@,
        *e is FsInvalidRequest <==> text@ == "S210"@,
        *e is FsNotFound <==> text@ == "S211"@,
        *e is FsWrongType <==> text@ == "S212"@,
        *e is FsAlreadyExists <==> text@ == "S213"@,
        *e is FsNotEmpty <==> text@ == "S214"@,
        *e is FsPermission <==> text@ == "S215"@,
        *e is FsIo <==> text@ == "S216"@,
        *e is FsChannelAborted <==> text@ == "S218"@,
        *e is BootFailed <==> text@ == "S300"@,
        *e is ResourceLimit <==> text@ == "S400"@,
{
    lemma_codes();
}

/// A failure says what it is about: two of one kind that say the same are about
/// the same.
pub proof fn failures_say_what_they_are_about(
    a: &SandboxError,
    b: &SandboxError,
    code_a: SandboxErrorCode,
    code_b: SandboxErrorCode,
    said_a: String,
    said_b: String,
)
    requires
        call_ensures(SandboxError::code, (a,), code_a),
        call_ensures(SandboxError::code, (b,), code_b),
        call_ensures(SandboxError::detail, (a,), said_a),
        call_ensures(SandboxError::detail, (b,), said_b),
        code_a == code_b,
        said_a@ == said_b@,
    ensures
        *a is NotFound ==> a->NotFound_0@ == b->NotFound_0@,
        *a is ImageNotAllowed ==> a->ImageNotAllowed_image@ == b->ImageNotAllowed_image@,
        *a is RootfsMissing ==> a->RootfsMissing_image@ == b->RootfsMissing_image@,
        *a is ExecTimedOut ==> a->timeout_ms == b->timeout_ms,
        *a is FsNotFound ==> a->FsNotFound_path@ == b->FsNotFound_path@,
        *a is FsWrongType ==> a->FsWrongType_path@ == b->FsWrongType_path@,
        *a is BootFailed ==> a->BootFailed_0@ == b->BootFailed_0@,
{
    if *a is ExecTimedOut {
        decimal_reads_back(a->timeout_ms as nat, u64::MAX as nat);
        decimal_reads_back(b->timeout_ms as nat, u64::MAX as nat);
    }
}

/// What a failure is about stands in its words unchanged: the message, the id,
/// the image, the path, or the time in milliseconds.
pub proof fn failures_are_told_in_their_words(
    e: &SandboxError,
    said: String,
    s: &str,
    read: Option<u64>,
)
    requires
        call_ensures(SandboxError::detail, (e,), said),
        s@ == said@,
        call_ensures(parse_u64, (s,), read),
    ensures
        *e matches SandboxError::InvalidRequest(m) ==> said@ == m@,
        *e matches SandboxError::NotFound(id) ==> said@ == id@,
        *e matches SandboxError::ConcurrentExec(id) ==> said@ == id@,
        *e matches SandboxError::AlreadyStopped(id) ==> said@ == id@,
        *e matches SandboxError::ImageNotAllowed { image } ==> said@ == image@,
        *e matches SandboxError::RootfsMissing { image } ==> said@ == image@,
        *e matches SandboxError::ExecTimedOut { timeout_ms } ==> read == Some(timeout_ms),
        *e matches SandboxError::FsInvalidRequest(m) ==> said@ == m@,
        *e matches SandboxError::FsNotFound { path } ==> said@ == path@,
        *e matches SandboxError::FsWrongType { path } ==> said@ == path@,
        *e matches SandboxError::FsAlreadyExists { path } ==> said@ == path@,
        *e matches SandboxError::FsNotEmpty { path } ==> said@ == path@,
        *e matches SandboxError::FsPermission(m) ==> said@ == m@,
        *e matches SandboxError::FsIo(m) ==> said@ == m@,
        *e matches SandboxError::FsChannelAborted(m) ==> said@ == m@,
        *e matches SandboxError::BootFailed(m) ==> said@ == m@,
        *e matches SandboxError::ResourceLimit(m) ==> said@ == m@,
{
    if *e is ExecTimedOut {
        decimal_reads_back(e->timeout_ms as nat, u64::MAX as nat);
    }
}

/// Every call is logged under its name with the time it took. A failure is
/// logged with its code and with what the code says of it; a success is logged
/// as one, and carries nothing of a failure.
pub proof fn calls_are_logged_as_they_ended<T>(
    function_id: &str,
    sandbox_id: Option<&str>,
    result: &Result<T, SandboxError>,
    duration_ms: u64,
    error_type: &str,
    retryable: bool,
    code: SandboxErrorCode,
    text: &'static str,
    r: HandlerRecord,
)
    requires
        call_ensures(
            log_handler_result::<T>,
            (function_id, sandbox_id, result, duration_ms, error_type, retryable),
            r,
        ),
        *result is Err ==> call_ensures(SandboxError::code, (&result->Err_0,), code),
        call_ensures(SandboxErrorCode::as_str, (code,), text),
    ensures
        r.function_id@ == function_id@,
        r.duration_ms == duration_ms,
        sandbox_id matches Some(id) ==> r.sandbox_id@ == id@,
        sandbox_id is None ==> r.sandbox_id@.len() == 0,
        r.success <==> *result is Ok,
        *result is Ok ==> r.error_code@.len() == 0 && r.error_type@.len() == 0 && r.retryable
            is None,
        *result is Err ==> r.error_code@ == text@ && r.error_type@ == error_type@ && r.retryable
            == Some(retryable),
        r.message@ == (if r.success {
            "sandbox::* handler completed"@
        } else {
            "sandbox::* handler returned error"@
        }),
{
}

/// A call that fails with a code and a text returns an error of that code and
/// that text.
pub proof fn failing_is_with_code_and_text<T>(
    r: Result<T, SandboxError>,
    code: SandboxErrorCode,
    detail: Seq<char>,
    got: SandboxErrorCode,
    said: String,
)
    requires
        fails(r, code, detail),
        r is Err ==> call_ensures(SandboxError::code, (&r->Err_0,), got),
        r is Err ==> call_ensures(SandboxError::detail, (&r->Err_0,), said),
    ensures
        r is Err,
        got == code,
        said@ == detail,
{
}

} // verus!
