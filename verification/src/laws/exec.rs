//! Laws of running commands.

use crate::encoding::base64_decoded;
use crate::ids::{uuid_hyphenated, uuid_parsed};
use crate::laws::env::{are_the_variables, lemma_variables};
use crate::sandbox_daemon::adapters::{
    classify_dispatcher_spawn_error, decode_stdin, stdin_from, RequestSpec, RunOutcome,
    ShellProtoRunner,
};
use crate::sandbox_daemon::errors::SandboxError;
use crate::sandbox_daemon::exec::{
    handle_exec, normalised, parse_sandbox_id, plain_words, prepare_exec, resolve_cmd_shape,
    resolve_split, EnvShape, ExecRequest, ExecResponse, ShellRunner,
};
use crate::sandbox_daemon::registry::{SandboxRegistry, SandboxState};
use crate::text::{has_substring, is_space, join_with, opt_str, texts};
use vstd::prelude::*;
use vstd::utf8::{decode_utf8, valid_utf8};

verus! {

/// `n` asks a runner for what `req` asks for: the same program with the same
/// arguments, input, variables, directory and time, in the same sandbox. A list
/// of the program and its arguments stands for itself, and so does a program
/// without whitespace in its name.
pub open spec fn asks_the_same(n: ExecRequest, req: ExecRequest) -> bool {
    &&& n.sandbox_id == req.sandbox_id
    &&& n.stdin == req.stdin
    &&& n.timeout_ms == req.timeout_ms
    &&& n.workdir == req.workdir
    &&& n.argv@.len() == 0
    &&& n.cmd@.len() > 0
    &&& n.env matches EnvShape::Vec(v) && are_the_variables(v@, req.env)
    &&& req.argv@.len() > 0 ==> {
        &&& n.cmd@ == req.argv@[0]@
        &&& n.args@.len() + 1 == req.argv@.len()
        &&& forall|i: int| 0 <= i < n.args@.len() ==> (#[trigger] n.args@[i])@ == req.argv@[i + 1]@
    }
    &&& req.argv@.len() == 0 && (forall|i: int|
        0 <= i < req.cmd@.len() ==> !is_space(#[trigger] req.cmd@[i])) ==> {
        &&& n.cmd@ == req.cmd@
        &&& n.args@.len() == req.args@.len()
        &&& forall|i: int| 0 <= i < n.args@.len() ==> (#[trigger] n.args@[i])@ == req.args@[i]@
    }
}

proof fn lemma_asks_the_same(n: ExecRequest, req: ExecRequest)
    requires
        normalised(n, req),
        n.cmd@.len() > 0,
    ensures
        asks_the_same(n, req),
{
    lemma_variables(n.env->Vec_0@, req.env);
    assert(texts(n.args@).len() == n.args@.len());
    assert(texts(req.args@).len() == req.args@.len());
    assert(texts(req.argv@).len() == req.argv@.len());
    if req.argv@.len() > 0 {
        assert(texts(n.args@) == texts(req.argv@).skip(1));
        assert forall|i: int| 0 <= i < n.args@.len() implies (#[trigger] n.args@[i])@
            == req.argv@[i + 1]@ by {
            assert(texts(n.args@)[i] == texts(req.argv@).skip(1)[i]);
        }
    } else if forall|i: int| 0 <= i < req.cmd@.len() ==> !is_space(#[trigger] req.cmd@[i]) {
        assert(texts(n.args@) == texts(req.args@));
        assert forall|i: int| 0 <= i < n.args@.len() implies (#[trigger] n.args@[i])@
            == req.args@[i]@ by {
            assert(texts(n.args@)[i] == texts(req.args@)[i]);
        }
    }
}

/// A request that is well-formed comes out asking for the same, for the sandbox
/// that it names; any other is at fault.
pub proof fn prepared_asks_the_same(
    req: ExecRequest,
    r: Result<(u128, ExecRequest), SandboxError>,
)
    requires
        call_ensures(prepare_exec, (req,), r),
    ensures
        r matches Ok(p) ==> uuid_parsed(req.sandbox_id@) == Some(p.0) && asks_the_same(p.1, req),
        r matches Err(e) ==> e is InvalidRequest,
{
    match r {
        Ok(p) => lemma_asks_the_same(p.1, req),
        Err(_) => {},
    }
}

/// Requests that differ in their input, their time, their directory or their
/// sandbox are told apart by whoever runs them.
pub proof fn prepared_tells_requests_apart(
    a: ExecRequest,
    b: ExecRequest,
    from_a: (u128, ExecRequest),
    from_b: (u128, ExecRequest),
)
    requires
        call_ensures(prepare_exec, (a,), Ok(from_a)),
        call_ensures(prepare_exec, (b,), Ok(from_b)),
        a.stdin != b.stdin || a.timeout_ms != b.timeout_ms || a.workdir != b.workdir
            || a.sandbox_id != b.sandbox_id,
    ensures
        from_a.1 != from_b.1,
{
}

/// Which requests are well-formed, where no command line is to be split: the id
/// names a sandbox, the program comes in one way only and is not empty, and the
/// variables can be named.
pub proof fn wellformed_requests_are_prepared(
    req: ExecRequest,
    id: &str,
    named: Result<u128, SandboxError>,
    env: Result<Vec<String>, SandboxError>,
    r: Result<(u128, ExecRequest), SandboxError>,
)
    requires
        id@ == req.sandbox_id@,
        call_ensures(parse_sandbox_id, (id,), named),
        call_ensures(EnvShape::into_kv_vec, (req.env,), env),
        call_ensures(prepare_exec, (req,), r),
        req.argv@.len() > 0 || forall|i: int|
            0 <= i < req.cmd@.len() ==> !is_space(#[trigger] req.cmd@[i]),
    ensures
        r is Ok <==> named is Ok && env is Ok && (if req.argv@.len() > 0 {
            req.cmd@.len() == 0 && req.args@.len() == 0 && req.argv@[0]@.len() > 0
        } else {
            req.cmd@.len() > 0
        }),
{
    assert(texts(req.args@).len() == req.args@.len());
    assert(texts(req.argv@).len() == req.argv@.len());
    if req.argv@.len() > 0 {
        assert(texts(req.argv@)[0] == req.argv@[0]@);
    }
}

/// A line with whitespace stands for a program and its arguments only by
/// itself, and a list of them stands alone.
pub proof fn shapes_do_not_mix(
    cmd: &str,
    args: &[String],
    argv: &[String],
    r: Result<(String, Vec<String>), SandboxError>,
)
    requires
        call_ensures(resolve_cmd_shape, (cmd, args, argv), r),
        (argv@.len() > 0 && (cmd@.len() > 0 || args@.len() > 0)) || (argv@.len() == 0
            && args@.len() > 0 && exists|i: int| 0 <= i < cmd@.len() && is_space(
            #[trigger] cmd@[i],
        )),
    ensures
        r is Err && r->Err_0 is InvalidRequest,
{
    assert(texts(args@).len() == args@.len());
    assert(texts(argv@).len() == argv@.len());
}

/// A line of plain words with a space between neighbours asks for the first of
/// them with the others as its arguments.
pub proof fn line_asks_for_its_words(
    cmd: &str,
    args: &[String],
    argv: &[String],
    words: Seq<Seq<char>>,
    r: Result<(String, Vec<String>), SandboxError>,
)
    requires
        call_ensures(resolve_cmd_shape, (cmd, args, argv), r),
        args@.len() == 0,
        argv@.len() == 0,
        words.len() > 0,
        plain_words(words),
        cmd@ == join_with(words, " "@),
    ensures
        r matches Ok(p) && p.0@ == words[0] && p.1@.len() + 1 == words.len() && forall|i: int|
            0 <= i < p.1@.len() ==> (#[trigger] p.1@[i])@ == words[i + 1],
{
    match r {
        Ok(p) => {
            assert(texts(p.1@).len() == p.1@.len());
            assert forall|i: int| 0 <= i < p.1@.len() implies (#[trigger] p.1@[i])@ == words[i
                + 1] by {
                assert(texts(p.1@)[i] == words.skip(1)[i]);
            }
        },
        Err(_) => {},
    }
}

/// A well-formed request on a sandbox that runs and is free gets to the runner,
/// on that sandbox's own socket, asking for what the caller asked for; what the
/// runner returns is what the caller gets.
pub proof fn command_reaches_its_sandbox<R: ShellRunner>(
    call: (ExecRequest, &mut SandboxRegistry, &R, u64),
    prepared: (u128, ExecRequest),
    r: Result<ExecResponse, SandboxError>,
)
    requires
        call_ensures(handle_exec::<R>, call, r),
        call_ensures(prepare_exec, (call.0,), Ok(prepared)),
        old(call.1)@.contains_key(prepared.0),
        !old(call.1)@[prepared.0].stopped,
        !old(call.1)@[prepared.0].exec_in_progress,
    ensures
        exists|n: ExecRequest|
            {
                &&& #[trigger] asks_the_same(n, call.0)
                &&& call_ensures(
                    R::run,
                    (call.2, old(call.1)@[prepared.0].shell_sock, &n),
                    r,
                )
            },
{
    let n = choose|n: ExecRequest| #[trigger]
        normalised(n, call.0) && call_ensures(
            R::run,
            (call.2, old(call.1)@[prepared.0].shell_sock, &n),
            r,
        );
    assert(texts(n.args@) == texts(prepared.1.args@));
    lemma_asks_the_same(n, call.0);
}

/// A command leaves its sandbox free, running and used just now, and nothing
/// else about it or any other sandbox changes.
pub proof fn command_leaves_sandboxes_as_they_were<R: ShellRunner>(
    call: (ExecRequest, &mut SandboxRegistry, &R, u64),
    r: Result<ExecResponse, SandboxError>,
    id: u128,
)
    requires
        call_ensures(handle_exec::<R>, call, r),
    ensures
        old(call.1)@.contains_key(id) <==> final(call.1)@.contains_key(id),
        old(call.1)@.contains_key(id) ==> {
            let was = old(call.1)@[id];
            let is = final(call.1)@[id];
            &&& is == was || (is == SandboxState { last_exec_at: call.3, ..was }
                && !was.exec_in_progress && !was.stopped && uuid_parsed(call.0.sandbox_id@)
                == Some(id))
        },
{
}

/// A command that ran counts as use of its sandbox.
pub proof fn command_counts_as_use<R: ShellRunner>(
    call: (ExecRequest, &mut SandboxRegistry, &R, u64),
    prepared: (u128, ExecRequest),
    r: Result<ExecResponse, SandboxError>,
)
    requires
        call_ensures(handle_exec::<R>, call, r),
        call_ensures(prepare_exec, (call.0,), Ok(prepared)),
        old(call.1)@.contains_key(prepared.0),
        !old(call.1)@[prepared.0].stopped,
        !old(call.1)@[prepared.0].exec_in_progress,
    ensures
        final(call.1)@[prepared.0].last_exec_at == call.3,
        !final(call.1)@[prepared.0].exec_in_progress,
{
}

/// A command for a sandbox that is not known, that is stopped or that runs
/// another command is refused for that reason, and a malformed request before
/// any of them; nothing changes.
pub proof fn command_is_refused_for_cause<R: ShellRunner>(
    call: (ExecRequest, &mut SandboxRegistry, &R, u64),
    prepared: Result<(u128, ExecRequest), SandboxError>,
    r: Result<ExecResponse, SandboxError>,
)
    requires
        call_ensures(handle_exec::<R>, call, r),
        call_ensures(prepare_exec, (call.0,), prepared),
    ensures
        prepared is Err ==> r is Err && r->Err_0 is InvalidRequest && final(call.1)@
            == old(call.1)@,
        prepared matches Ok(p) ==> {
            let known = old(call.1)@;
            &&& !known.contains_key(p.0) ==> r is Err && r->Err_0 is NotFound
                && r->Err_0->NotFound_0@ == uuid_hyphenated(p.0) && final(call.1)@ == known
            &&& known.contains_key(p.0) && known[p.0].stopped ==> r is Err
                && r->Err_0 is AlreadyStopped && final(call.1)@ == known
            &&& known.contains_key(p.0) && !known[p.0].stopped && known[p.0].exec_in_progress
                ==> r is Err && r->Err_0 is ConcurrentExec && final(call.1)@ == known
        },
{
}

/// What is sent into the sandbox is what the caller asked for: the program and
/// its arguments, the directory, the variables, and as input the bytes that the
/// caller's Base64 stands for, none where the caller gave none.
pub proof fn input_reaches_the_command(
    req: ExecRequest,
    prepared: (u128, ExecRequest),
    n: &ExecRequest,
    r: Result<RequestSpec, SandboxError>,
)
    requires
        call_ensures(prepare_exec, (req,), Ok(prepared)),
        *n == prepared.1,
        call_ensures(ShellProtoRunner::request_spec, (n,), r),
    ensures
        ({
            let given = req.stdin is Some && req.stdin->0@.len() > 0;
            &&& r is Err <==> given && base64_decoded(req.stdin->0@) is Err
            &&& r matches Err(e) ==> e is InvalidRequest
            &&& r matches Ok(wire) ==> {
                &&& wire.stdin is Some
                &&& given ==> base64_decoded(req.stdin->0@) == Ok::<Seq<u8>, Seq<char>>(
                    wire.stdin->0@,
                )
                &&& !given ==> wire.stdin->0@.len() == 0
                &&& wire.cmd@ == n.cmd@
                &&& wire.args@.len() == n.args@.len()
                &&& forall|i: int|
                    0 <= i < wire.args@.len() ==> (#[trigger] wire.args@[i])@ == n.args@[i]@
                &&& wire.cwd == req.workdir
                &&& are_the_variables(wire.env@, n.env)
            }
        }),
{
    match r {
        Ok(wire) => {
            assert(texts(wire.args@).len() == wire.args@.len());
            assert(texts(n.args@).len() == n.args@.len());
            assert forall|i: int| 0 <= i < wire.args@.len() implies (#[trigger] wire.args@[i])@
                == n.args@[i]@ by {
                assert(texts(wire.args@)[i] == texts(n.args@)[i]);
            }
            lemma_variables(wire.env@, n.env);
        },
        Err(_) => {},
    }
}

/// A command always has an input, so that one that reads it sees its end.
pub proof fn there_always_is_an_input(
    stdin: Option<&str>,
    r: Result<Option<Vec<u8>>, SandboxError>,
)
    requires
        call_ensures(decode_stdin, (stdin,), r),
    ensures
        r matches Ok(input) ==> input is Some,
        stdin is None ==> r is Ok && r->Ok_0->0@.len() == 0,
        opt_str(stdin) matches Some(s) ==> s.len() > 0 ==> (r is Ok <==> base64_decoded(s) is Ok),
{
}

/// A command gets the time that the caller gives it, and five minutes where the
/// caller does not say.
pub proof fn time_is_the_callers(req: &ExecRequest, r: u64)
    requires
        call_ensures(ShellProtoRunner::timeout_ms, (req,), r),
    ensures
        req.timeout_ms matches Some(t) ==> r == t,
        req.timeout_ms is None ==> r == 5 * 60 * 1000,
{
}

/// A command that ended in time is answered with what it wrote, its own exit
/// code and how long it took; it succeeded if and only if that code is zero.
pub proof fn ended_command_is_answered(
    code: Option<i32>,
    stdout: Vec<u8>,
    stderr: Vec<u8>,
    cmd: &str,
    timeout_ms: u64,
    duration_ms: u64,
    r: Result<ExecResponse, SandboxError>,
)
    requires
        call_ensures(
            ShellProtoRunner::finish_run,
            (
                RunOutcome::Done { code, timed_out: false, stdout, stderr },
                cmd,
                timeout_ms,
                duration_ms,
            ),
            r,
        ),
    ensures
        r is Ok,
        valid_utf8(stdout@) ==> r->Ok_0.stdout@ == decode_utf8(stdout@),
        valid_utf8(stderr@) ==> r->Ok_0.stderr@ == decode_utf8(stderr@),
        r->Ok_0.exit_code == code,
        r->Ok_0.duration_ms == duration_ms,
        r->Ok_0.success <==> code == Some(0i32),
        !r->Ok_0.timed_out,
{
}

/// A command that ran out of time fails as that, with the time it had, whoever
/// noticed; a sandbox that could not be reached fails as a VM's fault, and never
/// as an answer.
pub proof fn unanswered_command_fails(
    outcome: RunOutcome,
    cmd: &str,
    timeout_ms: u64,
    duration_ms: u64,
    r: Result<ExecResponse, SandboxError>,
)
    requires
        call_ensures(ShellProtoRunner::finish_run, (outcome, cmd, timeout_ms, duration_ms), r),
    ensures
        outcome is TimedOut || (outcome is Done && outcome->timed_out) ==> r == Err::<
            ExecResponse,
            SandboxError,
        >(SandboxError::ExecTimedOut { timeout_ms }),
        outcome is NoRuntime || outcome is Lost || outcome is ConnectFailed || outcome is Failed
            ==> r is Err && r->Err_0 is BootFailed,
        outcome matches RunOutcome::NoRuntime(e) ==> r->Err_0->BootFailed_0@
            == "inner runtime build: "@ + e@,
        outcome matches RunOutcome::Lost(e) ==> r->Err_0->BootFailed_0@
            == "spawn_blocking join: "@ + e@,
        outcome matches RunOutcome::ConnectFailed(e) ==> r->Err_0->BootFailed_0@
            == "shell connect: "@ + e@,
        outcome matches RunOutcome::Failed(e) ==> r->Err_0->BootFailed_0@ == "shell run: "@ + e@,
        r is Ok ==> outcome is Done || outcome is Dispatcher,
        r matches Err(e) ==> e is ExecTimedOut || e is BootFailed,
{
}

/// A program that could not be started is the command's own failure, as a shell
/// reports it: 127 where it was not found, 126 where it may not run. A message
/// that says neither is no answer.
pub proof fn unstartable_command_is_answered_as_by_a_shell(
    msg: &str,
    cmd: &str,
    duration_ms: u64,
    r: Option<ExecResponse>,
)
    requires
        call_ensures(classify_dispatcher_spawn_error, (msg, cmd, duration_ms), r),
    ensures
        ({
            let missing = has_substring(msg@, "No such file or directory"@) || has_substring(
                msg@,
                "(os error 2)"@,
            ) || has_substring(msg@, "Not a directory"@) || has_substring(
                msg@,
                "(os error 20)"@,
            );
            let denied = has_substring(msg@, "Permission denied"@) || has_substring(
                msg@,
                "(os error 13)"@,
            );
            &&& r is Some <==> missing || denied
            &&& missing ==> r->0.exit_code == Some(127i32) && r->0.stderr@ == "exec: "@ + cmd@
                + ": not found\n"@
            &&& denied && !missing ==> r->0.exit_code == Some(126i32) && r->0.stderr@ == "exec: "@
                + cmd@ + ": permission denied\n"@
            &&& r matches Some(resp) ==> !resp.success && !resp.timed_out && resp.stdout@.len()
                == 0 && resp.duration_ms == duration_ms
        }),
{
}

/// A dispatcher's refusal is answered as by a shell where it is about the
/// program, and is a VM's fault otherwise.
pub proof fn dispatcher_refusal_is_told_apart(
    msg: String,
    e: String,
    text: &str,
    cmd: &str,
    timeout_ms: u64,
    duration_ms: u64,
    answer: Option<ExecResponse>,
    r: Result<ExecResponse, SandboxError>,
)
    requires
        text@ == msg@,
        call_ensures(classify_dispatcher_spawn_error, (text, cmd, duration_ms), answer),
        call_ensures(
            ShellProtoRunner::finish_run,
            (RunOutcome::Dispatcher(msg, e), cmd, timeout_ms, duration_ms),
            r,
        ),
    ensures
        r is Ok <==> answer is Some,
        r matches Ok(resp) ==> resp.exit_code == answer->0.exit_code && resp.stderr@
            == answer->0.stderr@ && !resp.success,
        r matches Err(fault) ==> fault is BootFailed,
{
}

/// A command's input is what it was decoded to, to the byte; input that cannot
/// be decoded fails the request and says why.
pub proof fn decoded_input_is_kept(
    decoded: Result<Vec<u8>, String>,
    r: Result<Option<Vec<u8>>, SandboxError>,
)
    requires
        call_ensures(stdin_from, (decoded,), r),
    ensures
        decoded matches Ok(bytes) ==> r matches Ok(Some(got)) && got@ == bytes@,
        decoded matches Err(why) ==> r matches Err(SandboxError::InvalidRequest(m)) && m@
            == "stdin base64 decode: "@ + why@,
{
}

/// The words of a line are its program and then its arguments, each of them and
/// in order. A line without words, or one that cannot be split, asks for
/// nothing.
pub proof fn words_of_a_line_are_kept(
    cmd: &str,
    words: Option<Vec<String>>,
    r: Result<(String, Vec<String>), SandboxError>,
)
    requires
        call_ensures(resolve_split, (cmd, words), r),
    ensures
        r is Ok <==> words is Some && words->0@.len() > 0,
        r matches Ok(p) ==> {
            &&& p.0@ == words->0@[0]@
            &&& p.1@.len() + 1 == words->0@.len()
            &&& forall|i: int| 0 <= i < p.1@.len() ==> (#[trigger] p.1@[i])@ == words->0@[i + 1]@
        },
        r matches Err(e) ==> e is InvalidRequest,
{
    match words {
        Some(w) => {
            assert(texts(w@).len() == w@.len());
            if let Ok(p) = r {
                assert(texts(p.1@).len() == p.1@.len());
                assert(texts(w@)[0] == w@[0]@);
                assert forall|i: int| 0 <= i < p.1@.len() implies (#[trigger] p.1@[i])@ == w@[i
                    + 1]@ by {
                    assert(texts(p.1@)[i] == texts(w@).skip(1)[i]);
                }
            }
        },
        None => {},
    }
}

} // verus!
