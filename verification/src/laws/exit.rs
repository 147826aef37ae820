//! Laws of daemons that end with their engine.

use crate::daemon_exit::{
    capture_early, check_lifeline_fd, clear_cloexec, declared_lifeline_fd, early_spawner_pid,
    engine_pid_from_env, exit_log_path, lifeline_env, lifeline_fd_from_env, lifeline_verdict,
    process_is_gone, reparented_away, set_cloexec, take_early_lifeline, write_exit_breadcrumb,
    Backstop, EarlyCapture, ExitReason, ExitWatch, Lifeline, LifelineRefusal, PipeRead, WatchEvent,
};
use crate::numbers::{
    decimal, decimal_int, decimal_int_is_trimmed, decimal_int_reads_back, parsed_i32,
};
use crate::paths::{joined_bytes, HostPath};
use crate::text::{pair_texts, trimmed};
use vstd::prelude::*;
use vstd::utf8::encode_utf8;

verus! {

/// A variable declares a process if and only if it holds a number above one,
/// whitespace around it aside; the process is that number.
pub proof fn processes_are_declared_by_number(value: Option<&str>, r: Option<i32>)
    requires
        call_ensures(engine_pid_from_env, (value,), r),
    ensures
        value is None ==> r is None,
        value matches Some(v) ==> (forall|p: i32|
            r == Some(p) <==> p > 1 && parsed_i32(trimmed(v@)) == Some(p as int)),
{
}

/// What is captured early is captured once: the first capture stays, whatever
/// comes after.
pub proof fn first_capture_stays(
    call: (&mut Option<EarlyCapture>, Option<i32>, Option<&str>),
    spawner: Option<i32>,
)
    requires
        call_ensures(capture_early, call, ()),
        call_ensures(engine_pid_from_env, (call.2,), spawner),
    ensures
        *old(call.0) is Some ==> *final(call.0) == *old(call.0),
        *old(call.0) is None ==> *final(call.0) == Some(
            EarlyCapture { lifeline: call.1, spawner_pid: spawner },
        ),
{
}

/// The lifeline can be taken once: whoever takes it gets it, and the next one
/// gets none. The spawner stays known.
pub proof fn lifeline_is_taken_once(
    first: (&mut Option<EarlyCapture>,),
    second: (&mut Option<EarlyCapture>,),
    a: Option<i32>,
    b: Option<i32>,
)
    requires
        call_ensures(take_early_lifeline, first, a),
        call_ensures(take_early_lifeline, second, b),
        *old(second.0) == *final(first.0),
    ensures
        *old(first.0) matches Some(e) ==> a == e.lifeline,
        *old(first.0) is None ==> a is None,
        b is None,
        *old(first.0) matches Some(e) ==> *final(second.0) matches Some(f) && f.spawner_pid
            == e.spawner_pid,
{
}

/// The spawner is the one that was captured.
pub proof fn spawner_is_the_one_captured(early: &Option<EarlyCapture>, r: Option<i32>)
    requires
        call_ensures(early_spawner_pid, (early,), r),
    ensures
        *early matches Some(e) ==> r == e.spawner_pid,
        *early is None ==> r is None,
{
}

/// A lifeline that is declared is used if and only if it names an open pipe that
/// is no standard stream and can be kept from children; the descriptor is then
/// the number declared. Where none is declared there is none, and no refusal.
pub proof fn lifelines_are_open_pipes(
    value: Option<&str>,
    mode: Option<u32>,
    rearmed: bool,
    r: Option<Result<i32, LifelineRefusal>>,
)
    requires
        call_ensures(lifeline_fd_from_env, (value, mode, rearmed), r),
    ensures
        r is None <==> value is None,
        forall|fd: i32|
            r == Some(Ok::<i32, LifelineRefusal>(fd)) <==> {
                &&& value is Some
                &&& parsed_i32(trimmed(value->0@)) == Some(fd as int)
                &&& fd > 2
                &&& mode is Some
                &&& mode->0 & 0o170000 == 0o010000
                &&& rearmed
            },
{
}

/// What a declared lifeline is refused for is the first thing that is wrong with
/// it.
pub proof fn lifelines_are_refused_for_cause(
    value: &str,
    mode: Option<u32>,
    fd: Result<i32, LifelineRefusal>,
    pipe: Result<(), LifelineRefusal>,
)
    requires
        call_ensures(declared_lifeline_fd, (value,), fd),
        call_ensures(check_lifeline_fd, (mode,), pipe),
    ensures
        parsed_i32(trimmed(value@)) is None ==> fd == Err::<i32, LifelineRefusal>(
            LifelineRefusal::Unparsable,
        ),
        parsed_i32(trimmed(value@)) matches Some(n) ==> n <= 2 ==> fd == Err::<
            i32,
            LifelineRefusal,
        >(LifelineRefusal::Stdio),
        parsed_i32(trimmed(value@)) matches Some(n) ==> n > 2 ==> fd is Ok && fd->Ok_0 == n,
        mode is None ==> pipe == Err::<(), LifelineRefusal>(LifelineRefusal::NotOpen),
        mode matches Some(m) ==> (pipe is Ok <==> m & 0o170000 == 0o010000),
        mode matches Some(m) ==> (pipe matches Err(e) ==> e == LifelineRefusal::NotAPipe),
{
}

/// A lifeline that is handed to a child is the one that the child finds, and the
/// process that handed it over is the one that the child knows as its spawner.
pub proof fn child_finds_its_lifeline(
    lifeline: &Lifeline,
    own_pid: u32,
    env: Vec<(String, String)>,
    fd_value: &str,
    pid_value: &str,
    mode: u32,
    found: Option<Result<i32, LifelineRefusal>>,
    spawner: Option<i32>,
)
    requires
        call_ensures(lifeline_env, (lifeline, own_pid), env),
        lifeline.read_fd > 2,
        1 < own_pid <= i32::MAX,
        exists|i: int|
            0 <= i < env@.len() && (#[trigger] env@[i]).0@ == "III_LIFELINE_FD"@ && env@[i].1@
                == fd_value@,
        exists|i: int|
            0 <= i < env@.len() && (#[trigger] env@[i]).0@ == "III_LIFELINE_SPAWNER_PID"@
                && env@[i].1@ == pid_value@,
        mode & 0o170000 == 0o010000,
        call_ensures(lifeline_fd_from_env, (Some(fd_value), Some(mode), true), found),
        call_ensures(engine_pid_from_env, (Some(pid_value),), spawner),
    ensures
        found == Some(Ok::<i32, LifelineRefusal>(lifeline.read_fd)),
        spawner == Some(own_pid as i32),
{
    reveal_strlit("III_LIFELINE_FD");
    reveal_strlit("III_LIFELINE_SPAWNER_PID");
    let all = pair_texts(env@);
    assert(all.len() == env@.len());
    let i = choose|i: int|
        0 <= i < env@.len() && (#[trigger] env@[i]).0@ == "III_LIFELINE_FD"@ && env@[i].1@
            == fd_value@;
    let j = choose|j: int|
        0 <= j < env@.len() && (#[trigger] env@[j]).0@ == "III_LIFELINE_SPAWNER_PID"@ && env@[j].1@
            == pid_value@;
    assert(all[i] == (env@[i].0@, env@[i].1@));
    assert(all[j] == (env@[j].0@, env@[j].1@));
    assert("III_LIFELINE_FD"@.len() != "III_LIFELINE_SPAWNER_PID"@.len());
    assert(fd_value@ == decimal_int(lifeline.read_fd as int));
    assert(pid_value@ == decimal(own_pid as nat));
    decimal_int_reads_back(lifeline.read_fd);
    decimal_int_is_trimmed(lifeline.read_fd as int);
    decimal_int_reads_back(own_pid as i32);
    decimal_int_is_trimmed(own_pid as int);
}

/// A child is handed both the lifeline and the spawner.
pub proof fn child_is_handed_both(
    lifeline: &Lifeline,
    own_pid: u32,
    env: Vec<(String, String)>,
)
    requires
        call_ensures(lifeline_env, (lifeline, own_pid), env),
    ensures
        env@.len() == 2,
        env@[0].0@ == "III_LIFELINE_FD"@,
        env@[1].0@ == "III_LIFELINE_SPAWNER_PID"@,
{
    let all = pair_texts(env@);
    assert(all.len() == env@.len());
    assert(all[0].0 == env@[0].0@);
    assert(all[1].0 == env@[1].0@);
}

/// The wait for the lifeline ends at the end of the pipe, as the spawner's end,
/// or where the pipe cannot be read, and then not as that.
pub proof fn only_the_pipes_end_is_the_spawners(read: PipeRead, r: Option<bool>)
    requires
        call_ensures(lifeline_verdict, (read,), r),
    ensures
        r == Some(true) <==> read is Eof,
        r == Some(false) <==> read is Failed,
{
}

/// A process is gone if and only if probing it says that there is none; one that
/// may not be probed is there.
pub proof fn only_no_such_process_is_gone(errno: Option<i32>, r: bool)
    requires
        call_ensures(process_is_gone, (errno,), r),
    ensures
        r <==> errno == Some(3i32),
{
}

/// A process has lost its parent if and only if it had one and now has another.
pub proof fn only_a_real_parent_can_be_lost(initial: i32, current: i32, r: bool)
    requires
        call_ensures(reparented_away, (initial, current), r),
    ensures
        r <==> initial > 1 && current != initial,
{
}

/// Close-on-exec is the one flag that is set, or cleared.
pub proof fn only_close_on_exec_changes(flags: i32, set: i32, cleared: i32)
    requires
        call_ensures(set_cloexec, (flags,), set),
        call_ensures(clear_cloexec, (flags,), cleared),
    ensures
        set & 1 == 1,
        cleared & 1 == 0,
        set & !1i32 == flags & !1i32,
        cleared & !1i32 == flags & !1i32,
{
}

/// A watch is armed with what is known at startup: the parent, the engine that
/// is declared, the spawner that was captured, and a lifeline that was captured
/// before one that is found now.
pub proof fn watch_is_armed_with_what_is_known(
    call: (i32, Option<&str>, &mut Option<EarlyCapture>, Option<i32>),
    engine: Option<i32>,
    w: ExitWatch,
)
    requires
        call_ensures(ExitWatch::arm_at_startup, call, w),
        call_ensures(engine_pid_from_env, (call.1,), engine),
    ensures
        w.spawn_parent == call.0,
        w.engine_pid == engine,
        *old(call.2) matches Some(e) ==> w.spawner_pid == e.spawner_pid,
        *old(call.2) is None ==> w.spawner_pid is None,
        *old(call.2) is Some && (*old(call.2))->0.lifeline is Some ==> w.lifeline
            == (*old(call.2))->0.lifeline,
        *old(call.2) is None || (*old(call.2))->0.lifeline is None ==> w.lifeline == call.3,
        *final(call.2) matches Some(e) ==> e.lifeline is None,
{
}

/// The engine is polled where it is declared, else the spawner, else the parent;
/// nobody is where there was no parent to begin with.
pub proof fn engine_is_polled_before_spawner_before_parent(w: &ExitWatch, r: Backstop)
    requires
        call_ensures(ExitWatch::backstop, (w,), r),
    ensures
        w.engine_pid matches Some(p) ==> r == Backstop::Pid(p),
        w.engine_pid is None ==> (w.spawner_pid matches Some(p) ==> r == Backstop::Pid(p)),
        w.engine_pid is None && w.spawner_pid is None && w.spawn_parent > 1 ==> r
            == Backstop::Parent(w.spawn_parent),
        w.engine_pid is None && w.spawner_pid is None && w.spawn_parent <= 1 ==> r
            == Backstop::Disarmed,
{
}

/// A daemon ends on each of its signals, for that reason.
pub proof fn signals_end_the_daemon(call: (&mut ExitWatch, WatchEvent), r: Option<ExitReason>)
    requires
        call_ensures(ExitWatch::step, call, r),
    ensures
        r == Some(ExitReason::Sigint) <==> call.1 is Sigint,
        r == Some(ExitReason::Sigterm) <==> call.1 is Sigterm,
        r == Some(ExitReason::Sighup) <==> call.1 is Sighup,
{
}

/// A daemon ends with its engine: at the end of a lifeline that it holds; where
/// the process that it polls is gone; and of a parent only if that is its parent
/// no more. On nothing else does it end as such.
pub proof fn daemon_ends_with_its_engine(call: (&mut ExitWatch, WatchEvent), r: Option<ExitReason>)
    requires
        call_ensures(ExitWatch::step, call, r),
    ensures
        ({
            let w = *old(call.0);
            r == Some(ExitReason::EngineGone) <==> {
                ||| call.1 is LifelineEof && w.lifeline is Some
                ||| call.1 matches WatchEvent::Poll { gone, parent } && gone
                    && (w.engine_pid is Some
                    || w.spawner_pid is Some || (w.spawn_parent > 1 && parent != w.spawn_parent))
            }
        }),
{
}

/// A lifeline that cannot be read is given up, and nothing else about the watch
/// ever changes.
pub proof fn only_a_failed_lifeline_is_given_up(
    call: (&mut ExitWatch, WatchEvent),
    r: Option<ExitReason>,
)
    requires
        call_ensures(ExitWatch::step, call, r),
    ensures
        final(call.0).spawn_parent == old(call.0).spawn_parent,
        final(call.0).engine_pid == old(call.0).engine_pid,
        final(call.0).spawner_pid == old(call.0).spawner_pid,
        call.1 is LifelineFailed ==> final(call.0).lifeline is None && r is None,
        !(call.1 is LifelineFailed) ==> final(call.0).lifeline == old(call.0).lifeline,
{
}

/// Each reason has a name of its own in the log.
pub proof fn reasons_have_names(a: ExitReason, r: &'static str)
    requires
        call_ensures(ExitReason::as_str, (a,), r),
    ensures
        a is Sigint ==> r@ == "sigint"@,
        a is Sigterm ==> r@ == "sigterm"@,
        a is Sighup ==> r@ == "sighup"@,
        a is EngineGone ==> r@ == "engine-gone"@,
{
}

/// A daemon leaves last words if and only if its engine is gone, and they say
/// when, who, and what it watched.
pub proof fn last_words_are_of_the_engine(
    w: &ExitWatch,
    daemon: &str,
    reason: ExitReason,
    secs: u64,
    line: String,
    r: Option<String>,
)
    requires
        call_ensures(ExitWatch::breadcrumb, (w, daemon, reason, secs), r),
        call_ensures(write_exit_breadcrumb, (secs, daemon, w.engine_pid, w.spawn_parent), line),
    ensures
        r is Some <==> reason is EngineGone,
        r matches Some(said) ==> said@ == line@,
        line@ == "ts="@ + decimal(secs as nat) + " daemon="@ + daemon@
            + " self-exit reason=engine-gone engine_pid="@ + (if w.engine_pid is Some {
            decimal_int(w.engine_pid->0 as int)
        } else {
            "none"@
        }) + " spawn_parent="@ + decimal_int(w.spawn_parent as int) + "\n"@,
{
}

/// The last words of a daemon are left in a file of its own under the user's
/// home, and nowhere where there is none.
pub proof fn last_words_are_left_at_home(
    home: &Option<HostPath>,
    daemon: &str,
    r: Option<HostPath>,
)
    requires
        call_ensures(exit_log_path, (home, daemon), r),
    ensures
        r is Some <==> *home is Some,
        r matches Some(path) ==> path@ == joined_bytes(
            joined_bytes(home->0@, encode_utf8(".iii/logs"@)),
            encode_utf8(daemon@ + ".log"@),
        ),
{
}

} // verus!
