//! Laws of bringing VMs up and down.

use crate::sandbox_daemon::adapters::{
    cap_tail, read_stderr_tail, tail_lines, BootFault, BootWait, IiiWorkerLauncher, LaunchFault,
    LogRead, SignalStep, SignalStopper, SockProbe,
};
use crate::sandbox_daemon::errors::SandboxError;
use crate::text::{join_with, split_lines, texts};
use crate::numbers::u64_text;
use vstd::prelude::*;
use vstd::utf8::{decode_utf8, encode_utf8};

verus! {

/// A VM is up if and only if it accepted a connection. It is given up where
/// connecting failed otherwise, where its process is gone, and where there is no
/// time left; until then it is looked at again, and soon.
pub proof fn vm_is_waited_for(
    probe: SockProbe,
    alive: bool,
    past_deadline: bool,
    r: BootWait,
)
    requires
        call_ensures(IiiWorkerLauncher::boot_wait_step, (probe, alive, past_deadline), r),
    ensures
        r is Ready <==> probe is Connected,
        r is RetryAfter <==> (probe is Missing || probe is Refused) && alive && !past_deadline,
        r matches BootWait::RetryAfter(ms) ==> ms == 10,
        r matches BootWait::Failed(fault) ==> {
            &&& fault is ConnectFailed <==> probe is Failed
            &&& fault is ExitedBeforeAccept <==> probe is Refused && !alive
            &&& fault is ExitedBeforeBind <==> probe is Missing && !alive
            &&& fault is TimedOut <==> !(probe is Failed) && alive && past_deadline
        },
        probe matches SockProbe::Failed(e) ==> r == BootWait::Failed(BootFault::ConnectFailed(e)),
{
}

/// The init binary is copied if and only if there is none at hand.
pub proof fn init_is_copied_where_it_lacks(embedded: bool, on_disk: bool, r: bool)
    requires
        call_ensures(IiiWorkerLauncher::needs_init_copy, (embedded, on_disk), r),
    ensures
        r <==> !embedded && !on_disk,
{
}

/// A VM is asked to end, given a moment, and killed, each time the process that
/// is to end; and, where the caller waits, that process is looked at until it is
/// gone.
pub proof fn vm_is_asked_then_killed(vm_pid: u32, wait: bool, steps: Vec<SignalStep>)
    requires
        call_ensures(SignalStopper::steps, (vm_pid, wait), steps),
    ensures
        steps@.len() == if wait {
            4int
        } else {
            3
        },
        steps@[0] == SignalStep::Terminate(vm_pid),
        steps@[1] is WaitMs,
        steps@[2] == SignalStep::Kill(vm_pid),
        wait ==> steps@[3] == SignalStep::AwaitGone(vm_pid),
{
}

/// The wait for a process to be gone is over if and only if there is no such
/// process.
pub proof fn gone_is_waited_for(errno: Option<i32>, r: Option<u64>)
    requires
        call_ensures(SignalStopper::gone_wait_step, (errno,), r),
    ensures
        r is None <==> errno == Some(3i32),
        r matches Some(ms) ==> ms == 10,
{
}

/// What an error quotes of a log are the last lines of it, at most thirty-two:
/// all of them where there are no more.
pub proof fn errors_quote_the_last_lines(content: &str, lines: Vec<String>, r: String)
    requires
        call_ensures(tail_lines, (content,), r),
        call_ensures(split_lines, (content,), lines),
    ensures
        lines@.len() <= 32 ==> r@ == join_with(texts(lines@), "\n"@),
        lines@.len() > 32 ==> r@ == join_with(
            texts(lines@.subrange(lines@.len() - 32, lines@.len() as int)),
            "\n"@,
        ),
{
    assert(texts(lines@).len() == lines@.len());
    if lines@.len() > 32 {
        assert(texts(lines@).skip(lines@.len() - 32) =~= texts(
            lines@.subrange(lines@.len() - 32, lines@.len() as int),
        ));
    }
}

/// What an error quotes is cut to its last 4096 bytes, and says so.
pub proof fn quotes_are_cut_at_the_front(tail: &str, r: String)
    requires
        call_ensures(cap_tail, (tail,), r),
    ensures
        encode_utf8(tail@).len() <= 4096 ==> r@ == tail@,
        encode_utf8(tail@).len() > 4096 ==> r@ == "  ...(truncated)\n"@ + decode_utf8(
            encode_utf8(tail@).skip(encode_utf8(tail@).len() - 4096),
        ),
{
    let bytes = encode_utf8(tail@);
    if bytes.len() > 4096 {
        assert(bytes.skip(bytes.len() - 4096) =~= bytes.subrange(
            bytes.len() - 4096,
            bytes.len() as int,
        ));
    }
}

/// A log that could be read and holds something is quoted; of any other the
/// error says why not.
pub proof fn logs_are_quoted_where_they_can_be(
    path: &str,
    read: &LogRead,
    content: &str,
    tail: String,
    tail_text: &str,
    quoted: String,
    r: String,
)
    requires
        call_ensures(read_stderr_tail, (path, read), r),
        read matches LogRead::Content(c) ==> c@ == content@,
        call_ensures(tail_lines, (content,), tail),
        tail_text@ == tail@,
        call_ensures(cap_tail, (tail_text,), quoted),
    ensures
        read is Content && content@.len() > 0 ==> r@ == quoted@,
        read is Content && content@.len() == 0 ==> r@ == "  (stderr log at "@ + path@
            + " is empty)"@,
        *read matches LogRead::Failed(e) ==> r@ == "  (could not read stderr log "@ + path@ + ": "@
            + e@ + ")"@,
{
}

/// Whatever keeps a VM from being launched, and whatever it is given up for, is
/// a failure to boot.
pub proof fn launch_faults_are_boot_failures(
    fault: BootFault,
    vm_pid: u32,
    sock: &str,
    hint: &str,
    r: SandboxError,
)
    requires
        call_ensures(IiiWorkerLauncher::boot_failed, (fault, vm_pid, sock, hint), r),
    ensures
        r is BootFailed,
        crate::text::has_substring(r->BootFailed_0@, hint@),
{
    let m = r->BootFailed_0@;
    assert(crate::text::matches_at(m, hint@, m.len() - hint@.len())) by {
        assert(m.subrange(m.len() - hint@.len(), m.len() as int) =~= hint@);
    }
}

/// Whatever a launch fails at is a failure to boot that says at what, and why.
pub proof fn launch_failures_say_why(fault: LaunchFault, r: SandboxError)
    requires
        call_ensures(IiiWorkerLauncher::launch_failed, (fault,), r),
    ensures
        r is BootFailed,
        fault matches LaunchFault::NoExecutable(e) ==> r->BootFailed_0@
            == "current_exe() failed: "@ + e@,
        fault matches LaunchFault::NoFirmware(e) ==> r->BootFailed_0@
            == "ensure_libkrunfw failed (vm.enter would crash with dlopen error): "@ + e@,
        fault matches LaunchFault::NoInit(e) ==> r->BootFailed_0@
            == "ensure_init_binary failed: "@ + e@,
        fault matches LaunchFault::InitNotCopied(dest, e) ==> r->BootFailed_0@
            == "copy init.krun to "@ + dest@ + ": "@ + e@,
        fault matches LaunchFault::NoLog(path, e) ==> r->BootFailed_0@
            == "cannot create vm-boot stderr log at "@ + path@ + ": "@ + e@,
        fault matches LaunchFault::NoLifeline(e) ==> r->BootFailed_0@ == "lifeline pipe: "@ + e@,
        fault matches LaunchFault::NotSpawned(e) ==> r->BootFailed_0@
            == "spawn iii-worker __vm-boot: "@ + e@,
        fault is Exited ==> r->BootFailed_0@ == "child exited immediately"@,
{
}

/// A VM that is given up is told of with its process or its socket, with what
/// connecting came to, and with the end of its log.
pub proof fn given_up_vms_are_told_of(
    fault: BootFault,
    vm_pid: u32,
    sock: &str,
    hint: &str,
    number: String,
    r: SandboxError,
)
    requires
        call_ensures(IiiWorkerLauncher::boot_failed, (fault, vm_pid, sock, hint), r),
        call_ensures(u64_text, (vm_pid as u64,), number),
    ensures
        ({
            let m = r->BootFailed_0@;
            &&& r is BootFailed
            &&& fault is ExitedBeforeAccept ==> m == "__vm-boot child "@ + number@
                + " exited before the shell relay accepted connections. Last stderr lines:\n"@
                + hint@
            &&& fault is ExitedBeforeBind ==> m == "__vm-boot child "@ + number@
                + " exited before binding shell socket "@ + sock@ + ". Last stderr lines:\n"@
                + hint@
            &&& fault matches BootFault::ConnectFailed(e) ==> m == "connect("@ + sock@
                + ") failed unexpectedly: "@ + e@ + ". Last stderr:\n"@ + hint@
            &&& fault is TimedOut ==> m == "shell socket "@ + sock@
                + " did not start accepting within 30s. Last stderr:\n"@ + hint@
        }),
{
}

} // verus!
