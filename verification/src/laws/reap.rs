//! Laws of reaping.

use crate::sandbox_daemon::ending::{reap_steps, EndStep, SandboxDirs};
use crate::sandbox_daemon::errors::SandboxError;
use crate::sandbox_daemon::reaper::{due, is_idle, reap};
use crate::sandbox_daemon::registry::{SandboxRegistry, SandboxState};
use crate::sandbox_daemon::stop::VmStopper;
use vstd::prelude::*;

verus! {

/// A sandbox is idle if and only if it runs and more time than its own timeout
/// has passed since its last use.
pub proof fn idle_means_unused_for_longer_than_its_timeout(s: &SandboxState, now: u64, r: bool)
    requires
        call_ensures(is_idle, (s, now), r),
    ensures
        r <==> !s.stopped && now > s.last_exec_at + s.idle_timeout_secs * 1_000_000_000,
{
}

/// A stopped sandbox is never idle, and a longer timeout makes no sandbox idle
/// that was not.
pub proof fn longer_timeout_is_never_sooner(
    s: &SandboxState,
    t: &SandboxState,
    now: u64,
    later: u64,
    s_idle: bool,
    t_idle: bool,
)
    requires
        t.stopped == s.stopped,
        t.last_exec_at >= s.last_exec_at,
        t.idle_timeout_secs >= s.idle_timeout_secs,
        now <= later,
        call_ensures(is_idle, (t, now), t_idle),
        call_ensures(is_idle, (s, later), s_idle),
    ensures
        t_idle ==> s_idle,
        s.stopped ==> !s_idle,
{
}

/// One scan, said of one sandbox that was known before it: the sandbox is
/// forgotten, and its id returned, if and only if it ran and was not used for
/// longer than its own timeout. Otherwise it stays as it was.
pub proof fn scan_forgets_exactly_the_overdue<S: VmStopper, D: SandboxDirs>(
    call: (&mut SandboxRegistry, &S, &D, u64),
    reaped: Vec<u128>,
    id: u128,
)
    requires
        call_ensures(reap::<S, D>, call, reaped),
        old(call.0)@.contains_key(id),
    ensures
        ({
            let s = old(call.0)@[id];
            let overdue = !s.stopped && call.3 > s.last_exec_at + s.idle_timeout_secs
                * 1_000_000_000;
            &&& final(call.0)@.contains_key(id) <==> !overdue
            &&& reaped@.contains(id) <==> overdue
            &&& !overdue ==> final(call.0)@[id] == s
        }),
{
}

/// A scan makes no sandbox known, and returns no id that was not.
pub proof fn scan_adds_none<S: VmStopper, D: SandboxDirs>(
    call: (&mut SandboxRegistry, &S, &D, u64),
    reaped: Vec<u128>,
    id: u128,
)
    requires
        call_ensures(reap::<S, D>, call, reaped),
        !old(call.0)@.contains_key(id),
    ensures
        !final(call.0)@.contains_key(id),
        !reaped@.contains(id),
{
}

/// The VM of a sandbox that a scan reaps is asked to end, without waiting for
/// it, and the sandbox's own directories are removed.
pub proof fn scan_ends_what_it_reaps<S: VmStopper, D: SandboxDirs>(
    call: (&mut SandboxRegistry, &S, &D, u64),
    reaped: Vec<u128>,
    id: u128,
)
    requires
        call_ensures(reap::<S, D>, call, reaped),
        reaped@.contains(id),
    ensures
        old(call.0)@[id].vm_pid matches Some(pid) ==> exists|ended: Result<(), SandboxError>|
            call_ensures(S::stop, (call.1, pid, false), ended),
        call_ensures(D::remove, (call.2, id), ()),
{
    assert(old(call.0)@.contains_key(id));
}

/// What is due at a scan: every overdue sandbox once, with the process of its
/// VM, and no other.
pub proof fn due_are_the_overdue(
    registry: &SandboxRegistry,
    now: u64,
    r: Vec<(u128, Option<u32>)>,
    id: u128,
)
    requires
        call_ensures(due, (registry, now), r),
    ensures
        (exists|i: int| 0 <= i < r@.len() && (#[trigger] r@[i]).0 == id) <==> {
            &&& registry@.contains_key(id)
            &&& !registry@[id].stopped
            &&& now > registry@[id].last_exec_at + registry@[id].idle_timeout_secs * 1_000_000_000
        },
        forall|i: int| 0 <= i < r@.len() ==> (#[trigger] r@[i]).1 == registry@[r@[i].0].vm_pid,
        forall|i: int, j: int|
            0 <= i < j < r@.len() ==> (#[trigger] r@[i]).0 != (#[trigger] r@[j]).0,
{
}

/// A sandbox that is reaped is first marked stopped, then its VM is ended
/// without a wait if it has a process, then its directories are removed, and
/// only then is it forgotten.
pub proof fn reaping_goes_in_order(vm_pid: Option<u32>, steps: Vec<EndStep>)
    requires
        call_ensures(reap_steps, (vm_pid,), steps),
    ensures
        steps@.first() == EndStep::MarkStopped,
        steps@.last() == EndStep::Forget,
        steps@[steps@.len() - 2] == EndStep::RemoveDirs,
        forall|pid: u32, wait: bool|
            steps@.contains(EndStep::EndVm { vm_pid: pid, wait }) <==> vm_pid == Some(pid) && !wait,
        vm_pid matches Some(pid) ==> steps@[1] == (EndStep::EndVm { vm_pid: pid, wait: false })
            && steps@.len() == 4,
        vm_pid is None ==> steps@.len() == 3,
{
    assert forall|pid: u32, wait: bool| vm_pid == Some(pid) && !wait implies steps@.contains(
        EndStep::EndVm { vm_pid: pid, wait },
    ) by {
        assert(steps@[1] == EndStep::EndVm { vm_pid: pid, wait });
    }
}

} // verus!
