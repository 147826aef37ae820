//! Laws of the sandboxes that are known, of listing and of stopping them.

use crate::ids::uuid_parsed;
use crate::sandbox_daemon::ending::{after_end_steps, stop_steps, take_step, EndStep, SandboxDirs};
use crate::sandbox_daemon::errors::SandboxError;
use crate::sandbox_daemon::list::{
    handle_list, summarise, summarises, ListRequest, ListResponse, SandboxSummary,
};
use crate::sandbox_daemon::registry::{lists_all, SandboxRegistry, SandboxState};
use crate::sandbox_daemon::stop::{
    begin_stop, finish_stop, handle_stop, StopRequest, StopResponse, StopStep, VmStopper,
};
use vstd::prelude::*;

verus! {

/// A sandbox is claimed for a command if and only if it is known, runs and is
/// free; the claim marks it busy and used just now, and changes nothing else
/// about it or any other.
pub proof fn claim_is_for_free_sandboxes(
    call: (&mut SandboxRegistry, u128, u64),
    r: Result<SandboxState, SandboxError>,
    other: u128,
)
    requires
        call_ensures(SandboxRegistry::begin_exec, call, r),
        other != call.1,
    ensures
        ({
            let known = old(call.0)@;
            let now = final(call.0)@;
            let id = call.1;
            &&& r is Ok <==> known.contains_key(id) && !known[id].stopped
                && !known[id].exec_in_progress
            &&& r matches Ok(s) ==> now.contains_key(id) && now[id] == s && s == (SandboxState {
                exec_in_progress: true,
                last_exec_at: call.2,
                ..known[id]
            })
            &&& r is Err ==> now == known
            &&& known.contains_key(other) <==> now.contains_key(other)
            &&& known.contains_key(other) ==> now[other] == known[other]
            &&& r matches Err(e) ==> {
                &&& !known.contains_key(id) ==> e is NotFound
                &&& known.contains_key(id) && known[id].stopped ==> e is AlreadyStopped
                &&& known.contains_key(id) && !known[id].stopped ==> e is ConcurrentExec
            }
        }),
{
}

/// A sandbox that is freed is free, and nothing else about it or any other
/// changes.
pub proof fn release_frees_one_sandbox(call: (&mut SandboxRegistry, u128), id: u128)
    requires
        call_ensures(SandboxRegistry::end_exec, call, ()),
    ensures
        old(call.0)@.contains_key(id) <==> final(call.0)@.contains_key(id),
        old(call.0)@.contains_key(id) && id != call.1 ==> final(call.0)@[id] == old(call.0)@[id],
        old(call.0)@.contains_key(id) && id == call.1 ==> final(call.0)@[id] == (SandboxState {
            exec_in_progress: false,
            ..old(call.0)@[id]
        }),
{
}

/// A sandbox that is used counts as used just then, and nothing else about it or
/// any other changes.
pub proof fn use_is_noted_of_one_sandbox(call: (&mut SandboxRegistry, u128, u64), id: u128)
    requires
        call_ensures(SandboxRegistry::bump_last_exec, call, ()),
    ensures
        old(call.0)@.contains_key(id) <==> final(call.0)@.contains_key(id),
        old(call.0)@.contains_key(id) && id != call.1 ==> final(call.0)@[id] == old(call.0)@[id],
        old(call.0)@.contains_key(id) && id == call.1 ==> final(call.0)@[id] == (SandboxState {
            last_exec_at: call.2,
            ..old(call.0)@[id]
        }),
{
}

/// A sandbox that is marked stopped is stopped, and nothing else about it or any
/// other changes.
pub proof fn stop_is_marked_on_one_sandbox(call: (&mut SandboxRegistry, u128), id: u128)
    requires
        call_ensures(SandboxRegistry::mark_stopped, call, ()),
    ensures
        old(call.0)@.contains_key(id) <==> final(call.0)@.contains_key(id),
        old(call.0)@.contains_key(id) && id != call.1 ==> final(call.0)@[id] == old(call.0)@[id],
        old(call.0)@.contains_key(id) && id == call.1 ==> final(call.0)@[id] == (SandboxState {
            stopped: true,
            ..old(call.0)@[id]
        }),
{
}

/// The list says of a sandbox who it is, its label and its image, how many whole
/// seconds old it is, whether a command runs in it and whether it is stopped.
pub proof fn summary_says_how_it_stands(s: &SandboxState, now: u64, r: SandboxSummary)
    requires
        call_ensures(summarise, (s, now), r),
    ensures
        uuid_parsed(r.sandbox_id@) == Some(s.id),
        r.name == s.name,
        r.image == s.image,
        r.exec_in_progress == s.exec_in_progress,
        r.stopped == s.stopped,
        now >= s.created_at ==> s.created_at + r.age_secs * 1_000_000_000 <= now < s.created_at + (
        r.age_secs + 1) * 1_000_000_000,
        now < s.created_at ==> r.age_secs == 0,
{
    if now >= s.created_at {
        let age = now - s.created_at;
        assert(age == (age / 1_000_000_000) * 1_000_000_000 + age % 1_000_000_000);
    }
}

/// Every sandbox that is known is in the list once, and nothing else is; the
/// list says of it how it stands.
pub proof fn list_holds_every_sandbox_once(
    req: ListRequest,
    registry: &SandboxRegistry,
    now: u64,
    r: ListResponse,
)
    requires
        call_ensures(handle_list, (req, registry, now), r),
    ensures
        r.sandboxes@.len() == registry@.len(),
        forall|id: u128| #[trigger]
            registry@.contains_key(id) ==> exists|i: int|
                {
                    let s = registry@[id];
                    let sum = #[trigger] r.sandboxes@[i];
                    &&& 0 <= i < r.sandboxes@.len()
                    &&& uuid_parsed(sum.sandbox_id@) == Some(s.id)
                    &&& sum.name == s.name
                    &&& sum.image == s.image
                    &&& sum.exec_in_progress == s.exec_in_progress
                    &&& sum.stopped == s.stopped
                    &&& now >= s.created_at ==> sum.age_secs == (now - s.created_at)
                        / 1_000_000_000
                },
        forall|i: int|
            0 <= i < r.sandboxes@.len() ==> {
                let id = uuid_parsed((#[trigger] r.sandboxes@[i]).sandbox_id@);
                id is Some && registry@.contains_key(id->0)
            },
{
    let list = choose|list: Seq<SandboxState>|
        {
            &&& #[trigger] lists_all(list, registry@)
            &&& r.sandboxes@.len() == list.len()
            &&& forall|i: int|
                0 <= i < list.len() ==> summarises(#[trigger] r.sandboxes@[i], list[i], now)
        };
    assert forall|id: u128| #[trigger] registry@.contains_key(id) implies exists|i: int|
        {
            let s = registry@[id];
            let sum = #[trigger] r.sandboxes@[i];
            &&& 0 <= i < r.sandboxes@.len()
            &&& uuid_parsed(sum.sandbox_id@) == Some(s.id)
            &&& sum.name == s.name
            &&& sum.image == s.image
            &&& sum.exec_in_progress == s.exec_in_progress
            &&& sum.stopped == s.stopped
            &&& now >= s.created_at ==> sum.age_secs == (now - s.created_at) / 1_000_000_000
        } by {
        let i = choose|i: int| 0 <= i < list.len() && (#[trigger] list[i]).id == id;
        assert(registry@.contains_pair(list[i].id, list[i]));
        assert(summarises(r.sandboxes@[i], list[i], now));
    }
    assert forall|i: int| 0 <= i < r.sandboxes@.len() implies ({
        let id = uuid_parsed((#[trigger] r.sandboxes@[i]).sandbox_id@);
        id is Some && registry@.contains_key(id->0)
    }) by {
        assert(registry@.contains_pair(list[i].id, list[i]));
        assert(summarises(r.sandboxes@[i], list[i], now));
    }
}

/// A stop of a sandbox that runs ends the VM that the sandbox has, waiting for
/// its process as the caller asks; a sandbox that is stopped already is said to
/// be, and nothing is ended.
pub proof fn stop_begins_with_the_sandbox_named(
    req: &StopRequest,
    registry: &SandboxRegistry,
    r: Result<StopStep, SandboxError>,
)
    requires
        call_ensures(begin_stop, (req, registry), r),
    ensures
        uuid_parsed(req.sandbox_id@) is None ==> r is Err && r->Err_0 is InvalidRequest,
        uuid_parsed(req.sandbox_id@) matches Some(id) ==> {
            &&& !registry@.contains_key(id) ==> r is Err && r->Err_0 is NotFound
            &&& registry@.contains_key(id) && registry@[id].stopped ==> {
                &&& r matches Ok(StopStep::Already(resp))
                &&& resp.stopped
                &&& uuid_parsed(resp.sandbox_id@) == Some(id)
            }
            &&& registry@.contains_key(id) && !registry@[id].stopped ==> r == Ok::<
                StopStep,
                SandboxError,
            >(StopStep::End { id, vm_pid: registry@[id].vm_pid, wait: req.wait })
        },
{
}

/// A stop whose VM could not be ended fails with that and changes nothing; one
/// whose VM ended has the sandbox's own directories removed and the sandbox, and
/// no other, forgotten.
pub proof fn stop_follows_what_became_of_the_vm<D: SandboxDirs>(
    call: (&mut SandboxRegistry, &D, u128, Result<(), SandboxError>),
    r: Result<StopResponse, SandboxError>,
    other: u128,
)
    requires
        call_ensures(finish_stop::<D>, call, r),
        other != call.2,
    ensures
        call.3 matches Err(e) ==> r == Err::<StopResponse, SandboxError>(e) && final(call.0)@
            == old(call.0)@,
        call.3 is Ok ==> {
            &&& r is Ok
            &&& r->Ok_0.stopped
            &&& uuid_parsed(r->Ok_0.sandbox_id@) == Some(call.2)
            &&& !final(call.0)@.contains_key(call.2)
            &&& call_ensures(D::remove, (call.1, call.2), ())
        },
        old(call.0)@.contains_key(other) <==> final(call.0)@.contains_key(other),
        old(call.0)@.contains_key(other) ==> final(call.0)@[other] == old(call.0)@[other],
{
}

/// A sandbox that runs is stopped by ending its own VM: where that succeeds the
/// sandbox is forgotten and the caller told so, and where it fails the caller is
/// told why and the sandbox stays as it was.
pub proof fn stop_ends_the_vm<S: VmStopper, D: SandboxDirs>(
    call: (StopRequest, &mut SandboxRegistry, &S, &D),
    r: Result<StopResponse, SandboxError>,
    id: u128,
    pid: u32,
)
    requires
        call_ensures(handle_stop::<S, D>, call, r),
        uuid_parsed(call.0.sandbox_id@) == Some(id),
        old(call.1)@.contains_key(id),
        !old(call.1)@[id].stopped,
        old(call.1)@[id].vm_pid == Some(pid),
    ensures
        exists|ended: Result<(), SandboxError>|
            {
                &&& #[trigger] call_ensures(S::stop, (call.2, pid, call.0.wait), ended)
                &&& ended is Ok <==> r is Ok
                &&& ended matches Err(e) ==> r == Err::<StopResponse, SandboxError>(e)
            },
        r is Ok ==> !final(call.1)@.contains_key(id) && call_ensures(
            D::remove,
            (call.3, id),
            (),
        ) && r->Ok_0.stopped && uuid_parsed(r->Ok_0.sandbox_id@) == Some(id),
        r is Err ==> final(call.1)@ == old(call.1)@,
{
}

/// A stop touches no sandbox but the one it names, and that one only to forget
/// it.
pub proof fn stop_touches_one_sandbox<S: VmStopper, D: SandboxDirs>(
    call: (StopRequest, &mut SandboxRegistry, &S, &D),
    r: Result<StopResponse, SandboxError>,
    id: u128,
)
    requires
        call_ensures(handle_stop::<S, D>, call, r),
    ensures
        final(call.1)@.contains_key(id) ==> old(call.1)@.contains_key(id) && final(call.1)@[id]
            == old(call.1)@[id],
        old(call.1)@.contains_key(id) && !final(call.1)@.contains_key(id) ==> r is Ok
            && uuid_parsed(call.0.sandbox_id@) == Some(id) && !old(call.1)@[id].stopped,
{
}

/// A stop of a sandbox without a process forgets it; of one that is stopped
/// already says so and changes nothing; of none that is known fails.
pub proof fn stop_without_a_vm<S: VmStopper, D: SandboxDirs>(
    call: (StopRequest, &mut SandboxRegistry, &S, &D),
    r: Result<StopResponse, SandboxError>,
)
    requires
        call_ensures(handle_stop::<S, D>, call, r),
    ensures
        uuid_parsed(call.0.sandbox_id@) is None ==> r is Err && r->Err_0 is InvalidRequest,
        uuid_parsed(call.0.sandbox_id@) matches Some(id) ==> {
            let known = old(call.1)@;
            &&& !known.contains_key(id) ==> r is Err && r->Err_0 is NotFound
            &&& known.contains_key(id) && known[id].stopped ==> r is Ok && r->Ok_0.stopped
                && final(call.1)@ == known
            &&& known.contains_key(id) && !known[id].stopped && known[id].vm_pid is None ==> r is Ok
                && r->Ok_0.stopped && !final(call.1)@.contains_key(id)
        },
{
}

/// The steps of a stop are the end of the VM, if it has a process, as the caller
/// waits for it; and after that, if it ended, the mark, the removal of the
/// directories and the forgetting, and nothing if not.
pub proof fn stop_goes_in_order(
    vm_pid: Option<u32>,
    wait: bool,
    ended: bool,
    first: Vec<EndStep>,
    then_: Vec<EndStep>,
)
    requires
        call_ensures(stop_steps, (vm_pid, wait), first),
        call_ensures(after_end_steps, (ended,), then_),
    ensures
        vm_pid is None ==> first@.len() == 0,
        vm_pid matches Some(pid) ==> first@.len() == 1 && first@[0] == (EndStep::EndVm {
            vm_pid: pid,
            wait,
        }),
        !ended ==> then_@.len() == 0,
        ended ==> then_@.len() == 3 && then_@[0] is MarkStopped && then_@[1] is RemoveDirs
            && then_@[2] is Forget,
{
}

/// A step of a sandbox's end concerns that sandbox: marking it leaves all else
/// about it, forgetting it leaves every other, and the steps on the machine
/// leave what is known.
pub proof fn each_step_concerns_one_sandbox(
    call: (&mut SandboxRegistry, u128, EndStep),
    id: u128,
)
    requires
        call_ensures(take_step, call, ()),
    ensures
        id != call.1 || call.2 is EndVm || call.2 is RemoveDirs ==> (final(call.0)@.contains_key(id)
            <==> old(call.0)@.contains_key(id)) && (old(call.0)@.contains_key(id)
            ==> final(call.0)@[id] == old(call.0)@[id]),
        call.2 is Forget ==> !final(call.0)@.contains_key(call.1),
        call.2 is MarkStopped && old(call.0)@.contains_key(call.1) ==> {
            &&& final(call.0)@.contains_key(call.1)
            &&& final(call.0)@[call.1].stopped
            &&& final(call.0)@[call.1].id == old(call.0)@[call.1].id
            &&& final(call.0)@[call.1].vm_pid == old(call.0)@[call.1].vm_pid
            &&& final(call.0)@[call.1].shell_sock == old(call.0)@[call.1].shell_sock
            &&& final(call.0)@[call.1].last_exec_at == old(call.0)@[call.1].last_exec_at
            &&& final(call.0)@[call.1].exec_in_progress == old(call.0)@[call.1].exec_in_progress
        },
        call.2 is MarkStopped && !old(call.0)@.contains_key(call.1)
            ==> !final(call.0)@.contains_key(call.1),
{
}

} // verus!
