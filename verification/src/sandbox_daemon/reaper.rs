//! Reaping sandboxes that nobody uses.

use crate::sandbox_daemon::ending::{
    after_steps, reap_steps, reap_steps_spec, reaping_marks_first, take_step, EndStep, SandboxDirs,
};
use crate::sandbox_daemon::errors::SandboxError;
use crate::sandbox_daemon::list::{elapsed, NANOS_PER_SEC};
use crate::sandbox_daemon::registry::{lists_all, SandboxRegistry, SandboxState};
use crate::sandbox_daemon::stop::VmStopper;
use vstd::prelude::*;

verus! {

/// Seconds between two scans.
pub const SCAN_INTERVAL_SECS: u64 = 10;

/// A sandbox that runs and was not used for longer than it may idle.
pub open spec fn idle(s: SandboxState, now: u64) -> bool {
    !s.stopped && elapsed(s.last_exec_at, now) > s.idle_timeout_secs * NANOS_PER_SEC
}

/// Whether a sandbox runs and was not used for longer than it may idle.
pub fn is_idle(s: &SandboxState, now: u64) -> (r: bool)
    ensures
        r == idle(*s, now),
{
    let unused: u64 = if now >= s.last_exec_at {
        now - s.last_exec_at
    } else {
        0
    };
    let limit: u128 = s.idle_timeout_secs as u128 * 1_000_000_000;
    !s.stopped && unused as u128 > limit
}

/// The sandboxes to reap at `now`: id, and process id of the VM.
pub fn due(registry: &SandboxRegistry, now: u64) -> (r: Vec<(u128, Option<u32>)>)
    ensures
        forall|i: int|
            0 <= i < r@.len() ==> {
                &&& registry@.contains_key((#[trigger] r@[i]).0)
                &&& idle(registry@[r@[i].0], now)
                &&& r@[i].1 == registry@[r@[i].0].vm_pid
            },
        forall|i: int, j: int|
            0 <= i < j < r@.len() ==> (#[trigger] r@[i]).0 != (#[trigger] r@[j]).0,
        forall|id: u128| #[trigger]
            registry@.contains_key(id) && idle(registry@[id], now) ==> exists|i: int|
                0 <= i < r@.len() && (#[trigger] r@[i]).0 == id,
{
    let all = registry.list();
    let mut r: Vec<(u128, Option<u32>)> = Vec::new();
    let mut i: usize = 0;
    while i < all.len()
        invariant
            i <= all@.len(),
            lists_all(all@, registry@),
            forall|k: int|
                0 <= k < r@.len() ==> {
                    &&& registry@.contains_key((#[trigger] r@[k]).0)
                    &&& idle(registry@[r@[k].0], now)
                    &&& r@[k].1 == registry@[r@[k].0].vm_pid
                    &&& exists|j: int| 0 <= j < i && (#[trigger] all@[j]).id == r@[k].0
                },
            forall|a: int, b: int|
                0 <= a < b < r@.len() ==> (#[trigger] r@[a]).0 != (#[trigger] r@[b]).0,
            forall|j: int|
                0 <= j < i && idle(#[trigger] all@[j], now) ==> exists|k: int|
                    0 <= k < r@.len() && (#[trigger] r@[k]).0 == all@[j].id,
        decreases all@.len() - i,
    {
        let ghost before = r@;
        assert(registry@.contains_pair(all@[i as int].id, all@[i as int]));
        if is_idle(&all[i], now) {
            r.push((all[i].id, all[i].vm_pid));
            assert forall|j: int| 0 <= j < i + 1 && idle(#[trigger] all@[j], now) implies exists|
                k: int,
            | 0 <= k < r@.len() && (#[trigger] r@[k]).0 == all@[j].id by {
                if j < i {
                    let k = choose|k: int|
                        0 <= k < before.len() && (#[trigger] before[k]).0 == all@[j].id;
                    assert(r@[k].0 == all@[j].id);
                } else {
                    assert(r@[before.len() as int].0 == all@[j].id);
                }
            }
            assert forall|a: int, b: int| 0 <= a < b < r@.len() implies (#[trigger] r@[a]).0 != (
            #[trigger] r@[b]).0 by {
                if b == before.len() {
                    let j = choose|j: int| 0 <= j < i && (#[trigger] all@[j]).id == before[a].0;
                    assert(all@[j].id != all@[i as int].id);
                } else {
                    assert(before[a].0 != before[b].0);
                }
            }
            assert forall|k: int| 0 <= k < r@.len() implies exists|j: int|
                0 <= j < i + 1 && (#[trigger] all@[j]).id == (#[trigger] r@[k]).0 by {
                if k < before.len() {
                    let j = choose|j: int| 0 <= j < i && (#[trigger] all@[j]).id == before[k].0;
                    assert(all@[j].id == r@[k].0);
                } else {
                    assert(all@[i as int].id == r@[k].0);
                }
            }
        }
        i += 1;
    }
    assert forall|id: u128| #[trigger]
        registry@.contains_key(id) && idle(registry@[id], now) implies exists|k: int|
        0 <= k < r@.len() && (#[trigger] r@[k]).0 == id by {
        let j = choose|j: int| 0 <= j < all@.len() && (#[trigger] all@[j]).id == id;
        assert(registry@.contains_pair(all@[j].id, all@[j]));
        assert(idle(all@[j], now));
    }
    r
}

/// The stopper was asked to end the VM of this process, without waiting for it
/// to be gone, and came to something.
pub open spec fn asked_to_stop<S: VmStopper>(stopper: &S, vm_pid: Option<u32>) -> bool {
    vm_pid is Some ==> exists|ended: Result<(), SandboxError>|
        call_ensures(S::stop, (stopper, vm_pid->0, false), ended)
}

/// Reap one sandbox that is due, step by step: it is marked stopped before its
/// VM is ended, so that nobody starts anything in it, and forgotten whatever
/// that came to.
fn reap_one<S: VmStopper, D: SandboxDirs>(
    registry: &mut SandboxRegistry,
    stopper: &S,
    dirs: &D,
    id: u128,
    vm_pid: Option<u32>,
)
    requires
        old(registry)@.contains_key(id),
    ensures
        final(registry)@ == old(registry)@.remove(id),
        asked_to_stop(stopper, vm_pid),
        call_ensures(D::remove, (dirs, id), ()),
{
    let ghost known = registry@;
    let steps = reap_steps(vm_pid);
    let mut i: usize = 0;
    assert(steps@.take(0) == Seq::<EndStep>::empty());
    while i < steps.len()
        invariant
            i <= steps@.len(),
            steps@ == reap_steps_spec(vm_pid),
            registry@ == after_steps(known, id, steps@.take(i as int)),
            forall|j: int|
                0 <= j < i && (#[trigger] steps@[j]) is EndVm ==> asked_to_stop(stopper, vm_pid),
            forall|j: int|
                0 <= j < i && (#[trigger] steps@[j]) is RemoveDirs ==> call_ensures(
                    D::remove,
                    (dirs, id),
                    (),
                ),
        decreases steps@.len() - i,
    {
        assert(steps@.take(i + 1).drop_last() == steps@.take(i as int));
        match steps[i] {
            EndStep::EndVm { vm_pid: pid, wait } => {
                let _ = stopper.stop(pid, wait);
            },
            EndStep::RemoveDirs => dirs.remove(id),
            step => take_step(registry, id, step),
        }
        i += 1;
    }
    proof {
        reaping_marks_first(known, id, vm_pid, 0);
    }
    assert(steps@.take(i as int) == steps@);
    assert(steps@[steps@.len() - 2] is RemoveDirs);
    if vm_pid.is_some() {
        assert(steps@[1] is EndVm);
    }
}

/// One scan: the VM of every sandbox that is due is to end, and whether or not
/// it did the sandbox's directories are removed and it is forgotten; every other
/// stays as it is. Returns the ids
/// reaped, each once.
pub fn reap<S: VmStopper, D: SandboxDirs>(
    registry: &mut SandboxRegistry,
    stopper: &S,
    dirs: &D,
    now: u64,
) -> (r: Vec<u128>)
    ensures
        forall|id: u128| #[trigger]
            final(registry)@.contains_key(id) <==> old(registry)@.contains_key(id) && !idle(
                old(registry)@[id],
                now,
            ),
        forall|id: u128| #[trigger]
            final(registry)@.contains_key(id) ==> final(registry)@[id] == old(registry)@[id],
        forall|id: u128|
            r@.contains(id) <==> #[trigger] old(registry)@.contains_key(id) && idle(
                old(registry)@[id],
                now,
            ),
        r@.no_duplicates(),
        forall|id: u128| #[trigger]
            r@.contains(id) ==> {
                &&& asked_to_stop(stopper, old(registry)@[id].vm_pid)
                &&& call_ensures(D::remove, (dirs, id), ())
            },
{
    let ghost start = registry@;
    let list = due(registry, now);
    let mut ids: Vec<u128> = Vec::new();
    let mut i: usize = 0;
    while i < list.len()
        invariant
            i <= list@.len(),
            ids@.len() == i,
            forall|k: int|
                0 <= k < i ==> {
                    &&& #[trigger] ids@[k] == list@[k].0
                    &&& asked_to_stop(stopper, start[ids@[k]].vm_pid)
                    &&& call_ensures(D::remove, (dirs, ids@[k]), ())
                },
            forall|k: int|
                0 <= k < list@.len() ==> {
                    &&& start.contains_key((#[trigger] list@[k]).0)
                    &&& idle(start[list@[k].0], now)
                    &&& list@[k].1 == start[list@[k].0].vm_pid
                },
            forall|a: int, b: int|
                0 <= a < b < list@.len() ==> (#[trigger] list@[a]).0 != (#[trigger] list@[b]).0,
            forall|id: u128| #[trigger]
                start.contains_key(id) && idle(start[id], now) ==> exists|k: int|
                    0 <= k < list@.len() && (#[trigger] list@[k]).0 == id,
            forall|id: u128| #[trigger]
                registry@.contains_key(id) <==> start.contains_key(id) && !ids@.contains(id),
            forall|id: u128| #[trigger]
                registry@.contains_key(id) ==> registry@[id] == start[id],
        decreases list@.len() - i,
    {
        let ghost before = ids@;
        let ghost held = registry@;
        let (id, vm_pid) = list[i];
        assert(registry@.contains_key(id)) by {
            if before.contains(id) {
                let k = choose|k: int| 0 <= k < before.len() && before[k] == id;
                assert(list@[k].0 != list@[i as int].0);
            }
        }
        reap_one(registry, stopper, dirs, id, vm_pid);
        ids.push(id);
        assert forall|q: u128| #[trigger] ids@.contains(q) == (before.contains(q) || q == id) by {
            if before.contains(q) {
                let k = choose|k: int| 0 <= k < before.len() && before[k] == q;
                assert(ids@[k] == q);
            }
            if q == id {
                assert(ids@[before.len() as int] == q);
            }
            if ids@.contains(q) {
                let k = choose|k: int| 0 <= k < ids@.len() && ids@[k] == q;
                if k < before.len() {
                    assert(before[k] == q);
                }
            }
        }
        assert forall|q: u128| #[trigger]
            registry@.contains_key(q) <==> start.contains_key(q) && !ids@.contains(q) by {
            assert(ids@.contains(q) == (before.contains(q) || q == id));
            assert(held.contains_key(q) <==> start.contains_key(q) && !before.contains(q));
        }
        i += 1;
    }
    assert forall|id: u128| ids@.contains(id) <==> #[trigger] start.contains_key(id) && idle(
        start[id],
        now,
    ) by {
        if ids@.contains(id) {
            let k = choose|k: int| 0 <= k < ids@.len() && ids@[k] == id;
            assert(list@[k].0 == id);
        }
        if start.contains_key(id) && idle(start[id], now) {
            let k = choose|k: int| 0 <= k < list@.len() && (#[trigger] list@[k]).0 == id;
            assert(ids@[k] == id);
        }
    }
    ids
}

} // verus!
