//! How a sandbox ends, step by step.

use crate::sandbox_daemon::registry::{halted, SandboxRegistry, SandboxState};
use vstd::prelude::*;

verus! {

/// What removes the directories of a sandbox, as far as it can.
pub trait SandboxDirs {
    fn remove(&self, id: u128);
}

/// A step of a sandbox's end.
#[derive(Debug, Clone, Copy, PartialEq, Eq)]
pub enum EndStep {
    /// Mark the sandbox as stopped, so that nobody starts anything in it.
    MarkStopped,
    /// End the VM of this process; with `wait`, go on only once the process is
    /// gone.
    EndVm { vm_pid: u32, wait: bool },
    /// Remove the sandbox's directories, as far as that is possible.
    RemoveDirs,
    /// Forget the sandbox.
    Forget,
}

/// The step that ends the VM, if it has a process.
pub open spec fn end_vm_steps(vm_pid: Option<u32>, wait: bool) -> Seq<EndStep> {
    match vm_pid {
        Some(pid) => seq![EndStep::EndVm { vm_pid: pid, wait }],
        None => Seq::empty(),
    }
}

/// The steps of reaping a sandbox, whatever ending its VM comes to.
pub open spec fn reap_steps_spec(vm_pid: Option<u32>) -> Seq<EndStep> {
    seq![EndStep::MarkStopped] + end_vm_steps(vm_pid, false) + seq![
        EndStep::RemoveDirs,
        EndStep::Forget,
    ]
}

/// The steps of a stop that follow the end of the VM: none if that failed.
pub open spec fn after_end_spec(ended: bool) -> Seq<EndStep> {
    if ended {
        seq![EndStep::MarkStopped, EndStep::RemoveDirs, EndStep::Forget]
    } else {
        Seq::empty()
    }
}

/// The steps of reaping a sandbox, whatever ending its VM comes to.
pub fn reap_steps(vm_pid: Option<u32>) -> (r: Vec<EndStep>)
    ensures
        r@ == reap_steps_spec(vm_pid),
{
    let mut steps: Vec<EndStep> = Vec::new();
    steps.push(EndStep::MarkStopped);
    match vm_pid {
        Some(pid) => steps.push(EndStep::EndVm { vm_pid: pid, wait: false }),
        None => {},
    }
    steps.push(EndStep::RemoveDirs);
    steps.push(EndStep::Forget);
    steps
}

/// The steps of a stop up to the end of the VM.
pub fn stop_steps(vm_pid: Option<u32>, wait: bool) -> (r: Vec<EndStep>)
    ensures
        r@ == end_vm_steps(vm_pid, wait),
{
    let mut steps: Vec<EndStep> = Vec::new();
    match vm_pid {
        Some(pid) => steps.push(EndStep::EndVm { vm_pid: pid, wait }),
        None => {},
    }
    steps
}

/// The steps of a stop that follow the end of the VM, given whether it ended.
pub fn after_end_steps(ended: bool) -> (r: Vec<EndStep>)
    ensures
        r@ == after_end_spec(ended),
{
    let mut steps: Vec<EndStep> = Vec::new();
    if ended {
        steps.push(EndStep::MarkStopped);
        steps.push(EndStep::RemoveDirs);
        steps.push(EndStep::Forget);
    }
    steps
}

/// `known` after a step of the sandbox's end.
pub open spec fn after_step(
    known: Map<u128, SandboxState>,
    id: u128,
    step: EndStep,
) -> Map<u128, SandboxState> {
    match step {
        EndStep::MarkStopped => if known.contains_key(id) {
            known.insert(id, halted(known[id]))
        } else {
            known
        },
        EndStep::Forget => known.remove(id),
        _ => known,
    }
}

/// `known` after these steps of the sandbox's end.
pub open spec fn after_steps(
    known: Map<u128, SandboxState>,
    id: u128,
    steps: Seq<EndStep>,
) -> Map<u128, SandboxState>
    decreases steps.len(),
{
    if steps.len() == 0 {
        known
    } else {
        after_step(after_steps(known, id, steps.drop_last()), id, steps.last())
    }
}

/// Take a step of the sandbox's end as far as it concerns what is known.
pub fn take_step(registry: &mut SandboxRegistry, id: u128, step: EndStep)
    ensures
        final(registry)@ == after_step(old(registry)@, id, step),
{
    match step {
        EndStep::MarkStopped => registry.mark_stopped(id),
        EndStep::Forget => registry.remove(id),
        _ => {},
    }
}

proof fn lemma_push_step(
    known: Map<u128, SandboxState>,
    id: u128,
    steps: Seq<EndStep>,
    step: EndStep,
)
    ensures
        after_steps(known, id, steps.push(step)) == after_step(
            after_steps(known, id, steps),
            id,
            step,
        ),
{
    assert(steps.push(step).drop_last() == steps);
}

/// A sandbox that is reaped is marked as stopped before its VM is ended, its
/// directories are removed, and it is forgotten last; nothing else changes.
pub proof fn reaping_marks_first(
    known: Map<u128, SandboxState>,
    id: u128,
    vm_pid: Option<u32>,
    i: int,
)
    requires
        known.contains_key(id),
        0 <= i < reap_steps_spec(vm_pid).len(),
    ensures
        ({
            let steps = reap_steps_spec(vm_pid);
            let before = after_steps(known, id, steps.take(i));
            &&& i > 0 ==> before == known.insert(id, halted(known[id]))
            &&& steps[i] is EndVm ==> before[id].stopped
            &&& steps[i] is EndVm <==> vm_pid is Some && i == 1
            &&& steps[i] is RemoveDirs <==> i == steps.len() - 2
            &&& steps[i] is Forget <==> i == steps.len() - 1
            &&& after_steps(known, id, steps) == known.remove(id)
        }),
{
    let steps = reap_steps_spec(vm_pid);
    let marked = known.insert(id, halted(known[id]));
    let none = Seq::<EndStep>::empty();
    let one = none.push(steps[0]);
    let two = one.push(steps[1]);
    lemma_push_step(known, id, none, steps[0]);
    lemma_push_step(known, id, one, steps[1]);
    lemma_push_step(known, id, two, steps[2]);
    assert(after_steps(known, id, none) == known);
    assert(steps.take(0) == none);
    assert(steps.take(1) == one);
    assert(steps.take(2) == two);
    if vm_pid is Some {
        let three = two.push(steps[2]);
        lemma_push_step(known, id, three, steps[3]);
        assert(steps.take(3) == three);
        assert(steps == three.push(steps[3]));
    } else {
        assert(steps == two.push(steps[2]));
    }
    assert(marked.remove(id) =~= known.remove(id));
}

/// A stop whose VM could not be ended leaves what is known as it was and
/// removes nothing; one whose VM ended removes the sandbox's directories and
/// forgets it.
pub proof fn stop_follows_the_end(
    known: Map<u128, SandboxState>,
    id: u128,
    vm_pid: Option<u32>,
    wait: bool,
)
    ensures
        after_steps(known, id, end_vm_steps(vm_pid, wait)) == known,
        after_steps(known, id, after_end_spec(false)) == known,
        !after_end_spec(false).contains(EndStep::RemoveDirs),
        after_steps(known, id, after_end_spec(true)) == known.remove(id),
        after_end_spec(true).contains(EndStep::RemoveDirs),
{
    let none = Seq::<EndStep>::empty();
    assert(after_steps(known, id, none) == known);
    match vm_pid {
        Some(pid) => {
            let end = EndStep::EndVm { vm_pid: pid, wait };
            lemma_push_step(known, id, none, end);
            assert(end_vm_steps(vm_pid, wait) == none.push(end));
        },
        None => {},
    }
    let one = none.push(EndStep::MarkStopped);
    let two = one.push(EndStep::RemoveDirs);
    lemma_push_step(known, id, none, EndStep::MarkStopped);
    lemma_push_step(known, id, one, EndStep::RemoveDirs);
    lemma_push_step(known, id, two, EndStep::Forget);
    assert(after_end_spec(true) == two.push(EndStep::Forget));
    assert(after_end_spec(true)[1] == EndStep::RemoveDirs);
    assert(after_steps(known, id, after_end_spec(true)) =~= known.remove(id));
}

} // verus!
