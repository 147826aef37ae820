//! Stopping a sandbox.

use crate::ids::{uuid_hyphenated, uuid_parsed, uuid_text};
use crate::sandbox_daemon::ending::{
    after_end_spec, after_end_steps, after_steps, stop_follows_the_end, take_step, EndStep,
    SandboxDirs,
};
use crate::sandbox_daemon::errors::{fails, SandboxError, SandboxErrorCode};
use crate::sandbox_daemon::exec::{bad_id_message, parse_sandbox_id};
use crate::sandbox_daemon::registry::SandboxRegistry;
use vstd::prelude::*;

verus! {

/// A sandbox to stop.
#[derive(Debug, Clone, PartialEq, Eq)]
pub struct StopRequest {
    pub sandbox_id: String,
    /// Answer only once the VM's process is gone.
    pub wait: bool,
}

/// A sandbox that is stopped.
#[derive(Debug, Clone, PartialEq, Eq)]
pub struct StopResponse {
    pub sandbox_id: String,
    pub stopped: bool,
}

/// What ends the VM of a process id. With `wait` it is to return only once the
/// process is gone.
pub trait VmStopper {
    fn stop(&self, vm_pid: u32, wait: bool) -> Result<(), SandboxError>;
}

/// How a stop goes on.
#[derive(Debug, Clone, PartialEq, Eq)]
pub enum StopStep {
    /// The sandbox is stopped already.
    Already(StopResponse),
    /// End the VM, if it has a process, with `wait` go on only once the process
    /// is gone, and finish.
    End { id: u128, vm_pid: Option<u32>, wait: bool },
}

/// `resp` says that the sandbox `id` is stopped.
pub open spec fn says_stopped(resp: StopResponse, id: u128) -> bool {
    &&& resp.sandbox_id@ == uuid_hyphenated(id)
    &&& uuid_parsed(resp.sandbox_id@) == Some(id)
    &&& resp.stopped
}

/// Look up the sandbox to stop.
pub fn begin_stop(req: &StopRequest, registry: &SandboxRegistry) -> (r: Result<
    StopStep,
    SandboxError,
>)
    ensures
        match uuid_parsed(req.sandbox_id@) {
            None => fails(r, SandboxErrorCode::S001, bad_id_message(req.sandbox_id@)),
            Some(id) => if !registry@.contains_key(id) {
                fails(r, SandboxErrorCode::S002, uuid_hyphenated(id))
            } else if registry@[id].stopped {
                r is Ok && r->Ok_0 is Already && says_stopped(r->Ok_0->Already_0, id)
            } else {
                r == Ok::<StopStep, SandboxError>(
                    StopStep::End { id, vm_pid: registry@[id].vm_pid, wait: req.wait },
                )
            },
        },
{
    let id = match parse_sandbox_id(req.sandbox_id.as_str()) {
        Ok(id) => id,
        Err(e) => return Err(e),
    };
    let state = match registry.get(id) {
        Ok(s) => s,
        Err(e) => return Err(e),
    };
    if state.stopped {
        return Ok(StopStep::Already(StopResponse { sandbox_id: uuid_text(id), stopped: true }));
    }
    Ok(StopStep::End { id, vm_pid: state.vm_pid, wait: req.wait })
}

/// Take what ending the VM came to. A failure leaves the sandbox as it was, so
/// that it can be stopped again; otherwise its directories are removed and it is
/// forgotten.
pub fn finish_stop<D: SandboxDirs>(
    registry: &mut SandboxRegistry,
    dirs: &D,
    id: u128,
    ended: Result<(), SandboxError>,
) -> (r: Result<StopResponse, SandboxError>)
    ensures
        match ended {
            Err(e) => r == Err::<StopResponse, SandboxError>(e) && final(registry)@ == old(
                registry,
            )@,
            Ok(_) => {
                &&& r is Ok
                &&& says_stopped(r->Ok_0, id)
                &&& final(registry)@ == old(registry)@.remove(id)
                &&& call_ensures(D::remove, (dirs, id), ())
            },
        },
{
    match ended {
        Err(e) => Err(e),
        Ok(_) => {
            let ghost known = registry@;
            let steps = after_end_steps(true);
            let mut i: usize = 0;
            assert(steps@.take(0) == Seq::<EndStep>::empty());
            while i < steps.len()
                invariant
                    i <= steps@.len(),
                    steps@ == after_end_spec(true),
                    registry@ == after_steps(known, id, steps@.take(i as int)),
                    forall|j: int|
                        0 <= j < i && (#[trigger] steps@[j]) is RemoveDirs ==> call_ensures(
                            D::remove,
                            (dirs, id),
                            (),
                        ),
                decreases steps@.len() - i,
            {
                assert(steps@.take(i + 1).drop_last() == steps@.take(i as int));
                match steps[i] {
                    EndStep::RemoveDirs => dirs.remove(id),
                    step => take_step(registry, id, step),
                }
                i += 1;
            }
            proof {
                stop_follows_the_end(known, id, None, false);
            }
            assert(steps@.take(i as int) == steps@);
            assert(steps@[1] is RemoveDirs);
            Ok(StopResponse { sandbox_id: uuid_text(id), stopped: true })
        },
    }
}

/// Stop a sandbox. One that is stopped already is not stopped again; one whose
/// VM cannot be ended stays as it was; of any other the directories are removed
/// and the sandbox is forgotten. The answer comes once the stopper is
/// done, and the stopper is told whether to wait for the process to be gone.
pub fn handle_stop<S: VmStopper, D: SandboxDirs>(
    req: StopRequest,
    registry: &mut SandboxRegistry,
    stopper: &S,
    dirs: &D,
) -> (r: Result<StopResponse, SandboxError>)
    ensures
        match uuid_parsed(req.sandbox_id@) {
            None => {
                &&& fails(r, SandboxErrorCode::S001, bad_id_message(req.sandbox_id@))
                &&& final(registry)@ == old(registry)@
            },
            Some(id) => if !old(registry)@.contains_key(id) {
                &&& fails(r, SandboxErrorCode::S002, uuid_hyphenated(id))
                &&& final(registry)@ == old(registry)@
            } else if old(registry)@[id].stopped {
                &&& r is Ok
                &&& says_stopped(r->Ok_0, id)
                &&& final(registry)@ == old(registry)@
            } else {
                match old(registry)@[id].vm_pid {
                    None => {
                        &&& r is Ok
                        &&& says_stopped(r->Ok_0, id)
                        &&& final(registry)@ == old(registry)@.remove(id)
                        &&& call_ensures(D::remove, (dirs, id), ())
                    },
                    Some(pid) => exists|ended: Result<(), SandboxError>|
                        {
                            &&& #[trigger] call_ensures(S::stop, (stopper, pid, req.wait), ended)
                            &&& match ended {
                                Ok(_) => {
                                    &&& r is Ok
                                    &&& says_stopped(r->Ok_0, id)
                                    &&& final(registry)@ == old(registry)@.remove(id)
                                    &&& call_ensures(D::remove, (dirs, id), ())
                                },
                                Err(e) => {
                                    &&& r == Err::<StopResponse, SandboxError>(e)
                                    &&& final(registry)@ == old(registry)@
                                },
                            }
                        },
                }
            },
        },
{
    match begin_stop(&req, registry) {
        Err(e) => Err(e),
        Ok(StopStep::Already(resp)) => Ok(resp),
        Ok(StopStep::End { id, vm_pid, wait }) => {
            let ended = match vm_pid {
                Some(pid) => stopper.stop(pid, wait),
                None => Ok(()),
            };
            finish_stop(registry, dirs, id, ended)
        },
    }
}

} // verus!
