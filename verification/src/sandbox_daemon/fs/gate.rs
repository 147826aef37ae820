//! What every file operation asks first.

use crate::ids::{uuid_hyphenated, uuid_parsed, uuid_text};
use crate::sandbox_daemon::errors::{fails, SandboxError, SandboxErrorCode};
use crate::sandbox_daemon::exec::{bad_id_message, parse_sandbox_id};
use crate::sandbox_daemon::registry::{
    exec_begun, exec_ended, halted, touched, SandboxRegistry, SandboxState,
};
use vstd::prelude::*;

verus! {

/// Why a file operation on the sandbox that `sandbox_id` names is refused: the
/// id is malformed, or the sandbox is missing or stopped. A command that runs
/// in the sandbox is no reason.
pub open spec fn fs_refusal(sandbox_id: Seq<char>, known: Map<u128, SandboxState>) -> Option<
    (SandboxErrorCode, Seq<char>),
> {
    match uuid_parsed(sandbox_id) {
        None => Some((SandboxErrorCode::S001, bad_id_message(sandbox_id))),
        Some(id) => if !known.contains_key(id) {
            Some((SandboxErrorCode::S002, uuid_hyphenated(id)))
        } else if known[id].stopped {
            Some((SandboxErrorCode::S004, uuid_hyphenated(id)))
        } else {
            None
        },
    }
}

/// The sandbox that `sandbox_id` names.
pub open spec fn fs_target(sandbox_id: Seq<char>, known: Map<u128, SandboxState>) -> SandboxState {
    known[uuid_parsed(sandbox_id)->0]
}

/// `known` after a file operation that was not refused: the sandbox counts as
/// used at `now`, and nothing else changes.
pub open spec fn fs_used(
    sandbox_id: Seq<char>,
    known: Map<u128, SandboxState>,
    now: u64,
) -> Map<u128, SandboxState> {
    known.insert(uuid_parsed(sandbox_id)->0, touched(fs_target(sandbox_id, known), now))
}

/// Let a file operation in: the shell socket of the sandbox it is for.
pub fn enter(sandbox_id: &str, registry: &mut SandboxRegistry, now: u64) -> (r: Result<
    String,
    SandboxError,
>)
    ensures
        match fs_refusal(sandbox_id@, old(registry)@) {
            Some(why) => fails(r, why.0, why.1) && final(registry)@ == old(registry)@,
            None => {
                &&& r == Ok::<String, SandboxError>(
                    fs_target(sandbox_id@, old(registry)@).shell_sock,
                )
                &&& final(registry)@ == fs_used(sandbox_id@, old(registry)@, now)
            },
        },
{
    let id = match parse_sandbox_id(sandbox_id) {
        Ok(id) => id,
        Err(e) => return Err(e),
    };
    let state = match registry.get(id) {
        Ok(s) => s,
        Err(e) => return Err(e),
    };
    if state.stopped {
        return Err(SandboxError::AlreadyStopped(uuid_text(id)));
    }
    registry.bump_last_exec(id, now);
    Ok(state.shell_sock)
}

/// A file operation that is let in touches one sandbox's last use and nothing
/// else: it neither claims nor frees the sandbox for commands, and it stops,
/// adds and drops none.
pub proof fn fs_use_changes_only_last_use(
    sandbox_id: Seq<char>,
    known: Map<u128, SandboxState>,
    now: u64,
    id: u128,
)
    requires
        fs_refusal(sandbox_id, known) is None,
    ensures
        fs_used(sandbox_id, known, now).dom() == known.dom(),
        known.contains_key(id) ==> {
            let after = fs_used(sandbox_id, known, now)[id];
            &&& after == SandboxState { last_exec_at: after.last_exec_at, ..known[id] }
            &&& after.last_exec_at == (if uuid_parsed(sandbox_id) == Some(id) {
                now
            } else {
                known[id].last_exec_at
            })
        },
{
    assert(fs_used(sandbox_id, known, now).dom() =~= known.dom());
}

/// A command that runs in a sandbox refuses no file operation, and one that
/// ends admits none that was refused.
pub proof fn commands_do_not_gate_files(
    sandbox_id: Seq<char>,
    known: Map<u128, SandboxState>,
    id: u128,
    now: u64,
)
    requires
        known.contains_key(id),
    ensures
        fs_refusal(sandbox_id, known.insert(id, exec_begun(known[id], now))) == fs_refusal(
            sandbox_id,
            known,
        ),
        fs_refusal(sandbox_id, known.insert(id, exec_ended(known[id]))) == fs_refusal(
            sandbox_id,
            known,
        ),
{
}

/// A stopped sandbox refuses every file operation, and says that it is stopped.
pub proof fn stopped_refuses_files(
    sandbox_id: Seq<char>,
    known: Map<u128, SandboxState>,
    id: u128,
)
    requires
        uuid_parsed(sandbox_id) == Some(id),
        known.contains_key(id),
    ensures
        fs_refusal(sandbox_id, known.insert(id, halted(known[id]))) == Some(
            (SandboxErrorCode::S004, uuid_hyphenated(id)),
        ),
{
}

} // verus!
