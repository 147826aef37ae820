//! The sandboxes that are known, by id.

use crate::daemon_exit::Lifeline;
use crate::ids::{uuid_hyphenated, uuid_text};
use crate::sandbox_daemon::errors::{fails, SandboxError, SandboxErrorCode};
use std::collections::HashMap;
use vstd::prelude::*;
use vstd::std_specs::iter::IteratorSpec;

verus! {

broadcast use vstd::std_specs::hash::group_hash_axioms;

/// A sandbox as it stands. Times are nanoseconds on the daemon's own clock.
#[derive(Debug, PartialEq, Eq)]
pub struct SandboxState {
    pub id: u128,
    pub name: Option<String>,
    pub image: String,
    pub rootfs: String,
    pub workdir: String,
    pub shell_sock: String,
    pub vm_pid: Option<u32>,
    /// What keeps the VM alive: it ends with the last holder.
    pub lifeline: Option<Lifeline>,
    pub created_at: u64,
    pub last_exec_at: u64,
    pub exec_in_progress: bool,
    pub idle_timeout_secs: u64,
    pub stopped: bool,
}

impl Clone for SandboxState {
    fn clone(&self) -> (r: SandboxState)
        ensures
            r == *self,
    {
        let name = match &self.name {
            Some(n) => Some(n.clone()),
            None => None,
        };
        SandboxState {
            id: self.id,
            name,
            image: self.image.clone(),
            rootfs: self.rootfs.clone(),
            workdir: self.workdir.clone(),
            shell_sock: self.shell_sock.clone(),
            vm_pid: self.vm_pid,
            lifeline: self.lifeline,
            created_at: self.created_at,
            last_exec_at: self.last_exec_at,
            exec_in_progress: self.exec_in_progress,
            idle_timeout_secs: self.idle_timeout_secs,
            stopped: self.stopped,
        }
    }
}

/// The sandboxes that are known. Each stands under its own id.
pub struct SandboxRegistry {
    states: HashMap<u128, SandboxState>,
}

impl View for SandboxRegistry {
    type V = Map<u128, SandboxState>;

    closed spec fn view(&self) -> Map<u128, SandboxState> {
        self.states@
    }
}

/// Every sandbox stands under its own id.
pub open spec fn keyed_by_id(m: Map<u128, SandboxState>) -> bool {
    forall|id: u128| #[trigger] m.contains_key(id) ==> m[id].id == id
}

/// What happens to a sandbox that a command starts in.
pub open spec fn exec_begun(s: SandboxState, now: u64) -> SandboxState {
    SandboxState { exec_in_progress: true, last_exec_at: now, ..s }
}

/// What happens to a sandbox whose command ends.
pub open spec fn exec_ended(s: SandboxState) -> SandboxState {
    SandboxState { exec_in_progress: false, ..s }
}

/// What happens to a sandbox that is used at `now`.
pub open spec fn touched(s: SandboxState, now: u64) -> SandboxState {
    SandboxState { last_exec_at: now, ..s }
}

/// What happens to a sandbox that stops.
pub open spec fn halted(s: SandboxState) -> SandboxState {
    SandboxState { stopped: true, ..s }
}

impl SandboxRegistry {
    #[verifier::type_invariant]
    spec fn well_formed(self) -> bool {
        keyed_by_id(self.states@)
    }

    /// A registry without sandboxes.
    pub fn new() -> (r: SandboxRegistry)
        ensures
            r@ == Map::<u128, SandboxState>::empty(),
    {
        SandboxRegistry { states: HashMap::new() }
    }

    /// How many sandboxes are known.
    pub fn count(&self) -> (r: usize)
        ensures
            r == self@.len(),
    {
        self.states.len()
    }

    /// Know a sandbox, in place of any of the same id.
    pub fn insert(&mut self, state: SandboxState)
        ensures
            final(self)@ == old(self)@.insert(state.id, state),
    {
        proof {
            use_type_invariant(&*self);
        }
        let mut states: HashMap<u128, SandboxState> = HashMap::new();
        std::mem::swap(&mut states, &mut self.states);
        states.insert(state.id, state);
        self.states = states;
    }

    /// The sandbox of this id.
    pub fn get(&self, id: u128) -> (r: Result<SandboxState, SandboxError>)
        ensures
            match r {
                Ok(s) => self@.contains_pair(id, s) && s.id == id,
                Err(_) => !self@.contains_key(id) && fails(
                    r,
                    SandboxErrorCode::S002,
                    uuid_hyphenated(id),
                ),
            },
    {
        proof {
            use_type_invariant(self);
        }
        match self.states.get(&id) {
            Some(s) => Ok(s.clone()),
            None => Err(SandboxError::NotFound(uuid_text(id))),
        }
    }

    /// Forget the sandbox of this id.
    pub fn remove(&mut self, id: u128)
        ensures
            final(self)@ == old(self)@.remove(id),
    {
        proof {
            use_type_invariant(&*self);
        }
        let mut states: HashMap<u128, SandboxState> = HashMap::new();
        std::mem::swap(&mut states, &mut self.states);
        states.remove(&id);
        self.states = states;
    }

    /// Claim the sandbox of this id for a command. There must be one, it must
    /// not be stopped, and no other command may run in it.
    pub fn begin_exec(&mut self, id: u128, now: u64) -> (r: Result<SandboxState, SandboxError>)
        ensures
            match r {
                Ok(s) => {
                    &&& old(self)@.contains_key(id)
                    &&& !old(self)@[id].stopped
                    &&& !old(self)@[id].exec_in_progress
                    &&& s == exec_begun(old(self)@[id], now)
                    &&& final(self)@ == old(self)@.insert(id, s)
                },
                Err(_) => {
                    &&& final(self)@ == old(self)@
                    &&& if !old(self)@.contains_key(id) {
                        fails(r, SandboxErrorCode::S002, uuid_hyphenated(id))
                    } else if old(self)@[id].stopped {
                        fails(r, SandboxErrorCode::S004, uuid_hyphenated(id))
                    } else {
                        &&& old(self)@[id].exec_in_progress
                        &&& fails(r, SandboxErrorCode::S003, uuid_hyphenated(id))
                    }
                },
            },
    {
        let found = self.get(id)?;
        if found.stopped {
            return Err(SandboxError::AlreadyStopped(uuid_text(id)));
        }
        if found.exec_in_progress {
            return Err(SandboxError::ConcurrentExec(uuid_text(id)));
        }
        let mut claimed = found;
        claimed.exec_in_progress = true;
        claimed.last_exec_at = now;
        let r = claimed.clone();
        self.insert(claimed);
        Ok(r)
    }

    /// Release the sandbox of this id from its command; one that is gone
    /// meanwhile stays gone.
    pub fn end_exec(&mut self, id: u128)
        ensures
            final(self)@ == (if old(self)@.contains_key(id) {
                old(self)@.insert(id, exec_ended(old(self)@[id]))
            } else {
                old(self)@
            }),
    {
        match self.get(id) {
            Ok(found) => {
                let mut s = found;
                s.exec_in_progress = false;
                self.insert(s);
            },
            Err(_) => {},
        }
    }

    /// Note that the sandbox of this id is in use.
    pub fn bump_last_exec(&mut self, id: u128, now: u64)
        ensures
            final(self)@ == (if old(self)@.contains_key(id) {
                old(self)@.insert(id, touched(old(self)@[id], now))
            } else {
                old(self)@
            }),
    {
        match self.get(id) {
            Ok(found) => {
                let mut s = found;
                s.last_exec_at = now;
                self.insert(s);
            },
            Err(_) => {},
        }
    }

    /// Mark the sandbox of this id as stopped.
    pub fn mark_stopped(&mut self, id: u128)
        ensures
            final(self)@ == (if old(self)@.contains_key(id) {
                old(self)@.insert(id, halted(old(self)@[id]))
            } else {
                old(self)@
            }),
    {
        match self.get(id) {
            Ok(found) => {
                let mut s = found;
                s.stopped = true;
                self.insert(s);
            },
            Err(_) => {},
        }
    }

    /// Every sandbox, each once, in no particular order.
    pub fn list(&self) -> (r: Vec<SandboxState>)
        ensures
            lists_all(r@, self@),
    {
        proof {
            use_type_invariant(self);
        }
        let ghost keys = self.states.keys().remaining();
        let mut r: Vec<SandboxState> = Vec::new();
        for k in it: self.states.keys()
            invariant
                it.seq() == keys,
                keyed_by_id(self@),
                keys.unref().no_duplicates(),
                keys.len() == self@.dom().len(),
                keys.unref().to_set() == self@.dom(),
                r@.len() == it.index(),
                forall|j: int|
                    0 <= j < r@.len() ==> #[trigger] r@[j].id == *keys[j] && self@.contains_pair(
                        r@[j].id,
                        r@[j],
                    ),
        {
            assert(keys.unref().to_set().contains(*k)) by {
                assert(keys.unref()[it.index() as int] == *k);
            }
            match self.states.get(k) {
                Some(s) => {
                    r.push(s.clone());
                },
                None => {},
            }
        }
        assert forall|i: int, j: int| 0 <= i < j < r@.len() implies (#[trigger] r@[i]).id != (
        #[trigger] r@[j]).id by {
            assert(keys.unref()[i] != keys.unref()[j]);
        }
        assert forall|id: u128| #[trigger] self@.contains_key(id) implies exists|i: int|
            0 <= i < r@.len() && (#[trigger] r@[i]).id == id by {
            assert(keys.unref().to_set().contains(id));
            let i = choose|i: int| 0 <= i < keys.unref().len() && keys.unref()[i] == id;
            assert(r@[i].id == id);
        }
        r
    }
}

/// `list` holds every sandbox of `m`, each once.
pub open spec fn lists_all(list: Seq<SandboxState>, m: Map<u128, SandboxState>) -> bool {
    &&& list.len() == m.len()
    &&& forall|i: int| 0 <= i < list.len() ==> m.contains_pair((#[trigger] list[i]).id, list[i])
    &&& forall|i: int, j: int|
        0 <= i < j < list.len() ==> (#[trigger] list[i]).id != (#[trigger] list[j]).id
    &&& forall|id: u128| #[trigger]
        m.contains_key(id) ==> exists|i: int| 0 <= i < list.len() && (#[trigger] list[i]).id == id
}

/// A sandbox that a command was started in admits no other until it is freed;
/// freeing it leaves it as it was, but for its last use.
pub proof fn claim_is_exclusive_and_undone(s: SandboxState, now: u64)
    requires
        !s.exec_in_progress,
    ensures
        exec_begun(s, now).exec_in_progress,
        exec_begun(s, now).stopped == s.stopped,
        exec_ended(exec_begun(s, now)) == touched(s, now),
{
}

/// Whatever is done to a sandbox, it stays the same sandbox: its id, its VM and
/// its directories are those it was created with.
pub proof fn identity_is_kept(s: SandboxState, now: u64)
    ensures
        forall|t: SandboxState|
            t == exec_begun(s, now) || t == exec_ended(s) || t == touched(s, now) || t == halted(s)
                ==> {
                &&& t.id == s.id
                &&& t.vm_pid == s.vm_pid
                &&& t.lifeline == s.lifeline
                &&& t.shell_sock == s.shell_sock
                &&& t.rootfs == s.rootfs
                &&& t.workdir == s.workdir
                &&& t.created_at == s.created_at
                &&& t.idle_timeout_secs == s.idle_timeout_secs
            },
{
}

} // verus!
