//! Listing the sandboxes.

use crate::ids::{uuid_hyphenated, uuid_parsed, uuid_text};
use crate::sandbox_daemon::registry::{lists_all, SandboxRegistry, SandboxState};
use vstd::prelude::*;

verus! {

/// Nanoseconds in a second.
pub const NANOS_PER_SEC: u64 = 1_000_000_000;

/// A request for the list of sandboxes.
#[derive(Debug, Clone, Copy, PartialEq, Eq)]
pub struct ListRequest {}

impl Default for ListRequest {
    fn default() -> (r: ListRequest)
        ensures
            r == (ListRequest {  }),
    {
        ListRequest {  }
    }
}

/// What the list says of a sandbox.
#[derive(Debug, Clone, PartialEq, Eq)]
pub struct SandboxSummary {
    pub sandbox_id: String,
    pub name: Option<String>,
    pub image: String,
    pub age_secs: u64,
    pub exec_in_progress: bool,
    pub stopped: bool,
}

/// The list of sandboxes.
#[derive(Debug, Clone, PartialEq, Eq)]
pub struct ListResponse {
    pub sandboxes: Vec<SandboxSummary>,
}

/// Nanoseconds from `then` to `now`, none if `then` is yet to come.
pub open spec fn elapsed(then: u64, now: u64) -> int {
    if now >= then {
        now - then
    } else {
        0
    }
}

/// `sum` is what the list says of `s` at `now`.
pub open spec fn summarises(sum: SandboxSummary, s: SandboxState, now: u64) -> bool {
    &&& sum.sandbox_id@ == uuid_hyphenated(s.id)
    &&& uuid_parsed(sum.sandbox_id@) == Some(s.id)
    &&& sum.name == s.name
    &&& sum.image == s.image
    &&& sum.age_secs == elapsed(s.created_at, now) / (NANOS_PER_SEC as int)
    &&& sum.exec_in_progress == s.exec_in_progress
    &&& sum.stopped == s.stopped
}

/// What the list says of a sandbox.
pub fn summarise(s: &SandboxState, now: u64) -> (r: SandboxSummary)
    ensures
        summarises(r, *s, now),
{
    let age: u64 = if now >= s.created_at {
        now - s.created_at
    } else {
        0
    };
    let name = match &s.name {
        Some(n) => Some(n.clone()),
        None => None,
    };
    SandboxSummary {
        sandbox_id: uuid_text(s.id),
        name,
        image: s.image.clone(),
        age_secs: age / NANOS_PER_SEC,
        exec_in_progress: s.exec_in_progress,
        stopped: s.stopped,
    }
}

/// List every sandbox, each once, in no particular order.
pub fn handle_list(_req: ListRequest, registry: &SandboxRegistry, now: u64) -> (r: ListResponse)
    ensures
        exists|list: Seq<SandboxState>|
            {
                &&& #[trigger] lists_all(list, registry@)
                &&& r.sandboxes@.len() == list.len()
                &&& forall|i: int|
                    0 <= i < list.len() ==> summarises(#[trigger] r.sandboxes@[i], list[i], now)
            },
{
    let all = registry.list();
    let mut sandboxes: Vec<SandboxSummary> = Vec::new();
    let mut i: usize = 0;
    while i < all.len()
        invariant
            i <= all@.len(),
            sandboxes@.len() == i,
            forall|j: int| 0 <= j < i ==> summarises(#[trigger] sandboxes@[j], all@[j], now),
        decreases all@.len() - i,
    {
        sandboxes.push(summarise(&all[i], now));
        i += 1;
    }
    assert(lists_all(all@, registry@));
    ListResponse { sandboxes }
}

} // verus!
