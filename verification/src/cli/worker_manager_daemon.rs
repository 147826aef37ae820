//! What the worker manager daemon says of its operations, where it works and
//! what it takes down with it.

use crate::daemon_exit::ExitReason;
use crate::text::{opt_str, same_text, texts};
use vstd::prelude::*;

verus! {

/// The operations, in the order in which they are described.
pub open spec fn worker_ops_spec() -> Seq<Seq<char>> {
    seq![
        "worker::add"@,
        "worker::remove"@,
        "worker::update"@,
        "worker::start"@,
        "worker::stop"@,
        "worker::list"@,
        "worker::clear"@,
        "worker::logs"@,
        "worker::schema"@,
    ]
}

/// The operations, in the order in which they are described.
pub fn worker_ops() -> (r: Vec<String>)
    ensures
        texts(r@) == worker_ops_spec(),
{
    let mut r: Vec<String> = Vec::new();
    r.push("worker::add".to_owned());
    r.push("worker::remove".to_owned());
    r.push("worker::update".to_owned());
    r.push("worker::start".to_owned());
    r.push("worker::stop".to_owned());
    r.push("worker::list".to_owned());
    r.push("worker::clear".to_owned());
    r.push("worker::logs".to_owned());
    r.push("worker::schema".to_owned());
    r
}

/// What an operation does, in words.
pub open spec fn description_of(id: Seq<char>) -> Seq<char> {
    if id == "worker::add"@ {
        "Install a worker from registry name or OCI ref"@
    } else if id == "worker::remove"@ {
        "Uninstall workers and clear their artifacts"@
    } else if id == "worker::update"@ {
        "Reinstall workers preserving config"@
    } else if id == "worker::start"@ {
        "Start a configured worker"@
    } else if id == "worker::stop"@ {
        "Stop a running worker"@
    } else if id == "worker::list"@ {
        "List installed workers"@
    } else if id == "worker::clear"@ {
        "Wipe worker artifacts"@
    } else if id == "worker::logs"@ {
        "Read a worker's recent stdout/stderr log lines from the engine host. `tail` bounds lines per stream (default 100, max 1000)."@
    } else if id == "worker::schema"@ {
        "Introspect request/response schemas for worker::* triggers. Optional `function_id` filters to a single trigger."@
    } else {
        ""@
    }
}

/// What an operation does, in words.
pub fn op_description(function_id: &str) -> (r: &'static str)
    ensures
        r@ == description_of(function_id@),
{
    if same_text(function_id, "worker::add") {
        "Install a worker from registry name or OCI ref"
    } else if same_text(function_id, "worker::remove") {
        "Uninstall workers and clear their artifacts"
    } else if same_text(function_id, "worker::update") {
        "Reinstall workers preserving config"
    } else if same_text(function_id, "worker::start") {
        "Start a configured worker"
    } else if same_text(function_id, "worker::stop") {
        "Stop a running worker"
    } else if same_text(function_id, "worker::list") {
        "List installed workers"
    } else if same_text(function_id, "worker::clear") {
        "Wipe worker artifacts"
    } else if same_text(function_id, "worker::logs") {
        "Read a worker's recent stdout/stderr log lines from the engine host. `tail` bounds lines per stream (default 100, max 1000)."
    } else if same_text(function_id, "worker::schema") {
        "Introspect request/response schemas for worker::* triggers. Optional `function_id` filters to a single trigger."
    } else {
        ""
    }
}

/// How long an operation may take, in milliseconds, and whether doing it twice
/// is doing it once.
pub open spec fn metadata_of(id: Seq<char>) -> (u64, bool) {
    if id == "worker::add"@ || id == "worker::update"@ {
        (600_000, true)
    } else if id == "worker::remove"@ || id == "worker::clear"@ {
        (30_000, true)
    } else if id == "worker::start"@ {
        (60_000, false)
    } else if id == "worker::list"@ || id == "worker::logs"@ || id == "worker::schema"@ {
        (10_000, true)
    } else {
        (30_000, false)
    }
}

/// How long an operation may take, in milliseconds, and whether doing it twice
/// is doing it once.
pub fn op_metadata(function_id: &str) -> (r: (u64, bool))
    ensures
        r == metadata_of(function_id@),
{
    if same_text(function_id, "worker::add") || same_text(function_id, "worker::update") {
        (600_000, true)
    } else if same_text(function_id, "worker::remove") || same_text(function_id, "worker::clear") {
        (30_000, true)
    } else if same_text(function_id, "worker::start") {
        (60_000, false)
    } else if same_text(function_id, "worker::list") || same_text(function_id, "worker::logs")
        || same_text(function_id, "worker::schema") {
        (10_000, true)
    } else {
        (30_000, false)
    }
}

/// What the schema listing says of an operation, besides the schemas.
#[derive(Debug, Clone, PartialEq, Eq)]
pub struct SchemaEntry {
    pub function_id: String,
    pub description: String,
    pub default_timeout_ms: u64,
    pub idempotent: bool,
}

/// `e` describes the operation `id`.
pub open spec fn describes(e: SchemaEntry, id: Seq<char>) -> bool {
    &&& e.function_id@ == id
    &&& e.description@ == description_of(id)
    &&& (e.default_timeout_ms, e.idempotent) == metadata_of(id)
}

/// Those of `ids` that a filter asks for: all without one.
pub open spec fn selected(ids: Seq<Seq<char>>, filter: Option<Seq<char>>) -> Seq<Seq<char>>
    decreases ids.len(),
{
    if ids.len() == 0 {
        Seq::empty()
    } else if filter is None || filter == Some(ids.last()) {
        selected(ids.drop_last(), filter).push(ids.last())
    } else {
        selected(ids.drop_last(), filter)
    }
}

/// The operations that a filter asks for, described.
pub fn schema_entries(filter: Option<&str>) -> (r: Vec<SchemaEntry>)
    ensures
        ({
            let ids = selected(worker_ops_spec(), opt_str(filter));
            &&& r@.len() == ids.len()
            &&& forall|i: int| 0 <= i < ids.len() ==> describes(#[trigger] r@[i], ids[i])
        }),
{
    let ids = worker_ops();
    let ghost all = worker_ops_spec();
    let mut r: Vec<SchemaEntry> = Vec::new();
    let mut i: usize = 0;
    assert(all.take(0) == Seq::<Seq<char>>::empty());
    while i < ids.len()
        invariant
            i <= ids@.len(),
            texts(ids@) == all,
            r@.len() == selected(all.take(i as int), opt_str(filter)).len(),
            forall|j: int|
                0 <= j < r@.len() ==> describes(
                    #[trigger] r@[j],
                    selected(all.take(i as int), opt_str(filter))[j],
                ),
        decreases ids@.len() - i,
    {
        assert(all.take(i + 1).drop_last() == all.take(i as int));
        assert(all[i as int] == ids@[i as int]@);
        let wanted = match filter {
            Some(f) => same_text(f, ids[i].as_str()),
            None => true,
        };
        if wanted {
            let (default_timeout_ms, idempotent) = op_metadata(ids[i].as_str());
            r.push(
                SchemaEntry {
                    function_id: ids[i].clone(),
                    description: op_description(ids[i].as_str()).to_owned(),
                    default_timeout_ms,
                    idempotent,
                },
            );
        }
        i += 1;
    }
    assert(all.take(i as int) == all);
    r
}

/// The project that the daemon works on: the one it is told, the
/// environment's, the one it runs in, or the current directory.
pub fn project_root(
    told: Option<String>,
    environment: Option<String>,
    current: Option<String>,
) -> (r: String)
    ensures
        r@ == (match (told, environment, current) {
            (Some(p), _, _) => p@,
            (None, Some(p), _) => p@,
            (None, None, Some(p)) => p@,
            (None, None, None) => "."@,
        }),
{
    match told {
        Some(p) => p,
        None => match environment {
            Some(p) => p,
            None => match current {
                Some(p) => p,
                None => ".".to_owned(),
            },
        },
    }
}

/// Whether the daemon stops the managed workers before it ends: nothing that
/// the engine started outlives the engine.
pub fn reaps_workers(reason: ExitReason) -> (r: bool)
    ensures
        r == (reason is EngineGone),
{
    match reason {
        ExitReason::EngineGone => true,
        _ => false,
    }
}

/// Seconds that stopping one worker may take at the end.
pub const REAP_TIMEOUT_SECS: u64 = 10;

/// What stopping a worker at the end came to.
#[derive(Debug, Clone, Copy, PartialEq, Eq)]
pub enum ReapReport {
    Reaped,
    Failed(i32),
    TimedOut,
}

/// What stopping a worker at the end came to, given its exit code if there was
/// one in time.
pub fn reap_report(code: Option<i32>) -> (r: ReapReport)
    ensures
        r == (match code {
            Some(c) => if c == 0 {
                ReapReport::Reaped
            } else {
                ReapReport::Failed(c)
            },
            None => ReapReport::TimedOut,
        }),
{
    match code {
        Some(c) => if c == 0 {
            ReapReport::Reaped
        } else {
            ReapReport::Failed(c)
        },
        None => ReapReport::TimedOut,
    }
}

/// Every operation that is listed is described.
pub proof fn listed_ops_are_described(i: int)
    requires
        0 <= i < worker_ops_spec().len(),
    ensures
        description_of(worker_ops_spec()[i]).len() > 0,
{
    reveal_strlit("Install a worker from registry name or OCI ref");
    reveal_strlit("Uninstall workers and clear their artifacts");
    reveal_strlit("Reinstall workers preserving config");
    reveal_strlit("Start a configured worker");
    reveal_strlit("Stop a running worker");
    reveal_strlit("List installed workers");
    reveal_strlit("Wipe worker artifacts");
    reveal_strlit("Read a worker's recent stdout/stderr log lines from the engine host. `tail` bounds lines per stream (default 100, max 1000).");
    reveal_strlit("Introspect request/response schemas for worker::* triggers. Optional `function_id` filters to a single trigger.");
}

} // verus!
