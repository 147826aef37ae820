//! Laws of the command line and of the worker manager daemon.

use crate::cli::dispatch::{
    add_options, add_progress, batch_exit_code, batch_step, begin_batch, clear_options,
    clear_prompt, confirms, consent, error_line, first_command, is_flag, is_sandbox_invocation,
    list_row, parse_source_for_cli, refusal_message, reinstall_options, remove_options,
    remove_prompt, start_options, update_names, AddOptions, BatchStep, Consent, ListRow, Selection,
    StartOptions, WorkerSource,
};
use crate::cli::worker_manager_daemon::{
    describes, op_description, op_metadata, project_root, reap_report, reaps_workers,
    schema_entries, selected, worker_ops, worker_ops_spec, ReapReport, SchemaEntry,
};
use crate::daemon_exit::ExitReason;
use crate::laws::words::lemma_split;
use crate::numbers::{decimal_reads_back, parsed_unsigned, u64_text};
use crate::text::{ascii_lowered, join_strings, opt_str, opt_text, split_at_first, texts, trimmed};
use vstd::prelude::*;

verus! {

/// Where a worker comes from: a path where it is one; an image where its name
/// holds a slash, or a colon and no at sign; and the registry otherwise, at the
/// version after the first at sign if there is one.
pub proof fn sources_are_told_by_their_names(input: &str, local: bool, r: WorkerSource)
    requires
        call_ensures(parse_source_for_cli, (input, local), r),
    ensures
        r is Local <==> local,
        r is Oci <==> !local && (input@.contains('/') || (input@.contains(':') && !input@.contains(
            '@',
        ))),
        r matches WorkerSource::Local { path } ==> path@ == input@,
        r matches WorkerSource::Oci { reference } ==> reference@ == input@,
        r matches WorkerSource::Registry { name, version } ==> {
            &&& !name@.contains('@')
            &&& version matches Some(v) ==> input@ == name@.push('@') + v@
            &&& version is None ==> input@ == name@
            &&& version is Some <==> input@.contains('@')
        },
{
    lemma_split(input@, '@');
    match split_at_first(input@, '@') {
        Some(p) => {
            assert((p.0.push('@') + p.1)[p.0.len() as int] == '@');
        },
        None => {},
    }
}

/// Adding and reinstalling ask for the same worker; adding does what it is told
/// about force and waiting, and reinstalling forces and does not wait.
pub proof fn reinstalling_is_adding_by_force(
    name: &str,
    local: bool,
    force: bool,
    reset_config: bool,
    no_wait: bool,
    source: WorkerSource,
    add: AddOptions,
    again: AddOptions,
)
    requires
        call_ensures(parse_source_for_cli, (name, local), source),
        call_ensures(add_options, (name, local, force, reset_config, no_wait), add),
        call_ensures(reinstall_options, (name, local, reset_config), again),
    ensures
        add.force == force,
        add.reset_config == reset_config,
        add.wait == !no_wait,
        again.force,
        again.reset_config == reset_config,
        !again.wait,
        source is Local <==> add.source is Local,
        source is Oci <==> add.source is Oci,
        source is Local <==> again.source is Local,
        source is Oci <==> again.source is Oci,
        add.source matches WorkerSource::Local { path } ==> path@ == name@,
        again.source matches WorkerSource::Local { path } ==> path@ == name@,
        add.source matches WorkerSource::Oci { reference } ==> reference@ == name@,
        again.source matches WorkerSource::Oci { reference } ==> reference@ == name@,
        add.source matches WorkerSource::Registry { name: n, version: v }
            ==> source matches WorkerSource::Registry {
            name: m,
            version: w,
        } && n@ == m@ && opt_text(v) == opt_text(w),
        again.source matches WorkerSource::Registry { name: n, version: v }
            ==> source matches WorkerSource::Registry {
            name: m,
            version: w,
        } && n@ == m@ && opt_text(v) == opt_text(w),
{
}

/// A command that does several things exits cleanly if and only if none of them
/// failed.
pub proof fn any_failure_fails_the_batch(failures: usize, r: i32)
    requires
        call_ensures(batch_exit_code, (failures,), r),
    ensures
        r == 0 <==> failures == 0,
        r == 0 || r == 1,
{
}

/// A command that does several things begins with the first, and with nothing to
/// do is done.
pub proof fn batch_begins_with_the_first(total: usize, r: BatchStep)
    requires
        call_ensures(begin_batch, (total,), r),
    ensures
        total > 0 ==> r == (BatchStep::Do { index: 0, failures: 0 }),
        total == 0 ==> r == BatchStep::Exit(0),
{
}

/// After each thing comes the next, whatever became of it, and a failure is
/// counted; after the last the command exits, cleanly if and only if nothing
/// failed.
pub proof fn batch_goes_on_whatever_fails(
    total: usize,
    index: usize,
    failures: usize,
    failed: bool,
    r: BatchStep,
)
    requires
        call_ensures(batch_step, (total, index, failures, failed), r),
        index < total,
        failures <= index,
    ensures
        ({
            let count = failures + (if failed {
                1int
            } else {
                0
            });
            &&& index + 1 < total ==> (r matches BatchStep::Do { index: next, failures: counted }
                && next == index + 1 && counted == count)
            &&& index + 1 == total ==> r == BatchStep::Exit(
                if count == 0 {
                    0
                } else {
                    1
                },
            )
        }),
{
}

/// How far an `add` is, is told of where there are several, and counted from
/// one.
pub proof fn progress_is_told_of_several(
    index: usize,
    total: usize,
    name: &str,
    at: String,
    of: String,
    r: Option<String>,
)
    requires
        call_ensures(add_progress, (index, total, name), r),
        index < total <= u64::MAX,
        call_ensures(u64_text, ((index + 1) as u64,), at),
        call_ensures(u64_text, (total as u64,), of),
    ensures
        r is Some <==> total > 1,
        r is Some ==> r->0@ == "  ["@ + at@ + "/"@ + of@ + "] Adding "@ + name@ + "..."@,
{
}

/// Nothing destructive is done without consent: given beforehand, or asked of
/// somebody who is there.
pub proof fn consent_is_given_or_asked(yes: bool, terminal: bool, r: Consent)
    requires
        call_ensures(consent, (yes, terminal), r),
    ensures
        r is Given <==> yes,
        r is Ask <==> !yes && terminal,
        r is Refused <==> !yes && !terminal,
{
}

/// Only a plain yes is one: `y` or `yes` in any case, whitespace around it aside.
pub proof fn only_yes_is_yes(line: &str, r: bool)
    requires
        call_ensures(confirms, (line,), r),
    ensures
        r <==> ascii_lowered(trimmed(line@)) == "y"@ || ascii_lowered(trimmed(line@)) == "yes"@,
{
}

/// Removing is of the workers named; clearing is of the one named, and of all
/// only where none is; updating is of the one named.
pub proof fn selections_are_those_named(
    names: Vec<String>,
    name: Option<String>,
    removed: Selection,
    cleared: Selection,
    updated: Vec<String>,
)
    requires
        call_ensures(remove_options, (names,), removed),
        call_ensures(clear_options, (name,), cleared),
        call_ensures(update_names, (name,), updated),
    ensures
        removed.names == names && !removed.all,
        cleared.all <==> name is None,
        name is None ==> cleared.names@.len() == 0 && updated@.len() == 0,
        name matches Some(n) ==> cleared.names@.len() == 1 && cleared.names@[0]@ == n@
            && updated@.len() == 1 && updated@[0]@ == n@,
{
    assert(texts(cleared.names@).len() == cleared.names@.len());
    assert(texts(updated@).len() == updated@.len());
    if name is Some {
        assert(texts(cleared.names@)[0] == cleared.names@[0]@);
        assert(texts(updated@)[0] == updated@[0]@);
    }
}

/// A start is of the worker named, on the port and with the configuration given,
/// and waits unless told not to.
pub proof fn start_is_as_told(
    name: String,
    port: u16,
    config: Option<String>,
    no_wait: bool,
    r: StartOptions,
)
    requires
        call_ensures(start_options, (name, port, config, no_wait), r),
    ensures
        r.name == name,
        r.port == Some(port),
        r.config == config,
        r.wait <==> !no_wait,
{
}

/// A row of the list shows the worker's name, whether it runs, and its version
/// and process where they are known.
pub proof fn rows_show_how_workers_stand(
    name: &str,
    version: Option<String>,
    pid: Option<u32>,
    running: bool,
    r: ListRow,
)
    requires
        call_ensures(list_row, (name, version, pid, running), r),
    ensures
        r.name@ == name@,
        version matches Some(v) ==> r.version@ == v@,
        version is None ==> r.version@ == "-"@,
        pid matches Some(p) ==> parsed_unsigned(r.pid@, u32::MAX as nat) == Some(p as nat),
        pid is None ==> r.pid@ == "-"@,
        running ==> r.status@ == "running"@,
        !running ==> r.status@ == "stopped"@,
{
    if pid is Some {
        decimal_reads_back(pid->0 as nat, u32::MAX as nat);
    }
}

proof fn lemma_first_command(args: Seq<Seq<char>>, from: int, i: int)
    requires
        0 <= from <= i <= args.len(),
        forall|j: int| from <= j < i ==> is_flag(#[trigger] args[j]),
        i < args.len() ==> !is_flag(args[i]),
    ensures
        i < args.len() ==> first_command(args, from) == Some(args[i]),
        i == args.len() ==> first_command(args, from) is None,
    decreases i - from,
{
    if from < i {
        assert(is_flag(args[from]));
        lemma_first_command(args, from + 1, i);
    }
}

/// A command line is for sandboxes if and only if the first argument after the
/// program's name that is no option is `sandbox`.
pub proof fn sandbox_is_the_first_command(args: &[String], r: bool, i: int)
    requires
        call_ensures(is_sandbox_invocation, (args,), r),
        1 <= i < args@.len(),
        forall|j: int|
            1 <= j < i ==> (#[trigger] args@[j])@.len() > 0 && args@[j]@[0] == '-',
        !(args@[i]@.len() > 0 && args@[i]@[0] == '-'),
    ensures
        r <==> args@[i]@ == "sandbox"@,
{
    let t = texts(args@);
    assert(t.len() == args@.len());
    assert forall|j: int| 1 <= j < i implies is_flag(#[trigger] t[j]) by {
        assert(t[j] == args@[j]@);
    }
    assert(t[i] == args@[i]@);
    lemma_first_command(t, 1, i);
}

/// The managed workers are taken down if and only if the engine is gone.
pub proof fn workers_go_with_the_engine(reason: ExitReason, r: bool)
    requires
        call_ensures(reaps_workers, (reason,), r),
    ensures
        r <==> reason is EngineGone,
{
}

/// A worker was taken down if and only if stopping it ended in time and cleanly.
pub proof fn only_a_clean_end_is_one(code: Option<i32>, r: ReapReport)
    requires
        call_ensures(reap_report, (code,), r),
    ensures
        r is Reaped <==> code == Some(0i32),
        r is TimedOut <==> code is None,
        forall|c: i32| c != 0 && code == Some(c) ==> r == ReapReport::Failed(c),
{
}

/// The daemon works on the project that it is told, else on the environment's,
/// else on the one it runs in.
pub proof fn project_is_the_one_told(
    told: Option<String>,
    environment: Option<String>,
    current: Option<String>,
    r: String,
)
    requires
        call_ensures(project_root, (told, environment, current), r),
    ensures
        told matches Some(p) ==> r@ == p@,
        told is None ==> (environment matches Some(p) ==> r@ == p@),
        told is None && environment is None ==> (current matches Some(p) ==> r@ == p@),
        told is None && environment is None && current is None ==> r@ == "."@,
{
}

proof fn lemma_selected(ids: Seq<Seq<char>>, filter: Option<Seq<char>>, id: Seq<char>)
    ensures
        selected(ids, filter).contains(id) <==> ids.contains(id) && (filter is None || filter
            == Some(id)),
        filter is None ==> selected(ids, filter) == ids,
    decreases ids.len(),
{
    if ids.len() > 0 {
        let init = ids.drop_last();
        lemma_selected(init, filter, id);
        let some = selected(init, filter);
        let all = selected(ids, filter);
        if ids.contains(id) {
            let i = choose|i: int| 0 <= i < ids.len() && ids[i] == id;
            if i < init.len() {
                assert(init[i] == id);
            }
        }
        if init.contains(id) {
            let i = choose|i: int| 0 <= i < init.len() && init[i] == id;
            assert(ids[i] == id);
        }
        assert(ids[ids.len() - 1] == ids.last());
        if some.contains(id) {
            let i = choose|i: int| 0 <= i < some.len() && some[i] == id;
            assert(all[i] == id);
        }
        if filter is None || filter == Some(ids.last()) {
            assert(all == some.push(ids.last()));
            assert(all[some.len() as int] == ids.last());
            if all.contains(id) {
                let i = choose|i: int| 0 <= i < all.len() && all[i] == id;
                if i < some.len() {
                    assert(some[i] == id);
                }
            }
        }
        if filter is None {
            assert(all =~= ids);
        }
    }
}

/// The schema listing is of every operation, in order; with a filter it is of
/// the operation that the filter names, if there is one. Each is described as it
/// is anywhere else.
pub proof fn schemas_are_of_the_operations_asked_for(
    filter: Option<&str>,
    ops: Vec<String>,
    r: Vec<SchemaEntry>,
    id: &str,
    words: &'static str,
    metadata: (u64, bool),
)
    requires
        call_ensures(schema_entries, (filter,), r),
        call_ensures(worker_ops, (), ops),
        call_ensures(op_description, (id,), words),
        call_ensures(op_metadata, (id,), metadata),
    ensures
        (exists|i: int| 0 <= i < r@.len() && (#[trigger] r@[i]).function_id@ == id@) <==> {
            &&& exists|i: int| 0 <= i < ops@.len() && (#[trigger] ops@[i])@ == id@
            &&& filter matches Some(f) ==> f@ == id@
        },
        forall|i: int|
            0 <= i < r@.len() && (#[trigger] r@[i]).function_id@ == id@ ==> r@[i].description@
                == words@ && (r@[i].default_timeout_ms, r@[i].idempotent) == metadata,
        filter is None ==> r@.len() == ops@.len(),
{
    let ids = worker_ops_spec();
    let some = selected(ids, opt_str(filter));
    lemma_selected(ids, opt_str(filter), id@);
    assert(texts(ops@).len() == ops@.len());
    assert forall|i: int| 0 <= i < ops@.len() implies #[trigger] ids[i] == ops@[i]@ by {
        assert(texts(ops@)[i] == ops@[i]@);
    }
    if exists|i: int| 0 <= i < r@.len() && (#[trigger] r@[i]).function_id@ == id@ {
        let i = choose|i: int| 0 <= i < r@.len() && (#[trigger] r@[i]).function_id@ == id@;
        assert(describes(r@[i], some[i]));
        assert(some[i] == id@);
        assert(ids.contains(id@));
        let j = choose|j: int| 0 <= j < ids.len() && ids[j] == id@;
        assert(ops@[j]@ == id@);
    }
    if exists|i: int| 0 <= i < ops@.len() && (#[trigger] ops@[i])@ == id@ {
        let i = choose|i: int| 0 <= i < ops@.len() && (#[trigger] ops@[i])@ == id@;
        assert(ids[i] == id@);
        assert(ids.contains(id@));
        if filter is None || opt_str(filter) == Some(id@) {
            assert(some.contains(id@));
            let j = choose|j: int| 0 <= j < some.len() && some[j] == id@;
            assert(describes(r@[j], some[j]));
        }
    }
    assert forall|i: int| 0 <= i < r@.len() && (#[trigger] r@[i]).function_id@
        == id@ implies r@[i].description@ == words@ && (
        r@[i].default_timeout_ms,
        r@[i].idempotent,
    ) == metadata by {
        assert(describes(r@[i], some[i]));
    }
}

/// Doing an operation twice is doing it once, but for starting and stopping; the
/// ones that fetch get ten minutes, starting one, asking ten seconds, and the
/// others half a minute.
pub proof fn operations_have_their_time(id: &str, r: (u64, bool))
    requires
        call_ensures(op_metadata, (id,), r),
    ensures
        id@ == "worker::add"@ || id@ == "worker::update"@ ==> r == (600_000u64, true),
        id@ == "worker::remove"@ || id@ == "worker::clear"@ ==> r == (30_000u64, true),
        id@ == "worker::start"@ ==> r == (60_000u64, false),
        id@ == "worker::stop"@ ==> r == (30_000u64, false),
        id@ == "worker::list"@ || id@ == "worker::logs"@ || id@ == "worker::schema"@ ==> r == (
            10_000u64,
            true,
        ),
{
    reveal_strlit("worker::add");
    reveal_strlit("worker::update");
    reveal_strlit("worker::remove");
    reveal_strlit("worker::clear");
    reveal_strlit("worker::start");
    reveal_strlit("worker::stop");
    reveal_strlit("worker::list");
    reveal_strlit("worker::logs");
    reveal_strlit("worker::schema");
    assert("worker::add"@.len() == 11);
    assert("worker::stop"@.len() == 12 && "worker::list"@.len() == 12);
    assert("worker::logs"@.len() == 12);
    assert("worker::start"@.len() == 13 && "worker::clear"@.len() == 13);
    assert("worker::update"@.len() == 14 && "worker::remove"@.len() == 14);
    assert("worker::schema"@.len() == 14);
    assert("worker::stop"@[8] == 's');
    assert("worker::list"@[8] == 'l');
    assert("worker::logs"@[8] == 'l');
    assert("worker::start"@[8] == 's');
    assert("worker::clear"@[8] == 'c');
    assert("worker::update"@[8] == 'u');
    assert("worker::remove"@[8] == 'r');
    assert("worker::schema"@[8] == 's');
}

/// The user is asked about exactly the workers that are named, or about all of
/// them.
pub proof fn users_are_asked_about_what_they_named(
    selection: &Selection,
    names: &[String],
    sep: &str,
    listed: String,
    remove: String,
    clear: String,
)
    requires
        names@ == selection.names@,
        sep@ == ", "@,
        call_ensures(join_strings, (names, sep), listed),
        call_ensures(remove_prompt, (names,), remove),
        call_ensures(clear_prompt, (selection,), clear),
    ensures
        remove@ == "Remove worker(s) '"@ + listed@ + "'? [y/N] "@,
        selection.all ==> clear@ == "Clear all worker artifacts? [y/N] "@,
        !selection.all ==> clear@ == "Clear artifacts for '"@ + listed@ + "'? [y/N] "@,
{
    reveal_strlit("Clear ");
    reveal_strlit("all worker artifacts");
    reveal_strlit("? [y/N] ");
    reveal_strlit("'? [y/N] ");
    reveal_strlit("'");
    reveal_strlit("artifacts for '");
    reveal_strlit("Clear artifacts for '");
    reveal_strlit("Clear all worker artifacts? [y/N] ");
    if selection.all {
        assert(clear@ =~= "Clear all worker artifacts? [y/N] "@);
    } else {
        assert(clear@ =~= "Clear artifacts for '"@ + listed@ + "'? [y/N] "@);
    }
}

/// A refused action is told by its name, and a failed one by its code and its
/// message.
pub proof fn failures_are_told_by_name(
    action: &str,
    refused: String,
    code: &str,
    message: &str,
    line: String,
)
    requires
        call_ensures(refusal_message, (action,), refused),
        call_ensures(error_line, (code, message), line),
    ensures
        refused@ == "error: "@ + action@
            + " is destructive; pass -y/--yes for non-interactive use"@,
        line@ == "error: ["@ + code@ + "] "@ + message@,
{
}

/// The operations are those on workers, each once: installing, removing,
/// updating, starting, stopping, listing, clearing, reading logs, and listing the
/// operations' schemas.
pub proof fn operations_are_those_on_workers(ops: Vec<String>)
    requires
        call_ensures(worker_ops, (), ops),
    ensures
        ops@.len() == 9,
        ops@[0]@ == "worker::add"@,
        ops@[1]@ == "worker::remove"@,
        ops@[2]@ == "worker::update"@,
        ops@[3]@ == "worker::start"@,
        ops@[4]@ == "worker::stop"@,
        ops@[5]@ == "worker::list"@,
        ops@[6]@ == "worker::clear"@,
        ops@[7]@ == "worker::logs"@,
        ops@[8]@ == "worker::schema"@,
{
    let t = texts(ops@);
    assert(t.len() == ops@.len());
    assert(forall|i: int| 0 <= i < ops@.len() ==> t[i] == (#[trigger] ops@[i])@);
}

proof fn lemma_operations_differ()
    ensures
        "worker::add"@ != "worker::remove"@,
        "worker::start"@ != "worker::clear"@,
        "worker::stop"@ != "worker::list"@,
        "worker::stop"@ != "worker::logs"@,
        "worker::list"@ != "worker::logs"@,
        "worker::update"@ != "worker::remove"@,
        "worker::update"@ != "worker::schema"@,
        "worker::remove"@ != "worker::schema"@,
        "worker::add"@.len() == 11,
        "worker::stop"@.len() == 12 && "worker::list"@.len() == 12 && "worker::logs"@.len() == 12,
        "worker::start"@.len() == 13 && "worker::clear"@.len() == 13,
        "worker::update"@.len() == 14 && "worker::remove"@.len() == 14,
        "worker::schema"@.len() == 14,
{
    reveal_strlit("worker::add");
    reveal_strlit("worker::update");
    reveal_strlit("worker::remove");
    reveal_strlit("worker::clear");
    reveal_strlit("worker::start");
    reveal_strlit("worker::stop");
    reveal_strlit("worker::list");
    reveal_strlit("worker::logs");
    reveal_strlit("worker::schema");
    assert("worker::stop"@[8] == 's' && "worker::list"@[8] == 'l' && "worker::logs"@[8] == 'l');
    assert("worker::list"@[9] == 'i' && "worker::logs"@[9] == 'o');
    assert("worker::start"@[8] == 's' && "worker::clear"@[8] == 'c');
    assert("worker::update"@[8] == 'u' && "worker::remove"@[8] == 'r');
    assert("worker::schema"@[8] == 's');
}

/// Each operation is described by what it does, and what is no operation by
/// nothing.
pub proof fn operations_are_described(
    ops: Vec<String>,
    id: &str,
    r: &'static str,
)
    requires
        call_ensures(worker_ops, (), ops),
        call_ensures(op_description, (id,), r),
    ensures
        (exists|i: int| 0 <= i < ops@.len() && (#[trigger] ops@[i])@ == id@) || r@.len() == 0,
        id@ == "worker::add"@ ==> r@ == "Install a worker from registry name or OCI ref"@,
        id@ == "worker::remove"@ ==> r@ == "Uninstall workers and clear their artifacts"@,
        id@ == "worker::update"@ ==> r@ == "Reinstall workers preserving config"@,
        id@ == "worker::start"@ ==> r@ == "Start a configured worker"@,
        id@ == "worker::stop"@ ==> r@ == "Stop a running worker"@,
        id@ == "worker::list"@ ==> r@ == "List installed workers"@,
        id@ == "worker::clear"@ ==> r@ == "Wipe worker artifacts"@,
        id@ == "worker::logs"@ ==> r@
            == "Read a worker's recent stdout/stderr log lines from the engine host. `tail` bounds lines per stream (default 100, max 1000)."@,
        id@ == "worker::schema"@ ==> r@
            == "Introspect request/response schemas for worker::* triggers. Optional `function_id` filters to a single trigger."@,
{
    lemma_operations_differ();
    operations_are_those_on_workers(ops);
    reveal_strlit("");
}

} // verus!
