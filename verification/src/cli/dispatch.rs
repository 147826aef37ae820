//! What the command line asks for, before anything is done about it.

use crate::numbers::{decimal, u64_text};
use crate::text::{
    ascii_lowered, chars_of, concat, concat3, join_strings, join_with, opt_text, same_text,
    split_at_first, split_once, texts, to_ascii_lower, trim, trimmed,
};
use vstd::prelude::*;

verus! {

/// `arg` is an option, not a command.
pub open spec fn is_flag(arg: Seq<char>) -> bool {
    arg.len() > 0 && arg[0] == '-'
}

/// The first command among `args`, after the program's name.
pub open spec fn first_command(args: Seq<Seq<char>>, i: int) -> Option<Seq<char>>
    decreases args.len() - i,
{
    if i >= args.len() {
        None
    } else if is_flag(args[i]) {
        first_command(args, i + 1)
    } else {
        Some(args[i])
    }
}

/// Whether the command line is for sandboxes, and so is shown without this
/// program's own name.
pub fn is_sandbox_invocation(args: &[String]) -> (r: bool)
    ensures
        r == (first_command(texts(args@), 1) == Some("sandbox"@)),
{
    let ghost all = texts(args@);
    let mut i: usize = 1;
    while i < args.len()
        invariant
            1 <= i,
            all == texts(args@),
            first_command(all, 1) == first_command(all, i as int),
        decreases args@.len() - i,
    {
        assert(all[i as int] == args@[i as int]@);
        let v = chars_of(args[i].as_str());
        if !(v.len() > 0 && v[0] == '-') {
            return same_text(args[i].as_str(), "sandbox");
        }
        i += 1;
    }
    false
}

/// Where a worker comes from.
#[derive(Debug, Clone, PartialEq, Eq)]
pub enum WorkerSource {
    Local { path: String },
    Oci { reference: String },
    Registry { name: String, version: Option<String> },
}

/// `source` is where a worker comes from that is named `input`; `local` says
/// whether that is a path. A slash, or a colon without an at sign, makes an OCI
/// reference; anything else is a registry name, with a version after the first
/// at sign.
pub open spec fn names_source(source: WorkerSource, input: Seq<char>, local: bool) -> bool {
    if local {
        source is Local && source->path@ == input
    } else if input.contains('/') || (input.contains(':') && !input.contains('@')) {
        source is Oci && source->reference@ == input
    } else {
        &&& source is Registry
        &&& match split_at_first(input, '@') {
            Some(p) => source->name@ == p.0 && opt_text(source->version) == Some(p.1),
            None => source->name@ == input && source->version is None,
        }
    }
}

fn has_char(s: &str, c: char) -> (r: bool)
    ensures
        r == s@.contains(c),
{
    let v = chars_of(s);
    let mut i: usize = 0;
    while i < v.len()
        invariant
            i <= v@.len(),
            v@ == s@,
            forall|j: int| 0 <= j < i ==> s@[j] != c,
        decreases v@.len() - i,
    {
        if v[i] == c {
            assert(s@[i as int] == c);
            return true;
        }
        i += 1;
    }
    false
}

/// Where a worker comes from that is named `input` on the command line.
pub fn parse_source_for_cli(input: &str, local: bool) -> (r: WorkerSource)
    ensures
        names_source(r, input@, local),
{
    if local {
        return WorkerSource::Local { path: input.to_owned() };
    }
    if has_char(input, '/') || (has_char(input, ':') && !has_char(input, '@')) {
        return WorkerSource::Oci { reference: input.to_owned() };
    }
    match split_once(input, '@') {
        Some(p) => WorkerSource::Registry { name: p.0, version: Some(p.1) },
        None => WorkerSource::Registry { name: input.to_owned(), version: None },
    }
}

/// A worker to add.
#[derive(Debug, Clone, PartialEq, Eq)]
pub struct AddOptions {
    pub source: WorkerSource,
    pub force: bool,
    pub reset_config: bool,
    pub wait: bool,
}

/// What `add` asks for, for one of its workers.
pub fn add_options(name: &str, local: bool, force: bool, reset_config: bool, no_wait: bool) -> (r:
    AddOptions)
    ensures
        names_source(r.source, name@, local),
        r.force == force,
        r.reset_config == reset_config,
        r.wait == !no_wait,
{
    AddOptions { source: parse_source_for_cli(name, local), force, reset_config, wait: !no_wait }
}

/// What `reinstall` asks for, for one of its workers: it is an `add` that
/// replaces and does not wait.
pub fn reinstall_options(name: &str, local: bool, reset_config: bool) -> (r: AddOptions)
    ensures
        names_source(r.source, name@, local),
        r.force,
        r.reset_config == reset_config,
        !r.wait,
{
    AddOptions { source: parse_source_for_cli(name, local), force: true, reset_config, wait: false }
}

/// The line that tells how far an `add` of several workers is; one worker has
/// none.
pub fn add_progress(index: usize, total: usize, name: &str) -> (r: Option<String>)
    requires
        index < total,
    ensures
        opt_text(r) == (if total > 1 {
            Some(
                "  ["@ + decimal((index + 1) as nat) + "/"@ + decimal(total as nat) + "] Adding "@
                    + name@ + "..."@,
            )
        } else {
            None
        }),
{
    if total <= 1 {
        return None;
    }
    let mut line = concat3("  [", u64_text(index as u64 + 1).as_str(), "/");
    line.append(u64_text(total as u64).as_str());
    line.append("] Adding ");
    line.append(name);
    line.append("...");
    Some(line)
}

/// The exit code of a command that did several things.
pub fn batch_exit_code(failures: usize) -> (r: i32)
    ensures
        r == (if failures == 0 {
            0int
        } else {
            1int
        }),
{
    if failures == 0 {
        0
    } else {
        1
    }
}

/// How a command that does several things goes on.
#[derive(Debug, Clone, Copy, PartialEq, Eq)]
pub enum BatchStep {
    /// Do the thing at this index; so many have failed.
    Do { index: usize, failures: usize },
    /// Nothing is left to do: exit with this code.
    Exit(i32),
}

/// What a command that does `total` things does next after the first `index` of
/// them, of which `failures` failed.
pub open spec fn batch_at(total: nat, index: nat, failures: nat) -> BatchStep {
    if index < total {
        BatchStep::Do { index: index as usize, failures: failures as usize }
    } else if failures == 0 {
        BatchStep::Exit(0)
    } else {
        BatchStep::Exit(1)
    }
}

/// What a command that does `total` things does next after the thing at
/// `index`, with `failures` before it: whatever it came to, the next one is
/// done.
pub open spec fn batch_after(total: nat, index: nat, failures: nat, failed: bool) -> BatchStep {
    batch_at(total, index + 1, if failed {
        failures + 1
    } else {
        failures
    })
}

/// Begin a command that does `total` things.
pub fn begin_batch(total: usize) -> (r: BatchStep)
    ensures
        r == batch_at(total as nat, 0, 0),
{
    if total > 0 {
        BatchStep::Do { index: 0, failures: 0 }
    } else {
        BatchStep::Exit(batch_exit_code(0))
    }
}

/// Go on after the thing at `index`; a failure is counted.
pub fn batch_step(total: usize, index: usize, failures: usize, failed: bool) -> (r: BatchStep)
    requires
        index < total,
        failures <= index,
    ensures
        r == batch_after(total as nat, index as nat, failures as nat, failed),
{
    let failures: usize = if failed {
        failures + 1
    } else {
        failures
    };
    if index + 1 < total {
        BatchStep::Do { index: index + 1, failures }
    } else {
        BatchStep::Exit(batch_exit_code(failures))
    }
}

/// How many of these outcomes are failures.
pub open spec fn failures_in(failed: Seq<bool>) -> nat
    decreases failed.len(),
{
    if failed.len() == 0 {
        0
    } else {
        failures_in(failed.drop_last()) + (if failed.last() {
            1nat
        } else {
            0nat
        })
    }
}

/// The steps of a command that does as many things as there are outcomes, when
/// each comes to its outcome: the first step, and one after each outcome.
pub open spec fn is_batch_run(steps: Seq<BatchStep>, failed: Seq<bool>) -> bool {
    &&& steps.len() == failed.len() + 1
    &&& steps[0] == batch_at(failed.len(), 0, 0)
    &&& forall|i: int|
        #![trigger steps[i]]
        0 <= i < failed.len() ==> {
            &&& steps[i] is Do
            &&& steps[i + 1] == batch_after(
                failed.len(),
                steps[i]->index as nat,
                steps[i]->failures as nat,
                failed[i],
            )
        }
}

proof fn lemma_batch_run(steps: Seq<BatchStep>, failed: Seq<bool>, i: int)
    requires
        failed.len() <= usize::MAX,
        is_batch_run(steps, failed),
        0 <= i <= failed.len(),
    ensures
        steps[i] == batch_at(failed.len(), i as nat, failures_in(failed.take(i))),
        failures_in(failed.take(i)) <= i,
    decreases i,
{
    if i == 0 {
        assert(failed.take(0) == Seq::<bool>::empty());
    } else {
        lemma_batch_run(steps, failed, i - 1);
        assert(failed.take(i).drop_last() == failed.take(i - 1));
        assert(steps[i - 1] is Do);
        assert(steps[(i - 1) + 1] == steps[i]);
    }
}

/// A command that does several things does each of them once, in order, whether
/// or not those before it failed, and exits with 0 if and only if none failed.
pub proof fn batch_does_each_once(steps: Seq<BatchStep>, failed: Seq<bool>)
    requires
        failed.len() <= usize::MAX,
        is_batch_run(steps, failed),
    ensures
        forall|i: int|
            0 <= i < failed.len() ==> (#[trigger] steps[i]) is Do && steps[i]->index == i,
        steps.last() == BatchStep::Exit(
            if failed.contains(true) {
                1
            } else {
                0
            },
        ),
{
    assert forall|i: int| 0 <= i < failed.len() implies (#[trigger] steps[i]) is Do
        && steps[i]->index == i by {
        lemma_batch_run(steps, failed, i);
    }
    lemma_batch_run(steps, failed, failed.len() as int);
    assert(failed.take(failed.len() as int) == failed);
    lemma_failures_in(failed);
}

proof fn lemma_failures_in(failed: Seq<bool>)
    ensures
        failures_in(failed) > 0 <==> failed.contains(true),
    decreases failed.len(),
{
    if failed.len() > 0 {
        let init = failed.drop_last();
        lemma_failures_in(init);
        if init.contains(true) {
            let i = choose|i: int| 0 <= i < init.len() && init[i];
            assert(failed[i]);
        }
        if failed.last() {
            assert(failed[failed.len() - 1]);
        }
        if failed.contains(true) && !failed.last() {
            let i = choose|i: int| 0 <= i < failed.len() && failed[i];
            assert(init[i]);
        }
    }
}

/// What stands between a destructive command and its doing.
#[derive(Debug, Clone, Copy, PartialEq, Eq)]
pub enum Consent {
    /// Nothing.
    Given,
    /// The user's answer.
    Ask,
    /// Nobody is there to answer.
    Refused,
}

/// What stands between a destructive command and its doing: consent given
/// beforehand, or the user at a terminal.
pub fn consent(yes: bool, terminal: bool) -> (r: Consent)
    ensures
        r == (if yes {
            Consent::Given
        } else if terminal {
            Consent::Ask
        } else {
            Consent::Refused
        }),
{
    if yes {
        Consent::Given
    } else if terminal {
        Consent::Ask
    } else {
        Consent::Refused
    }
}

/// The user's answer is a yes: `y` or `yes` in any case.
pub open spec fn answers_yes(line: Seq<char>) -> bool {
    let answer = ascii_lowered(trimmed(line));
    answer == "y"@ || answer == "yes"@
}

/// Whether the user's answer is a yes.
pub fn confirms(line: &str) -> (r: bool)
    ensures
        r == answers_yes(line@),
{
    let answer = to_ascii_lower(trim(line).as_str());
    same_text(answer.as_str(), "y") || same_text(answer.as_str(), "yes")
}

/// What the user is asked before workers are removed.
pub fn remove_prompt(names: &[String]) -> (r: String)
    ensures
        r@ == "Remove worker(s) '"@ + join_with(texts(names@), ", "@) + "'? [y/N] "@,
{
    concat3("Remove worker(s) '", join_strings(names, ", ").as_str(), "'? [y/N] ")
}

/// What is said where nobody is there to confirm `action`.
pub fn refusal_message(action: &str) -> (r: String)
    ensures
        r@ == "error: "@ + action@
            + " is destructive; pass -y/--yes for non-interactive use"@,
{
    concat3("error: ", action, " is destructive; pass -y/--yes for non-interactive use")
}

/// Workers to remove, or whose artifacts to wipe.
#[derive(Debug, Clone, PartialEq, Eq)]
pub struct Selection {
    pub names: Vec<String>,
    pub all: bool,
    pub yes: bool,
}

/// What `remove` asks for once it is confirmed.
pub fn remove_options(names: Vec<String>) -> (r: Selection)
    ensures
        r.names == names,
        !r.all,
        r.yes,
{
    Selection { names, all: false, yes: true }
}

/// What `clear` asks for once it is confirmed: one worker's artifacts, or
/// everything.
pub fn clear_options(name: Option<String>) -> (r: Selection)
    ensures
        texts(r.names@) == (match name {
            Some(n) => seq![n@],
            None => Seq::empty(),
        }),
        r.all == (name is None),
        r.yes,
{
    let mut names: Vec<String> = Vec::new();
    match name {
        Some(n) => {
            names.push(n);
            Selection { names, all: false, yes: true }
        },
        None => Selection { names, all: true, yes: true },
    }
}

/// What the user is asked before artifacts are wiped.
pub fn clear_prompt(selection: &Selection) -> (r: String)
    ensures
        r@ == "Clear "@ + (if selection.all {
            "all worker artifacts"@
        } else {
            "artifacts for '"@ + join_with(texts(selection.names@), ", "@) + "'"@
        }) + "? [y/N] "@,
{
    let label = if selection.all {
        "all worker artifacts".to_owned()
    } else {
        concat3("artifacts for '", join_strings(selection.names.as_slice(), ", ").as_str(), "'")
    };
    concat3("Clear ", label.as_str(), "? [y/N] ")
}

/// The workers that `update` asks for; none means all.
pub fn update_names(name: Option<String>) -> (r: Vec<String>)
    ensures
        texts(r@) == (match name {
            Some(n) => seq![n@],
            None => Seq::empty(),
        }),
{
    let mut names: Vec<String> = Vec::new();
    match name {
        Some(n) => names.push(n),
        None => {},
    }
    names
}

/// A worker to start.
#[derive(Debug, Clone, PartialEq, Eq)]
pub struct StartOptions {
    pub name: String,
    pub port: Option<u16>,
    pub config: Option<String>,
    pub wait: bool,
}

/// What `start` asks for.
pub fn start_options(name: String, port: u16, config: Option<String>, no_wait: bool) -> (r:
    StartOptions)
    ensures
        r.name == name,
        r.port == Some(port),
        r.config == config,
        r.wait == !no_wait,
{
    StartOptions { name, port: Some(port), config, wait: !no_wait }
}

/// The line of a failed operation.
pub fn error_line(code: &str, message: &str) -> (r: String)
    ensures
        r@ == "error: ["@ + code@ + "] "@ + message@,
{
    let head = concat3("error: [", code, "] ");
    concat(head.as_str(), message)
}

/// A row of the list of workers.
#[derive(Debug, Clone, PartialEq, Eq)]
pub struct ListRow {
    pub name: String,
    pub version: String,
    pub pid: String,
    pub status: &'static str,
}

/// The row of a worker in the list; what is unknown of it shows as a dash.
pub fn list_row(name: &str, version: Option<String>, pid: Option<u32>, running: bool) -> (r:
    ListRow)
    ensures
        r.name@ == name@,
        r.version@ == (match version {
            Some(v) => v@,
            None => "-"@,
        }),
        r.pid@ == (match pid {
            Some(p) => decimal(p as nat),
            None => "-"@,
        }),
        r.status@ == (if running {
            "running"@
        } else {
            "stopped"@
        }),
{
    let version = match version {
        Some(v) => v,
        None => "-".to_owned(),
    };
    let pid = match pid {
        Some(p) => u64_text(p as u64),
        None => "-".to_owned(),
    };
    let status = if running {
        "running"
    } else {
        "stopped"
    };
    ListRow { name: name.to_owned(), version, pid, status }
}

} // verus!
