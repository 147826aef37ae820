//! The rest of a worker's life: pulling its image, stopping its VM, asking
//! after it and removing it.

use crate::cli::worker_manager::libkrun::arch_matches;
use crate::numbers::{
    decimal, decimal_int_is_trimmed, decimal_reads_back, parse_u32, parsed_unsigned,
};
use crate::paths::{join_path, joined};
use crate::text::{
    concat3, debug_opt, debug_opt_text, opt_str, same_text, trim, trim_leading_slashes, trimmed,
    without_leading_slashes,
};
use vstd::prelude::*;

verus! {

/// What is found in the cache for an image.
#[derive(Debug, Clone, PartialEq, Eq)]
pub struct CachedRootfs {
    pub path: String,
    pub arch: Option<String>,
}

/// How a pull begins.
#[derive(Debug, Clone, PartialEq, Eq)]
pub enum PullStart {
    /// Nothing to do: this rootfs fits.
    UseCached(String),
    /// Remove this rootfs, which is for another machine, and pull.
    WipeAndPull(String),
    /// Pull.
    Pull,
}

/// How a pull begins, given what the cache has.
pub fn begin_pull(cached: Option<CachedRootfs>, expected_arch: &str) -> (r: PullStart)
    ensures
        r == (match cached {
            Some(c) => if crate::text::opt_text(c.arch) == Some(expected_arch@) {
                PullStart::UseCached(c.path)
            } else {
                PullStart::WipeAndPull(c.path)
            },
            None => PullStart::Pull,
        }),
{
    match cached {
        Some(c) => {
            let arch: Option<&str> = match &c.arch {
                Some(a) => Some(a.as_str()),
                None => None,
            };
            if arch_matches(arch, expected_arch) {
                PullStart::UseCached(c.path)
            } else {
                PullStart::WipeAndPull(c.path)
            }
        },
        None => PullStart::Pull,
    }
}

/// What a fresh rootfs without a hosts file gets.
pub const DEFAULT_HOSTS: &'static str = "127.0.0.1\tlocalhost\n::1\t\tlocalhost\n";

/// Where a rootfs keeps its hosts file.
pub fn hosts_path(rootfs: &str) -> (r: String)
    ensures
        r@ == joined(rootfs@, "etc/hosts"@),
{
    join_path(rootfs, "etc/hosts")
}

/// The message for an image that was pulled for another machine.
pub open spec fn arch_mismatch_message(
    image: Seq<char>,
    expected: Seq<char>,
    found: Option<Seq<char>>,
) -> Seq<char> {
    "image architecture mismatch for "@ + image + ": expected linux/"@ + expected + " but pulled "@
        + debug_opt(found)
        + ". This image likely does not publish arm64. Rebuild/push a multi-arch image (linux/arm64,linux/amd64)."@
}

/// Whether what was pulled can be used.
pub fn finish_pull(image: &str, arch: Option<&str>, expected_arch: &str) -> (r: Result<(), String>)
    ensures
        match r {
            Ok(_) => opt_str(arch) == Some(expected_arch@),
            Err(e) => {
                &&& opt_str(arch) != Some(expected_arch@)
                &&& e@ == arch_mismatch_message(image@, expected_arch@, opt_str(arch))
            },
        },
{
    if arch_matches(arch, expected_arch) {
        return Ok(());
    }
    let mut m = concat3("image architecture mismatch for ", image, ": expected linux/");
    m.append(expected_arch);
    m.append(" but pulled ");
    m.append(debug_opt_text(arch).as_str());
    m.append(
        ". This image likely does not publish arm64. Rebuild/push a multi-arch image (linux/arm64,linux/amd64).",
    );
    Err(m)
}

/// Where a file of an image lies on disk. `path` is taken inside the rootfs
/// even where it is absolute.
pub fn extracted_path(rootfs: &str, path: &str) -> (r: String)
    ensures
        r@ == joined(rootfs@, without_leading_slashes(path@)),
{
    join_path(rootfs, trim_leading_slashes(path).as_str())
}

/// An entry of a directory whose size is being taken.
#[derive(Debug, Clone, Copy, PartialEq, Eq)]
pub enum DirItem {
    /// A subdirectory, with its size if that could be taken.
    Dir(Option<u64>),
    /// Anything else, with its length.
    File(u64),
}

/// What an entry adds to its directory's size.
pub open spec fn item_size(item: DirItem) -> int {
    match item {
        DirItem::Dir(Some(n)) => n as int,
        DirItem::Dir(None) => 0,
        DirItem::File(n) => n as int,
    }
}

/// The size of a directory with these entries.
pub open spec fn dir_total(items: Seq<DirItem>) -> int
    decreases items.len(),
{
    if items.len() == 0 {
        0
    } else {
        dir_total(items.drop_last()) + item_size(items.last())
    }
}

proof fn lemma_dir_total_grows(items: Seq<DirItem>, i: int)
    requires
        0 <= i <= items.len(),
    ensures
        0 <= dir_total(items.take(i)) <= dir_total(items),
    decreases items.len(),
{
    if i < items.len() {
        lemma_dir_total_grows(items.drop_last(), i);
        assert(items.drop_last().take(i) == items.take(i));
    } else {
        assert(items.take(i) == items);
        if items.len() > 0 {
            lemma_dir_total_grows(items.drop_last(), items.len() - 1);
            assert(items.drop_last().take(items.len() - 1) == items.drop_last());
        }
    }
}

/// The size of a directory with these entries; a subdirectory that could not
/// be read counts for nothing.
pub fn fs_dir_size(items: &[DirItem]) -> (r: u64)
    requires
        dir_total(items@) <= u64::MAX,
    ensures
        r == dir_total(items@),
{
    let mut total: u64 = 0;
    let mut i: usize = 0;
    assert(items@.take(0) == Seq::<DirItem>::empty());
    while i < items.len()
        invariant
            i <= items@.len(),
            dir_total(items@) <= u64::MAX,
            total == dir_total(items@.take(i as int)),
        decreases items@.len() - i,
    {
        let size: u64 = match items[i] {
            DirItem::Dir(Some(n)) => n,
            DirItem::Dir(None) => 0,
            DirItem::File(n) => n,
        };
        assert(items@.take(i + 1).drop_last() == items@.take(i as int));
        proof {
            lemma_dir_total_grows(items@, i + 1);
        }
        total += size;
        i += 1;
    }
    assert(items@.take(i as int) == items@);
    total
}

/// What is known of an image.
#[derive(Debug, Clone, PartialEq, Eq)]
pub struct ImageInfo {
    pub image: String,
    pub size_bytes: Option<u64>,
}

/// A worker's VM as it stands.
#[derive(Debug, Clone, PartialEq, Eq)]
pub struct ContainerStatus {
    pub name: String,
    pub container_id: String,
    pub running: bool,
    pub exit_code: Option<i32>,
}

/// The process id that a container id names; 0 if it names none.
pub open spec fn pid_of(container_id: Seq<char>) -> nat {
    match parsed_unsigned(container_id, u32::MAX as nat) {
        Some(n) => n,
        None => 0,
    }
}

/// The process id that a container id names; 0 if it names none.
pub fn container_pid(container_id: &str) -> (r: u32)
    ensures
        r == pid_of(container_id@),
{
    match parse_u32(container_id) {
        Some(n) => n,
        None => 0,
    }
}

/// How a worker's VM stands, given whether the process that its id names is
/// alive.
pub fn container_status(container_id: &str, alive: bool) -> (r: ContainerStatus)
    ensures
        r.name@ == Seq::<char>::empty(),
        r.container_id@ == container_id@,
        r.running == (pid_of(container_id@) > 0 && alive),
        r.exit_code == (if r.running {
            None
        } else {
            Some(0i32)
        }),
{
    let running = container_pid(container_id) > 0 && alive;
    ContainerStatus {
        name: String::new(),
        container_id: container_id.to_owned(),
        running,
        exit_code: if running {
            None
        } else {
            Some(0)
        },
    }
}

/// Where a stop stands.
#[derive(Debug, Clone, Copy, PartialEq, Eq)]
pub enum StopState {
    /// The process was asked to end and is polled until the deadline.
    Polling(u32),
    /// The process was killed.
    Killed(u32),
    /// Nothing is left to do.
    Done,
}

/// What a stop does next.
#[derive(Debug, Clone, Copy, PartialEq, Eq)]
pub enum StopAction {
    /// Send SIGTERM and start the deadline.
    Terminate(u32),
    /// Wait this many milliseconds; then reap without blocking, and look whether
    /// the process is alive.
    PollAfter(u32, u64),
    /// Send SIGKILL, wait this many milliseconds and reap.
    Kill(u32, u64),
    /// Report success.
    Finish,
}

/// How a stop begins: an id that names no process, or one that is not alive,
/// is stopped already.
pub fn begin_stop(container_id: &str, alive: bool) -> (r: (StopState, StopAction))
    ensures
        match parsed_unsigned(container_id@, u32::MAX as nat) {
            Some(n) => if alive {
                r == (StopState::Polling(n as u32), StopAction::Terminate(n as u32))
            } else {
                r == (StopState::Done, StopAction::Finish)
            },
            None => r == (StopState::Done, StopAction::Finish),
        },
{
    match parse_u32(container_id) {
        Some(pid) => if alive {
            (StopState::Polling(pid), StopAction::Terminate(pid))
        } else {
            (StopState::Done, StopAction::Finish)
        },
        None => (StopState::Done, StopAction::Finish),
    }
}

/// How a stop goes on: the process gets until the deadline to end by itself,
/// and is killed if it is alive then.
pub fn stop_step(state: StopState, alive: bool, past_deadline: bool) -> (r: (StopState, StopAction))
    ensures
        match state {
            StopState::Polling(pid) => if !alive {
                r == (StopState::Done, StopAction::Finish)
            } else if past_deadline {
                r == (StopState::Killed(pid), StopAction::Kill(pid, 200))
            } else {
                r == (state, StopAction::PollAfter(pid, 100))
            },
            _ => r == (StopState::Done, StopAction::Finish),
        },
{
    match state {
        StopState::Polling(pid) => if !alive {
            (StopState::Done, StopAction::Finish)
        } else if past_deadline {
            (StopState::Killed(pid), StopAction::Kill(pid, 200))
        } else {
            (state, StopAction::PollAfter(pid, 100))
        },
        _ => (StopState::Done, StopAction::Finish),
    }
}

/// The pid file `text` is that of the container `id`.
pub open spec fn names_container(text: Option<String>, id: Seq<char>) -> bool {
    match text {
        Some(t) => trimmed(t@) == id,
        None => false,
    }
}

/// Which worker directory a removal takes: the first whose pid file, if it
/// could be read, names the container.
pub fn removed_worker(pid_texts: &[Option<String>], container_id: &str) -> (r: Option<usize>)
    ensures
        match r {
            Some(i) => {
                &&& i < pid_texts@.len()
                &&& names_container(pid_texts@[i as int], container_id@)
                &&& forall|j: int|
                    0 <= j < i ==> !names_container(#[trigger] pid_texts@[j], container_id@)
            },
            None => forall|j: int|
                0 <= j < pid_texts@.len() ==> !names_container(
                    #[trigger] pid_texts@[j],
                    container_id@,
                ),
        },
{
    let mut i: usize = 0;
    while i < pid_texts.len()
        invariant
            i <= pid_texts@.len(),
            forall|j: int|
                0 <= j < i ==> !names_container(#[trigger] pid_texts@[j], container_id@),
        decreases pid_texts@.len() - i,
    {
        let hit = match &pid_texts[i] {
            Some(t) => same_text(trim(t.as_str()).as_str(), container_id),
            None => false,
        };
        if hit {
            return Some(i);
        }
        i += 1;
    }
    None
}

/// The id that a start returns names the process that it started.
pub proof fn started_id_names_process(pid: u32)
    ensures
        pid_of(decimal(pid as nat)) == pid,
        trimmed(decimal(pid as nat)) == decimal(pid as nat),
{
    decimal_reads_back(pid as nat, u32::MAX as nat);
    decimal_int_is_trimmed(pid as int);
}

/// A stop that is polled to its end sends SIGKILL at most once, and only to a
/// process that was alive past the deadline.
pub proof fn kill_needs_survivor(state: StopState, alive: bool, past_deadline: bool, r: (StopState, StopAction))
    requires
        call_ensures(stop_step, (state, alive, past_deadline), r),
        r.1 is Kill,
    ensures
        alive && past_deadline,
        state is Polling,
        r.0 is Killed,
{
}

} // verus!
