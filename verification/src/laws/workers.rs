//! Laws of the rest of a worker's life.

use crate::cli::worker_manager::libkrun::{
    arch_matches, build_vm_env, image_rootfs_in, libkrun_available, needs_tightening,
    unpinned_image, worker_rootfs_use, CacheKeys, LibkrunAdapter, RootfsUse,
};
use crate::cli::worker_manager::lifecycle::{
    begin_pull, begin_stop, container_pid, container_status, extracted_path, finish_pull,
    fs_dir_size, hosts_path, names_container, removed_worker, stop_step, CachedRootfs,
    ContainerStatus, DirItem, PullStart, StopAction, StopState,
};
use crate::cli::worker_manager::start::{after_dev_spawn, dev_exit_code, DevNext, DevWait};
use crate::laws::words::lemma_split;
use crate::numbers::parsed_unsigned;
use crate::paths::{host_home, joined, opt_path, HostPath};
use crate::str_map::StrMap;
use crate::text::{trimmed, without_leading_slashes};
use vstd::prelude::*;

verus! {

/// A pull uses what the cache has if that is for this machine, wipes it first if
/// it is for another or nobody knows, and just pulls where there is nothing.
pub proof fn pull_begins_with_the_cache(
    cached: Option<CachedRootfs>,
    expected: &str,
    r: PullStart,
)
    requires
        call_ensures(begin_pull, (cached, expected), r),
    ensures
        cached is None ==> r is Pull,
        cached matches Some(c) ==> {
            let fits = c.arch is Some && c.arch->0@ == expected@;
            &&& fits ==> r == PullStart::UseCached(c.path)
            &&& !fits ==> r == PullStart::WipeAndPull(c.path)
        },
{
}

/// What was pulled can be used if and only if it is for this machine.
pub proof fn pulled_must_fit(
    image: &str,
    arch: Option<&str>,
    expected: &str,
    r: Result<(), String>,
)
    requires
        call_ensures(finish_pull, (image, arch, expected), r),
    ensures
        r is Ok <==> arch is Some && arch->0@ == expected@,
{
}

/// A rootfs is for this machine if and only if it says so.
pub proof fn architecture_must_be_known(arch: Option<&str>, expected: &str, r: bool)
    requires
        call_ensures(arch_matches, (arch, expected), r),
    ensures
        r <==> arch is Some && arch->0@ == expected@,
{
}

/// A worker's own rootfs is made where there is none, kept where it is for this
/// machine, and made anew where it is not.
pub proof fn worker_keeps_a_rootfs_that_fits(
    exists_: bool,
    arch: Option<&str>,
    expected: &str,
    r: RootfsUse,
)
    requires
        call_ensures(worker_rootfs_use, (exists_, arch, expected), r),
    ensures
        r is Clone <==> !exists_,
        r is Keep <==> exists_ && arch is Some && arch->0@ == expected@,
        r is WipeAndClone <==> exists_ && !(arch is Some && arch->0@ == expected@),
{
}

/// A directory is tightened unless it is exactly its owner's.
pub proof fn owners_directory_is_tight(mode: u32, r: bool)
    requires
        call_ensures(needs_tightening, (mode,), r),
    ensures
        !r <==> mode & 0o777 == 0o700,
{
}

/// VMs can run here if and only if there is firmware.
pub proof fn firmware_makes_vms_run(dir: &Option<String>, r: bool)
    requires
        call_ensures(libkrun_available, (dir,), r),
    ensures
        r <==> *dir is Some,
{
}

/// A VM gets all that its caller gives it, and the mark of its isolation
/// whatever the caller says of that.
pub proof fn vm_is_marked_as_isolated(env: StrMap, r: StrMap, k: Seq<char>)
    requires
        call_ensures(build_vm_env, (env,), r),
    ensures
        r@.contains_key("III_ISOLATION"@) && r@["III_ISOLATION"@] == "libkrun"@,
        k != "III_ISOLATION"@ ==> (r@.contains_key(k) <==> env@.contains_key(k)),
        k != "III_ISOLATION"@ && env@.contains_key(k) ==> r@[k] == env@[k],
{
}

/// An image reference without its digest is what stands before the first at
/// sign, and all of it where there is none.
pub proof fn digest_is_cut_off(image: &str, r: String)
    requires
        call_ensures(unpinned_image, (image,), r),
    ensures
        !r@.contains('@'),
        !image@.contains('@') ==> r@ == image@,
        image@.contains('@') ==> exists|digest: Seq<char>| image@ == #[trigger] (r@.push('@')
            + digest),
{
    lemma_split(image@, '@');
    match crate::text::split_at_first(image@, '@') {
        Some(p) => {
            assert(image@ == r@.push('@') + p.1);
            assert((r@.push('@') + p.1)[r@.len() as int] == '@');
        },
        None => {},
    }
}

/// The files of an image lie where the cache keeps the image without its
/// digest.
pub proof fn image_lies_at_its_key<C: CacheKeys>(
    home: &Option<HostPath>,
    image: &str,
    cache: &C,
    name: String,
    r: HostPath,
)
    requires
        call_ensures(image_rootfs_in::<C>, (home, image, cache), r),
        call_ensures(unpinned_image, (image,), name),
    ensures
        exists|asked: String, key: String|
            {
                &&& #[trigger] call_ensures(C::cache_key, (cache, asked), key)
                &&& asked@ == name@
                &&& r@ == crate::paths::image_path(opt_path(*home), key@)
            },
{
    let (asked, key) = choose|asked: String, key: String| #[trigger]
        call_ensures(C::cache_key, (cache, asked), key) && asked@
            == crate::cli::worker_manager::libkrun::undigested(image@) && r@
            == crate::paths::image_path(opt_path(*home), key@);
    assert(call_ensures(C::cache_key, (cache, asked), key));
}

/// A file that is taken out of an image lies in the image's own files, however
/// its path begins.
pub proof fn extracted_files_lie_in_the_image(rootfs: &str, path: &str, r: String, i: int)
    requires
        call_ensures(extracted_path, (rootfs, path), r),
        rootfs@.len() > 0,
        rootfs@.last() != '/',
        0 <= i <= path@.len(),
        forall|j: int| 0 <= j < i ==> path@[j] == '/',
        i < path@.len() ==> path@[i] != '/',
    ensures
        r@ == rootfs@.push('/') + path@.skip(i),
{
    reveal_strlit("/");
    lemma_slashes(path@, i);
    assert(rootfs@ + "/"@ + path@.skip(i) =~= rootfs@.push('/') + path@.skip(i));
}

proof fn lemma_slashes(s: Seq<char>, i: int)
    requires
        0 <= i <= s.len(),
        forall|j: int| 0 <= j < i ==> s[j] == '/',
        i < s.len() ==> s[i] != '/',
    ensures
        without_leading_slashes(s) == s.skip(i),
    decreases i,
{
    if i > 0 {
        assert(s[0] == '/');
        let t = s.skip(1);
        assert forall|j: int| 0 <= j < i - 1 implies t[j] == '/' by {
            assert(t[j] == s[j + 1]);
        }
        lemma_slashes(t, i - 1);
        assert(t.skip(i - 1) == s.skip(i));
    } else {
        assert(s.skip(0) == s);
    }
}

/// The hosts file of a rootfs lies in its `etc`.
pub proof fn hosts_lie_in_etc(rootfs: &str, r: String)
    requires
        call_ensures(hosts_path, (rootfs,), r),
    ensures
        r@ == joined(rootfs@, "etc/hosts"@),
{
}

/// The size of a directory is none where it is empty, and each further entry
/// adds its own: a file its length, a subdirectory its size if that is known.
pub proof fn sizes_add_up(
    fewer: &[DirItem],
    items: &[DirItem],
    before: u64,
    total: u64,
)
    requires
        call_ensures(fs_dir_size, (fewer,), before),
        call_ensures(fs_dir_size, (items,), total),
        items@.len() == fewer@.len() + 1,
        items@.drop_last() == fewer@,
    ensures
        fewer@.len() == 0 ==> before == 0,
        items@.last() matches DirItem::File(n) ==> total == before + n,
        items@.last() matches DirItem::Dir(Some(n)) ==> total == before + n,
        items@.last() matches DirItem::Dir(None) ==> total == before,
{
}

/// A container's id names the process of that number, and none where it is no
/// number.
pub proof fn container_is_its_process(id: &str, alive: bool, pid: u32, status: ContainerStatus)
    requires
        call_ensures(container_pid, (id,), pid),
        call_ensures(container_status, (id, alive), status),
    ensures
        parsed_unsigned(id@, u32::MAX as nat) matches Some(n) ==> pid == n,
        parsed_unsigned(id@, u32::MAX as nat) is None ==> pid == 0,
        status.running <==> pid > 0 && alive,
        status.running ==> status.exit_code is None,
        !status.running ==> status.exit_code == Some(0i32),
        status.container_id@ == id@,
{
}

/// A stop asks a live process to end, and has nothing to do with any other.
pub proof fn stop_asks_first(id: &str, alive: bool, r: (StopState, StopAction))
    requires
        call_ensures(begin_stop, (id, alive), r),
    ensures
        ({
            let n = parsed_unsigned(id@, u32::MAX as nat);
            &&& n is Some && alive ==> r.0 == StopState::Polling(n->0 as u32) && r.1
                == StopAction::Terminate(n->0 as u32)
            &&& n is None || !alive ==> r.0 is Done && r.1 is Finish
        }),
{
}

/// A process that was asked to end is waited for while it is alive and there is
/// time, and killed once if it is alive when there is none; a stop of a process
/// that is gone, or that was killed, is over.
pub proof fn stop_kills_only_at_the_deadline(
    state: StopState,
    alive: bool,
    past_deadline: bool,
    r: (StopState, StopAction),
)
    requires
        call_ensures(stop_step, (state, alive, past_deadline), r),
    ensures
        forall|pid: u32|
            state == StopState::Polling(pid) && alive && !past_deadline ==> r.0 == state && (
            r.1 matches StopAction::PollAfter(p, _) && p == pid),
        forall|pid: u32|
            state == StopState::Polling(pid) && alive && past_deadline ==> r.0
                == StopState::Killed(pid) && (r.1 matches StopAction::Kill(p, _) && p == pid),
        !(state is Polling) || !alive ==> r.0 is Done && r.1 is Finish,
{
}

/// The worker that is removed is the first whose pid file, whitespace aside, is
/// the container's id; if there is none, none is.
pub proof fn removal_goes_by_the_pid_file(
    call: (&[Option<String>], &str),
    r: Option<usize>,
)
    requires
        call_ensures(removed_worker, call, r),
    ensures
        r matches Some(i) ==> {
            &&& i < call.0@.len()
            &&& call.0@[i as int] matches Some(t) && trimmed(t@) == call.1@
            &&& forall|j: int|
                0 <= j < i ==> !((#[trigger] call.0@[j]) is Some && trimmed(call.0@[j]->0@)
                    == call.1@)
        },
        r is None ==> forall|j: int|
            0 <= j < call.0@.len() ==> !((#[trigger] call.0@[j]) is Some && trimmed(
                call.0@[j]->0@,
            ) == call.1@),
{
    match r {
        Some(i) => {
            assert(names_container(call.0@[i as int], call.1@));
            assert forall|j: int| 0 <= j < i implies !((#[trigger] call.0@[j]) is Some && trimmed(
                call.0@[j]->0@,
            ) == call.1@) by {
                assert(!names_container(call.0@[j], call.1@));
            }
        },
        None => {
            assert forall|j: int| 0 <= j < call.0@.len() implies !((#[trigger] call.0@[j]) is Some
                && trimmed(call.0@[j]->0@) == call.1@) by {
                assert(!names_container(call.0@[j], call.1@));
            }
        },
    }
}

/// A worker in development that nothing would track is killed; one in the
/// background is left to run; any other is waited for.
pub proof fn untracked_workers_are_killed(
    pid: Option<u32>,
    recorded: bool,
    background: bool,
    r: DevNext,
)
    requires
        call_ensures(after_dev_spawn, (pid, recorded, background), r),
    ensures
        r is KillAndExit <==> pid is Some && pid->0 > 0 && !recorded,
        r matches DevNext::KillAndExit(code) ==> code != 0,
        r is Exit ==> background && r == DevNext::Exit(0),
        r is Wait ==> !background,
{
}

/// A development session exits as its worker did, with a failure where the
/// worker has no code or was lost, and cleanly where the user ended it.
pub proof fn session_exits_as_its_worker(end: DevWait, r: i32)
    requires
        call_ensures(dev_exit_code, (end,), r),
    ensures
        forall|c: i32| end == DevWait::Exited(Some(c)) ==> r == c,
        end == DevWait::Exited(None) || end is Failed ==> r == 1,
        end is Interrupted ==> r == 0,
{
}

/// A worker's files lie in its own directory under the user's home.
pub proof fn worker_files_lie_together(name: &str, logs: HostPath, pid: HostPath)
    requires
        call_ensures(LibkrunAdapter::logs_dir, (name,), logs),
        call_ensures(LibkrunAdapter::pid_file, (name,), pid),
    ensures
        exists|home: Option<HostPath>|
            {
                &&& #[trigger] call_ensures(host_home, (), home)
                &&& logs@ == crate::paths::joined_bytes(
                    crate::paths::worker_path(opt_path(home), name@),
                    vstd::utf8::encode_utf8("logs"@),
                )
            },
        exists|home: Option<HostPath>|
            {
                &&& #[trigger] call_ensures(host_home, (), home)
                &&& pid@ == crate::paths::joined_bytes(
                    crate::paths::worker_path(opt_path(home), name@),
                    vstd::utf8::encode_utf8("vm.pid"@),
                )
            },
{
}

} // verus!
