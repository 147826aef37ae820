//! Laws of booting VMs.

use crate::cli::boot_plan::{
    boot_banner, build_failed, check_boot, check_kvm_at_path, console_ports, exit_message,
    exit_removals, guest_nofile_limit, needs_exit_hook, plan_machine, raised_fd_limit, removable,
    shm_bytes_per_mount, vm_watch_message, vm_watches, worker_threads, BoundSocket, BuildFault,
    KvmProbe, MachinePlan, SocketFingerprint, VmWatch,
};
use crate::cli::shell_words::{quoted_word_reads_back, shell_words, worker_cmd_reads_back};
use crate::cli::vm_boot::{
    build_virtiofs_mount_plan, build_worker_cmd, check_rootfs, entry_attaches, env_has_path,
    krunfw_candidate, mount_halves, mount_pairs, mount_tags_are_distinct, resolve_krunfw_file_path,
    shell_quote, VirtiofsMountPlan, VmBootArgs,
};
use crate::daemon_exit::{engine_pid_from_env, EarlyCapture};
use crate::laws::guest::{gives, lemma_gives};
use crate::laws::words::{lemma_split, lemma_split_of};
use crate::numbers::{decimal, decimal_reads_back, i64_text, parsed_unsigned, u64_text};
use crate::paths::joined;
use crate::text::{has_substring, matches_at, texts};
use vstd::prelude::*;

verus! {

/// `m` names a host directory and a guest directory, with a colon between.
pub open spec fn is_mount(m: Seq<char>, host: Seq<char>, guest: Seq<char>) -> bool {
    m == host.push(':') + guest && host.len() > 0 && !host.contains(':') && guest.len() > 0
}

/// `m` names a host directory and a guest directory.
pub open spec fn names_two_directories(m: Seq<char>) -> bool {
    exists|host: Seq<char>, guest: Seq<char>| is_mount(m, host, guest)
}

proof fn lemma_mount(m: Seq<char>)
    ensures
        mount_halves(m) matches Some(p) ==> is_mount(m, p.0, p.1),
        mount_halves(m) is Some <==> names_two_directories(m),
{
    lemma_split(m, ':');
    match mount_halves(m) {
        Some(p) => {
            assert(is_mount(m, p.0, p.1));
        },
        None => {
            assert forall|h: Seq<char>, g: Seq<char>| !is_mount(m, h, g) by {
                if is_mount(m, h, g) {
                    lemma_split_of(h, ':', g);
                }
            }
        },
    }
}

/// Mounts are planned if and only if each names a host directory and a guest
/// directory; the first that does not is complained of.
pub proof fn mounts_are_planned_iff_wellformed(
    mounts: &[String],
    r: Result<VirtiofsMountPlan, String>,
)
    requires
        call_ensures(build_virtiofs_mount_plan, (mounts,), r),
    ensures
        r is Ok <==> forall|i: int|
            0 <= i < mounts@.len() ==> names_two_directories((#[trigger] mounts@[i])@),
        r matches Err(e) ==> exists|i: int|
            {
                &&& 0 <= i < mounts@.len()
                &&& !names_two_directories((#[trigger] mounts@[i])@)
                &&& forall|j: int| 0 <= j < i ==> names_two_directories((#[trigger] mounts@[j])@)
                &&& e@ == "Invalid mount format '"@ + mounts@[i]@ + "'. Expected host:guest"@
            },
{
    match r {
        Ok(_) => {
            assert forall|i: int| 0 <= i < mounts@.len() implies names_two_directories(
                (#[trigger] mounts@[i])@,
            ) by {
                lemma_mount(mounts@[i]@);
            }
        },
        Err(_) => {
            let i = choose|i: int|
                {
                    &&& 0 <= i < mounts@.len()
                    &&& mount_halves(#[trigger] mounts@[i]@) is None
                    &&& forall|j: int| 0 <= j < i ==> mount_halves(mounts@[j]@) is Some
                    &&& r->Err_0@ == crate::cli::vm_boot::bad_mount_message(mounts@[i]@)
                };
            lemma_mount(mounts@[i]@);
            assert forall|j: int| 0 <= j < i implies names_two_directories(
                (#[trigger] mounts@[j])@,
            ) by {
                lemma_mount(mounts@[j]@);
            }
        },
    }
}

/// Each mount is attached, in the order given: the host directory before the
/// first colon under the guest directory after it, by a tag of its own.
pub proof fn each_mount_is_attached(
    mounts: &[String],
    plan: VirtiofsMountPlan,
    i: int,
    j: int,
)
    requires
        call_ensures(build_virtiofs_mount_plan, (mounts,), Ok(plan)),
        0 <= i < mounts@.len(),
        0 <= j < mounts@.len(),
    ensures
        plan.entries@.len() == mounts@.len(),
        is_mount(mounts@[i]@, plan.entries@[i].host_path@, plan.entries@[i].guest_path@),
        i != j ==> plan.entries@[i].tag@ != plan.entries@[j].tag@,
{
    lemma_mount(mounts@[i]@);
    assert(entry_attaches(plan.entries@[i], i, mounts@[i]@));
    assert(entry_attaches(plan.entries@[j], j, mounts@[j]@));
    if plan.entries@[i].tag@ == plan.entries@[j].tag@ {
        mount_tags_are_distinct(i, j);
    }
}

/// The guest is told of no mount where there is none; each further mount is told
/// of after the others, as its tag and its guest directory.
pub proof fn guest_is_told_of_each_mount(
    fewer: &[String],
    mounts: &[String],
    before: VirtiofsMountPlan,
    plan: VirtiofsMountPlan,
)
    requires
        call_ensures(build_virtiofs_mount_plan, (fewer,), Ok(before)),
        call_ensures(build_virtiofs_mount_plan, (mounts,), Ok(plan)),
        mounts@.len() == fewer@.len() + 1,
        forall|i: int| 0 <= i < fewer@.len() ==> (#[trigger] mounts@[i])@ == fewer@[i]@,
    ensures
        fewer@.len() == 0 ==> before.env_var@.len() == 0,
        fewer@.len() == 0 ==> plan.env_var@ == plan.entries@[0].tag@ + "="@
            + plan.entries@[0].guest_path@,
        fewer@.len() > 0 ==> plan.env_var@ == before.env_var@ + ";"@ + (plan.entries@.last().tag@
            + "="@ + plan.entries@.last().guest_path@),
        forall|i: int|
            0 <= i < fewer@.len() ==> (#[trigger] plan.entries@[i]).tag@ == before.entries@[i].tag@,
{
    let a = mount_pairs(texts(fewer@));
    let b = mount_pairs(texts(mounts@));
    let n = fewer@.len() as int;
    assert(texts(fewer@).len() == n && texts(mounts@).len() == n + 1);
    assert forall|i: int| 0 <= i < n implies b[i] == a[i] by {
        assert(texts(mounts@)[i] == mounts@[i]@);
        assert(texts(fewer@)[i] == fewer@[i]@);
    }
    assert(b.drop_last() =~= a);
    assert(entry_attaches(plan.entries@[n], n, mounts@[n]@));
    assert(texts(mounts@)[n] == mounts@[n]@);
    assert(b[n] == plan.entries@[n].tag@ + "="@ + plan.entries@[n].guest_path@);
    assert forall|i: int| 0 <= i < n implies (#[trigger] plan.entries@[i]).tag@
        == before.entries@[i].tag@ by {
        assert(entry_attaches(plan.entries@[i], i, mounts@[i]@));
        assert(entry_attaches(before.entries@[i], i, fewer@[i]@));
    }
}

/// The tag of a mount is its number, counted from none.
pub proof fn tags_count_the_mounts(mounts: &[String], plan: VirtiofsMountPlan, i: int)
    requires
        call_ensures(build_virtiofs_mount_plan, (mounts,), Ok(plan)),
        0 <= i < mounts@.len(),
    ensures
        exists|number: Seq<char>|
            {
                &&& plan.entries@[i].tag@ == "virtiofs_"@ + number
                &&& #[trigger] parsed_unsigned(number, i as nat) == Some(i as nat)
            },
{
    assert(entry_attaches(plan.entries@[i], i, mounts@[i]@));
    decimal_reads_back(i as nat, i as nat);
    assert(parsed_unsigned(decimal(i as nat), i as nat) == Some(i as nat));
}

/// A machine is built if and only if the KVM device can be opened, there is an
/// init binary somewhere and the CPUs can be counted in a byte; it is then of
/// the size and kind that the arguments say.
pub proof fn machine_is_what_the_arguments_say(
    args: &VmBootArgs,
    kvm: &KvmProbe,
    embedded_init: bool,
    init_on_disk: bool,
    r: Result<MachinePlan, String>,
)
    requires
        call_ensures(plan_machine, (args, kvm, embedded_init, init_on_disk), r),
    ensures
        r is Ok <==> kvm is Opened && (embedded_init || init_on_disk) && args.vcpus <= 255,
        r matches Ok(m) ==> {
            &&& m.vcpus == args.vcpus
            &&& m.memory_mib == args.ram
            &&& m.hyperthreading == args.hyperthreading
            &&& m.nested_virt == args.nested_virt
        },
{
}

/// A boot is checked for its init binary first and its CPUs then.
pub proof fn boot_needs_init_and_few_cpus(
    args: &VmBootArgs,
    embedded_init: bool,
    init_on_disk: bool,
    r: Result<u8, String>,
)
    requires
        call_ensures(check_boot, (args, embedded_init, init_on_disk), r),
    ensures
        r is Ok <==> (embedded_init || init_on_disk) && args.vcpus <= 255,
        r matches Ok(n) ==> n == args.vcpus,
        r is Err ==> (has_substring(r->Err_0@, args.rootfs@) <== !embedded_init && !init_on_disk),
{
    if r is Err && !embedded_init && !init_on_disk {
        let m = r->Err_0@;
        let head = "No init binary available. /init.krun not found in rootfs '"@;
        let i = head.len() as int;
        assert(m.subrange(i, i + args.rootfs@.len()) =~= args.rootfs@);
        assert(matches_at(m, args.rootfs@, i));
    }
}

/// Nothing is wrong with a KVM device that opened, and something is with any
/// other.
pub proof fn only_an_open_device_will_do(probe: &KvmProbe, r: Result<(), String>)
    requires
        call_ensures(check_kvm_at_path, (probe,), r),
    ensures
        r is Ok <==> probe is Opened,
        *probe matches KvmProbe::Failed(why) ==> r->Err_0@ == "KVM check failed: "@ + why@,
{
}

/// The limit on open files is only ever raised, never above the hard limit or
/// the target, and as far as one of them.
pub proof fn fd_limit_is_raised_as_far_as_it_goes(soft: u64, hard: u64, r: Option<u64>)
    requires
        call_ensures(raised_fd_limit, (soft, hard), r),
    ensures
        r matches Some(n) ==> soft < n <= hard && n <= 1_048_576 && (n == hard || n == 1_048_576),
        r is None ==> soft >= hard || soft >= 1_048_576,
{
}

/// A window of so many MiB is so many times 1024 times 1024 bytes, and none is
/// asked for by none.
pub proof fn windows_are_in_bytes(args: &VmBootArgs, r: Option<u64>)
    requires
        call_ensures(shm_bytes_per_mount, (args,), r),
    ensures
        r is None <==> args.virtiofs_shm_size_mib == 0,
        r matches Some(n) ==> n == args.virtiofs_shm_size_mib * 1024 * 1024,
{
}

/// The guest worker's open files are limited to what the arguments say, if they
/// say anything.
pub proof fn guest_files_are_limited_as_told(args: &VmBootArgs, r: Option<u64>)
    requires
        call_ensures(guest_nofile_limit, (args,), r),
    ensures
        r is None <==> args.nofile_limit == 0,
        r matches Some(n) ==> n == args.nofile_limit,
{
}

/// The shell relay needs a second thread, and nothing else does.
pub proof fn relay_has_a_thread_of_its_own(args: &VmBootArgs, r: usize)
    requires
        call_ensures(worker_threads, (args,), r),
    ensures
        args.shell_sock is Some ==> r == 2,
        args.shell_sock is None ==> r == 1,
{
}

/// A VM's process watches the lifeline, the spawner and the engine that it was
/// told of, each if and only if it was; the lifeline is taken, so that nobody
/// else watches it.
pub proof fn vm_watches_what_it_was_told_of(
    call: (&mut Option<EarlyCapture>, Option<&str>),
    engine: Option<i32>,
    r: Vec<VmWatch>,
)
    requires
        call_ensures(vm_watches, call, r),
        call_ensures(engine_pid_from_env, (call.1,), engine),
    ensures
        forall|fd: i32|
            r@.contains(VmWatch::Lifeline(fd)) <==> *old(call.0) is Some
                && (*old(call.0))->0.lifeline == Some(fd),
        forall|pid: i32|
            r@.contains(VmWatch::Spawner(pid)) <==> *old(call.0) is Some
                && (*old(call.0))->0.spawner_pid == Some(pid),
        forall|pid: i32| r@.contains(VmWatch::Engine(pid)) <==> engine == Some(pid),
        *final(call.0) matches Some(e) ==> e.lifeline is None,
        *old(call.0) is Some <==> *final(call.0) is Some,
{
    let early = *old(call.0);
    let a: Seq<VmWatch> = match early {
        Some(e) => match e.lifeline {
            Some(fd) => seq![VmWatch::Lifeline(fd)],
            None => Seq::empty(),
        },
        None => Seq::empty(),
    };
    let b: Seq<VmWatch> = match early {
        Some(e) => match e.spawner_pid {
            Some(pid) => seq![VmWatch::Spawner(pid)],
            None => Seq::empty(),
        },
        None => Seq::empty(),
    };
    let c: Seq<VmWatch> = match engine {
        Some(pid) => seq![VmWatch::Engine(pid)],
        None => Seq::empty(),
    };
    assert(r@ =~= a + b + c);
    if early is Some && early->0.lifeline is Some {
        assert((a + b + c)[0] == VmWatch::Lifeline(early->0.lifeline->0));
    }
    if early is Some && early->0.spawner_pid is Some {
        assert((a + b + c)[a.len() as int] == VmWatch::Spawner(early->0.spawner_pid->0));
    }
    if engine is Some {
        assert((a + b + c)[a.len() as int + b.len()] == VmWatch::Engine(engine->0));
    }
}

/// The ports on the guest's console are the control port and the shell port, in
/// this order, each if and only if it is wanted.
pub proof fn ports_are_those_wanted(control_sock: bool, shell_port: bool, r: Vec<String>)
    requires
        call_ensures(console_ports, (control_sock, shell_port), r),
    ensures
        control_sock && shell_port ==> r@.len() == 2 && r@[0]@ == "iii.control"@ && r@[1]@
            == "iii.exec"@,
        control_sock && !shell_port ==> r@.len() == 1 && r@[0]@ == "iii.control"@,
        !control_sock && shell_port ==> r@.len() == 1 && r@[0]@ == "iii.exec"@,
        !control_sock && !shell_port ==> r@.len() == 0,
{
    let t = texts(r@);
    assert(t.len() == r@.len());
    if r@.len() > 0 {
        assert(t[0] == r@[0]@);
    }
    if r@.len() > 1 {
        assert(t[1] == r@[1]@);
    }
}

/// A socket that was bound is still the same if and only if the file at its path
/// is: a file that is gone or another is not.
pub proof fn socket_is_known_by_its_file(
    sock: &SocketFingerprint,
    now: Option<(u64, u64)>,
    r: bool,
)
    requires
        call_ensures(SocketFingerprint::unchanged, (sock, now), r),
    ensures
        r <==> now is Some && (now->0).0 == sock.dev && (now->0).1 == sock.ino,
{
}

/// At its exit a VM removes its process id's file, and each of its sockets that
/// is still the one it bound; it removes nothing else, least of all what another
/// has put in a socket's place.
pub proof fn exit_removes_only_its_own(
    pid_file: &Option<String>,
    control: &Option<BoundSocket>,
    shell: &Option<BoundSocket>,
    r: Vec<String>,
    path: Seq<char>,
)
    requires
        call_ensures(exit_removals, (pid_file, control, shell), r),
    ensures
        (exists|i: int| 0 <= i < r@.len() && (#[trigger] r@[i])@ == path) <==> {
            ||| *pid_file is Some && pid_file->0@ == path
            ||| *control is Some && control->0.fingerprint.path@ == path && control->0.now == Some(
                (control->0.fingerprint.dev, control->0.fingerprint.ino),
            )
            ||| *shell is Some && shell->0.fingerprint.path@ == path && shell->0.now == Some(
                (shell->0.fingerprint.dev, shell->0.fingerprint.ino),
            )
        },
{
    let a: Seq<Seq<char>> = match *pid_file {
        Some(p) => seq![p@],
        None => Seq::empty(),
    };
    let b = removable(*control);
    let c = removable(*shell);
    let t = texts(r@);
    assert(t.len() == r@.len());
    assert(t =~= a + b + c);
    assert forall|i: int| 0 <= i < r@.len() implies #[trigger] t[i] == r@[i]@ by {}
    if *pid_file is Some && pid_file->0@ == path {
        assert(t[0] == path);
        assert(r@[0]@ == path);
    }
    if b.len() > 0 {
        assert(t[a.len() as int] == b[0]);
        assert(r@[a.len() as int]@ == b[0]);
    }
    if c.len() > 0 {
        assert(t[a.len() as int + b.len()] == c[0]);
        assert(r@[a.len() as int + b.len()]@ == c[0]);
    }
    if exists|i: int| 0 <= i < r@.len() && (#[trigger] r@[i])@ == path {
        let i = choose|i: int| 0 <= i < r@.len() && (#[trigger] r@[i])@ == path;
        assert(t[i] == path);
        if i >= a.len() && i < a.len() + b.len() {
            assert(t[i] == b[i - a.len()]);
        } else if i >= a.len() + b.len() {
            assert(t[i] == c[i - a.len() - b.len()]);
        }
    }
}

/// Something is to be done at a VM's exit if and only if there is something to
/// remove.
pub proof fn exit_hook_is_for_removals(pid_file: bool, control: bool, shell: bool, r: bool)
    requires
        call_ensures(needs_exit_hook, (pid_file, control, shell), r),
    ensures
        r <==> pid_file || control || shell,
{
}

/// A clean exit is silent, and any other is told of.
pub proof fn only_failures_are_told_of(code: i32, r: Option<String>)
    requires
        call_ensures(exit_message, (code,), r),
    ensures
        r is None <==> code == 0,
{
}

/// The firmware is the file of that name in the directory that was found, if it
/// is there.
pub proof fn firmware_lies_in_its_directory(
    dir: &Option<String>,
    filename: &str,
    exists_: bool,
    candidate: Option<String>,
    r: Option<String>,
)
    requires
        call_ensures(krunfw_candidate, (dir, filename), candidate),
        call_ensures(resolve_krunfw_file_path, (dir, filename, exists_), r),
    ensures
        candidate is Some <==> *dir is Some,
        candidate matches Some(path) ==> path@ == joined(dir->0@, filename@),
        r is Some <==> *dir is Some && exists_,
        r is Some ==> r->0@ == candidate->0@,
{
}

/// There is nothing to boot from where there is no rootfs.
pub proof fn rootfs_must_exist(rootfs: &str, exists_: bool, r: Result<(), String>)
    requires
        call_ensures(check_rootfs, (rootfs, exists_), r),
    ensures
        r is Ok <==> exists_,
        r is Err ==> r->Err_0@ == "rootfs path does not exist: "@ + rootfs@,
{
}

/// A quoted text is one word to a shell, and that word is the text.
pub proof fn quoting_is_undone_by_the_shell(s: &str, r: String)
    requires
        call_ensures(shell_quote, (s,), r),
        s@.len() > 0,
    ensures
        shell_words(r@) == Some(seq![s@]),
{
    quoted_word_reads_back(s@);
}

/// A shell reads a worker's command as its program and its arguments, each as it
/// was given and in order.
pub proof fn command_is_read_back_by_the_shell(program: &str, args: &[String], r: String)
    requires
        call_ensures(build_worker_cmd, (program, args), r),
        program@.len() > 0,
        forall|i: int| 0 <= i < args@.len() ==> (#[trigger] args@[i])@.len() > 0,
    ensures
        ({
            let words = shell_words(r@);
            &&& words is Some
            &&& words->0.len() == args@.len() + 1
            &&& words->0[0] == program@
            &&& forall|i: int| 0 <= i < args@.len() ==> words->0[i + 1] == (#[trigger] args@[i])@
        }),
{
    let t = texts(args@);
    assert(t.len() == args@.len());
    assert forall|i: int| 0 <= i < t.len() implies (#[trigger] t[i]).len() > 0 by {
        assert(args@[i]@.len() > 0);
    }
    worker_cmd_reads_back(program@, t);
    let words = seq![program@] + t;
    assert forall|i: int| 0 <= i < args@.len() implies words[i + 1] == (#[trigger] args@[i])@ by {
        assert(t[i] == args@[i]@);
    }
}

/// The caller sets `PATH` if and only if one of its entries begins with that
/// name and an equals sign.
pub proof fn path_is_set_by_an_entry(call: (&[String],), r: bool)
    requires
        call_ensures(env_has_path, call, r),
    ensures
        r <==> gives(call.0@, "PATH"@),
{
    reveal_strlit("PATH");
    assert(!"PATH"@.contains('='));
    lemma_gives(call.0@, "PATH"@);
}

/// What kept a VM from being built is told with what it failed at, and of the
/// files also which ones.
pub proof fn build_failures_are_told(fault: &BuildFault, rootfs: &str, r: String)
    requires
        call_ensures(build_failed, (fault, rootfs), r),
    ensures
        *fault matches BuildFault::RootFs(e) ==> r@ == "PassthroughFs failed for '"@ + rootfs@
            + "': "@ + e@,
        *fault matches BuildFault::Runtime(e) ==> r@ == "tokio runtime failed: "@ + e@,
        *fault matches BuildFault::SocketPair(e) ==> r@ == "control socketpair: "@ + e@,
        *fault matches BuildFault::Build(e) ==> r@ == "VM build failed: "@ + e@,
        *fault matches BuildFault::Enter(e) ==> r@ == "VM enter failed: "@ + e@,
{
}

/// A VM that is shut down says for whose sake: its spawner's, by its lifeline or
/// by its number, or the engine's.
pub proof fn shutdowns_name_their_cause(watch: VmWatch, pid: i32, number: String, r: String)
    requires
        call_ensures(vm_watch_message, (watch,), r),
        call_ensures(i64_text, (pid as i64,), number),
    ensures
        watch is Lifeline ==> r@ == "vm-boot: spawner lifeline closed; shutting down VM"@,
        watch == VmWatch::Spawner(pid) ==> r@ == "vm-boot: spawner pid "@ + number@
            + " exited; shutting down VM"@,
        watch == VmWatch::Engine(pid) ==> r@ == "vm-boot: engine pid "@ + number@
            + " exited; shutting down VM"@,
{
}

/// The boot is announced with the size that the arguments ask for.
pub proof fn boot_is_announced_with_its_size(
    args: &VmBootArgs,
    cpus: String,
    ram: String,
    r: String,
)
    requires
        call_ensures(boot_banner, (args,), r),
        call_ensures(u64_text, (args.vcpus as u64,), cpus),
        call_ensures(u64_text, (args.ram as u64,), ram),
    ensures
        args.vcpus == 1 ==> r@ == "  Booting VM ("@ + cpus@ + " vCPU, "@ + ram@
            + " MiB RAM)..."@,
        args.vcpus != 1 ==> r@ == "  Booting VM ("@ + cpus@ + " vCPUs, "@ + ram@
            + " MiB RAM)..."@,
{
}

/// Words of letters, digits and the signs of paths and options stand as they
/// are; a word with any other character of ASCII is put in quotes.
pub proof fn plain_words_are_not_quoted(s: &str, r: String)
    requires
        call_ensures(shell_quote, (s,), r),
        forall|i: int| 0 <= i < s@.len() ==> (#[trigger] s@[i] as u32) < 128,
    ensures
        (forall|i: int|
            0 <= i < s@.len() ==> {
                let c = #[trigger] s@[i];
                ||| 'a' <= c <= 'z'
                ||| 'A' <= c <= 'Z'
                ||| '0' <= c <= '9'
                ||| c == '-' || c == '_' || c == '/' || c == '.' || c == ':' || c == '='
            }) ==> r@ == s@,
        (exists|i: int|
            0 <= i < s@.len() && {
                let c = #[trigger] s@[i];
                !('a' <= c <= 'z' || 'A' <= c <= 'Z' || '0' <= c <= '9' || c == '-' || c == '_'
                    || c == '/' || c == '.' || c == ':' || c == '=')
            }) ==> r@.len() >= 2 && r@[0] == '\'' && r@.last() == '\'',
{
    reveal_strlit("'");
    if exists|i: int| 0 <= i < s@.len() && !crate::cli::vm_boot::shell_safe(#[trigger] s@[i]) {
        let inner = crate::text::replace_all(s@, "'"@, "'\\''"@);
        assert(r@ == "'"@ + inner + "'"@);
    }
}

/// A boot that is forbidden says the first thing that forbids it: what is wrong
/// with the KVM device, and only then what is wrong with the boot itself.
pub proof fn first_fault_is_told(
    args: &VmBootArgs,
    kvm: &KvmProbe,
    embedded_init: bool,
    init_on_disk: bool,
    device: Result<(), String>,
    boot: Result<u8, String>,
    r: Result<MachinePlan, String>,
)
    requires
        call_ensures(plan_machine, (args, kvm, embedded_init, init_on_disk), r),
        call_ensures(check_kvm_at_path, (kvm,), device),
        call_ensures(check_boot, (args, embedded_init, init_on_disk), boot),
    ensures
        device is Err ==> r is Err && r->Err_0@ == device->Err_0@,
        device is Ok && boot is Err ==> r is Err && r->Err_0@ == boot->Err_0@,
        device is Ok && boot is Ok ==> r is Ok,
{
}

} // verus!
