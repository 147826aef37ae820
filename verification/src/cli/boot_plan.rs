//! The order of a boot: what must hold before the VM is built, what is
//! attached to it, what its first process gets, and what is removed when it
//! exits.

use crate::cli::vm_boot::{
    build_worker_cmd, env_has_path, has_key, maybe_rewrite_localhost, maybe_rewritten, worker_cmd,
    VmBootArgs, DEFAULT_GUEST_PATH,
};
use crate::daemon_exit::{
    declared_pid, early_spawner_pid, engine_pid_from_env, take_early_lifeline,
    EarlyCapture,
};
use crate::numbers::{decimal, decimal_int, i64_text, u64_text};
use crate::text::{concat, concat3, opt_str, opt_text, pair_texts, split_at_first, split_once, texts};
use vstd::prelude::*;

verus! {

/// What probing the KVM device showed.
#[derive(Debug, Clone, PartialEq, Eq)]
pub enum KvmProbe {
    /// There is no such device.
    Missing,
    /// The device opened for reading and writing.
    Opened,
    /// The device exists, and this user may not open it.
    PermissionDenied,
    /// Opening failed for another reason, given as text.
    Failed(String),
}

/// What is wrong with the KVM device, if anything.
pub open spec fn kvm_complaint(probe: KvmProbe) -> Option<Seq<char>> {
    match probe {
        KvmProbe::Missing => Some(
            "KVM not available -- /dev/kvm does not exist. Ensure KVM is enabled in your kernel and loaded (modprobe kvm_intel or kvm_amd)."@,
        ),
        KvmProbe::Opened => None,
        KvmProbe::PermissionDenied => Some(
            "KVM not accessible -- /dev/kvm exists but current user lacks permission. Add your user to the 'kvm' group: sudo usermod -aG kvm $USER"@,
        ),
        KvmProbe::Failed(e) => Some("KVM check failed: "@ + e@),
    }
}

/// Pre-flight check for KVM.
pub fn check_kvm_at_path(probe: &KvmProbe) -> (r: Result<(), String>)
    ensures
        match r {
            Ok(_) => kvm_complaint(*probe) is None,
            Err(e) => kvm_complaint(*probe) == Some(e@),
        },
{
    match probe {
        KvmProbe::Missing => Err(
            "KVM not available -- /dev/kvm does not exist. Ensure KVM is enabled in your kernel and loaded (modprobe kvm_intel or kvm_amd).".to_owned(),
        ),
        KvmProbe::Opened => Ok(()),
        KvmProbe::PermissionDenied => Err(
            "KVM not accessible -- /dev/kvm exists but current user lacks permission. Add your user to the 'kvm' group: sudo usermod -aG kvm $USER".to_owned(),
        ),
        KvmProbe::Failed(e) => Err(concat("KVM check failed: ", e.as_str())),
    }
}

/// Most open files that the boot process asks for.
pub const FD_LIMIT_TARGET: u64 = 1_048_576;

/// The soft limit on open files to set, if the present one is to be raised: as
/// far as the hard limit and the target allow.
pub fn raised_fd_limit(soft: u64, hard: u64) -> (r: Option<u64>)
    ensures
        ({
            let target = if hard < FD_LIMIT_TARGET {
                hard
            } else {
                FD_LIMIT_TARGET
            };
            r == (if soft < target {
                Some(target)
            } else {
                None
            })
        }),
{
    let target: u64 = if hard < FD_LIMIT_TARGET {
        hard
    } else {
        FD_LIMIT_TARGET
    };
    if soft < target {
        Some(target)
    } else {
        None
    }
}

/// The message for a rootfs without an init binary.
pub open spec fn no_init_message(rootfs: Seq<char>) -> Seq<char> {
    "No init binary available. /init.krun not found in rootfs '"@ + rootfs
        + "' and no init binary is embedded in this build.\nHint: Run `iii worker dev` which auto-provisions the init binary, or rebuild with --features embed-init."@
}

/// The message for more vCPUs than the builder takes.
pub open spec fn too_many_vcpus_message(vcpus: nat) -> Seq<char> {
    "vcpus "@ + decimal(vcpus) + " exceeds maximum 255 for VmBuilder"@
}

/// Pre-boot validation, after KVM: an init binary is embedded or on disk, and
/// the vCPUs fit the builder. Returns the number of vCPUs.
pub fn check_boot(args: &VmBootArgs, embedded_init: bool, init_on_disk: bool) -> (r: Result<
    u8,
    String,
>)
    ensures
        match r {
            Ok(n) => (embedded_init || init_on_disk) && args.vcpus == n,
            Err(e) => if !embedded_init && !init_on_disk {
                e@ == no_init_message(args.rootfs@)
            } else {
                args.vcpus > 255 && e@ == too_many_vcpus_message(args.vcpus as nat)
            },
        },
{
    if !embedded_init && !init_on_disk {
        return Err(
            concat3(
                "No init binary available. /init.krun not found in rootfs '",
                args.rootfs.as_str(),
                "' and no init binary is embedded in this build.\nHint: Run `iii worker dev` which auto-provisions the init binary, or rebuild with --features embed-init.",
            ),
        );
    }
    if args.vcpus > 255 {
        return Err(
            concat3(
                "vcpus ",
                u64_text(args.vcpus as u64).as_str(),
                " exceeds maximum 255 for VmBuilder",
            ),
        );
    }
    Ok(args.vcpus as u8)
}

/// The machine that is built.
#[derive(Debug, Clone, Copy, PartialEq, Eq)]
pub struct MachinePlan {
    pub vcpus: u8,
    pub memory_mib: u32,
    pub hyperthreading: bool,
    pub nested_virt: bool,
}

/// The machine to build, or the first thing that forbids it: no KVM, no init
/// binary, too many vCPUs.
pub fn plan_machine(
    args: &VmBootArgs,
    kvm: &KvmProbe,
    embedded_init: bool,
    init_on_disk: bool,
) -> (r: Result<MachinePlan, String>)
    ensures
        match r {
            Ok(m) => {
                &&& kvm_complaint(*kvm) is None
                &&& embedded_init || init_on_disk
                &&& m.vcpus == args.vcpus
                &&& m.memory_mib == args.ram
                &&& m.hyperthreading == args.hyperthreading
                &&& m.nested_virt == args.nested_virt
            },
            Err(e) => if kvm_complaint(*kvm) is Some {
                kvm_complaint(*kvm) == Some(e@)
            } else if !embedded_init && !init_on_disk {
                e@ == no_init_message(args.rootfs@)
            } else {
                args.vcpus > 255 && e@ == too_many_vcpus_message(args.vcpus as nat)
            },
        },
{
    match check_kvm_at_path(kvm) {
        Ok(_) => {},
        Err(e) => return Err(e),
    }
    match check_boot(args, embedded_init, init_on_disk) {
        Ok(vcpus) => Ok(
            MachinePlan {
                vcpus,
                memory_mib: args.ram,
                hyperthreading: args.hyperthreading,
                nested_virt: args.nested_virt,
            },
        ),
        Err(e) => Err(e),
    }
}

/// Where building the VM itself failed. Reasons come as text.
#[derive(Debug, Clone, PartialEq, Eq)]
pub enum BuildFault {
    RootFs(String),
    Runtime(String),
    SocketPair(String),
    Build(String),
    Enter(String),
}

/// What is said of a VM that could not be built.
pub open spec fn build_fault_message(fault: BuildFault, rootfs: Seq<char>) -> Seq<char> {
    match fault {
        BuildFault::RootFs(e) => "PassthroughFs failed for '"@ + rootfs + "': "@ + e@,
        BuildFault::Runtime(e) => "tokio runtime failed: "@ + e@,
        BuildFault::SocketPair(e) => "control socketpair: "@ + e@,
        BuildFault::Build(e) => "VM build failed: "@ + e@,
        BuildFault::Enter(e) => "VM enter failed: "@ + e@,
    }
}

/// What is said of a VM that could not be built.
pub fn build_failed(fault: &BuildFault, rootfs: &str) -> (r: String)
    ensures
        r@ == build_fault_message(*fault, rootfs@),
{
    match fault {
        BuildFault::RootFs(e) => {
            let head = concat3("PassthroughFs failed for '", rootfs, "': ");
            concat(head.as_str(), e.as_str())
        },
        BuildFault::Runtime(e) => concat("tokio runtime failed: ", e.as_str()),
        BuildFault::SocketPair(e) => concat("control socketpair: ", e.as_str()),
        BuildFault::Build(e) => concat("VM build failed: ", e.as_str()),
        BuildFault::Enter(e) => concat("VM enter failed: ", e.as_str()),
    }
}

/// What a VM's process watches in order to shut the VM down.
#[derive(Debug, Clone, Copy, PartialEq, Eq)]
pub enum VmWatch {
    /// The lifeline's read end.
    Lifeline(i32),
    /// The process that spawned this one.
    Spawner(i32),
    /// The engine.
    Engine(i32),
}

/// What a VM's process watches: each of the lifeline, the spawner and the
/// engine that it was told of, each on its own. A VM that was told of none is
/// its user's, and outlives whoever started it.
pub fn vm_watches(early: &mut Option<EarlyCapture>, engine_pid: Option<&str>) -> (r: Vec<VmWatch>)
    ensures
        r@ == (match *old(early) {
            Some(e) => (match e.lifeline {
                Some(fd) => seq![VmWatch::Lifeline(fd)],
                None => Seq::empty(),
            }) + (match e.spawner_pid {
                Some(pid) => seq![VmWatch::Spawner(pid)],
                None => Seq::empty(),
            }),
            None => Seq::empty(),
        }) + (match declared_pid(opt_str(engine_pid)) {
            Some(pid) => seq![VmWatch::Engine(pid as i32)],
            None => Seq::empty(),
        }),
        match *old(early) {
            Some(e) => *final(early) == Some(
                EarlyCapture { lifeline: None, spawner_pid: e.spawner_pid },
            ),
            None => *final(early) is None,
        },
{
    let spawner = early_spawner_pid(early);
    let mut watches: Vec<VmWatch> = Vec::new();
    match take_early_lifeline(early) {
        Some(fd) => watches.push(VmWatch::Lifeline(fd)),
        None => {},
    }
    match spawner {
        Some(pid) => watches.push(VmWatch::Spawner(pid)),
        None => {},
    }
    match engine_pid_from_env(engine_pid) {
        Some(pid) => watches.push(VmWatch::Engine(pid)),
        None => {},
    }
    watches
}

/// What is said when a watch shuts the VM down.
pub fn vm_watch_message(watch: VmWatch) -> (r: String)
    ensures
        r@ == (match watch {
            VmWatch::Lifeline(_) => "vm-boot: spawner lifeline closed; shutting down VM"@,
            VmWatch::Spawner(pid) => "vm-boot: spawner pid "@ + decimal_int(pid as int)
                + " exited; shutting down VM"@,
            VmWatch::Engine(pid) => "vm-boot: engine pid "@ + decimal_int(pid as int)
                + " exited; shutting down VM"@,
        }),
{
    match watch {
        VmWatch::Lifeline(_) => "vm-boot: spawner lifeline closed; shutting down VM".to_owned(),
        VmWatch::Spawner(pid) => concat3(
            "vm-boot: spawner pid ",
            i64_text(pid as i64).as_str(),
            " exited; shutting down VM",
        ),
        VmWatch::Engine(pid) => concat3(
            "vm-boot: engine pid ",
            i64_text(pid as i64).as_str(),
            " exited; shutting down VM",
        ),
    }
}

/// The DAX window of every virtiofs mount in bytes, if one is asked for.
pub fn shm_bytes_per_mount(args: &VmBootArgs) -> (r: Option<u64>)
    ensures
        r == (if args.virtiofs_shm_size_mib == 0 {
            None
        } else {
            Some((args.virtiofs_shm_size_mib * 1048576) as u64)
        }),
{
    if args.virtiofs_shm_size_mib == 0 {
        None
    } else {
        Some(args.virtiofs_shm_size_mib as u64 * 1048576)
    }
}

/// Runtime threads of the boot process: the shell relay reads and writes in
/// parallel, everything else runs on one.
pub fn worker_threads(args: &VmBootArgs) -> (r: usize)
    ensures
        r == (if args.shell_sock is Some {
            2int
        } else {
            1int
        }),
{
    if args.shell_sock.is_some() {
        2
    } else {
        1
    }
}

/// Bytes of memory the guest worker is told of: three quarters of the VM's,
/// and never less than 128 MiB.
pub open spec fn worker_heap_bytes(ram_mib: int) -> int {
    (if ram_mib * 3 / 4 < 128 {
        128
    } else {
        ram_mib * 3 / 4
    }) * 1048576
}

fn heap_bytes(ram_mib: u32) -> (r: u64)
    ensures
        r == worker_heap_bytes(ram_mib as int),
{
    let share: u64 = ram_mib as u64 * 3 / 4;
    if share < 128 {
        128 * 1048576
    } else {
        share * 1048576
    }
}

/// Addresses of a guest that has a network device.
#[derive(Debug, Clone, PartialEq, Eq)]
pub struct GuestNetwork {
    pub dns: String,
    pub guest_ip: String,
    pub gateway_ip: String,
}

/// Name of the control port inside the guest.
pub const CONTROL_PORT_NAME: &'static str = "iii.control";

/// Name of the shell port inside the guest.
pub const SHELL_PORT_NAME: &'static str = "iii.exec";

/// The gateway of a guest, if it has a network.
pub open spec fn gateway_of(net: Option<GuestNetwork>) -> Option<Seq<char>> {
    match net {
        Some(n) => Some(n.gateway_ip@),
        None => None,
    }
}

/// The variables that configure the guest's network device.
pub open spec fn network_env(net: Option<GuestNetwork>) -> Seq<(Seq<char>, Seq<char>)> {
    match net {
        Some(n) => seq![
            ("III_INIT_DNS"@, n.dns@),
            ("III_INIT_IP"@, n.guest_ip@),
            ("III_INIT_GW"@, n.gateway_ip@),
            ("III_INIT_CIDR"@, "30"@),
        ],
        None => Seq::empty(),
    }
}

/// The caller's `KEY=VALUE` entries as pairs, values pointed at the gateway;
/// entries without `=` are left out.
pub open spec fn caller_env(env: Seq<Seq<char>>, gateway: Option<Seq<char>>) -> Seq<
    (Seq<char>, Seq<char>),
>
    decreases env.len(),
{
    if env.len() == 0 {
        Seq::empty()
    } else {
        let rest = caller_env(env.drop_last(), gateway);
        match split_at_first(env.last(), '=') {
            Some(p) => rest.push((p.0, maybe_rewritten(p.1, gateway))),
            None => rest,
        }
    }
}

/// Some entry of `env` sets `PATH`.
pub open spec fn sets_path(env: Seq<Seq<char>>) -> bool {
    exists|i: int| 0 <= i < env.len() && has_key(#[trigger] env[i], "PATH"@)
}

/// What the launcher itself tells the guest, before the caller's variables.
pub open spec fn launcher_env(
    args: VmBootArgs,
    net: Option<GuestNetwork>,
    shell_port: bool,
    mounts_env: Seq<char>,
) -> Seq<(Seq<char>, Seq<char>)> {
    seq![
        (
            "III_WORKER_CMD"@,
            maybe_rewritten(worker_cmd(args.exec_path@, texts(args.arg@)), gateway_of(net)),
        ),
    ] + network_env(net) + seq![
        ("III_WORKER_MEM_BYTES"@, decimal(worker_heap_bytes(args.ram as int) as nat)),
    ] + (if args.control_sock is Some {
        seq![("III_CONTROL_PORT"@, CONTROL_PORT_NAME@), ("III_WORKER_WORKDIR"@, args.workdir@)]
    } else {
        Seq::empty()
    }) + (if shell_port {
        seq![("III_SHELL_PORT"@, SHELL_PORT_NAME@)]
    } else {
        Seq::empty()
    }) + (if mounts_env.len() > 0 {
        seq![("III_VIRTIOFS_MOUNTS"@, mounts_env)]
    } else {
        Seq::empty()
    })
}

/// The environment of the guest's first process, in the order it is set.
pub open spec fn guest_env_spec(
    args: VmBootArgs,
    net: Option<GuestNetwork>,
    shell_port: bool,
    mounts_env: Seq<char>,
) -> Seq<(Seq<char>, Seq<char>)> {
    launcher_env(args, net, shell_port, mounts_env) + caller_env(texts(args.env@), gateway_of(net))
        + (if sets_path(texts(args.env@)) {
        Seq::empty()
    } else {
        seq![("PATH"@, DEFAULT_GUEST_PATH@)]
    })
}

fn push_var(env: &mut Vec<(String, String)>, key: &str, value: &str)
    ensures
        pair_texts(final(env)@) == pair_texts(old(env)@).push((key@, value@)),
{
    env.push((key.to_owned(), value.to_owned()));
}

/// The environment of the guest's first process. `net` holds the addresses of
/// its network device, which it has if and only if the arguments ask for one;
/// `shell_port` says whether the host's shell relay started; `mounts_env` is the
/// mount plan's text.
pub fn guest_env(
    args: &VmBootArgs,
    net: &Option<GuestNetwork>,
    shell_port: bool,
    mounts_env: &str,
) -> (r: Vec<(String, String)>)
    requires
        net is Some == args.network,
    ensures
        pair_texts(r@) == guest_env_spec(*args, *net, shell_port, mounts_env@),
{
    let gateway: Option<&str> = match net {
        Some(n) => Some(n.gateway_ip.as_str()),
        None => None,
    };
    let mut env: Vec<(String, String)> = Vec::new();
    let cmd = build_worker_cmd(args.exec_path.as_str(), args.arg.as_slice());
    let cmd = maybe_rewrite_localhost(cmd.as_str(), gateway);
    push_var(&mut env, "III_WORKER_CMD", cmd.as_str());
    match net {
        Some(n) => {
            push_var(&mut env, "III_INIT_DNS", n.dns.as_str());
            push_var(&mut env, "III_INIT_IP", n.guest_ip.as_str());
            push_var(&mut env, "III_INIT_GW", n.gateway_ip.as_str());
            push_var(&mut env, "III_INIT_CIDR", "30");
        },
        None => {},
    }
    push_var(&mut env, "III_WORKER_MEM_BYTES", u64_text(heap_bytes(args.ram)).as_str());
    if args.control_sock.is_some() {
        push_var(&mut env, "III_CONTROL_PORT", CONTROL_PORT_NAME);
        push_var(&mut env, "III_WORKER_WORKDIR", args.workdir.as_str());
    }
    if shell_port {
        push_var(&mut env, "III_SHELL_PORT", SHELL_PORT_NAME);
    }
    if !mounts_env.is_empty() {
        push_var(&mut env, "III_VIRTIOFS_MOUNTS", mounts_env);
    }
    let ghost head = pair_texts(env@);
    assert(head == launcher_env(*args, *net, shell_port, mounts_env@));
    let ghost all = texts(args.env@);
    let mut i: usize = 0;
    assert(all.take(0) == Seq::<Seq<char>>::empty());
    assert(head + caller_env(all.take(0), gateway_of(*net)) == head);
    while i < args.env.len()
        invariant
            i <= args.env@.len(),
            all == texts(args.env@),
            opt_str(gateway) == gateway_of(*net),
            pair_texts(env@) == head + caller_env(all.take(i as int), gateway_of(*net)),
        decreases args.env@.len() - i,
    {
        let ghost before = caller_env(all.take(i as int), gateway_of(*net));
        assert(all.take(i + 1).drop_last() == all.take(i as int));
        assert(all.take(i + 1).last() == args.env@[i as int]@);
        match split_once(args.env[i].as_str(), '=') {
            Some(p) => {
                let value = maybe_rewrite_localhost(p.1.as_str(), gateway);
                push_var(&mut env, p.0.as_str(), value.as_str());
                assert((head + before).push((p.0@, value@)) == head + before.push((p.0@, value@)));
            },
            None => {},
        }
        i += 1;
    }
    assert(all.take(i as int) == all);
    let has_path = env_has_path(args.env.as_slice());
    assert(has_path == sets_path(all)) by {
        if has_path {
            let k = choose|k: int|
                0 <= k < args.env@.len() && has_key(#[trigger] args.env@[k]@, "PATH"@);
            assert(has_key(all[k], "PATH"@));
        }
        if sets_path(all) {
            let k = choose|k: int| 0 <= k < all.len() && has_key(#[trigger] all[k], "PATH"@);
            assert(has_key(args.env@[k]@, "PATH"@));
        }
    }
    if !has_path {
        push_var(&mut env, "PATH", DEFAULT_GUEST_PATH);
    }
    env
}

/// The open-file limit set on the guest worker, if any.
pub fn guest_nofile_limit(args: &VmBootArgs) -> (r: Option<u64>)
    ensures
        r == (if args.nofile_limit > 0 {
            Some(args.nofile_limit)
        } else {
            None
        }),
{
    if args.nofile_limit > 0 {
        Some(args.nofile_limit)
    } else {
        None
    }
}

/// Identity of a bound socket: its path, and the device and inode of the file
/// that binding made.
#[derive(Debug, Clone, PartialEq, Eq)]
pub struct SocketFingerprint {
    pub path: String,
    pub dev: u64,
    pub ino: u64,
}

impl SocketFingerprint {
    /// Whether the file now found at the path (its device and inode, if it can
    /// be read) is still the one that was bound, and so may be removed.
    pub fn unchanged(&self, now: Option<(u64, u64)>) -> (r: bool)
        ensures
            r == (now == Some((self.dev, self.ino))),
    {
        match now {
            Some(found) => found.0 == self.dev && found.1 == self.ino,
            None => false,
        }
    }
}

/// A socket to clean up, and what is now found at its path.
pub struct BoundSocket {
    pub fingerprint: SocketFingerprint,
    pub now: Option<(u64, u64)>,
}

/// The path of a socket that is still the one that was bound.
pub open spec fn removable(sock: Option<BoundSocket>) -> Seq<Seq<char>> {
    match sock {
        Some(s) => if s.now == Some((s.fingerprint.dev, s.fingerprint.ino)) {
            seq![s.fingerprint.path@]
        } else {
            Seq::empty()
        },
        None => Seq::empty(),
    }
}

/// Whether anything is registered to be cleaned up when the VM exits.
pub fn needs_exit_hook(pid_file: bool, control_sock: bool, shell_sock: bool) -> (r: bool)
    ensures
        r == (pid_file || control_sock || shell_sock),
{
    pid_file || control_sock || shell_sock
}

/// The files to remove when the VM exits, each resource on its own: the PID
/// file always, a socket only while it is the one that was bound.
pub fn exit_removals(
    pid_file: &Option<String>,
    control: &Option<BoundSocket>,
    shell: &Option<BoundSocket>,
) -> (r: Vec<String>)
    ensures
        texts(r@) == (match *pid_file {
            Some(p) => seq![p@],
            None => Seq::empty(),
        }) + removable(*control) + removable(*shell),
{
    let mut paths: Vec<String> = Vec::new();
    match pid_file {
        Some(p) => paths.push(p.clone()),
        None => {},
    }
    match control {
        Some(s) => if s.fingerprint.unchanged(s.now) {
            paths.push(s.fingerprint.path.clone());
        },
        None => {},
    }
    match shell {
        Some(s) => if s.fingerprint.unchanged(s.now) {
            paths.push(s.fingerprint.path.clone());
        },
        None => {},
    }
    paths
}

/// The line that announces the boot.
pub fn boot_banner(args: &VmBootArgs) -> (r: String)
    ensures
        r@ == "  Booting VM ("@ + decimal(args.vcpus as nat) + (if args.vcpus == 1 {
            " vCPU, "@
        } else {
            " vCPUs, "@
        }) + decimal(args.ram as nat) + " MiB RAM)..."@,
{
    let label = if args.vcpus == 1 {
        " vCPU, "
    } else {
        " vCPUs, "
    };
    let mut r = concat3("  Booting VM (", u64_text(args.vcpus as u64).as_str(), label);
    r.append(u64_text(args.ram as u64).as_str());
    r.append(" MiB RAM)...");
    r
}

/// The ports on the guest's console, in the order in which they are added.
pub fn console_ports(control_sock: bool, shell_port: bool) -> (r: Vec<String>)
    ensures
        texts(r@) == (if control_sock {
            seq![CONTROL_PORT_NAME@]
        } else {
            Seq::empty()
        }) + (if shell_port {
            seq![SHELL_PORT_NAME@]
        } else {
            Seq::empty()
        }),
{
    let mut ports: Vec<String> = Vec::new();
    if control_sock {
        ports.push(CONTROL_PORT_NAME.to_owned());
    }
    if shell_port {
        ports.push(SHELL_PORT_NAME.to_owned());
    }
    ports
}

/// What is said when the VM exits: nothing of a clean exit.
pub fn exit_message(exit_code: i32) -> (r: Option<String>)
    ensures
        opt_text(r) == (if exit_code != 0 {
            Some("  VM exited with code "@ + decimal_int(exit_code as int))
        } else {
            None
        }),
{
    if exit_code != 0 {
        Some(concat("  VM exited with code ", i64_text(exit_code as i64).as_str()))
    } else {
        None
    }
}

proof fn lemma_caller_env_keys(env: Seq<Seq<char>>, gateway: Option<Seq<char>>, key: Seq<char>)
    requires
        forall|i: int| 0 <= i < env.len() ==> !has_key(#[trigger] env[i], key),
    ensures
        forall|i: int|
            0 <= i < caller_env(env, gateway).len() ==> (#[trigger] caller_env(env, gateway)[i]).0
                != key,
    decreases env.len(),
{
    if env.len() > 0 {
        let init = env.drop_last();
        assert forall|i: int| 0 <= i < init.len() implies !has_key(#[trigger] init[i], key) by {
            assert(!has_key(env[i], key));
        }
        lemma_caller_env_keys(init, gateway, key);
        assert(!has_key(env[env.len() - 1], key));
        assert forall|i: int| 0 <= i < caller_env(env, gateway).len() implies (
        #[trigger] caller_env(env, gateway)[i]).0 != key by {
            if i < caller_env(init, gateway).len() {
                assert(caller_env(env, gateway)[i] == caller_env(init, gateway)[i]);
            }
        }
    }
}

/// The guest has one source of `PATH`: the caller where it gives one, even an
/// empty one, and the default otherwise.
pub proof fn path_has_one_source(
    args: VmBootArgs,
    net: Option<GuestNetwork>,
    shell_port: bool,
    mounts_env: Seq<char>,
)
    ensures
        ({
            let caller = caller_env(texts(args.env@), gateway_of(net));
            let launcher = launcher_env(args, net, shell_port, mounts_env);
            let env = guest_env_spec(args, net, shell_port, mounts_env);
            if sets_path(texts(args.env@)) {
                env == launcher + caller
            } else {
                &&& env == (launcher + caller).push(("PATH"@, DEFAULT_GUEST_PATH@))
                &&& forall|i: int| 0 <= i < caller.len() ==> (#[trigger] caller[i]).0 != "PATH"@
            }
        }),
{
    let caller = caller_env(texts(args.env@), gateway_of(net));
    let launcher = launcher_env(args, net, shell_port, mounts_env);
    let env = guest_env_spec(args, net, shell_port, mounts_env);
    if sets_path(texts(args.env@)) {
        assert(env == launcher + caller);
    } else {
        lemma_caller_env_keys(texts(args.env@), gateway_of(net), "PATH"@);
        assert(env == (launcher + caller).push(("PATH"@, DEFAULT_GUEST_PATH@)));
    }
}

/// `key` configures the guest's network device.
pub open spec fn network_key(key: Seq<char>) -> bool {
    key == "III_INIT_DNS"@ || key == "III_INIT_IP"@ || key == "III_INIT_GW"@ || key
        == "III_INIT_CIDR"@
}

/// The launcher tells the guest of a network if and only if the arguments ask
/// for one, and then of all that configures it.
pub proof fn network_is_told_iff_asked(
    args: VmBootArgs,
    net: Option<GuestNetwork>,
    shell_port: bool,
    mounts_env: Seq<char>,
)
    requires
        net is Some == args.network,
    ensures
        args.network <==> exists|i: int|
            0 <= i < launcher_env(args, net, shell_port, mounts_env).len() && network_key(
                (#[trigger] launcher_env(args, net, shell_port, mounts_env)[i]).0,
            ),
        args.network ==> launcher_env(args, net, shell_port, mounts_env).subrange(1, 5)
            == network_env(net),
{
    let env = launcher_env(args, net, shell_port, mounts_env);
    match net {
        Some(_) => {
            assert(env.subrange(1, 5) == network_env(net));
            assert(env[1] == network_env(net)[0]);
            assert(network_key(env[1].0));
        },
        None => {
            no_network_is_told_of_none(args, shell_port, mounts_env, Seq::empty());
        },
    }
}

/// A guest without a network is told of none, and its command and the caller's
/// values are left as they are.
pub proof fn no_network_is_told_of_none(
    args: VmBootArgs,
    shell_port: bool,
    mounts_env: Seq<char>,
    value: Seq<char>,
)
    ensures
        forall|i: int|
            0 <= i < launcher_env(args, None, shell_port, mounts_env).len() ==> !network_key(
                (#[trigger] launcher_env(args, None, shell_port, mounts_env)[i]).0,
            ),
        launcher_env(args, None, shell_port, mounts_env)[0] == (
            "III_WORKER_CMD"@,
            worker_cmd(args.exec_path@, texts(args.arg@)),
        ),
        maybe_rewritten(value, gateway_of(None)) == value,
{
    reveal_strlit("III_INIT_DNS");
    reveal_strlit("III_INIT_IP");
    reveal_strlit("III_INIT_GW");
    reveal_strlit("III_INIT_CIDR");
    reveal_strlit("III_WORKER_CMD");
    reveal_strlit("III_WORKER_MEM_BYTES");
    reveal_strlit("III_CONTROL_PORT");
    reveal_strlit("III_WORKER_WORKDIR");
    reveal_strlit("III_SHELL_PORT");
    reveal_strlit("III_VIRTIOFS_MOUNTS");
    assert("III_CONTROL_PORT"@[4] == 'C');
    assert("III_WORKER_CMD"@[4] == 'W');
    assert("III_WORKER_MEM_BYTES"@[4] == 'W');
    assert("III_WORKER_WORKDIR"@[4] == 'W');
    assert("III_SHELL_PORT"@[4] == 'S');
    assert("III_VIRTIOFS_MOUNTS"@[4] == 'V');
}

} // verus!
