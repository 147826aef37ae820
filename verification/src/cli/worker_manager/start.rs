//! What a worker is started with.

use crate::cli::worker_manager::boot_args::{
    apply_vm_tuning_env, dev_args, oci_args, push_flag, tuning_args, vm_boot_args_dev,
    vm_boot_args_oci, VmTuning,
};
use crate::cli::worker_manager::libkrun::{
    build_vm_env, engine_url, engine_url_of, inject_engine_url, inserted, k8s_mem_to_mib, mem_fits,
    mem_in_range, mem_mib, merge_env, with_url,
};
use crate::daemon_exit::{LIFELINE_FD_ENV, LIFELINE_SPAWNER_PID_ENV};
use crate::paths::{
    dev_logs_in, dev_logs_under, join_path, joined, worker_dir_in, worker_dir_under,
};
use crate::str_map::{lists, StrMap};
use crate::text::{opt_text, pair_texts, texts};
use vstd::prelude::*;

verus! {

/// A worker to start.
pub struct ContainerSpec {
    pub name: String,
    pub image: String,
    pub env: StrMap,
    /// A Kubernetes memory quantity.
    pub memory_limit: Option<String>,
}

/// What the worker's rootfs says of its image.
pub struct ImageConfig {
    /// The program and its arguments.
    pub entrypoint: Option<(String, Vec<String>)>,
    pub workdir: Option<String>,
    pub env: Vec<(String, String)>,
}

/// What the VM boot process is started with.
pub struct StartPlan {
    pub worker_rootfs: String,
    pub pid_file: String,
    pub logs_dir: String,
    pub stdout_log: String,
    pub stderr_log: String,
    /// The whole argument list, the subcommand first.
    pub argv: Vec<String>,
    /// The variables that the process must not inherit.
    pub env_remove: Vec<String>,
}

/// The variables that a detached VM must not inherit: with them it would end
/// with its spawner.
pub open spec fn lifeline_vars() -> Seq<Seq<char>> {
    seq![LIFELINE_FD_ENV@, LIFELINE_SPAWNER_PID_ENV@]
}

/// The variables that a detached VM must not inherit.
pub fn detached_env_remove() -> (r: Vec<String>)
    ensures
        texts(r@) == lifeline_vars(),
{
    let mut r: Vec<String> = Vec::new();
    r.push(LIFELINE_FD_ENV.to_owned());
    r.push(LIFELINE_SPAWNER_PID_ENV.to_owned());
    r
}

/// The variables of a process whose spawner has `env`, without those named in
/// `removed`.
pub open spec fn inherited(env: Map<Seq<char>, Seq<char>>, removed: Seq<Seq<char>>) -> Map<
    Seq<char>,
    Seq<char>,
> {
    env.remove_keys(removed.to_set())
}

/// The program that an image runs: its entrypoint, or a shell.
pub open spec fn program_of(image: ImageConfig) -> Seq<char> {
    match image.entrypoint {
        Some(e) => e.0@,
        None => "/bin/sh"@,
    }
}

/// The arguments of an image's program, pointed at the engine where the worker
/// knows one.
pub open spec fn program_args_of(image: ImageConfig, env: Map<Seq<char>, Seq<char>>) -> Seq<
    Seq<char>,
> {
    let args = match image.entrypoint {
        Some(e) => texts(e.1@),
        None => Seq::empty(),
    };
    match engine_url_of(env) {
        Some(url) => with_url(args, url),
        None => args,
    }
}

/// The memory of a worker's VM in MiB, as text.
pub open spec fn ram_of(limit: Option<String>) -> Seq<char> {
    match limit {
        Some(l) => match mem_mib(l@) {
            Some(m) => m,
            None => "2048"@,
        },
        None => "2048"@,
    }
}

/// The variables of a worker's VM.
pub open spec fn vm_env_of(image: ImageConfig, env: Map<Seq<char>, Seq<char>>) -> Map<
    Seq<char>,
    Seq<char>,
> {
    inserted(Map::empty(), pair_texts(image.env@)).union_prefer_right(env).insert(
        "III_ISOLATION"@,
        "libkrun"@,
    )
}

/// `argv` starts the worker `spec` of `image` in the directory `dir`: the
/// variables come in key order.
pub open spec fn starts_worker(
    argv: Seq<Seq<char>>,
    spec_: ContainerSpec,
    image: ImageConfig,
    vcpus: nat,
    dir: Seq<char>,
    tuning: VmTuning,
) -> bool {
    exists|env: Seq<(Seq<char>, Seq<char>)>|
        {
            &&& #[trigger] lists(env, vm_env_of(image, spec_.env@))
            &&& argv == seq!["__vm-boot"@] + oci_args(
                joined(dir, "rootfs"@),
                program_of(image),
                match image.workdir {
                    Some(w) => w@,
                    None => "/"@,
                },
                vcpus,
                ram_of(spec_.memory_limit),
                joined(dir, "vm.pid"@),
                joined(joined(dir, "logs"@), "stdout.log"@),
                joined(dir, "control.sock"@),
                joined(dir, "shell.sock"@),
                env,
                program_args_of(image, spec_.env@),
            ) + tuning_args(tuning)
        }
}

/// `plan` is the start of the worker `spec_` of `image`, with its files in its
/// directory under `home`. Without a limit on CPUs it gets two.
pub open spec fn plans_worker(
    plan: StartPlan,
    spec_: ContainerSpec,
    image: ImageConfig,
    cpu_limit: Option<u32>,
    home: Option<Seq<char>>,
    tuning: VmTuning,
) -> bool {
    let dir = worker_dir_under(home, spec_.name@);
    let vcpus = match cpu_limit {
        Some(n) => n as nat,
        None => 2,
    };
    &&& plan.worker_rootfs@ == joined(dir, "rootfs"@)
    &&& plan.pid_file@ == joined(dir, "vm.pid"@)
    &&& plan.logs_dir@ == joined(dir, "logs"@)
    &&& plan.stdout_log@ == joined(plan.logs_dir@, "stdout.log"@)
    &&& plan.stderr_log@ == joined(plan.logs_dir@, "stderr.log"@)
    &&& starts_worker(texts(plan.argv@), spec_, image, vcpus, dir, tuning)
    &&& texts(plan.env_remove@) == lifeline_vars()
}

/// Put together the start of a worker. `cpu_limit` is its limit on CPUs,
/// rounded up, if it has one that parses; two vCPUs otherwise.
pub fn plan_start(
    spec_: &ContainerSpec,
    image: &ImageConfig,
    cpu_limit: Option<u32>,
    home: &Option<String>,
    tuning: &VmTuning,
) -> (r: StartPlan)
    requires
        match spec_.memory_limit {
            Some(l) => mem_in_range(l@),
            None => true,
        },
    ensures
        plans_worker(r, *spec_, *image, cpu_limit, opt_text(*home), *tuning),
{
    let dir = worker_dir_in(home, spec_.name.as_str());
    let worker_rootfs = join_path(dir.as_str(), "rootfs");
    let pid_file = join_path(dir.as_str(), "vm.pid");
    let logs_dir = join_path(dir.as_str(), "logs");
    let stdout_log = join_path(logs_dir.as_str(), "stdout.log");
    let stderr_log = join_path(logs_dir.as_str(), "stderr.log");
    let control_sock = join_path(dir.as_str(), "control.sock");
    let shell_sock = join_path(dir.as_str(), "shell.sock");
    let (exec_path, exec_args): (String, Vec<String>) = match &image.entrypoint {
        Some(e) => (e.0.clone(), e.1.clone()),
        None => ("/bin/sh".to_owned(), Vec::new()),
    };
    proof {
        match &image.entrypoint {
            Some(e) => {
                assert(texts(exec_args@) == texts(e.1@));
            },
            None => {
                assert(texts(exec_args@) == Seq::<Seq<char>>::empty());
            },
        }
    }
    let exec_args = match engine_url(&spec_.env) {
        Some(url) => inject_engine_url(exec_args, url.as_str()),
        None => exec_args,
    };
    let workdir = match &image.workdir {
        Some(w) => w.clone(),
        None => "/".to_owned(),
    };
    let vcpus: u32 = match cpu_limit {
        Some(n) => n,
        None => 2,
    };
    let ram_mib = match &spec_.memory_limit {
        Some(l) => match k8s_mem_to_mib(l.as_str()) {
            Some(m) => m,
            None => "2048".to_owned(),
        },
        None => "2048".to_owned(),
    };
    let env = merge_env(image.env.as_slice(), &spec_.env);
    let pairs = env.entries();
    let mut boot = vm_boot_args_oci(
        worker_rootfs.as_str(),
        exec_path.as_str(),
        workdir.as_str(),
        vcpus,
        ram_mib.as_str(),
        pid_file.as_str(),
        stdout_log.as_str(),
        control_sock.as_str(),
        shell_sock.as_str(),
        pairs.as_slice(),
        exec_args.as_slice(),
    );
    let mut argv: Vec<String> = Vec::new();
    argv.push("__vm-boot".to_owned());
    let mut extra = apply_vm_tuning_env(tuning);
    let ghost boot_texts = texts(boot@);
    let ghost extra_texts = texts(extra@);
    argv.append(&mut boot);
    argv.append(&mut extra);
    assert(texts(argv@) == seq!["__vm-boot"@] + boot_texts + extra_texts);
    assert(lists(pair_texts(pairs@), vm_env_of(*image, spec_.env@)));
    let env_remove = detached_env_remove();
    StartPlan { worker_rootfs, pid_file, logs_dir, stdout_log, stderr_log, argv, env_remove }
}

/// As `plan_start`, for any memory limit: `None` for one whose number of MiB
/// does not fit 64 bits.
pub fn try_plan_start(
    spec_: &ContainerSpec,
    image: &ImageConfig,
    cpu_limit: Option<u32>,
    home: &Option<String>,
    tuning: &VmTuning,
) -> (r: Option<StartPlan>)
    ensures
        r is Some <==> match spec_.memory_limit {
            Some(l) => mem_in_range(l@),
            None => true,
        },
        match r {
            Some(plan) => plans_worker(
                plan,
                *spec_,
                *image,
                cpu_limit,
                opt_text(*home),
                *tuning,
            ),
            None => true,
        },
{
    let fits = match &spec_.memory_limit {
        Some(l) => mem_fits(l.as_str()),
        None => true,
    };
    if fits {
        Some(plan_start(spec_, image, cpu_limit, home, tuning))
    } else {
        None
    }
}

/// A worker in development.
pub struct DevSpec {
    pub exec_path: String,
    pub args: Vec<String>,
    pub env: StrMap,
    pub vcpus: u32,
    pub ram_mib: u32,
    pub rootfs: String,
    pub background: bool,
    pub worker_name: String,
    /// Host and guest directories.
    pub mounts: Vec<(String, String)>,
}

/// What the VM boot process of a worker in development is started with.
pub struct DevPlan {
    pub pid_file: String,
    /// Where a worker in the background logs.
    pub logs_dir: String,
    /// The whole argument list, the subcommand first.
    pub argv: Vec<String>,
    /// The variables that the process must not inherit.
    pub env_remove: Vec<String>,
}

/// `argv` starts the development worker `spec_`, which logs to `logs` if it is
/// in the background: the variables come in key order.
pub open spec fn starts_dev(
    argv: Seq<Seq<char>>,
    spec_: DevSpec,
    logs: Seq<char>,
    tuning: VmTuning,
) -> bool {
    exists|env: Seq<(Seq<char>, Seq<char>)>|
        {
            &&& #[trigger] lists(env, spec_.env@.insert("III_ISOLATION"@, "libkrun"@))
            &&& argv == seq!["__vm-boot"@] + dev_args(
                spec_.rootfs@,
                spec_.exec_path@,
                spec_.vcpus as nat,
                spec_.ram_mib as nat,
                joined(spec_.rootfs@, "control.sock"@),
                joined(spec_.rootfs@, "shell.sock"@),
                env,
                pair_texts(spec_.mounts@),
                texts(spec_.args@),
            ) + tuning_args(tuning) + (if spec_.background {
                seq!["--console-output"@, joined(logs, "stdout.log"@)]
            } else {
                Seq::empty()
            })
        }
}

/// Put together the start of a worker in development.
pub fn plan_dev(spec_: &DevSpec, home: &Option<String>, tuning: &VmTuning) -> (r: DevPlan)
    ensures
        r.pid_file@ == joined(spec_.rootfs@, "vm.pid"@),
        r.logs_dir@ == dev_logs_under(opt_text(*home), spec_.worker_name@),
        starts_dev(texts(r.argv@), *spec_, r.logs_dir@, *tuning),
        texts(r.env_remove@) == lifeline_vars(),
{
    let env = build_vm_env(spec_.env.clone());
    let pairs = env.entries();
    let control_sock = join_path(spec_.rootfs.as_str(), "control.sock");
    let shell_sock = join_path(spec_.rootfs.as_str(), "shell.sock");
    let pid_file = join_path(spec_.rootfs.as_str(), "vm.pid");
    let logs_dir = dev_logs_in(home, spec_.worker_name.as_str());
    let mut boot = vm_boot_args_dev(
        spec_.rootfs.as_str(),
        spec_.exec_path.as_str(),
        spec_.vcpus,
        spec_.ram_mib,
        control_sock.as_str(),
        shell_sock.as_str(),
        pairs.as_slice(),
        spec_.mounts.as_slice(),
        spec_.args.as_slice(),
    );
    let mut argv: Vec<String> = Vec::new();
    argv.push("__vm-boot".to_owned());
    let mut extra = apply_vm_tuning_env(tuning);
    let ghost boot_texts = texts(boot@);
    let ghost extra_texts = texts(extra@);
    argv.append(&mut boot);
    argv.append(&mut extra);
    assert(texts(argv@) == seq!["__vm-boot"@] + boot_texts + extra_texts);
    if spec_.background {
        let console = join_path(logs_dir.as_str(), "stdout.log");
        let ghost before = texts(argv@);
        push_flag(&mut argv, "--console-output", console.as_str());
        assert(texts(argv@) == before + seq!["--console-output"@, console@]);
    }
    assert(lists(pair_texts(pairs@), spec_.env@.insert("III_ISOLATION"@, "libkrun"@)));
    let env_remove = detached_env_remove();
    DevPlan { pid_file, logs_dir, argv, env_remove }
}

/// What follows once the boot process of a worker in development runs.
#[derive(Debug, Clone, Copy, PartialEq, Eq)]
pub enum DevNext {
    /// Kill the child, which nothing would track, and exit with this code.
    KillAndExit(i32),
    /// Exit with this code; the worker runs on.
    Exit(i32),
    /// Wait for the child or for an interrupt.
    Wait,
}

/// What follows a spawn: `pid` is the child's id if it has one, `recorded`
/// whether it could be written to the pid file.
pub fn after_dev_spawn(pid: Option<u32>, recorded: bool, background: bool) -> (r: DevNext)
    ensures
        r == (if pid is Some && pid->0 > 0 && !recorded {
            DevNext::KillAndExit(1)
        } else if background {
            DevNext::Exit(0)
        } else {
            DevNext::Wait
        }),
{
    let child: u32 = match pid {
        Some(p) => p,
        None => 0,
    };
    if child > 0 && !recorded {
        DevNext::KillAndExit(1)
    } else if background {
        DevNext::Exit(0)
    } else {
        DevNext::Wait
    }
}

/// How the wait for a worker in development ended.
#[derive(Debug, Clone, Copy, PartialEq, Eq)]
pub enum DevWait {
    /// The child exited, with a code unless a signal ended it.
    Exited(Option<i32>),
    /// Waiting failed.
    Failed,
    /// The user interrupted; the child is killed.
    Interrupted,
}

/// The exit code of a development session.
pub fn dev_exit_code(end: DevWait) -> (r: i32)
    ensures
        r == (match end {
            DevWait::Exited(Some(c)) => c,
            DevWait::Exited(None) => 1,
            DevWait::Failed => 1,
            DevWait::Interrupted => 0,
        }),
{
    match end {
        DevWait::Exited(code) => match code {
            Some(c) => c,
            None => 1,
        },
        DevWait::Failed => 1,
        DevWait::Interrupted => 0,
    }
}

/// Whatever the image and the worker's specification say, the VM knows that it
/// is a libkrun VM; the specification's other variables reach it unchanged, and
/// so do the image's that the specification does not set.
pub proof fn vm_env_precedence(image: ImageConfig, env: Map<Seq<char>, Seq<char>>, k: Seq<char>)
    ensures
        vm_env_of(image, env)["III_ISOLATION"@] == "libkrun"@,
        k != "III_ISOLATION"@ && env.contains_key(k) ==> vm_env_of(image, env).contains_pair(
            k,
            env[k],
        ),
        k != "III_ISOLATION"@ && !env.contains_key(k) ==> (vm_env_of(image, env).contains_key(k)
            <==> inserted(Map::empty(), pair_texts(image.env@)).contains_key(k)),
        k != "III_ISOLATION"@ && !env.contains_key(k) && inserted(
            Map::empty(),
            pair_texts(image.env@),
        ).contains_key(k) ==> vm_env_of(image, env)[k] == inserted(
            Map::empty(),
            pair_texts(image.env@),
        )[k],
{
}

/// A detached VM finds neither a lifeline nor a spawner to end with, whatever
/// its spawner inherited; every other variable reaches it.
pub proof fn detached_vm_has_no_lifeline(env: Map<Seq<char>, Seq<char>>, k: Seq<char>)
    ensures
        !inherited(env, lifeline_vars()).contains_key(LIFELINE_FD_ENV@),
        !inherited(env, lifeline_vars()).contains_key(LIFELINE_SPAWNER_PID_ENV@),
        k != LIFELINE_FD_ENV@ && k != LIFELINE_SPAWNER_PID_ENV@ && env.contains_key(k)
            ==> inherited(env, lifeline_vars()).contains_pair(k, env[k]),
{
    let vars = lifeline_vars();
    assert(vars[0] == LIFELINE_FD_ENV@);
    assert(vars[1] == LIFELINE_SPAWNER_PID_ENV@);
    assert(vars.to_set().contains(vars[0]));
    assert(vars.to_set().contains(vars[1]));
}

} // verus!
