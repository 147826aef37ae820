//! Laws of starting workers.

use crate::cli::worker_manager::boot_args::{dev_args, glued, oci_args, tuning_args, VmTuning};
use crate::cli::worker_manager::libkrun::{
    engine_url, inject_engine_url, inserted, k8s_mem_to_mib, mem_fits, merge_env, url_slot,
};
use crate::cli::worker_manager::start::{
    detached_env_remove, plan_dev, plan_start, program_args_of, program_of, ram_of, try_plan_start,
    vm_env_of, ContainerSpec, DevPlan, DevSpec, ImageConfig, StartPlan,
};
use crate::laws::argv::{
    lemma_dev_read, lemma_flags_differ, lemma_oci_read, lemma_pair, lemma_tuning, of_flag, tuned,
    switch_read, values_read,
};
use crate::numbers::{decimal, decimal_reads_back, parsed_unsigned};
use crate::paths::{dev_logs_in, joined, worker_dir_in, worker_dir_under};
use crate::str_map::{lemma_before_irreflexive, lists, StrMap};
use crate::text::{ends_with, opt_text, pair_texts, texts};
use vstd::prelude::*;

verus! {

/// `vals` sets each variable of `want` once, to its value, and no other.
pub open spec fn are_settings(
    vals: Seq<Seq<char>>,
    want: Map<Seq<char>, Seq<char>>,
    keys: Seq<Seq<char>>,
) -> bool {
    &&& vals.len() == keys.len()
    &&& keys.no_duplicates()
    &&& forall|k: Seq<char>| want.contains_key(k) <==> #[trigger] keys.contains(k)
    &&& forall|i: int| 0 <= i < vals.len() ==> #[trigger] vals[i] == keys[i] + "="@ + want[keys[i]]
}

proof fn lemma_settings(
    pairs: Seq<(Seq<char>, Seq<char>)>,
    want: Map<Seq<char>, Seq<char>>,
) -> (keys: Seq<Seq<char>>)
    requires
        lists(pairs, want),
    ensures
        are_settings(glued(pairs, "="@), want, keys),
{
    let keys = pairs.map_values(|p: (Seq<char>, Seq<char>)| p.0);
    let vals = glued(pairs, "="@);
    assert forall|i: int, j: int| 0 <= i < keys.len() && 0 <= j < keys.len()
        && i != j implies keys[i]
        != keys[j] by {
        if i < j {
            assert(crate::str_map::before(pairs[i].0, pairs[j].0));
        } else {
            assert(crate::str_map::before(pairs[j].0, pairs[i].0));
        }
        lemma_before_irreflexive(pairs[i].0);
    }
    assert forall|k: Seq<char>| want.contains_key(k) <==> #[trigger] keys.contains(k) by {
        if want.contains_key(k) {
            let i = choose|i: int| 0 <= i < pairs.len() && (#[trigger] pairs[i]).0 == k;
            assert(keys[i] == k);
        }
        if keys.contains(k) {
            let i = choose|i: int| 0 <= i < keys.len() && keys[i] == k;
            assert(want.contains_pair(pairs[i].0, pairs[i].1));
        }
    }
    assert forall|i: int| 0 <= i < vals.len() implies #[trigger] vals[i] == keys[i] + "="@
        + want[keys[i]] by {
        assert(want.contains_pair(pairs[i].0, pairs[i].1));
    }
    keys
}

/// The boot process of a development worker reads back what the worker was
/// specified with: its program and its arguments in order, its mounts in order,
/// its files and its size; its VM has a network, and logs only in the
/// background.
pub proof fn dev_worker_runs_as_specified(
    spec_: &DevSpec,
    home: &Option<String>,
    tuning: &VmTuning,
    plan: DevPlan,
)
    requires
        call_ensures(plan_dev, (spec_, home, tuning), plan),
    ensures
        ({
            let read = texts(plan.argv@).skip(1);
            let args = values_read(read, "--arg"@);
            let mounts = values_read(read, "--mount"@);
            let cpus = values_read(read, "--vcpus"@);
            let ram = values_read(read, "--ram"@);
            let console = values_read(read, "--console-output"@);
            &&& plan.argv@[0]@ == "__vm-boot"@
            &&& values_read(read, "--exec"@) == seq![spec_.exec_path@]
            &&& args.len() == spec_.args@.len()
            &&& forall|i: int| 0 <= i < args.len() ==> #[trigger] args[i] == spec_.args@[i]@
            &&& mounts.len() == spec_.mounts@.len()
            &&& forall|i: int|
                0 <= i < mounts.len() ==> #[trigger] mounts[i] == spec_.mounts@[i].0@ + ":"@
                    + spec_.mounts@[i].1@
            &&& values_read(read, "--rootfs"@) == seq![spec_.rootfs@]
            &&& values_read(read, "--workdir"@) == seq!["/workspace"@]
            &&& cpus.len() == 1 && parsed_unsigned(cpus[0], u32::MAX as nat) == Some(
                spec_.vcpus as nat,
            )
            &&& ram.len() == 1 && parsed_unsigned(ram[0], u32::MAX as nat) == Some(
                spec_.ram_mib as nat,
            )
            &&& values_read(read, "--control-sock"@) == seq![
                joined(spec_.rootfs@, "control.sock"@),
            ]
            &&& values_read(read, "--shell-sock"@) == seq![joined(spec_.rootfs@, "shell.sock"@)]
            &&& values_read(read, "--pid-file"@).len() == 0
            &&& console == (if spec_.background {
                seq![joined(plan.logs_dir@, "stdout.log"@)]
            } else {
                Seq::empty()
            })
            &&& switch_read(read, "--network"@)
        }),
{
    lemma_flags_differ();
    let argv = texts(plan.argv@);
    let env = choose|env: Seq<(Seq<char>, Seq<char>)>|
        {
            &&& #[trigger] lists(env, spec_.env@.insert("III_ISOLATION"@, "libkrun"@))
            &&& argv == seq!["__vm-boot"@] + dev_args(
                spec_.rootfs@,
                spec_.exec_path@,
                spec_.vcpus as nat,
                spec_.ram_mib as nat,
                joined(spec_.rootfs@, "control.sock"@),
                joined(spec_.rootfs@, "shell.sock"@),
                env,
                pair_texts(spec_.mounts@),
                texts(spec_.args@),
            ) + tuning_args(*tuning) + (if spec_.background {
                seq!["--console-output"@, joined(plan.logs_dir@, "stdout.log"@)]
            } else {
                Seq::empty()
            })
        };
    lemma_dev_values(spec_, tuning, plan, env, "--exec"@);
    lemma_dev_values(spec_, tuning, plan, env, "--arg"@);
    lemma_dev_values(spec_, tuning, plan, env, "--mount"@);
    lemma_dev_values(spec_, tuning, plan, env, "--rootfs"@);
    lemma_dev_values(spec_, tuning, plan, env, "--workdir"@);
    lemma_dev_values(spec_, tuning, plan, env, "--vcpus"@);
    lemma_dev_values(spec_, tuning, plan, env, "--ram"@);
    lemma_dev_values(spec_, tuning, plan, env, "--control-sock"@);
    lemma_dev_values(spec_, tuning, plan, env, "--shell-sock"@);
    lemma_dev_values(spec_, tuning, plan, env, "--pid-file"@);
    lemma_dev_values(spec_, tuning, plan, env, "--console-output"@);
    lemma_dev_values(spec_, tuning, plan, env, "--network"@);
    decimal_reads_back(spec_.vcpus as nat, u32::MAX as nat);
    decimal_reads_back(spec_.ram_mib as nat, u32::MAX as nat);
    assert(argv[0] == plan.argv@[0]@);
    let read = argv.skip(1);
    assert(values_read(read, "--arg"@) =~= texts(spec_.args@));
    assert(values_read(read, "--mount"@) =~= glued(pair_texts(spec_.mounts@), ":"@));
    assert(values_read(read, "--exec"@) =~= seq![spec_.exec_path@]);
    assert(values_read(read, "--rootfs"@) =~= seq![spec_.rootfs@]);
    assert(values_read(read, "--workdir"@) =~= seq!["/workspace"@]);
    assert(values_read(read, "--vcpus"@) =~= seq![decimal(spec_.vcpus as nat)]);
    assert(values_read(read, "--ram"@) =~= seq![decimal(spec_.ram_mib as nat)]);
}

proof fn lemma_dev_values(
    spec_: &DevSpec,
    tuning: &VmTuning,
    plan: DevPlan,
    env: Seq<(Seq<char>, Seq<char>)>,
    flag: Seq<char>,
)
    requires
        texts(plan.argv@) == seq!["__vm-boot"@] + dev_args(
            spec_.rootfs@,
            spec_.exec_path@,
            spec_.vcpus as nat,
            spec_.ram_mib as nat,
            joined(spec_.rootfs@, "control.sock"@),
            joined(spec_.rootfs@, "shell.sock"@),
            env,
            pair_texts(spec_.mounts@),
            texts(spec_.args@),
        ) + tuning_args(*tuning) + (if spec_.background {
            seq!["--console-output"@, joined(plan.logs_dir@, "stdout.log"@)]
        } else {
            Seq::empty()
        }),
    ensures
        ({
            let read = texts(plan.argv@).skip(1);
            let none = Seq::<Seq<char>>::empty();
            &&& values_read(read, flag) == of_flag(flag, "--rootfs"@, seq![spec_.rootfs@])
                + of_flag(
                flag,
                "--exec"@,
                seq![spec_.exec_path@],
            ) + of_flag(flag, "--workdir"@, seq!["/workspace"@]) + of_flag(
                flag,
                "--vcpus"@,
                seq![decimal(spec_.vcpus as nat)],
            ) + of_flag(flag, "--ram"@, seq![decimal(spec_.ram_mib as nat)]) + of_flag(
                flag,
                "--control-sock"@,
                seq![joined(spec_.rootfs@, "control.sock"@)],
            ) + of_flag(flag, "--shell-sock"@, seq![joined(spec_.rootfs@, "shell.sock"@)])
                + of_flag(flag, "--env"@, glued(env, "="@)) + of_flag(
                flag,
                "--mount"@,
                glued(pair_texts(spec_.mounts@), ":"@),
            ) + of_flag(flag, "--arg"@, texts(spec_.args@)) + tuned(*tuning, flag) + (
            if spec_.background {
                of_flag(
                    flag,
                    "--console-output"@,
                    seq![joined(plan.logs_dir@, "stdout.log"@)],
                )
            } else {
                none
            })
            &&& flag == "--network"@ ==> switch_read(read, flag)
        }),
{
    lemma_flags_differ();
    let none = Seq::<Seq<char>>::empty();
    let log = joined(plan.logs_dir@, "stdout.log"@);
    let console = if spec_.background {
        seq!["--console-output"@, log]
    } else {
        none
    };
    if spec_.background {
        assert(console == seq!["--console-output"@, log] + none);
        lemma_pair("--console-output"@, log, none, flag);
        assert(of_flag(flag, "--console-output"@, seq![log]) + none == of_flag(
            flag,
            "--console-output"@,
            seq![log],
        ));
    }
    lemma_tuning(*tuning, console, flag);
    let tail = tuning_args(*tuning) + console;
    lemma_dev_read(
        spec_.rootfs@,
        spec_.exec_path@,
        spec_.vcpus as nat,
        spec_.ram_mib as nat,
        joined(spec_.rootfs@, "control.sock"@),
        joined(spec_.rootfs@, "shell.sock"@),
        env,
        pair_texts(spec_.mounts@),
        texts(spec_.args@),
        tail,
        flag,
    );
    let argv = dev_args(
        spec_.rootfs@,
        spec_.exec_path@,
        spec_.vcpus as nat,
        spec_.ram_mib as nat,
        joined(spec_.rootfs@, "control.sock"@),
        joined(spec_.rootfs@, "shell.sock"@),
        env,
        pair_texts(spec_.mounts@),
        texts(spec_.args@),
    );
    assert(texts(plan.argv@).skip(1) == argv + tail);
}

/// The VM of a development worker gets the variables that the worker was
/// specified with, each once and with its value, and the mark of its isolation
/// whatever the specification says of it.
pub proof fn dev_worker_gets_its_variables(
    spec_: &DevSpec,
    home: &Option<String>,
    tuning: &VmTuning,
    plan: DevPlan,
)
    requires
        call_ensures(plan_dev, (spec_, home, tuning), plan),
    ensures
        exists|want: Map<Seq<char>, Seq<char>>, keys: Seq<Seq<char>>|
            {
                &&& #[trigger] are_settings(
                    values_read(texts(plan.argv@).skip(1), "--env"@),
                    want,
                    keys,
                )
                &&& want.contains_key("III_ISOLATION"@) && want["III_ISOLATION"@] == "libkrun"@
                &&& forall|k: Seq<char>|
                    k != "III_ISOLATION"@ ==> (#[trigger] want.contains_key(k)
                        <==> spec_.env@.contains_key(k))
                &&& forall|k: Seq<char>|
                    k != "III_ISOLATION"@ && #[trigger] spec_.env@.contains_key(k) ==> want[k]
                        == spec_.env@[k]
            },
{
    lemma_flags_differ();
    let argv = texts(plan.argv@);
    let want = spec_.env@.insert("III_ISOLATION"@, "libkrun"@);
    let env = choose|env: Seq<(Seq<char>, Seq<char>)>|
        {
            &&& #[trigger] lists(env, spec_.env@.insert("III_ISOLATION"@, "libkrun"@))
            &&& argv == seq!["__vm-boot"@] + dev_args(
                spec_.rootfs@,
                spec_.exec_path@,
                spec_.vcpus as nat,
                spec_.ram_mib as nat,
                joined(spec_.rootfs@, "control.sock"@),
                joined(spec_.rootfs@, "shell.sock"@),
                env,
                pair_texts(spec_.mounts@),
                texts(spec_.args@),
            ) + tuning_args(*tuning) + (if spec_.background {
                seq!["--console-output"@, joined(plan.logs_dir@, "stdout.log"@)]
            } else {
                Seq::empty()
            })
        };
    lemma_dev_values(spec_, tuning, plan, env, "--env"@);
    assert(values_read(argv.skip(1), "--env"@) =~= glued(env, "="@));
    let keys = lemma_settings(env, want);
    assert(are_settings(values_read(argv.skip(1), "--env"@), want, keys));
}

/// A worker that may outlive its spawner is handed none of the variables by
/// which a process ends with its spawner.
pub proof fn workers_inherit_no_lifeline(
    spec_: &DevSpec,
    home: &Option<String>,
    tuning: &VmTuning,
    dev: DevPlan,
    container: &ContainerSpec,
    image: &ImageConfig,
    cpu_limit: Option<u32>,
    plan: StartPlan,
)
    requires
        call_ensures(plan_dev, (spec_, home, tuning), dev),
        call_ensures(plan_start, (container, image, cpu_limit, home, tuning), plan),
    ensures
        dev.env_remove@.len() == 2,
        plan.env_remove@.len() == 2,
        exists|i: int|
            0 <= i < dev.env_remove@.len() && (#[trigger] dev.env_remove@[i])@
                == "III_LIFELINE_FD"@,
        exists|i: int|
            0 <= i < dev.env_remove@.len() && (#[trigger] dev.env_remove@[i])@
                == "III_LIFELINE_SPAWNER_PID"@,
        exists|i: int|
            0 <= i < plan.env_remove@.len() && (#[trigger] plan.env_remove@[i])@
                == "III_LIFELINE_FD"@,
        exists|i: int|
            0 <= i < plan.env_remove@.len() && (#[trigger] plan.env_remove@[i])@
                == "III_LIFELINE_SPAWNER_PID"@,
{
    let a = texts(dev.env_remove@);
    let b = texts(plan.env_remove@);
    assert(a.len() == dev.env_remove@.len() && b.len() == plan.env_remove@.len());
    assert(a[0] == dev.env_remove@[0]@ && a[1] == dev.env_remove@[1]@);
    assert(b[0] == plan.env_remove@[0]@ && b[1] == plan.env_remove@[1]@);
    assert(dev.env_remove@[0]@ == "III_LIFELINE_FD"@);
    assert(dev.env_remove@[1]@ == "III_LIFELINE_SPAWNER_PID"@);
    assert(plan.env_remove@[0]@ == "III_LIFELINE_FD"@);
    assert(plan.env_remove@[1]@ == "III_LIFELINE_SPAWNER_PID"@);
}

proof fn lemma_oci_values(
    rootfs: Seq<char>,
    exec_path: Seq<char>,
    workdir: Seq<char>,
    vcpus: nat,
    ram: Seq<char>,
    pid_file: Seq<char>,
    console_output: Seq<char>,
    control_sock: Seq<char>,
    shell_sock: Seq<char>,
    env: Seq<(Seq<char>, Seq<char>)>,
    exec_args: Seq<Seq<char>>,
    tuning: VmTuning,
    argv: Seq<Seq<char>>,
    flag: Seq<char>,
)
    requires
        argv == seq!["__vm-boot"@] + oci_args(
            rootfs,
            exec_path,
            workdir,
            vcpus,
            ram,
            pid_file,
            console_output,
            control_sock,
            shell_sock,
            env,
            exec_args,
        ) + tuning_args(tuning),
    ensures
        values_read(argv.skip(1), flag) == of_flag(flag, "--rootfs"@, seq![rootfs]) + of_flag(
            flag,
            "--exec"@,
            seq![exec_path],
        ) + of_flag(flag, "--workdir"@, seq![workdir]) + of_flag(
            flag,
            "--vcpus"@,
            seq![decimal(vcpus)],
        ) + of_flag(flag, "--ram"@, seq![ram]) + of_flag(flag, "--pid-file"@, seq![pid_file])
            + of_flag(flag, "--console-output"@, seq![console_output]) + of_flag(
            flag,
            "--control-sock"@,
            seq![control_sock],
        ) + of_flag(flag, "--shell-sock"@, seq![shell_sock]) + of_flag(
            flag,
            "--env"@,
            glued(env, "="@),
        ) + of_flag(flag, "--arg"@, exec_args) + tuned(tuning, flag),
        flag == "--network"@ ==> switch_read(argv.skip(1), flag),
{
    lemma_flags_differ();
    let none = Seq::<Seq<char>>::empty();
    lemma_tuning(tuning, none, flag);
    let tail = tuning_args(tuning) + none;
    lemma_oci_read(
        rootfs,
        exec_path,
        workdir,
        vcpus,
        ram,
        pid_file,
        console_output,
        control_sock,
        shell_sock,
        env,
        exec_args,
        tail,
        flag,
    );
    assert(argv.skip(1) == oci_args(
        rootfs,
        exec_path,
        workdir,
        vcpus,
        ram,
        pid_file,
        console_output,
        control_sock,
        shell_sock,
        env,
        exec_args,
    ) + tail);
}

proof fn lemma_start(
    spec_: &ContainerSpec,
    image: &ImageConfig,
    cpu_limit: Option<u32>,
    home: &Option<String>,
    tuning: &VmTuning,
    plan: StartPlan,
    at: Seq<char>,
    flag: Seq<char>,
) -> (env: Seq<(Seq<char>, Seq<char>)>)
    requires
        call_ensures(plan_start, (spec_, image, cpu_limit, home, tuning), plan),
        at == worker_dir_under(opt_text(*home), spec_.name@),
    ensures
        lists(env, vm_env_of(*image, spec_.env@)),
        values_read(texts(plan.argv@).skip(1), flag) == of_flag(
            flag,
            "--rootfs"@,
            seq![joined(at, "rootfs"@)],
        ) + of_flag(flag, "--exec"@, seq![program_of(*image)]) + of_flag(
            flag,
            "--workdir"@,
            seq![
                match image.workdir {
                    Some(w) => w@,
                    None => "/"@,
                },
            ],
        ) + of_flag(
            flag,
            "--vcpus"@,
            seq![
                decimal(
                    match cpu_limit {
                        Some(n) => n as nat,
                        None => 2,
                    },
                ),
            ],
        ) + of_flag(flag, "--ram"@, seq![ram_of(spec_.memory_limit)]) + of_flag(
            flag,
            "--pid-file"@,
            seq![joined(at, "vm.pid"@)],
        ) + of_flag(
            flag,
            "--console-output"@,
            seq![joined(joined(at, "logs"@), "stdout.log"@)],
        ) + of_flag(flag, "--control-sock"@, seq![joined(at, "control.sock"@)]) + of_flag(
            flag,
            "--shell-sock"@,
            seq![joined(at, "shell.sock"@)],
        ) + of_flag(flag, "--env"@, glued(env, "="@)) + of_flag(
            flag,
            "--arg"@,
            program_args_of(*image, spec_.env@),
        ) + tuned(*tuning, flag),
        flag == "--network"@ ==> switch_read(texts(plan.argv@).skip(1), flag),
        texts(plan.argv@)[0] == "__vm-boot"@,
{
    let argv = texts(plan.argv@);
    let vcpus: nat = match cpu_limit {
        Some(n) => n as nat,
        None => 2,
    };
    let workdir = match image.workdir {
        Some(w) => w@,
        None => "/"@,
    };
    let env = choose|env: Seq<(Seq<char>, Seq<char>)>|
        {
            &&& #[trigger] lists(env, vm_env_of(*image, spec_.env@))
            &&& argv == seq!["__vm-boot"@] + oci_args(
                joined(at, "rootfs"@),
                program_of(*image),
                workdir,
                vcpus,
                ram_of(spec_.memory_limit),
                joined(at, "vm.pid"@),
                joined(joined(at, "logs"@), "stdout.log"@),
                joined(at, "control.sock"@),
                joined(at, "shell.sock"@),
                env,
                program_args_of(*image, spec_.env@),
            ) + tuning_args(*tuning)
        };
    lemma_oci_values(
        joined(at, "rootfs"@),
        program_of(*image),
        workdir,
        vcpus,
        ram_of(spec_.memory_limit),
        joined(at, "vm.pid"@),
        joined(joined(at, "logs"@), "stdout.log"@),
        joined(at, "control.sock"@),
        joined(at, "shell.sock"@),
        env,
        program_args_of(*image, spec_.env@),
        *tuning,
        argv,
        flag,
    );
    env
}

/// The boot process of a worker reads back what its image and its specification
/// say: the image's program, directory and arguments, pointed at the engine
/// where the worker knows one; the worker's own files; two CPUs and 2048 MiB
/// where nothing else is said; and a network.
pub proof fn worker_runs_as_specified(
    spec_: &ContainerSpec,
    image: &ImageConfig,
    cpu_limit: Option<u32>,
    home: &Option<String>,
    tuning: &VmTuning,
    plan: StartPlan,
    limit: &str,
    mib: Option<String>,
)
    requires
        call_ensures(plan_start, (spec_, image, cpu_limit, home, tuning), plan),
        spec_.memory_limit is Some ==> limit@ == spec_.memory_limit->0@ && call_ensures(
            k8s_mem_to_mib,
            (limit,),
            mib,
        ),
    ensures
        ({
            let read = texts(plan.argv@).skip(1);
            let cpus = values_read(read, "--vcpus"@);
            &&& plan.argv@[0]@ == "__vm-boot"@
            &&& image.entrypoint matches Some(e) ==> values_read(read, "--exec"@) == seq![e.0@]
            &&& image.entrypoint is None ==> values_read(read, "--exec"@) == seq!["/bin/sh"@]
            &&& image.workdir matches Some(w) ==> values_read(read, "--workdir"@) == seq![w@]
            &&& image.workdir is None ==> values_read(read, "--workdir"@) == seq!["/"@]
            &&& cpus.len() == 1
            &&& cpu_limit matches Some(n) ==> parsed_unsigned(cpus[0], u32::MAX as nat) == Some(
                n as nat,
            )
            &&& cpu_limit is None ==> parsed_unsigned(cpus[0], u32::MAX as nat) == Some(2nat)
            &&& spec_.memory_limit is Some && mib is Some ==> values_read(read, "--ram"@) == seq![
                mib->0@,
            ]
            &&& spec_.memory_limit is None || mib is None ==> values_read(read, "--ram"@) == seq![
                "2048"@,
            ]
            &&& values_read(read, "--rootfs"@) == seq![plan.worker_rootfs@]
            &&& values_read(read, "--pid-file"@) == seq![plan.pid_file@]
            &&& values_read(read, "--console-output"@) == seq![plan.stdout_log@]
            &&& values_read(read, "--mount"@).len() == 0
            &&& switch_read(read, "--network"@)
        }),
{
    lemma_flags_differ();
    let argv = texts(plan.argv@);
    let at = worker_dir_under(opt_text(*home), spec_.name@);
    let vcpus: nat = match cpu_limit {
        Some(n) => n as nat,
        None => 2,
    };
    let program = program_of(*image);
    let workdir = match image.workdir {
        Some(w) => w@,
        None => "/"@,
    };
    let ram = ram_of(spec_.memory_limit);
    let _ = lemma_start(spec_, image, cpu_limit, home, tuning, plan, at, "--exec"@);
    let _ = lemma_start(spec_, image, cpu_limit, home, tuning, plan, at, "--workdir"@);
    let _ = lemma_start(spec_, image, cpu_limit, home, tuning, plan, at, "--vcpus"@);
    let _ = lemma_start(spec_, image, cpu_limit, home, tuning, plan, at, "--ram"@);
    let _ = lemma_start(spec_, image, cpu_limit, home, tuning, plan, at, "--rootfs"@);
    let _ = lemma_start(spec_, image, cpu_limit, home, tuning, plan, at, "--pid-file"@);
    let _ = lemma_start(spec_, image, cpu_limit, home, tuning, plan, at, "--console-output"@);
    let _ = lemma_start(spec_, image, cpu_limit, home, tuning, plan, at, "--mount"@);
    let _ = lemma_start(spec_, image, cpu_limit, home, tuning, plan, at, "--network"@);
    decimal_reads_back(vcpus, u32::MAX as nat);
    assert(argv[0] == plan.argv@[0]@);
    let read = argv.skip(1);
    assert(values_read(read, "--exec"@) =~= seq![program]);
    assert(values_read(read, "--workdir"@) =~= seq![workdir]);
    assert(values_read(read, "--vcpus"@) =~= seq![decimal(vcpus)]);
    assert(values_read(read, "--ram"@) =~= seq![ram]);
    assert(values_read(read, "--rootfs"@) =~= seq![plan.worker_rootfs@]);
    assert(values_read(read, "--pid-file"@) =~= seq![plan.pid_file@]);
    assert(values_read(read, "--console-output"@) =~= seq![plan.stdout_log@]);
    assert(values_read(read, "--mount"@) =~= Seq::<Seq<char>>::empty());
}

/// The sockets of a worker and all its files lie in the worker's own directory.
pub proof fn worker_files_lie_in_its_directory(
    spec_: &ContainerSpec,
    image: &ImageConfig,
    cpu_limit: Option<u32>,
    home: &Option<String>,
    tuning: &VmTuning,
    plan: StartPlan,
    name: &str,
    dir: String,
)
    requires
        call_ensures(plan_start, (spec_, image, cpu_limit, home, tuning), plan),
        name@ == spec_.name@,
        call_ensures(worker_dir_in, (home, name), dir),
    ensures
        ({
            let read = texts(plan.argv@).skip(1);
            &&& plan.worker_rootfs@ == joined(dir@, "rootfs"@)
            &&& plan.pid_file@ == joined(dir@, "vm.pid"@)
            &&& plan.logs_dir@ == joined(dir@, "logs"@)
            &&& plan.stdout_log@ == joined(plan.logs_dir@, "stdout.log"@)
            &&& plan.stderr_log@ == joined(plan.logs_dir@, "stderr.log"@)
            &&& values_read(read, "--control-sock"@) == seq![joined(dir@, "control.sock"@)]
            &&& values_read(read, "--shell-sock"@) == seq![joined(dir@, "shell.sock"@)]
        }),
{
    lemma_flags_differ();
    let read = texts(plan.argv@).skip(1);
    let _ = lemma_start(spec_, image, cpu_limit, home, tuning, plan, dir@, "--control-sock"@);
    let _ = lemma_start(spec_, image, cpu_limit, home, tuning, plan, dir@, "--shell-sock"@);
    assert(values_read(read, "--control-sock"@) =~= seq![joined(dir@, "control.sock"@)]);
    assert(values_read(read, "--shell-sock"@) =~= seq![joined(dir@, "shell.sock"@)]);
}

/// The arguments of a worker's program are its image's, in order; where the
/// worker knows the engine's URL they are pointed at it, and not otherwise.
pub proof fn worker_gets_its_arguments(
    spec_: &ContainerSpec,
    image: &ImageConfig,
    cpu_limit: Option<u32>,
    home: &Option<String>,
    tuning: &VmTuning,
    plan: StartPlan,
    env: &StrMap,
    known: Option<String>,
    given: Vec<String>,
    url: &str,
    pointed: Vec<String>,
)
    requires
        call_ensures(plan_start, (spec_, image, cpu_limit, home, tuning), plan),
        *env == spec_.env,
        call_ensures(engine_url, (env,), known),
        image.entrypoint is Some ==> given@ == (image.entrypoint->0).1@,
        image.entrypoint is None ==> given@.len() == 0,
        known is Some ==> url@ == known->0@ && call_ensures(
            inject_engine_url,
            (given, url),
            pointed,
        ),
    ensures
        known is None ==> values_read(texts(plan.argv@).skip(1), "--arg"@) == texts(given@),
        known is Some ==> values_read(texts(plan.argv@).skip(1), "--arg"@) == texts(pointed@),
{
    lemma_flags_differ();
    let at = worker_dir_under(opt_text(*home), spec_.name@);
    let read = texts(plan.argv@).skip(1);
    let _ = lemma_start(spec_, image, cpu_limit, home, tuning, plan, at, "--arg"@);
    if image.entrypoint is None {
        assert(texts(given@) == Seq::<Seq<char>>::empty());
    }
    assert(values_read(read, "--arg"@) =~= program_args_of(*image, spec_.env@));
}

/// `pairs[i]` is the last word on its key.
pub open spec fn last_word(pairs: Seq<(String, String)>, i: int) -> bool {
    &&& 0 <= i < pairs.len()
    &&& forall|j: int| i < j < pairs.len() ==> (#[trigger] pairs[j]).0@ != pairs[i].0@
}

proof fn lemma_inserted(pairs: Seq<(String, String)>, k: Seq<char>)
    ensures
        ({
            let m = inserted(Map::empty(), pair_texts(pairs));
            &&& m.contains_key(k) <==> exists|i: int|
                0 <= i < pairs.len() && (#[trigger] pairs[i]).0@ == k
            &&& forall|i: int| #[trigger]
                last_word(pairs, i) && pairs[i].0@ == k ==> m[k] == pairs[i].1@
        }),
    decreases pairs.len(),
{
    let m = inserted(Map::empty(), pair_texts(pairs));
    if pairs.len() > 0 {
        let init = pairs.drop_last();
        let last = pairs.len() - 1;
        lemma_inserted(init, k);
        assert(pair_texts(pairs).drop_last() == pair_texts(init));
        assert(pair_texts(pairs).last() == (pairs[last].0@, pairs[last].1@));
        let n = inserted(Map::empty(), pair_texts(init));
        assert(m == n.insert(pairs[last].0@, pairs[last].1@));
        if exists|i: int| 0 <= i < init.len() && (#[trigger] init[i]).0@ == k {
            let i = choose|i: int| 0 <= i < init.len() && (#[trigger] init[i]).0@ == k;
            assert(pairs[i].0@ == k);
        }
        if exists|i: int| 0 <= i < pairs.len() && (#[trigger] pairs[i]).0@ == k {
            let i = choose|i: int| 0 <= i < pairs.len() && (#[trigger] pairs[i]).0@ == k;
            if i < last {
                assert(init[i].0@ == k);
            }
        }
        assert forall|i: int| #[trigger]
            last_word(pairs, i) && pairs[i].0@ == k implies m[k] == pairs[i].1@ by {
            if i < last {
                assert(pairs[last].0@ != pairs[i].0@);
                assert(last_word(init, i)) by {
                    assert forall|j: int| i < j < init.len() implies (#[trigger] init[j]).0@
                        != init[i].0@ by {
                        assert(pairs[j].0@ != pairs[i].0@);
                    }
                }
            }
        }
    }
}

/// The variables of a worker's VM are its image's, where the image's last word
/// on a variable counts; the worker's specification overrides them; and the mark
/// of isolation overrides both. There are no others.
pub proof fn merged_variables_have_precedence(
    image_env: &[(String, String)],
    spec_env: &StrMap,
    r: StrMap,
    k: Seq<char>,
    i: int,
)
    requires
        call_ensures(merge_env, (image_env, spec_env), r),
    ensures
        r@.contains_key("III_ISOLATION"@) && r@["III_ISOLATION"@] == "libkrun"@,
        r@.contains_key(k) <==> k == "III_ISOLATION"@ || spec_env@.contains_key(k) || exists|j: int|
            0 <= j < image_env@.len() && (#[trigger] image_env@[j]).0@ == k,
        k != "III_ISOLATION"@ && spec_env@.contains_key(k) ==> r@[k] == spec_env@[k],
        k != "III_ISOLATION"@ && !spec_env@.contains_key(k) && last_word(image_env@, i)
            && image_env@[i].0@ == k ==> r@[k] == image_env@[i].1@,
{
    lemma_inserted(image_env@, k);
}

/// A worker's VM gets the variables that its image and its specification make
/// up, each once and with its value.
pub proof fn worker_gets_its_variables(
    spec_: &ContainerSpec,
    image: &ImageConfig,
    cpu_limit: Option<u32>,
    home: &Option<String>,
    tuning: &VmTuning,
    plan: StartPlan,
    image_env: &[(String, String)],
    spec_env: &StrMap,
    merged: StrMap,
)
    requires
        call_ensures(plan_start, (spec_, image, cpu_limit, home, tuning), plan),
        image_env@ == image.env@,
        *spec_env == spec_.env,
        call_ensures(merge_env, (image_env, spec_env), merged),
    ensures
        exists|keys: Seq<Seq<char>>| #[trigger]
            are_settings(values_read(texts(plan.argv@).skip(1), "--env"@), merged@, keys),
{
    lemma_flags_differ();
    let at = worker_dir_under(opt_text(*home), spec_.name@);
    let read = texts(plan.argv@).skip(1);
    let env = lemma_start(spec_, image, cpu_limit, home, tuning, plan, at, "--env"@);
    assert(values_read(read, "--env"@) =~= glued(env, "="@));
    assert(merged@ == vm_env_of(*image, spec_.env@));
    let keys = lemma_settings(env, merged@);
    assert(are_settings(values_read(read, "--env"@), merged@, keys));
}

/// Starting for any memory limit is the same start, and is refused only for a
/// limit whose number of MiB is out of range.
pub proof fn trying_to_start_is_starting(
    spec_: &ContainerSpec,
    image: &ImageConfig,
    cpu_limit: Option<u32>,
    home: &Option<String>,
    tuning: &VmTuning,
    tried: Option<StartPlan>,
    plan: StartPlan,
)
    requires
        call_ensures(try_plan_start, (spec_, image, cpu_limit, home, tuning), tried),
        call_ensures(plan_start, (spec_, image, cpu_limit, home, tuning), plan),
    ensures
        spec_.memory_limit is None ==> tried is Some,
        tried matches Some(t) ==> {
            &&& t.worker_rootfs@ == plan.worker_rootfs@
            &&& t.pid_file@ == plan.pid_file@
            &&& t.stdout_log@ == plan.stdout_log@
            &&& t.stderr_log@ == plan.stderr_log@
            &&& texts(t.argv@) == texts(plan.argv@)
            &&& texts(t.env_remove@) == texts(plan.env_remove@)
        },
{
    match tried {
        Some(t) => {
            let want = vm_env_of(*image, spec_.env@);
            assert forall|
                p: Seq<(Seq<char>, Seq<char>)>,
                q: Seq<(Seq<char>, Seq<char>)>,
            | #[trigger] lists(p, want) && #[trigger] lists(q, want) implies p == q by {
                crate::str_map::listing_is_unique(p, q, want);
            }
        },
        None => {},
    }
}

/// Arguments that give a URL have it replaced by the engine's, the first one
/// that is given; to others the engine's is added. Every other argument stays as
/// it is.
pub proof fn arguments_are_pointed_at_the_engine(
    args: Vec<String>,
    url: &str,
    r: Vec<String>,
    i: int,
)
    requires
        call_ensures(inject_engine_url, (args, url), r),
        0 <= i < args@.len(),
    ensures
        (forall|j: int| 0 <= j < args@.len() - 1 ==> (#[trigger] args@[j])@ != "--url"@) ==> {
            &&& r@.len() == args@.len() + 2
            &&& r@[i]@ == args@[i]@
            &&& r@[r@.len() - 2]@ == "--url"@
            &&& r@[r@.len() - 1]@ == url@
        },
        i + 1 < args@.len() && args@[i]@ == "--url"@ && (forall|j: int|
            0 <= j < i ==> (#[trigger] args@[j])@ != "--url"@) ==> {
            &&& r@.len() == args@.len()
            &&& r@[i + 1]@ == url@
            &&& forall|j: int|
                0 <= j < args@.len() && j != i + 1 ==> (#[trigger] r@[j])@ == args@[j]@
        },
{
    let a = texts(args@);
    let b = texts(r@);
    assert(a.len() == args@.len() && b.len() == r@.len());
    assert forall|j: int| 0 <= j < args@.len() implies #[trigger] a[j] == args@[j]@ by {}
    assert forall|j: int| 0 <= j < r@.len() implies #[trigger] b[j] == r@[j]@ by {}
    if forall|j: int| 0 <= j < args@.len() - 1 ==> (#[trigger] args@[j])@ != "--url"@ {
        lemma_no_url_slot(a, 0);
        assert(b == a.push("--url"@).push(url@));
        assert(b[i] == a[i]);
        assert(b[b.len() - 2] == "--url"@);
        assert(b[b.len() - 1] == url@);
    }
    if i + 1 < args@.len() && args@[i]@ == "--url"@ && (forall|j: int|
        0 <= j < i ==> (#[trigger] args@[j])@ != "--url"@) {
        lemma_url_slot(a, 0, i);
        assert(b == a.update(i + 1, url@));
        assert(b[i + 1] == url@);
        assert forall|j: int| 0 <= j < args@.len() && j != i + 1 implies (#[trigger] r@[j])@
            == args@[j]@ by {
            assert(b[j] == a[j]);
        }
    }
}

proof fn lemma_no_url_slot(args: Seq<Seq<char>>, i: int)
    requires
        0 <= i,
        forall|j: int| i <= j < args.len() - 1 ==> #[trigger] args[j] != "--url"@,
    ensures
        url_slot(args, i) == args.len(),
    decreases args.len() - i,
{
    if i + 1 < args.len() {
        assert(args[i] != "--url"@);
        lemma_no_url_slot(args, i + 1);
    }
}

proof fn lemma_url_slot(args: Seq<Seq<char>>, i: int, at: int)
    requires
        0 <= i <= at,
        at + 1 < args.len(),
        args[at] == "--url"@,
        forall|j: int| i <= j < at ==> #[trigger] args[j] != "--url"@,
    ensures
        url_slot(args, i) == at,
    decreases at - i,
{
    if i < at {
        assert(args[i] != "--url"@);
        lemma_url_slot(args, i + 1, at);
    }
}

/// The engine's URL is what `III_ENGINE_URL` says, or else what `III_URL` says.
pub proof fn engine_url_has_two_names(env: &StrMap, r: Option<String>)
    requires
        call_ensures(engine_url, (env,), r),
    ensures
        env@.contains_key("III_ENGINE_URL"@) ==> r is Some && r->0@ == env@["III_ENGINE_URL"@],
        !env@.contains_key("III_ENGINE_URL"@) && env@.contains_key("III_URL"@) ==> r is Some
            && r->0@ == env@["III_URL"@],
        !env@.contains_key("III_ENGINE_URL"@) && !env@.contains_key("III_URL"@) ==> r is None,
{
}

/// A memory quantity is in bytes, or in the unit that it ends in; what comes out
/// is its number of MiB, rounded down, and a quantity that is no number is none.
pub proof fn quantities_are_converted_to_mib(
    number: Seq<char>,
    n: nat,
    value: &str,
    r: Option<String>,
)
    requires
        call_ensures(k8s_mem_to_mib, (value,), r),
        parsed_unsigned(number, u64::MAX as nat) == Some(n),
    ensures
        value@ == number + "Mi"@ ==> r is Some && r->0@ == number,
        value@ == number + "Gi"@ && n * 1024 <= u64::MAX ==> r is Some && parsed_unsigned(
            r->0@,
            u64::MAX as nat,
        ) == Some((n * 1024) as nat),
        value@ == number + "Ki"@ ==> r is Some && parsed_unsigned(r->0@, u64::MAX as nat) == Some(
            (n / 1024) as nat,
        ),
        value@ == number ==> r is Some && parsed_unsigned(r->0@, u64::MAX as nat) == Some(
            (n / 1048576) as nat,
        ),
{
    reveal_strlit("Mi");
    reveal_strlit("Gi");
    reveal_strlit("Ki");
    let v = value@;
    let len = number.len() as int;
    assert("Mi"@[0] == 'M' && "Mi"@[1] == 'i' && "Gi"@[0] == 'G' && "Ki"@[0] == 'K');
    if v == number + "Mi"@ || v == number + "Gi"@ || v == number + "Ki"@ {
        assert(v.len() == len + 2);
        assert(v.take(len) == number);
        assert(v[len] == 'M' || v[len] == 'G' || v[len] == 'K');
        if ends_with(v, "Mi"@) {
            assert(v.subrange(len, len + 2)[0] == v[len]);
        }
        if ends_with(v, "Gi"@) {
            assert(v.subrange(len, len + 2)[0] == v[len]);
        }
        if ends_with(v, "Ki"@) {
            assert(v.subrange(len, len + 2)[0] == v[len]);
        }
        if v == number + "Mi"@ {
            assert(v.subrange(len, len + 2) == "Mi"@);
        }
        if v == number + "Gi"@ {
            assert(v.subrange(len, len + 2) == "Gi"@);
            assert((number + "Mi"@)[len] == 'M');
            assert((number + "Gi"@)[len] == 'G');
        }
        if v == number + "Ki"@ {
            assert(v.subrange(len, len + 2) == "Ki"@);
            assert((number + "Ki"@)[len] == 'K');
        }
    }
    if v == number {
        assert(!ends_with(v, "Mi"@) && !ends_with(v, "Gi"@) && !ends_with(v, "Ki"@)) by {
            let body = if number.len() > 0 && number[0] == '+' {
                number.skip(1)
            } else {
                number
            };
            assert(crate::numbers::all_digits(body));
            assert(crate::numbers::is_digit(body[body.len() - 1]));
            assert(number[len - 1] == body[body.len() - 1]);
            if len >= 2 {
                assert(v.subrange(len - 2, len)[1] == v[len - 1]);
            }
        }
    }
    if n * 1024 <= u64::MAX {
        decimal_reads_back((n * 1024) as nat, u64::MAX as nat);
    }
    decimal_reads_back((n / 1024) as nat, u64::MAX as nat);
    decimal_reads_back((n / 1048576) as nat, u64::MAX as nat);
}

/// Only a number of GiB can be too large for its number of MiB.
pub proof fn only_gibibytes_can_overflow(
    number: Seq<char>,
    n: nat,
    value: &str,
    r: bool,
)
    requires
        call_ensures(mem_fits, (value,), r),
        parsed_unsigned(number, u64::MAX as nat) == Some(n),
    ensures
        value@ == number + "Gi"@ ==> (r <==> n * 1024 <= u64::MAX),
        !r ==> ends_with(value@, "Gi"@),
{
    reveal_strlit("Gi");
    let len = number.len() as int;
    if value@ == number + "Gi"@ {
        assert(value@.take(len) == number);
        assert(value@.subrange(len, len + 2) == "Gi"@);
    }
}

/// Of the spawner's variables a detached VM is denied those of its lifeline, and
/// no other.
pub proof fn only_the_lifeline_is_denied(r: Vec<String>, k: Seq<char>)
    requires
        call_ensures(detached_env_remove, (), r),
    ensures
        (exists|i: int| 0 <= i < r@.len() && (#[trigger] r@[i])@ == k) <==> k
            == "III_LIFELINE_FD"@ || k == "III_LIFELINE_SPAWNER_PID"@,
{
    let t = texts(r@);
    assert(t.len() == r@.len() && t.len() == 2);
    assert(t[0] == r@[0]@ && t[1] == r@[1]@);
}

/// A development worker's process id lies with its files, and its logs lie with
/// those of the other workers, under its name.
pub proof fn dev_worker_files_lie_in_their_places(
    spec_: &DevSpec,
    home: &Option<String>,
    tuning: &VmTuning,
    name: &str,
    logs: String,
    plan: DevPlan,
)
    requires
        call_ensures(plan_dev, (spec_, home, tuning), plan),
        name@ == spec_.worker_name@,
        call_ensures(dev_logs_in, (home, name), logs),
    ensures
        plan.logs_dir@ == logs@,
        plan.pid_file@ == joined(spec_.rootfs@, "vm.pid"@),
{
}

} // verus!
