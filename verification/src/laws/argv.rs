//! How the VM boot process reads its arguments, and laws of the arguments that
//! it is handed.

use crate::cli::worker_manager::boot_args::{
    apply_vm_tuning_env, dev_args, flagged, glued, lemma_flagged_first, number_args, oci_args,
    switch_args, tuning_args, vm_boot_args_dev, vm_boot_args_oci, VmTuning,
};
use crate::numbers::{decimal, decimal_reads_back, parsed_unsigned};
use crate::sandbox_daemon::adapters::{launch_args, IiiWorkerLauncher, LaunchPlan};
use crate::sandbox_daemon::create::BootParams;
use crate::text::{ascii_lowered, pair_texts, texts};
use vstd::prelude::*;

verus! {

/// A flag of the boot process that has no value.
pub open spec fn stands_alone(flag: Seq<char>) -> bool {
    flag == "--network"@ || flag == "--hyperthreading"@ || flag == "--nested-virt"@
}

/// The values that the boot process reads for `flag`, in order: every flag but
/// those that stand alone has the argument after it as its value.
pub open spec fn values_read(argv: Seq<Seq<char>>, flag: Seq<char>) -> Seq<Seq<char>>
    decreases argv.len(),
{
    if argv.len() == 0 {
        Seq::empty()
    } else if stands_alone(argv[0]) {
        values_read(argv.skip(1), flag)
    } else if argv.len() == 1 {
        Seq::empty()
    } else if argv[0] == flag {
        seq![argv[1]] + values_read(argv.skip(2), flag)
    } else {
        values_read(argv.skip(2), flag)
    }
}

/// The boot process reads `flag`, which stands alone, among its arguments.
pub open spec fn switch_read(argv: Seq<Seq<char>>, flag: Seq<char>) -> bool
    decreases argv.len(),
{
    if argv.len() == 0 {
        false
    } else if stands_alone(argv[0]) {
        argv[0] == flag || switch_read(argv.skip(1), flag)
    } else if argv.len() == 1 {
        false
    } else {
        switch_read(argv.skip(2), flag)
    }
}

/// `values`, if `name` is the flag that is looked for.
pub open spec fn of_flag(
    flag: Seq<char>,
    name: Seq<char>,
    values: Seq<Seq<char>>,
) -> Seq<Seq<char>> {
    if flag == name {
        values
    } else {
        Seq::empty()
    }
}

pub(crate) proof fn lemma_pair(
    name: Seq<char>,
    value: Seq<char>,
    rest: Seq<Seq<char>>,
    flag: Seq<char>,
)
    requires
        !stands_alone(name),
    ensures
        values_read(seq![name, value] + rest, flag) == of_flag(flag, name, seq![value])
            + values_read(rest, flag),
        switch_read(seq![name, value] + rest, flag) == switch_read(rest, flag),
{
    let all = seq![name, value] + rest;
    assert(all[0] == name && all[1] == value);
    assert(all.skip(2) == rest);
    if flag != name {
        assert(of_flag(flag, name, seq![value]) + values_read(rest, flag) == values_read(
            rest,
            flag,
        ));
    }
}

pub(crate) proof fn lemma_alone(name: Seq<char>, rest: Seq<Seq<char>>, flag: Seq<char>)
    requires
        stands_alone(name),
    ensures
        values_read(seq![name] + rest, flag) == values_read(rest, flag),
        switch_read(seq![name] + rest, flag) == (name == flag || switch_read(rest, flag)),
{
    assert((seq![name] + rest)[0] == name);
    assert((seq![name] + rest).skip(1) == rest);
}

pub(crate) proof fn lemma_each(
    name: Seq<char>,
    values: Seq<Seq<char>>,
    rest: Seq<Seq<char>>,
    flag: Seq<char>,
)
    requires
        !stands_alone(name),
    ensures
        values_read(flagged(name, values) + rest, flag) == of_flag(flag, name, values)
            + values_read(rest, flag),
        switch_read(flagged(name, values) + rest, flag) == switch_read(rest, flag),
    decreases values.len(),
{
    if values.len() == 0 {
        assert(flagged(name, values) + rest == rest);
        assert(of_flag(flag, name, values) + values_read(rest, flag) == values_read(rest, flag));
    } else {
        let more = values.skip(1);
        lemma_flagged_first(name, values);
        lemma_each(name, more, rest, flag);
        assert(flagged(name, values) + rest == seq![name, values[0]] + (flagged(name, more)
            + rest));
        lemma_pair(name, values[0], flagged(name, more) + rest, flag);
        if flag == name {
            assert(seq![values[0]] + (more + values_read(rest, flag)) == values + values_read(
                rest,
                flag,
            ));
        } else {
            assert(Seq::<Seq<char>>::empty() + (Seq::<Seq<char>>::empty() + values_read(
                rest,
                flag,
            )) == Seq::<Seq<char>>::empty() + values_read(rest, flag));
        }
    }
}

/// The flags of the boot process differ from each other.
pub(crate) proof fn lemma_flags_differ()
    ensures
        "--network"@.len() == 9 && "--network"@[2] == 'n',
        "--hyperthreading"@.len() == 16 && "--hyperthreading"@[2] == 'h',
        "--nested-virt"@.len() == 13,
        "--rootfs"@.len() == 8,
        "--exec"@.len() == 6,
        "--workdir"@.len() == 9 && "--workdir"@[2] == 'w',
        "--vcpus"@.len() == 7 && "--vcpus"@[2] == 'v',
        "--ram"@.len() == 5 && "--ram"@[2] == 'r',
        "--pid-file"@.len() == 10,
        "--console-output"@.len() == 16 && "--console-output"@[2] == 'c',
        "--control-sock"@.len() == 14 && "--control-sock"@[2] == 'c',
        "--shell-sock"@.len() == 12,
        "--env"@.len() == 5 && "--env"@[2] == 'e',
        "--mount"@.len() == 7 && "--mount"@[2] == 'm',
        "--arg"@.len() == 5 && "--arg"@[2] == 'a',
        "--virtiofs-shm-size-mib"@.len() == 23,
        "--nofile-limit"@.len() == 14 && "--nofile-limit"@[2] == 'n',
{
    reveal_strlit("--network");
    reveal_strlit("--hyperthreading");
    reveal_strlit("--nested-virt");
    reveal_strlit("--rootfs");
    reveal_strlit("--exec");
    reveal_strlit("--workdir");
    reveal_strlit("--vcpus");
    reveal_strlit("--ram");
    reveal_strlit("--pid-file");
    reveal_strlit("--console-output");
    reveal_strlit("--control-sock");
    reveal_strlit("--shell-sock");
    reveal_strlit("--env");
    reveal_strlit("--mount");
    reveal_strlit("--arg");
    reveal_strlit("--virtiofs-shm-size-mib");
    reveal_strlit("--nofile-limit");
}

/// The number that a variable holds, as it is handed on, if it is at most `max`.
pub open spec fn number_value(v: Option<String>, max: nat) -> Seq<Seq<char>> {
    if v is Some && parsed_unsigned(v->0@, max) is Some {
        seq![decimal(parsed_unsigned(v->0@, max)->0)]
    } else {
        Seq::empty()
    }
}

/// What the tuning variables give for `flag`.
pub open spec fn tuned(t: VmTuning, flag: Seq<char>) -> Seq<Seq<char>> {
    of_flag(
        flag,
        "--virtiofs-shm-size-mib"@,
        number_value(t.virtiofs_shm_size_mib, u32::MAX as nat),
    ) + of_flag(
        flag,
        "--nofile-limit"@,
        number_value(t.nofile_limit, u64::MAX as nat),
    )
}

proof fn lemma_number(
    name: Seq<char>,
    v: Option<String>,
    max: nat,
    rest: Seq<Seq<char>>,
    flag: Seq<char>,
)
    requires
        !stands_alone(name),
    ensures
        values_read(number_args(name, v, max) + rest, flag) == of_flag(
            flag,
            name,
            number_value(v, max),
        ) + values_read(rest, flag),
        switch_read(number_args(name, v, max) + rest, flag) == switch_read(rest, flag),
{
    let a = number_args(name, v, max);
    if a.len() == 0 {
        assert(a + rest == rest);
        assert(Seq::<Seq<char>>::empty() + values_read(rest, flag) == values_read(rest, flag));
    } else {
        assert(a == seq![name, a[1]]);
        assert(number_value(v, max) == seq![a[1]]);
        lemma_pair(name, a[1], rest, flag);
    }
}

proof fn lemma_switch(name: Seq<char>, v: Option<String>, rest: Seq<Seq<char>>, flag: Seq<char>)
    requires
        stands_alone(name),
    ensures
        values_read(switch_args(name, v) + rest, flag) == values_read(rest, flag),
        switch_read(switch_args(name, v) + rest, flag) == ((name == flag && switch_args(
            name,
            v,
        ).len() > 0) || switch_read(rest, flag)),
{
    let a = switch_args(name, v);
    if a.len() == 0 {
        assert(a + rest == rest);
    } else {
        assert(a == seq![name]);
        lemma_alone(name, rest, flag);
    }
}

pub(crate) proof fn lemma_tuning(t: VmTuning, rest: Seq<Seq<char>>, flag: Seq<char>)
    ensures
        values_read(tuning_args(t) + rest, flag) == tuned(t, flag) + values_read(rest, flag),
        switch_read(tuning_args(t) + rest, flag) == ({
            ||| flag == "--hyperthreading"@ && switch_args("--hyperthreading"@,
                t.hyperthreading).len()
                > 0
            ||| flag == "--nested-virt"@ && switch_args("--nested-virt"@, t.nested_virt).len() > 0
            ||| switch_read(rest, flag)
        }),
{
    lemma_flags_differ();
    let a = switch_args("--hyperthreading"@, t.hyperthreading);
    let b = switch_args("--nested-virt"@, t.nested_virt);
    let c = number_args("--virtiofs-shm-size-mib"@, t.virtiofs_shm_size_mib, u32::MAX as nat);
    let d = number_args("--nofile-limit"@, t.nofile_limit, u64::MAX as nat);
    assert(tuning_args(t) + rest == a + (b + (c + (d + rest))));
    lemma_number("--nofile-limit"@, t.nofile_limit, u64::MAX as nat, rest, flag);
    lemma_number(
        "--virtiofs-shm-size-mib"@,
        t.virtiofs_shm_size_mib,
        u32::MAX as nat,
        d + rest,
        flag,
    );
    lemma_switch("--nested-virt"@, t.nested_virt, c + (d + rest), flag);
    lemma_switch("--hyperthreading"@, t.hyperthreading, b + (c + (d + rest)), flag);
    assert(of_flag(flag, "--virtiofs-shm-size-mib"@, number_value(
        t.virtiofs_shm_size_mib,
        u32::MAX as nat,
    )) + (of_flag(
        flag,
        "--nofile-limit"@,
        number_value(t.nofile_limit, u64::MAX as nat),
    ) + values_read(rest, flag)) == tuned(t, flag) + values_read(rest, flag));
}

/// A tuning variable that is set to yes, as `1`, `true`, `on` or `yes` in any
/// case, is handed on as its flag, and one that is not is not; one that holds a
/// number that fits is handed on with that number, and one that does not is
/// not.
pub proof fn tuning_is_handed_on(t: &VmTuning, argv: Vec<String>)
    requires
        call_ensures(apply_vm_tuning_env, (t,), argv),
    ensures
        ({
            let read = texts(argv@);
            let says_yes = |v: Option<String>|
                v is Some && (ascii_lowered(v->0@) == "1"@ || ascii_lowered(v->0@) == "true"@
                    || ascii_lowered(v->0@) == "on"@ || ascii_lowered(v->0@) == "yes"@);
            let shm = values_read(read, "--virtiofs-shm-size-mib"@);
            let files = values_read(read, "--nofile-limit"@);
            &&& switch_read(read, "--hyperthreading"@) <==> says_yes(t.hyperthreading)
            &&& switch_read(read, "--nested-virt"@) <==> says_yes(t.nested_virt)
            &&& !switch_read(read, "--network"@)
            &&& shm.len() <= 1 && files.len() <= 1
            &&& shm.len() == 1 <==> t.virtiofs_shm_size_mib is Some && parsed_unsigned(
                t.virtiofs_shm_size_mib->0@,
                u32::MAX as nat,
            ) is Some
            &&& shm.len() == 1 ==> parsed_unsigned(shm[0], u32::MAX as nat) == parsed_unsigned(
                t.virtiofs_shm_size_mib->0@,
                u32::MAX as nat,
            )
            &&& files.len() == 1 <==> t.nofile_limit is Some && parsed_unsigned(
                t.nofile_limit->0@,
                u64::MAX as nat,
            ) is Some
            &&& files.len() == 1 ==> parsed_unsigned(files[0], u64::MAX as nat)
                == parsed_unsigned(t.nofile_limit->0@, u64::MAX as nat)
        }),
{
    let read = texts(argv@);
    let none = Seq::<Seq<char>>::empty();
    assert(read + none == read);
    lemma_flags_differ();
    lemma_tuning(*t, none, "--hyperthreading"@);
    lemma_tuning(*t, none, "--nested-virt"@);
    lemma_tuning(*t, none, "--network"@);
    lemma_tuning(*t, none, "--virtiofs-shm-size-mib"@);
    lemma_tuning(*t, none, "--nofile-limit"@);
    assert(tuned(*t, "--virtiofs-shm-size-mib"@) == number_value(
        t.virtiofs_shm_size_mib,
        u32::MAX as nat,
    ));
    assert(tuned(*t, "--nofile-limit"@) == number_value(t.nofile_limit, u64::MAX as nat));
    if t.virtiofs_shm_size_mib is Some {
        let n = parsed_unsigned(t.virtiofs_shm_size_mib->0@, u32::MAX as nat);
        if n is Some {
            decimal_reads_back(n->0, u32::MAX as nat);
        }
    }
    if t.nofile_limit is Some {
        let n = parsed_unsigned(t.nofile_limit->0@, u64::MAX as nat);
        if n is Some {
            decimal_reads_back(n->0, u64::MAX as nat);
        }
    }
}


proof fn lemma_dev_head(
    rootfs: Seq<char>,
    exec_path: Seq<char>,
    workdir: Seq<char>,
    vcpus: Seq<char>,
    ram: Seq<char>,
    control_sock: Seq<char>,
    shell_sock: Seq<char>,
    rest: Seq<Seq<char>>,
    flag: Seq<char>,
)
    ensures
        values_read(seq!["--rootfs"@, rootfs, "--exec"@, exec_path, "--workdir"@, workdir,
            "--vcpus"@, vcpus, "--ram"@, ram, "--control-sock"@, control_sock, "--shell-sock"@,
            shell_sock] + rest, flag) == of_flag(flag, "--rootfs"@, seq![rootfs]) + (of_flag(flag,
            "--exec"@, seq![exec_path]) + (of_flag(flag, "--workdir"@, seq![workdir])
            + (of_flag(flag, "--vcpus"@, seq![vcpus]) + (of_flag(flag, "--ram"@, seq![ram])
            + (of_flag(flag, "--control-sock"@, seq![control_sock]) + (of_flag(flag,
            "--shell-sock"@, seq![shell_sock]) + (values_read(rest, flag)))))))),
        switch_read(seq!["--rootfs"@, rootfs, "--exec"@, exec_path, "--workdir"@, workdir,
            "--vcpus"@, vcpus, "--ram"@, ram, "--control-sock"@, control_sock, "--shell-sock"@,
            shell_sock] + rest, flag) == switch_read(rest, flag),
{
    lemma_flags_differ();
    let from7 = rest;
    lemma_pair("--shell-sock"@, shell_sock, from7, flag);
    let from6 = seq!["--shell-sock"@, shell_sock] + from7;
    lemma_pair("--control-sock"@, control_sock, from6, flag);
    let from5 = seq!["--control-sock"@, control_sock] + from6;
    lemma_pair("--ram"@, ram, from5, flag);
    let from4 = seq!["--ram"@, ram] + from5;
    lemma_pair("--vcpus"@, vcpus, from4, flag);
    let from3 = seq!["--vcpus"@, vcpus] + from4;
    lemma_pair("--workdir"@, workdir, from3, flag);
    let from2 = seq!["--workdir"@, workdir] + from3;
    lemma_pair("--exec"@, exec_path, from2, flag);
    let from1 = seq!["--exec"@, exec_path] + from2;
    lemma_pair("--rootfs"@, rootfs, from1, flag);
    let from0 = seq!["--rootfs"@, rootfs] + from1;
    assert(seq!["--rootfs"@, rootfs, "--exec"@, exec_path, "--workdir"@, workdir, "--vcpus"@, vcpus,
        "--ram"@, ram, "--control-sock"@, control_sock, "--shell-sock"@, shell_sock] + rest
        == from0);
}

proof fn lemma_oci_head(
    rootfs: Seq<char>,
    exec_path: Seq<char>,
    workdir: Seq<char>,
    vcpus: Seq<char>,
    ram: Seq<char>,
    pid_file: Seq<char>,
    console_output: Seq<char>,
    control_sock: Seq<char>,
    shell_sock: Seq<char>,
    rest: Seq<Seq<char>>,
    flag: Seq<char>,
)
    ensures
        values_read(seq!["--rootfs"@, rootfs, "--exec"@, exec_path, "--workdir"@, workdir,
            "--vcpus"@, vcpus, "--ram"@, ram, "--pid-file"@, pid_file, "--console-output"@,
            console_output, "--control-sock"@, control_sock, "--shell-sock"@, shell_sock] + rest,
            flag) == of_flag(flag, "--rootfs"@, seq![rootfs]) + (of_flag(flag, "--exec"@,
            seq![exec_path]) + (of_flag(flag, "--workdir"@, seq![workdir]) + (of_flag(flag,
            "--vcpus"@, seq![vcpus]) + (of_flag(flag, "--ram"@, seq![ram]) + (of_flag(flag,
            "--pid-file"@, seq![pid_file]) + (of_flag(flag, "--console-output"@,
            seq![console_output]) + (of_flag(flag, "--control-sock"@, seq![control_sock])
            + (of_flag(flag, "--shell-sock"@, seq![shell_sock]) + (values_read(rest, flag)))))))))),
        switch_read(seq!["--rootfs"@, rootfs, "--exec"@, exec_path, "--workdir"@, workdir,
            "--vcpus"@, vcpus, "--ram"@, ram, "--pid-file"@, pid_file, "--console-output"@,
            console_output, "--control-sock"@, control_sock, "--shell-sock"@, shell_sock] + rest,
            flag) == switch_read(rest, flag),
{
    lemma_flags_differ();
    let from9 = rest;
    lemma_pair("--shell-sock"@, shell_sock, from9, flag);
    let from8 = seq!["--shell-sock"@, shell_sock] + from9;
    lemma_pair("--control-sock"@, control_sock, from8, flag);
    let from7 = seq!["--control-sock"@, control_sock] + from8;
    lemma_pair("--console-output"@, console_output, from7, flag);
    let from6 = seq!["--console-output"@, console_output] + from7;
    lemma_pair("--pid-file"@, pid_file, from6, flag);
    let from5 = seq!["--pid-file"@, pid_file] + from6;
    lemma_pair("--ram"@, ram, from5, flag);
    let from4 = seq!["--ram"@, ram] + from5;
    lemma_pair("--vcpus"@, vcpus, from4, flag);
    let from3 = seq!["--vcpus"@, vcpus] + from4;
    lemma_pair("--workdir"@, workdir, from3, flag);
    let from2 = seq!["--workdir"@, workdir] + from3;
    lemma_pair("--exec"@, exec_path, from2, flag);
    let from1 = seq!["--exec"@, exec_path] + from2;
    lemma_pair("--rootfs"@, rootfs, from1, flag);
    let from0 = seq!["--rootfs"@, rootfs] + from1;
    assert(seq!["--rootfs"@, rootfs, "--exec"@, exec_path, "--workdir"@, workdir, "--vcpus"@, vcpus,
        "--ram"@, ram, "--pid-file"@, pid_file, "--console-output"@, console_output,
        "--control-sock"@, control_sock, "--shell-sock"@, shell_sock] + rest == from0);
}

proof fn lemma_launch_head(
    rootfs: Seq<char>,
    vcpus: Seq<char>,
    ram: Seq<char>,
    shell_sock: Seq<char>,
    control_sock: Seq<char>,
    rest: Seq<Seq<char>>,
    flag: Seq<char>,
)
    ensures
        values_read(seq!["--rootfs"@, rootfs, "--exec"@, "/bin/sh"@, "--arg"@, "-c"@, "--arg"@,
            "exec sleep infinity"@, "--workdir"@, "/"@, "--vcpus"@, vcpus, "--ram"@, ram,
            "--shell-sock"@, shell_sock, "--control-sock"@, control_sock] + rest, flag)
            == of_flag(flag, "--rootfs"@, seq![rootfs]) + (of_flag(flag, "--exec"@,
            seq!["/bin/sh"@]) + (of_flag(flag, "--arg"@, seq!["-c"@]) + (of_flag(flag, "--arg"@,
            seq!["exec sleep infinity"@]) + (of_flag(flag, "--workdir"@, seq!["/"@])
            + (of_flag(flag, "--vcpus"@, seq![vcpus]) + (of_flag(flag, "--ram"@, seq![ram])
            + (of_flag(flag, "--shell-sock"@, seq![shell_sock]) + (of_flag(flag, "--control-sock"@,
            seq![control_sock]) + (values_read(rest, flag)))))))))),
        switch_read(seq!["--rootfs"@, rootfs, "--exec"@, "/bin/sh"@, "--arg"@, "-c"@, "--arg"@,
            "exec sleep infinity"@, "--workdir"@, "/"@, "--vcpus"@, vcpus, "--ram"@, ram,
            "--shell-sock"@, shell_sock, "--control-sock"@, control_sock] + rest, flag)
            == switch_read(rest, flag),
{
    lemma_flags_differ();
    let from9 = rest;
    lemma_pair("--control-sock"@, control_sock, from9, flag);
    let from8 = seq!["--control-sock"@, control_sock] + from9;
    lemma_pair("--shell-sock"@, shell_sock, from8, flag);
    let from7 = seq!["--shell-sock"@, shell_sock] + from8;
    lemma_pair("--ram"@, ram, from7, flag);
    let from6 = seq!["--ram"@, ram] + from7;
    lemma_pair("--vcpus"@, vcpus, from6, flag);
    let from5 = seq!["--vcpus"@, vcpus] + from6;
    lemma_pair("--workdir"@, "/"@, from5, flag);
    let from4 = seq!["--workdir"@, "/"@] + from5;
    lemma_pair("--arg"@, "exec sleep infinity"@, from4, flag);
    let from3 = seq!["--arg"@, "exec sleep infinity"@] + from4;
    lemma_pair("--arg"@, "-c"@, from3, flag);
    let from2 = seq!["--arg"@, "-c"@] + from3;
    lemma_pair("--exec"@, "/bin/sh"@, from2, flag);
    let from1 = seq!["--exec"@, "/bin/sh"@] + from2;
    lemma_pair("--rootfs"@, rootfs, from1, flag);
    let from0 = seq!["--rootfs"@, rootfs] + from1;
    assert(seq!["--rootfs"@, rootfs, "--exec"@, "/bin/sh"@, "--arg"@, "-c"@, "--arg"@,
        "exec sleep infinity"@, "--workdir"@, "/"@, "--vcpus"@, vcpus, "--ram"@, ram,
        "--shell-sock"@, shell_sock, "--control-sock"@, control_sock] + rest == from0);
}

pub(crate) proof fn lemma_dev_read(
    rootfs: Seq<char>,
    exec_path: Seq<char>,
    vcpus: nat,
    ram: nat,
    control_sock: Seq<char>,
    shell_sock: Seq<char>,
    env: Seq<(Seq<char>, Seq<char>)>,
    mounts: Seq<(Seq<char>, Seq<char>)>,
    exec_args: Seq<Seq<char>>,
    rest: Seq<Seq<char>>,
    flag: Seq<char>,
)
    ensures
        ({
            let argv = dev_args(
                rootfs,
                exec_path,
                vcpus,
                ram,
                control_sock,
                shell_sock,
                env,
                mounts,
                exec_args,
            );
            &&& values_read(argv + rest, flag) == of_flag(flag, "--rootfs"@, seq![rootfs])
                + (of_flag(flag, "--exec"@, seq![exec_path]) + (of_flag(flag, "--workdir"@,
                seq!["/workspace"@]) + (of_flag(flag, "--vcpus"@, seq![decimal(vcpus)])
                + (of_flag(flag, "--ram"@, seq![decimal(ram)]) + (of_flag(flag, "--control-sock"@,
                seq![control_sock]) + (of_flag(flag, "--shell-sock"@, seq![shell_sock])
                + (of_flag(flag, "--env"@, glued(env, "="@)) + (of_flag(flag, "--mount"@,
                glued(mounts, ":"@)) + (of_flag(flag, "--arg"@, exec_args) + values_read(rest,
                flag))))))))))
            &&& switch_read(argv + rest, flag) == (flag == "--network"@ || switch_read(rest, flag))
        }),
{
    lemma_flags_differ();
    let e = flagged("--env"@, glued(env, "="@));
    let m = flagged("--mount"@, glued(mounts, ":"@));
    let a = flagged("--arg"@, exec_args);
    lemma_each("--arg"@, exec_args, rest, flag);
    lemma_each("--mount"@, glued(mounts, ":"@), a + rest, flag);
    lemma_each("--env"@, glued(env, "="@), m + (a + rest), flag);
    let tail = e + (m + (a + rest));
    lemma_alone("--network"@, tail, flag);
    lemma_dev_head(
        rootfs,
        exec_path,
        "/workspace"@,
        decimal(vcpus),
        decimal(ram),
        control_sock,
        shell_sock,
        seq!["--network"@] + tail,
        flag,
    );
    assert(dev_args(
        rootfs,
        exec_path,
        vcpus,
        ram,
        control_sock,
        shell_sock,
        env,
        mounts,
        exec_args,
    ) + rest == seq!["--rootfs"@, rootfs, "--exec"@, exec_path, "--workdir"@, "/workspace"@,
        "--vcpus"@, decimal(vcpus), "--ram"@, decimal(ram), "--control-sock"@, control_sock,
        "--shell-sock"@, shell_sock] + (seq!["--network"@] + tail));
}

pub(crate) proof fn lemma_oci_read(
    rootfs: Seq<char>,
    exec_path: Seq<char>,
    workdir: Seq<char>,
    vcpus: nat,
    ram: Seq<char>,
    pid_file: Seq<char>,
    console_output: Seq<char>,
    control_sock: Seq<char>,
    shell_sock: Seq<char>,
    env: Seq<(Seq<char>, Seq<char>)>,
    exec_args: Seq<Seq<char>>,
    rest: Seq<Seq<char>>,
    flag: Seq<char>,
)
    ensures
        ({
            let argv = oci_args(
                rootfs,
                exec_path,
                workdir,
                vcpus,
                ram,
                pid_file,
                console_output,
                control_sock,
                shell_sock,
                env,
                exec_args,
            );
            &&& values_read(argv + rest, flag) == of_flag(flag, "--rootfs"@, seq![rootfs])
                + (of_flag(flag, "--exec"@, seq![exec_path]) + (of_flag(flag, "--workdir"@,
                seq![workdir]) + (of_flag(flag, "--vcpus"@, seq![decimal(vcpus)]) + (of_flag(flag,
                "--ram"@, seq![ram]) + (of_flag(flag, "--pid-file"@, seq![pid_file])
                + (of_flag(flag, "--console-output"@, seq![console_output]) + (of_flag(flag,
                "--control-sock"@, seq![control_sock]) + (of_flag(flag, "--shell-sock"@,
                seq![shell_sock]) + (of_flag(flag, "--env"@, glued(env, "="@)) + (of_flag(flag,
                "--arg"@, exec_args) + values_read(rest, flag)))))))))))
            &&& switch_read(argv + rest, flag) == (flag == "--network"@ || switch_read(rest, flag))
        }),
{
    lemma_flags_differ();
    let e = flagged("--env"@, glued(env, "="@));
    let a = flagged("--arg"@, exec_args);
    lemma_each("--arg"@, exec_args, rest, flag);
    lemma_each("--env"@, glued(env, "="@), a + rest, flag);
    let tail = e + (a + rest);
    lemma_alone("--network"@, tail, flag);
    lemma_oci_head(
        rootfs,
        exec_path,
        workdir,
        decimal(vcpus),
        ram,
        pid_file,
        console_output,
        control_sock,
        shell_sock,
        seq!["--network"@] + tail,
        flag,
    );
    assert(oci_args(
        rootfs,
        exec_path,
        workdir,
        vcpus,
        ram,
        pid_file,
        console_output,
        control_sock,
        shell_sock,
        env,
        exec_args,
    ) + rest == seq!["--rootfs"@, rootfs, "--exec"@, exec_path, "--workdir"@, workdir, "--vcpus"@,
        decimal(vcpus), "--ram"@, ram, "--pid-file"@, pid_file, "--console-output"@, console_output,
        "--control-sock"@, control_sock, "--shell-sock"@, shell_sock] + (seq!["--network"@]
        + tail));
}

proof fn lemma_launch_read(p: BootParams, control_sock: Seq<char>, flag: Seq<char>)
    ensures
        ({
            let argv = launch_args(p, control_sock).skip(1);
            let rest = Seq::<Seq<char>>::empty();
            &&& values_read(argv, flag) == of_flag(flag, "--rootfs"@, seq![p.rootfs@])
                + (of_flag(flag, "--exec"@, seq!["/bin/sh"@]) + (of_flag(flag, "--arg"@,
                seq!["-c"@]) + (of_flag(flag, "--arg"@, seq!["exec sleep infinity"@])
                + (of_flag(flag, "--workdir"@, seq!["/"@]) + (of_flag(flag, "--vcpus"@,
                seq![decimal(p.cpus as nat)]) + (of_flag(flag, "--ram"@,
                seq![decimal(p.memory_mb as nat)]) + (of_flag(flag, "--shell-sock"@,
                seq![p.shell_sock@]) + (of_flag(flag, "--control-sock"@, seq![control_sock])
                + (of_flag(flag, "--env"@, texts(p.env@)) + values_read(rest, flag))))))))))
            &&& switch_read(argv, flag) == (p.network && flag == "--network"@)
        }),
{
    lemma_flags_differ();
    let rest = Seq::<Seq<char>>::empty();
    let e = flagged("--env"@, texts(p.env@));
    lemma_each("--env"@, texts(p.env@), rest, flag);
    assert(e + rest == e);
    let tail = if p.network {
        seq!["--network"@] + e
    } else {
        e
    };
    lemma_alone("--network"@, e, flag);
    lemma_launch_head(
        p.rootfs@,
        decimal(p.cpus as nat),
        decimal(p.memory_mb as nat),
        p.shell_sock@,
        control_sock,
        tail,
        flag,
    );
    assert(launch_args(p, control_sock).skip(1) == seq!["--rootfs"@, p.rootfs@, "--exec"@,
        "/bin/sh"@, "--arg"@, "-c"@, "--arg"@, "exec sleep infinity"@, "--workdir"@, "/"@,
        "--vcpus"@, decimal(p.cpus as nat), "--ram"@, decimal(p.memory_mb as nat), "--shell-sock"@,
        p.shell_sock@, "--control-sock"@, control_sock] + tail);
}

/// The VM of a sandbox is launched as it was prepared: the boot process reads
/// the same files, size, sockets, variables and network, and a program that does
/// nothing.
pub proof fn launched_is_what_was_prepared(params: &BootParams, plan: LaunchPlan)
    requires
        call_ensures(IiiWorkerLauncher::plan, (params,), plan),
    ensures
        ({
            let read = texts(plan.argv@).skip(1);
            let env = values_read(read, "--env"@);
            let cpus = values_read(read, "--vcpus"@);
            let ram = values_read(read, "--ram"@);
            &&& plan.argv@[0]@ == "__vm-boot"@
            &&& values_read(read, "--rootfs"@) == seq![params.rootfs@]
            &&& values_read(read, "--exec"@) == seq!["/bin/sh"@]
            &&& values_read(read, "--arg"@) == seq!["-c"@, "exec sleep infinity"@]
            &&& values_read(read, "--workdir"@) == seq!["/"@]
            &&& cpus.len() == 1 && parsed_unsigned(cpus[0], u32::MAX as nat) == Some(
                params.cpus as nat,
            )
            &&& ram.len() == 1 && parsed_unsigned(ram[0], u32::MAX as nat) == Some(
                params.memory_mb as nat,
            )
            &&& values_read(read, "--shell-sock"@) == seq![params.shell_sock@]
            &&& values_read(read, "--control-sock"@) == seq![plan.control_sock@]
            &&& env.len() == params.env@.len()
            &&& forall|i: int| 0 <= i < env.len() ==> #[trigger] env[i] == params.env@[i]@
            &&& values_read(read, "--mount"@).len() == 0
            &&& switch_read(read, "--network"@) <==> params.network
        }),
{
    lemma_flags_differ();
    let read = texts(plan.argv@).skip(1);
    let sock = plan.control_sock@;
    lemma_launch_read(*params, sock, "--rootfs"@);
    lemma_launch_read(*params, sock, "--exec"@);
    lemma_launch_read(*params, sock, "--arg"@);
    lemma_launch_read(*params, sock, "--workdir"@);
    lemma_launch_read(*params, sock, "--vcpus"@);
    lemma_launch_read(*params, sock, "--ram"@);
    lemma_launch_read(*params, sock, "--shell-sock"@);
    lemma_launch_read(*params, sock, "--control-sock"@);
    lemma_launch_read(*params, sock, "--env"@);
    lemma_launch_read(*params, sock, "--mount"@);
    lemma_launch_read(*params, sock, "--network"@);
    decimal_reads_back(params.cpus as nat, u32::MAX as nat);
    decimal_reads_back(params.memory_mb as nat, u32::MAX as nat);
    assert(texts(plan.argv@)[0] == plan.argv@[0]@);
    assert(values_read(read, "--rootfs"@) =~= seq![params.rootfs@]);
    assert(values_read(read, "--exec"@) =~= seq!["/bin/sh"@]);
    assert(values_read(read, "--arg"@) =~= seq!["-c"@, "exec sleep infinity"@]);
    assert(values_read(read, "--workdir"@) =~= seq!["/"@]);
    assert(values_read(read, "--vcpus"@) =~= seq![decimal(params.cpus as nat)]);
    assert(values_read(read, "--ram"@) =~= seq![decimal(params.memory_mb as nat)]);
    assert(values_read(read, "--shell-sock"@) =~= seq![params.shell_sock@]);
    assert(values_read(read, "--control-sock"@) =~= seq![sock]);
    assert(values_read(read, "--env"@) =~= texts(params.env@));
}

/// The boot process of a worker in development reads what the arguments were
/// made of: each under its flag, those that may be several in order.
pub proof fn dev_arguments_are_read_back(
    call: (
        &str,
        &str,
        u32,
        u32,
        &str,
        &str,
        &[(String, String)],
        &[(String, String)],
        &[String],
    ),
    argv: Vec<String>,
)
    requires
        call_ensures(vm_boot_args_dev, call, argv),
    ensures
        ({
            let read = texts(argv@);
            let env = values_read(read, "--env"@);
            let mounts = values_read(read, "--mount"@);
            let args = values_read(read, "--arg"@);
            let cpus = values_read(read, "--vcpus"@);
            let ram = values_read(read, "--ram"@);
            &&& values_read(read, "--rootfs"@) == seq![call.0@]
            &&& values_read(read, "--exec"@) == seq![call.1@]
            &&& cpus.len() == 1 && parsed_unsigned(cpus[0], u32::MAX as nat) == Some(
                call.2 as nat,
            )
            &&& ram.len() == 1 && parsed_unsigned(ram[0], u32::MAX as nat) == Some(
                call.3 as nat,
            )
            &&& values_read(read, "--control-sock"@) == seq![call.4@]
            &&& values_read(read, "--shell-sock"@) == seq![call.5@]
            &&& env.len() == call.6@.len()
            &&& forall|i: int|
                0 <= i < env.len() ==> #[trigger] env[i] == call.6@[i].0@ + "="@ + call.6@[i].1@
            &&& mounts.len() == call.7@.len()
            &&& forall|i: int|
                0 <= i < mounts.len() ==> #[trigger] mounts[i] == call.7@[i].0@ + ":"@
                    + call.7@[i].1@
            &&& args.len() == call.8@.len()
            &&& forall|i: int| 0 <= i < args.len() ==> #[trigger] args[i] == call.8@[i]@
            &&& switch_read(read, "--network"@)
        }),
{
    lemma_flags_differ();
    let rest = Seq::<Seq<char>>::empty();
    let read = texts(argv@);
    let env = pair_texts(call.6@);
    let mounts = pair_texts(call.7@);
    let args = texts(call.8@);
    assert(read + rest == read);
    assert forall|flag: Seq<char>| #[trigger]
        values_read(read, flag) == of_flag(flag, "--rootfs"@, seq![call.0@]) + (of_flag(
            flag,
            "--exec"@,
            seq![call.1@],
        ) + (of_flag(flag, "--workdir"@, seq!["/workspace"@]) + (of_flag(
            flag,
            "--vcpus"@,
            seq![decimal(call.2 as nat)],
        ) + (of_flag(flag, "--ram"@, seq![decimal(call.3 as nat)]) + (of_flag(
            flag,
            "--control-sock"@,
            seq![call.4@],
        ) + (of_flag(flag, "--shell-sock"@, seq![call.5@]) + (of_flag(
            flag,
            "--env"@,
            glued(env, "="@),
        ) + (of_flag(flag, "--mount"@, glued(mounts, ":"@)) + (of_flag(
            flag,
            "--arg"@,
            args,
        ) + values_read(rest, flag)))))))))) by {
        lemma_dev_read(
            call.0@,
            call.1@,
            call.2 as nat,
            call.3 as nat,
            call.4@,
            call.5@,
            env,
            mounts,
            args,
            rest,
            flag,
        );
    }
    lemma_dev_read(
        call.0@,
        call.1@,
        call.2 as nat,
        call.3 as nat,
        call.4@,
        call.5@,
        env,
        mounts,
        args,
        rest,
        "--network"@,
    );
    decimal_reads_back(call.2 as nat, u32::MAX as nat);
    decimal_reads_back(call.3 as nat, u32::MAX as nat);
    assert(values_read(read, "--rootfs"@) =~= seq![call.0@]);
    assert(values_read(read, "--exec"@) =~= seq![call.1@]);
    assert(values_read(read, "--vcpus"@) =~= seq![decimal(call.2 as nat)]);
    assert(values_read(read, "--ram"@) =~= seq![decimal(call.3 as nat)]);
    assert(values_read(read, "--control-sock"@) =~= seq![call.4@]);
    assert(values_read(read, "--shell-sock"@) =~= seq![call.5@]);
    assert(values_read(read, "--env"@) =~= glued(env, "="@));
    assert(values_read(read, "--mount"@) =~= glued(mounts, ":"@));
    assert(values_read(read, "--arg"@) =~= args);
}

/// The boot process of a worker that runs an image reads what the arguments
/// were made of: each under its flag, those that may be several in order.
pub proof fn image_arguments_are_read_back(
    call: (
        &str,
        &str,
        &str,
        u32,
        &str,
        &str,
        &str,
        &str,
        &str,
        &[(String, String)],
        &[String],
    ),
    argv: Vec<String>,
)
    requires
        call_ensures(vm_boot_args_oci, call, argv),
    ensures
        ({
            let read = texts(argv@);
            let env = values_read(read, "--env"@);
            let args = values_read(read, "--arg"@);
            let cpus = values_read(read, "--vcpus"@);
            &&& values_read(read, "--rootfs"@) == seq![call.0@]
            &&& values_read(read, "--exec"@) == seq![call.1@]
            &&& values_read(read, "--workdir"@) == seq![call.2@]
            &&& cpus.len() == 1 && parsed_unsigned(cpus[0], u32::MAX as nat) == Some(
                call.3 as nat,
            )
            &&& values_read(read, "--ram"@) == seq![call.4@]
            &&& values_read(read, "--pid-file"@) == seq![call.5@]
            &&& values_read(read, "--console-output"@) == seq![call.6@]
            &&& values_read(read, "--control-sock"@) == seq![call.7@]
            &&& values_read(read, "--shell-sock"@) == seq![call.8@]
            &&& env.len() == call.9@.len()
            &&& forall|i: int|
                0 <= i < env.len() ==> #[trigger] env[i] == call.9@[i].0@ + "="@ + call.9@[i].1@
            &&& args.len() == call.10@.len()
            &&& forall|i: int| 0 <= i < args.len() ==> #[trigger] args[i] == call.10@[i]@
            &&& switch_read(read, "--network"@)
        }),
{
    lemma_flags_differ();
    let rest = Seq::<Seq<char>>::empty();
    let read = texts(argv@);
    let env = pair_texts(call.9@);
    let args = texts(call.10@);
    assert(read + rest == read);
    assert forall|flag: Seq<char>| #[trigger]
        values_read(read, flag) == of_flag(flag, "--rootfs"@, seq![call.0@]) + (of_flag(
            flag,
            "--exec"@,
            seq![call.1@],
        ) + (of_flag(flag, "--workdir"@, seq![call.2@]) + (of_flag(
            flag,
            "--vcpus"@,
            seq![decimal(call.3 as nat)],
        ) + (of_flag(flag, "--ram"@, seq![call.4@]) + (of_flag(
            flag,
            "--pid-file"@,
            seq![call.5@],
        ) + (of_flag(flag, "--console-output"@, seq![call.6@]) + (of_flag(
            flag,
            "--control-sock"@,
            seq![call.7@],
        ) + (of_flag(flag, "--shell-sock"@, seq![call.8@]) + (of_flag(
            flag,
            "--env"@,
            glued(env, "="@),
        ) + (of_flag(flag, "--arg"@, args) + values_read(rest, flag))))))))))) by {
        lemma_oci_read(
            call.0@,
            call.1@,
            call.2@,
            call.3 as nat,
            call.4@,
            call.5@,
            call.6@,
            call.7@,
            call.8@,
            env,
            args,
            rest,
            flag,
        );
    }
    lemma_oci_read(
        call.0@,
        call.1@,
        call.2@,
        call.3 as nat,
        call.4@,
        call.5@,
        call.6@,
        call.7@,
        call.8@,
        env,
        args,
        rest,
        "--network"@,
    );
    decimal_reads_back(call.3 as nat, u32::MAX as nat);
    assert(values_read(read, "--rootfs"@) =~= seq![call.0@]);
    assert(values_read(read, "--exec"@) =~= seq![call.1@]);
    assert(values_read(read, "--workdir"@) =~= seq![call.2@]);
    assert(values_read(read, "--vcpus"@) =~= seq![decimal(call.3 as nat)]);
    assert(values_read(read, "--ram"@) =~= seq![call.4@]);
    assert(values_read(read, "--pid-file"@) =~= seq![call.5@]);
    assert(values_read(read, "--console-output"@) =~= seq![call.6@]);
    assert(values_read(read, "--control-sock"@) =~= seq![call.7@]);
    assert(values_read(read, "--shell-sock"@) =~= seq![call.8@]);
    assert(values_read(read, "--env"@) =~= glued(env, "="@));
    assert(values_read(read, "--arg"@) =~= args);
}

} // verus!
