//! The argument lists handed to the VM boot process.

use crate::numbers::{decimal, parse_u32, parse_u64, parsed_unsigned, u64_text};
use crate::text::{
    ascii_lowered, concat3, pair_texts, same_text, texts, to_ascii_lower,
};
use vstd::prelude::*;

verus! {

/// `flag` before each of `values`.
pub open spec fn flagged(flag: Seq<char>, values: Seq<Seq<char>>) -> Seq<Seq<char>>
    decreases values.len(),
{
    if values.len() == 0 {
        Seq::empty()
    } else {
        flagged(flag, values.drop_last()).push(flag).push(values.last())
    }
}

/// Each pair as one text, with `sep` between its halves.
pub open spec fn glued(pairs: Seq<(Seq<char>, Seq<char>)>, sep: Seq<char>) -> Seq<Seq<char>> {
    pairs.map_values(|p: (Seq<char>, Seq<char>)| p.0 + sep + p.1)
}

pub(crate) fn push_text(out: &mut Vec<String>, text: &str)
    ensures
        texts(final(out)@) == texts(old(out)@).push(text@),
{
    out.push(text.to_owned());
}

pub(crate) fn push_flag(out: &mut Vec<String>, flag: &str, value: &str)
    ensures
        texts(final(out)@) == texts(old(out)@).push(flag@).push(value@),
{
    out.push(flag.to_owned());
    out.push(value.to_owned());
}

pub(crate) fn push_flagged(out: &mut Vec<String>, flag: &str, values: &[String])
    ensures
        texts(final(out)@) == texts(old(out)@) + flagged(flag@, texts(values@)),
{
    let ghost before = texts(out@);
    let ghost all = texts(values@);
    let mut i: usize = 0;
    assert(all.take(0) == Seq::<Seq<char>>::empty());
    assert(before + flagged(flag@, all.take(0)) == before);
    while i < values.len()
        invariant
            i <= values@.len(),
            all == texts(values@),
            texts(out@) == before + flagged(flag@, all.take(i as int)),
        decreases values@.len() - i,
    {
        let ghost done = flagged(flag@, all.take(i as int));
        push_flag(out, flag, values[i].as_str());
        assert(all.take(i + 1).drop_last() == all.take(i as int));
        assert((before + done).push(flag@).push(values@[i as int]@) == before + done.push(
            flag@,
        ).push(values@[i as int]@));
        i += 1;
    }
    assert(all.take(i as int) == all);
}

pub(crate) fn glue(pairs: &[(String, String)], sep: &str) -> (r: Vec<String>)
    ensures
        texts(r@) == glued(pair_texts(pairs@), sep@),
{
    let mut r: Vec<String> = Vec::new();
    let mut i: usize = 0;
    while i < pairs.len()
        invariant
            i <= pairs@.len(),
            r@.len() == i,
            forall|j: int|
                0 <= j < i ==> (#[trigger] r@[j])@ == glued(pair_texts(pairs@), sep@)[j],
        decreases pairs@.len() - i,
    {
        r.push(concat3(pairs[i].0.as_str(), sep, pairs[i].1.as_str()));
        i += 1;
    }
    assert(texts(r@) == glued(pair_texts(pairs@), sep@));
    r
}

/// The boot arguments of a worker that runs an OCI image.
pub open spec fn oci_args(
    rootfs: Seq<char>,
    exec_path: Seq<char>,
    workdir: Seq<char>,
    vcpus: nat,
    ram_mib: Seq<char>,
    pid_file: Seq<char>,
    console_output: Seq<char>,
    control_sock: Seq<char>,
    shell_sock: Seq<char>,
    env: Seq<(Seq<char>, Seq<char>)>,
    exec_args: Seq<Seq<char>>,
) -> Seq<Seq<char>> {
    seq![
        "--rootfs"@,
        rootfs,
        "--exec"@,
        exec_path,
        "--workdir"@,
        workdir,
        "--vcpus"@,
        decimal(vcpus),
        "--ram"@,
        ram_mib,
        "--pid-file"@,
        pid_file,
        "--console-output"@,
        console_output,
        "--control-sock"@,
        control_sock,
        "--shell-sock"@,
        shell_sock,
        "--network"@,
    ] + flagged("--env"@, glued(env, "="@)) + flagged("--arg"@, exec_args)
}

/// The boot arguments of a worker that runs an OCI image.
pub fn vm_boot_args_oci(
    rootfs: &str,
    exec_path: &str,
    workdir: &str,
    vcpus: u32,
    ram_mib: &str,
    pid_file: &str,
    console_output: &str,
    control_sock: &str,
    shell_sock: &str,
    env: &[(String, String)],
    exec_args: &[String],
) -> (r: Vec<String>)
    ensures
        texts(r@) == oci_args(
            rootfs@,
            exec_path@,
            workdir@,
            vcpus as nat,
            ram_mib@,
            pid_file@,
            console_output@,
            control_sock@,
            shell_sock@,
            pair_texts(env@),
            texts(exec_args@),
        ),
{
    let mut out: Vec<String> = Vec::new();
    push_flag(&mut out, "--rootfs", rootfs);
    push_flag(&mut out, "--exec", exec_path);
    push_flag(&mut out, "--workdir", workdir);
    push_flag(&mut out, "--vcpus", u64_text(vcpus as u64).as_str());
    push_flag(&mut out, "--ram", ram_mib);
    push_flag(&mut out, "--pid-file", pid_file);
    push_flag(&mut out, "--console-output", console_output);
    push_flag(&mut out, "--control-sock", control_sock);
    push_flag(&mut out, "--shell-sock", shell_sock);
    push_text(&mut out, "--network");
    push_flagged(&mut out, "--env", glue(env, "=").as_slice());
    push_flagged(&mut out, "--arg", exec_args);
    out
}

/// The boot arguments of a worker in development, which is mounted from the
/// host.
pub open spec fn dev_args(
    rootfs: Seq<char>,
    exec_path: Seq<char>,
    vcpus: nat,
    ram_mib: nat,
    control_sock: Seq<char>,
    shell_sock: Seq<char>,
    env: Seq<(Seq<char>, Seq<char>)>,
    mounts: Seq<(Seq<char>, Seq<char>)>,
    exec_args: Seq<Seq<char>>,
) -> Seq<Seq<char>> {
    seq![
        "--rootfs"@,
        rootfs,
        "--exec"@,
        exec_path,
        "--workdir"@,
        "/workspace"@,
        "--vcpus"@,
        decimal(vcpus),
        "--ram"@,
        decimal(ram_mib),
        "--control-sock"@,
        control_sock,
        "--shell-sock"@,
        shell_sock,
        "--network"@,
    ] + flagged("--env"@, glued(env, "="@)) + flagged("--mount"@, glued(mounts, ":"@)) + flagged(
        "--arg"@,
        exec_args,
    )
}

/// The boot arguments of a worker in development.
pub fn vm_boot_args_dev(
    rootfs: &str,
    exec_path: &str,
    vcpus: u32,
    ram_mib: u32,
    control_sock: &str,
    shell_sock: &str,
    env: &[(String, String)],
    mounts: &[(String, String)],
    exec_args: &[String],
) -> (r: Vec<String>)
    ensures
        texts(r@) == dev_args(
            rootfs@,
            exec_path@,
            vcpus as nat,
            ram_mib as nat,
            control_sock@,
            shell_sock@,
            pair_texts(env@),
            pair_texts(mounts@),
            texts(exec_args@),
        ),
{
    let mut out: Vec<String> = Vec::new();
    push_flag(&mut out, "--rootfs", rootfs);
    push_flag(&mut out, "--exec", exec_path);
    push_flag(&mut out, "--workdir", "/workspace");
    push_flag(&mut out, "--vcpus", u64_text(vcpus as u64).as_str());
    push_flag(&mut out, "--ram", u64_text(ram_mib as u64).as_str());
    push_flag(&mut out, "--control-sock", control_sock);
    push_flag(&mut out, "--shell-sock", shell_sock);
    push_text(&mut out, "--network");
    push_flagged(&mut out, "--env", glue(env, "=").as_slice());
    push_flagged(&mut out, "--mount", glue(mounts, ":").as_slice());
    push_flagged(&mut out, "--arg", exec_args);
    out
}

/// The environment's tuning variables, each as it was found.
#[derive(Debug, Clone, PartialEq, Eq)]
pub struct VmTuning {
    /// `III_VM_HYPERTHREADING`
    pub hyperthreading: Option<String>,
    /// `III_VM_NESTED_VIRT`
    pub nested_virt: Option<String>,
    /// `III_VM_VIRTIOFS_SHM_SIZE_MIB`
    pub virtiofs_shm_size_mib: Option<String>,
    /// `III_VM_NOFILE_LIMIT`
    pub nofile_limit: Option<String>,
}

/// `v` says yes: `1`, `true`, `on` or `yes` in any case.
pub open spec fn truthy(v: Seq<char>) -> bool {
    let w = ascii_lowered(v);
    w == "1"@ || w == "true"@ || w == "on"@ || w == "yes"@
}

/// The flag of a yes-or-no variable.
pub open spec fn switch_args(flag: Seq<char>, v: Option<String>) -> Seq<Seq<char>> {
    match v {
        Some(s) => if truthy(s@) {
            seq![flag]
        } else {
            Seq::empty()
        },
        None => Seq::empty(),
    }
}

/// The flag and value of a numeric variable of at most `max`.
pub open spec fn number_args(flag: Seq<char>, v: Option<String>, max: nat) -> Seq<Seq<char>> {
    match v {
        Some(s) => match parsed_unsigned(s@, max) {
            Some(n) => seq![flag, decimal(n)],
            None => Seq::empty(),
        },
        None => Seq::empty(),
    }
}

/// The boot arguments that the tuning variables ask for.
pub open spec fn tuning_args(t: VmTuning) -> Seq<Seq<char>> {
    switch_args("--hyperthreading"@, t.hyperthreading) + switch_args(
        "--nested-virt"@,
        t.nested_virt,
    ) + number_args("--virtiofs-shm-size-mib"@, t.virtiofs_shm_size_mib, u32::MAX as nat)
        + number_args("--nofile-limit"@, t.nofile_limit, u64::MAX as nat)
}

fn is_truthy(v: &str) -> (r: bool)
    ensures
        r == truthy(v@),
{
    let w = to_ascii_lower(v);
    same_text(w.as_str(), "1") || same_text(w.as_str(), "true") || same_text(w.as_str(), "on")
        || same_text(w.as_str(), "yes")
}

/// The boot arguments that the tuning variables ask for. A value that does not
/// parse is ignored: a typo in an opt-in must not fail a boot.
pub fn apply_vm_tuning_env(t: &VmTuning) -> (r: Vec<String>)
    ensures
        texts(r@) == tuning_args(*t),
{
    let mut out: Vec<String> = Vec::new();
    match &t.hyperthreading {
        Some(v) => if is_truthy(v.as_str()) {
            push_text(&mut out, "--hyperthreading");
        },
        None => {},
    }
    match &t.nested_virt {
        Some(v) => if is_truthy(v.as_str()) {
            push_text(&mut out, "--nested-virt");
        },
        None => {},
    }
    assert(texts(out@) == switch_args("--hyperthreading"@, t.hyperthreading) + switch_args(
        "--nested-virt"@,
        t.nested_virt,
    ));
    match &t.virtiofs_shm_size_mib {
        Some(v) => match parse_u32(v.as_str()) {
            Some(n) => push_flag(
                &mut out,
                "--virtiofs-shm-size-mib",
                u64_text(n as u64).as_str(),
            ),
            None => {},
        },
        None => {},
    }
    assert(texts(out@) == switch_args("--hyperthreading"@, t.hyperthreading) + switch_args(
        "--nested-virt"@,
        t.nested_virt,
    ) + number_args("--virtiofs-shm-size-mib"@, t.virtiofs_shm_size_mib, u32::MAX as nat));
    match &t.nofile_limit {
        Some(v) => match parse_u64(v.as_str()) {
            Some(n) => push_flag(&mut out, "--nofile-limit", u64_text(n).as_str()),
            None => {},
        },
        None => {},
    }
    out
}

/// A flag and its value.
pub type Flag = (Seq<char>, Option<Seq<char>>);

/// `f` before the flags that were read, if they could be.
pub open spec fn flag_before(f: Flag, read: Option<Seq<Flag>>) -> Option<Seq<Flag>> {
    match read {
        Some(fs) => Some(seq![f] + fs),
        None => None,
    }
}

/// The flags of an argument list: `--network` stands alone, every other flag
/// has the argument after it as its value.
pub open spec fn flags_read(argv: Seq<Seq<char>>) -> Option<Seq<Flag>>
    decreases argv.len(),
{
    if argv.len() == 0 {
        Some(Seq::empty())
    } else if argv[0] == "--network"@ {
        flag_before((argv[0], None), flags_read(argv.skip(1)))
    } else if argv.len() == 1 {
        None
    } else {
        flag_before((argv[0], Some(argv[1])), flags_read(argv.skip(2)))
    }
}

/// `flag` with each of `values`.
pub open spec fn each_flag(flag: Seq<char>, values: Seq<Seq<char>>) -> Seq<Flag> {
    values.map_values(|v: Seq<char>| (flag, Some(v)))
}

proof fn lemma_read_one(flag: Seq<char>, value: Seq<char>, rest: Seq<Seq<char>>)
    requires
        flag != "--network"@,
    ensures
        flags_read(seq![flag, value] + rest) == flag_before((flag, Some(value)), flags_read(rest)),
{
    let all = seq![flag, value] + rest;
    assert(all[0] == flag && all[1] == value);
    assert(all.skip(2) == rest);
}

pub(crate) proof fn lemma_flagged_first(flag: Seq<char>, values: Seq<Seq<char>>)
    requires
        values.len() > 0,
    ensures
        flagged(flag, values) == seq![flag, values[0]] + flagged(flag, values.skip(1)),
    decreases values.len(),
{
    if values.len() == 1 {
        assert(values.drop_last() == Seq::<Seq<char>>::empty());
        assert(values.skip(1) == Seq::<Seq<char>>::empty());
        assert(flagged(flag, values.drop_last()) == Seq::<Seq<char>>::empty());
        assert(flagged(flag, values.skip(1)) == Seq::<Seq<char>>::empty());
    } else {
        lemma_flagged_first(flag, values.drop_last());
        assert(values.drop_last().skip(1) == values.skip(1).drop_last());
        assert(values.skip(1).last() == values.last());
    }
}

proof fn lemma_read_flagged(flag: Seq<char>, values: Seq<Seq<char>>, rest: Seq<Seq<char>>)
    requires
        flag != "--network"@,
        flags_read(rest) is Some,
    ensures
        flags_read(flagged(flag, values) + rest) == Some(
            each_flag(flag, values) + flags_read(rest)->0,
        ),
    decreases values.len(),
{
    if values.len() == 0 {
        assert(flagged(flag, values) + rest == rest);
        assert(each_flag(flag, values) + flags_read(rest)->0 == flags_read(rest)->0);
    } else {
        let tail = flagged(flag, values.skip(1)) + rest;
        lemma_flagged_first(flag, values);
        lemma_read_flagged(flag, values.skip(1), rest);
        assert(flagged(flag, values) + rest == seq![flag, values[0]] + tail);
        lemma_read_one(flag, values[0], tail);
        assert(each_flag(flag, values) == seq![(flag, Some(values[0]))] + each_flag(
            flag,
            values.skip(1),
        ));
    }
}

proof fn lemma_read_network(rest: Seq<Seq<char>>)
    ensures
        flags_read(seq!["--network"@] + rest) == flag_before(
            ("--network"@, None),
            flags_read(rest),
        ),
{
    assert((seq!["--network"@] + rest).skip(1) == rest);
}

proof fn lemma_flag_names()
    ensures
        "--rootfs"@ != "--network"@,
        "--exec"@ != "--network"@,
        "--workdir"@ != "--network"@,
        "--vcpus"@ != "--network"@,
        "--ram"@ != "--network"@,
        "--pid-file"@ != "--network"@,
        "--console-output"@ != "--network"@,
        "--control-sock"@ != "--network"@,
        "--shell-sock"@ != "--network"@,
        "--env"@ != "--network"@,
        "--mount"@ != "--network"@,
        "--arg"@ != "--network"@,
{
    reveal_strlit("--network");
    reveal_strlit("--rootfs");
    reveal_strlit("--exec");
    reveal_strlit("--workdir");
    reveal_strlit("--vcpus");
    reveal_strlit("--ram");
    reveal_strlit("--pid-file");
    reveal_strlit("--console-output");
    reveal_strlit("--control-sock");
    reveal_strlit("--shell-sock");
    reveal_strlit("--env");
    reveal_strlit("--mount");
    reveal_strlit("--arg");
    assert("--network"@[2] == 'n');
    assert("--workdir"@[2] == 'w');
}

proof fn lemma_read_oci_head(
    rootfs: Seq<char>,
    exec_path: Seq<char>,
    workdir: Seq<char>,
    vcpus: Seq<char>,
    ram: Seq<char>,
    pid_file: Seq<char>,
    console_output: Seq<char>,
    control_sock: Seq<char>,
    shell_sock: Seq<char>,
    rest: Seq<Seq<char>>,
    read: Seq<Flag>,
)
    requires
        flags_read(rest) == Some(read),
    ensures
        flags_read(
            seq![
                "--rootfs"@,
                rootfs,
                "--exec"@,
                exec_path,
                "--workdir"@,
                workdir,
                "--vcpus"@,
                vcpus,
                "--ram"@,
                ram,
                "--pid-file"@,
                pid_file,
                "--console-output"@,
                console_output,
                "--control-sock"@,
                control_sock,
                "--shell-sock"@,
                shell_sock,
            ] + rest,
        ) == Some(
            seq![
                ("--rootfs"@, Some(rootfs)),
                ("--exec"@, Some(exec_path)),
                ("--workdir"@, Some(workdir)),
                ("--vcpus"@, Some(vcpus)),
                ("--ram"@, Some(ram)),
                ("--pid-file"@, Some(pid_file)),
                ("--console-output"@, Some(console_output)),
                ("--control-sock"@, Some(control_sock)),
                ("--shell-sock"@, Some(shell_sock)),
            ] + read,
        ),
{
    lemma_flag_names();
    lemma_read_one("--shell-sock"@, shell_sock, rest);
    let from8 = seq!["--shell-sock"@, shell_sock] + rest;
    lemma_read_one("--control-sock"@, control_sock, from8);
    let from7 = seq!["--control-sock"@, control_sock] + from8;
    lemma_read_one("--console-output"@, console_output, from7);
    let from6 = seq!["--console-output"@, console_output] + from7;
    lemma_read_one("--pid-file"@, pid_file, from6);
    let from5 = seq!["--pid-file"@, pid_file] + from6;
    lemma_read_one("--ram"@, ram, from5);
    let from4 = seq!["--ram"@, ram] + from5;
    lemma_read_one("--vcpus"@, vcpus, from4);
    let from3 = seq!["--vcpus"@, vcpus] + from4;
    lemma_read_one("--workdir"@, workdir, from3);
    let from2 = seq!["--workdir"@, workdir] + from3;
    lemma_read_one("--exec"@, exec_path, from2);
    let from1 = seq!["--exec"@, exec_path] + from2;
    lemma_read_one("--rootfs"@, rootfs, from1);
    let from0 = seq!["--rootfs"@, rootfs] + from1;
    assert(seq![
        "--rootfs"@,
        rootfs,
        "--exec"@,
        exec_path,
        "--workdir"@,
        workdir,
        "--vcpus"@,
        vcpus,
        "--ram"@,
        ram,
        "--pid-file"@,
        pid_file,
        "--console-output"@,
        console_output,
        "--control-sock"@,
        control_sock,
        "--shell-sock"@,
        shell_sock,
    ] + rest == from0);
}

proof fn lemma_read_dev_head(
    rootfs: Seq<char>,
    exec_path: Seq<char>,
    workdir: Seq<char>,
    vcpus: Seq<char>,
    ram: Seq<char>,
    control_sock: Seq<char>,
    shell_sock: Seq<char>,
    rest: Seq<Seq<char>>,
    read: Seq<Flag>,
)
    requires
        flags_read(rest) == Some(read),
    ensures
        flags_read(
            seq![
                "--rootfs"@,
                rootfs,
                "--exec"@,
                exec_path,
                "--workdir"@,
                workdir,
                "--vcpus"@,
                vcpus,
                "--ram"@,
                ram,
                "--control-sock"@,
                control_sock,
                "--shell-sock"@,
                shell_sock,
            ] + rest,
        ) == Some(
            seq![
                ("--rootfs"@, Some(rootfs)),
                ("--exec"@, Some(exec_path)),
                ("--workdir"@, Some(workdir)),
                ("--vcpus"@, Some(vcpus)),
                ("--ram"@, Some(ram)),
                ("--control-sock"@, Some(control_sock)),
                ("--shell-sock"@, Some(shell_sock)),
            ] + read,
        ),
{
    lemma_flag_names();
    lemma_read_one("--shell-sock"@, shell_sock, rest);
    let from6 = seq!["--shell-sock"@, shell_sock] + rest;
    lemma_read_one("--control-sock"@, control_sock, from6);
    let from5 = seq!["--control-sock"@, control_sock] + from6;
    lemma_read_one("--ram"@, ram, from5);
    let from4 = seq!["--ram"@, ram] + from5;
    lemma_read_one("--vcpus"@, vcpus, from4);
    let from3 = seq!["--vcpus"@, vcpus] + from4;
    lemma_read_one("--workdir"@, workdir, from3);
    let from2 = seq!["--workdir"@, workdir] + from3;
    lemma_read_one("--exec"@, exec_path, from2);
    let from1 = seq!["--exec"@, exec_path] + from2;
    lemma_read_one("--rootfs"@, rootfs, from1);
    let from0 = seq!["--rootfs"@, rootfs] + from1;
    assert(seq![
        "--rootfs"@,
        rootfs,
        "--exec"@,
        exec_path,
        "--workdir"@,
        workdir,
        "--vcpus"@,
        vcpus,
        "--ram"@,
        ram,
        "--control-sock"@,
        control_sock,
        "--shell-sock"@,
        shell_sock,
    ] + rest == from0);
}

proof fn lemma_read_tails(
    env: Seq<Seq<char>>,
    mounts: Seq<Seq<char>>,
    exec_args: Seq<Seq<char>>,
)
    ensures
        flags_read(
            seq!["--network"@] + (flagged("--env"@, env) + (flagged("--mount"@, mounts) + flagged(
                "--arg"@,
                exec_args,
            ))),
        ) == Some(
            seq![("--network"@, None)] + (each_flag("--env"@, env) + (each_flag(
                "--mount"@,
                mounts,
            ) + each_flag("--arg"@, exec_args))),
        ),
{
    lemma_flag_names();
    let none = Seq::<Seq<char>>::empty();
    lemma_read_flagged("--arg"@, exec_args, none);
    assert(flagged("--arg"@, exec_args) + none == flagged("--arg"@, exec_args));
    assert(each_flag("--arg"@, exec_args) + Seq::<Flag>::empty() == each_flag("--arg"@, exec_args));
    let args = flagged("--arg"@, exec_args);
    lemma_read_flagged("--mount"@, mounts, args);
    let more = flagged("--mount"@, mounts) + args;
    lemma_read_flagged("--env"@, env, more);
    lemma_read_network(flagged("--env"@, env) + more);
}

/// The boot process reads an OCI worker's arguments as what they were made of,
/// and gives its VM a network.
pub proof fn oci_args_read_back(
    rootfs: Seq<char>,
    exec_path: Seq<char>,
    workdir: Seq<char>,
    vcpus: nat,
    ram_mib: Seq<char>,
    pid_file: Seq<char>,
    console_output: Seq<char>,
    control_sock: Seq<char>,
    shell_sock: Seq<char>,
    env: Seq<(Seq<char>, Seq<char>)>,
    exec_args: Seq<Seq<char>>,
)
    ensures
        flags_read(
            oci_args(
                rootfs,
                exec_path,
                workdir,
                vcpus,
                ram_mib,
                pid_file,
                console_output,
                control_sock,
                shell_sock,
                env,
                exec_args,
            ),
        ) == Some(
            seq![
                ("--rootfs"@, Some(rootfs)),
                ("--exec"@, Some(exec_path)),
                ("--workdir"@, Some(workdir)),
                ("--vcpus"@, Some(decimal(vcpus))),
                ("--ram"@, Some(ram_mib)),
                ("--pid-file"@, Some(pid_file)),
                ("--console-output"@, Some(console_output)),
                ("--control-sock"@, Some(control_sock)),
                ("--shell-sock"@, Some(shell_sock)),
                ("--network"@, None),
            ] + each_flag("--env"@, glued(env, "="@)) + each_flag("--arg"@, exec_args),
        ),
{
    let mounted = Seq::<Seq<char>>::empty();
    let vars = glued(env, "="@);
    lemma_read_tails(vars, mounted, exec_args);
    let rest = seq!["--network"@] + (flagged("--env"@, vars) + (flagged("--mount"@, mounted)
        + flagged("--arg"@, exec_args)));
    let read = seq![("--network"@, None)] + (each_flag("--env"@, vars) + (each_flag(
        "--mount"@,
        mounted,
    ) + each_flag("--arg"@, exec_args)));
    lemma_read_oci_head(
        rootfs,
        exec_path,
        workdir,
        decimal(vcpus),
        ram_mib,
        pid_file,
        console_output,
        control_sock,
        shell_sock,
        rest,
        read,
    );
    assert(each_flag("--mount"@, mounted) == Seq::<Flag>::empty());
    assert(flagged("--mount"@, mounted) == Seq::<Seq<char>>::empty());
    assert(oci_args(
                rootfs,
                exec_path,
                workdir,
                vcpus,
                ram_mib,
                pid_file,
                console_output,
                control_sock,
                shell_sock,
                env,
                exec_args,
            ) == seq![
        "--rootfs"@,
        rootfs,
        "--exec"@,
        exec_path,
        "--workdir"@,
        workdir,
        "--vcpus"@,
        decimal(vcpus),
        "--ram"@,
        ram_mib,
        "--pid-file"@,
        pid_file,
        "--console-output"@,
        console_output,
        "--control-sock"@,
        control_sock,
        "--shell-sock"@,
        shell_sock,
    ] + rest);
    assert(seq![
        ("--rootfs"@, Some(rootfs)),
        ("--exec"@, Some(exec_path)),
        ("--workdir"@, Some(workdir)),
        ("--vcpus"@, Some(decimal(vcpus))),
        ("--ram"@, Some(ram_mib)),
        ("--pid-file"@, Some(pid_file)),
        ("--console-output"@, Some(console_output)),
        ("--control-sock"@, Some(control_sock)),
        ("--shell-sock"@, Some(shell_sock)),
    ] + read == seq![
        ("--rootfs"@, Some(rootfs)),
        ("--exec"@, Some(exec_path)),
        ("--workdir"@, Some(workdir)),
        ("--vcpus"@, Some(decimal(vcpus))),
        ("--ram"@, Some(ram_mib)),
        ("--pid-file"@, Some(pid_file)),
        ("--console-output"@, Some(console_output)),
        ("--control-sock"@, Some(control_sock)),
        ("--shell-sock"@, Some(shell_sock)),
        ("--network"@, None),
    ] + each_flag("--env"@, vars) + each_flag("--arg"@, exec_args));
}

/// The boot process reads a development worker's arguments as what they were
/// made of, and gives its VM a network.
pub proof fn dev_args_read_back(
    rootfs: Seq<char>,
    exec_path: Seq<char>,
    vcpus: nat,
    ram_mib: nat,
    control_sock: Seq<char>,
    shell_sock: Seq<char>,
    env: Seq<(Seq<char>, Seq<char>)>,
    mounts: Seq<(Seq<char>, Seq<char>)>,
    exec_args: Seq<Seq<char>>,
)
    ensures
        flags_read(
            dev_args(
                rootfs,
                exec_path,
                vcpus,
                ram_mib,
                control_sock,
                shell_sock,
                env,
                mounts,
                exec_args,
            ),
        ) == Some(
            seq![
                ("--rootfs"@, Some(rootfs)),
                ("--exec"@, Some(exec_path)),
                ("--workdir"@, Some("/workspace"@)),
                ("--vcpus"@, Some(decimal(vcpus))),
                ("--ram"@, Some(decimal(ram_mib))),
                ("--control-sock"@, Some(control_sock)),
                ("--shell-sock"@, Some(shell_sock)),
                ("--network"@, None),
            ] + each_flag("--env"@, glued(env, "="@)) + each_flag(
                "--mount"@,
                glued(mounts, ":"@),
            ) + each_flag("--arg"@, exec_args),
        ),
{
    let mounted = glued(mounts, ":"@);
    let vars = glued(env, "="@);
    lemma_read_tails(vars, mounted, exec_args);
    let rest = seq!["--network"@] + (flagged("--env"@, vars) + (flagged("--mount"@, mounted)
        + flagged("--arg"@, exec_args)));
    let read = seq![("--network"@, None)] + (each_flag("--env"@, vars) + (each_flag(
        "--mount"@,
        mounted,
    ) + each_flag("--arg"@, exec_args)));
    lemma_read_dev_head(
        rootfs,
        exec_path,
        "/workspace"@,
        decimal(vcpus),
        decimal(ram_mib),
        control_sock,
        shell_sock,
        rest,
        read,
    );
    assert(dev_args(
                rootfs,
                exec_path,
                vcpus,
                ram_mib,
                control_sock,
                shell_sock,
                env,
                mounts,
                exec_args,
            ) == seq![
        "--rootfs"@,
        rootfs,
        "--exec"@,
        exec_path,
        "--workdir"@,
        "/workspace"@,
        "--vcpus"@,
        decimal(vcpus),
        "--ram"@,
        decimal(ram_mib),
        "--control-sock"@,
        control_sock,
        "--shell-sock"@,
        shell_sock,
    ] + rest);
    assert(seq![
        ("--rootfs"@, Some(rootfs)),
        ("--exec"@, Some(exec_path)),
        ("--workdir"@, Some("/workspace"@)),
        ("--vcpus"@, Some(decimal(vcpus))),
        ("--ram"@, Some(decimal(ram_mib))),
        ("--control-sock"@, Some(control_sock)),
        ("--shell-sock"@, Some(shell_sock)),
    ] + read == seq![
        ("--rootfs"@, Some(rootfs)),
        ("--exec"@, Some(exec_path)),
        ("--workdir"@, Some("/workspace"@)),
        ("--vcpus"@, Some(decimal(vcpus))),
        ("--ram"@, Some(decimal(ram_mib))),
        ("--control-sock"@, Some(control_sock)),
        ("--shell-sock"@, Some(shell_sock)),
        ("--network"@, None),
    ] + each_flag("--env"@, vars) + each_flag("--mount"@, mounted) + each_flag("--arg"@, exec_args));
}

} // verus!
