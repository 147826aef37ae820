//! The decisions of booting a VM.

use clap::{Arg, ArgAction, Command};
use iii_worker::cli::boot_plan::{
    boot_banner, build_failed, check_boot, check_kvm_at_path, console_ports, exit_message,
    exit_removals, guest_env, guest_nofile_limit, needs_exit_hook, plan_machine, raised_fd_limit,
    shm_bytes_per_mount, vm_watch_message, vm_watches, worker_threads, BoundSocket, BuildFault,
    GuestNetwork, KvmProbe, SocketFingerprint, VmWatch, FD_LIMIT_TARGET,
};
use iii_worker::cli::vm_boot::{
    build_virtiofs_mount_plan, build_worker_cmd, check_rootfs, env_has_path, krunfw_candidate,
    maybe_rewrite_localhost, resolve_krunfw_file_path, rewrite_localhost, shell_quote, VmBootArgs,
    DEFAULT_GUEST_PATH,
};
use iii_worker::daemon_exit::EarlyCapture;
use iii_worker::cli::worker_manager::boot_args::{
    apply_vm_tuning_env, vm_boot_args_dev, vm_boot_args_oci, VmTuning,
};

fn text(m: &clap::ArgMatches, id: &str) -> String {
    m.get_one::<String>(id).cloned().unwrap()
}

fn opt(m: &clap::ArgMatches, id: &str) -> Option<String> {
    m.get_one::<String>(id).cloned()
}

fn many(m: &clap::ArgMatches, id: &str) -> Vec<String> {
    m.get_many::<String>(id).map(|v| v.cloned().collect()).unwrap_or_default()
}

/// The command line of the boot process, as its parser reads it.
fn parse_vm_boot_args(boot_args: Vec<String>) -> VmBootArgs {
    let mut argv = vec!["test".to_string()];
    argv.extend(boot_args);
    let m = Command::new("test")
        .arg(Arg::new("rootfs").long("rootfs").required(true))
        .arg(Arg::new("exec").long("exec").required(true))
        .arg(Arg::new("arg").long("arg").action(ArgAction::Append).allow_hyphen_values(true))
        .arg(Arg::new("workdir").long("workdir").default_value("/"))
        .arg(Arg::new("vcpus").long("vcpus").default_value("2"))
        .arg(Arg::new("ram").long("ram").default_value("2048"))
        .arg(Arg::new("mount").long("mount").action(ArgAction::Append))
        .arg(Arg::new("env").long("env").action(ArgAction::Append))
        .arg(Arg::new("pid_file").long("pid-file"))
        .arg(Arg::new("console_output").long("console-output"))
        .arg(Arg::new("slot").long("slot").default_value("0"))
        .arg(Arg::new("control_sock").long("control-sock"))
        .arg(Arg::new("hyperthreading").long("hyperthreading").action(ArgAction::SetTrue))
        .arg(Arg::new("nested_virt").long("nested-virt").action(ArgAction::SetTrue))
        .arg(Arg::new("shm").long("virtiofs-shm-size-mib").default_value("0"))
        .arg(Arg::new("nofile").long("nofile-limit").default_value("65536"))
        .arg(Arg::new("shell_sock").long("shell-sock"))
        .arg(Arg::new("network").long("network").action(ArgAction::SetTrue))
        .get_matches_from(argv);
    VmBootArgs {
        rootfs: text(&m, "rootfs"),
        exec_path: text(&m, "exec"),
        arg: many(&m, "arg"),
        workdir: text(&m, "workdir"),
        vcpus: text(&m, "vcpus").parse().unwrap(),
        ram: text(&m, "ram").parse().unwrap(),
        mount: many(&m, "mount"),
        env: many(&m, "env"),
        pid_file: opt(&m, "pid_file"),
        console_output: opt(&m, "console_output"),
        slot: text(&m, "slot").parse().unwrap(),
        control_sock: opt(&m, "control_sock"),
        hyperthreading: m.get_flag("hyperthreading"),
        nested_virt: m.get_flag("nested_virt"),
        virtiofs_shm_size_mib: text(&m, "shm").parse().unwrap(),
        nofile_limit: text(&m, "nofile").parse().unwrap(),
        shell_sock: opt(&m, "shell_sock"),
        network: m.get_flag("network"),
    }
}

fn strings(items: &[&str]) -> Vec<String> {
    items.iter().map(|s| s.to_string()).collect()
}

fn plain_args() -> VmBootArgs {
    parse_vm_boot_args(strings(&["--rootfs", "/r", "--exec", "/bin/sh"]))
}

#[test]
fn test_vm_boot_args_parse() {
    let args = parse_vm_boot_args(strings(&[
        "--rootfs",
        "/tmp/rootfs",
        "--exec",
        "/usr/bin/python3",
        "--workdir",
        "/workspace",
        "--vcpus",
        "4",
        "--ram",
        "1024",
        "--env",
        "FOO=bar",
        "--arg",
        "script.py",
    ]));
    assert_eq!(args.rootfs, "/tmp/rootfs");
    assert_eq!(args.exec_path, "/usr/bin/python3");
    assert_eq!(args.workdir, "/workspace");
    assert_eq!(args.vcpus, 4);
    assert_eq!(args.ram, 1024);
    assert_eq!(args.env, vec!["FOO=bar"]);
    assert_eq!(args.arg, vec!["script.py"]);
}

#[test]
fn test_shell_quote_safe_chars() {
    assert_eq!(shell_quote("simple"), "simple");
    assert_eq!(shell_quote("/usr/bin/node"), "/usr/bin/node");
}

#[test]
fn test_shell_quote_unsafe_chars() {
    assert_eq!(shell_quote("has space"), "'has space'");
}

#[test]
fn test_build_worker_cmd_no_args() {
    assert_eq!(build_worker_cmd("/usr/bin/node", &[]), "/usr/bin/node");
}

#[test]
fn test_build_worker_cmd_with_args() {
    let args = vec!["script.js".to_string(), "--port".to_string(), "3000".to_string()];
    assert_eq!(
        build_worker_cmd("/usr/bin/node", &args),
        "/usr/bin/node script.js --port 3000"
    );
}

#[test]
fn build_virtiofs_mount_plan_empty() {
    let plan = build_virtiofs_mount_plan(&[]).unwrap();
    assert!(plan.entries.is_empty());
    assert!(plan.env_var.is_empty());
}

#[test]
fn build_virtiofs_mount_plan_single() {
    let plan = build_virtiofs_mount_plan(&["/host/proj:/workspace".to_string()]).unwrap();
    assert_eq!(plan.entries.len(), 1);
    assert_eq!(plan.entries[0].tag, "virtiofs_0");
    assert_eq!(plan.entries[0].host_path, "/host/proj");
    assert_eq!(plan.entries[0].guest_path, "/workspace");
    assert_eq!(plan.env_var, "virtiofs_0=/workspace");
}

#[test]
fn build_virtiofs_mount_plan_multiple_preserves_order_and_indexes_tags() {
    let plan =
        build_virtiofs_mount_plan(&["/host/a:/b".to_string(), "/host/c:/d".to_string()]).unwrap();
    assert_eq!(plan.entries.len(), 2);
    assert_eq!(plan.entries[0].tag, "virtiofs_0");
    assert_eq!(plan.entries[0].host_path, "/host/a");
    assert_eq!(plan.entries[0].guest_path, "/b");
    assert_eq!(plan.entries[1].tag, "virtiofs_1");
    assert_eq!(plan.entries[1].host_path, "/host/c");
    assert_eq!(plan.entries[1].guest_path, "/d");
    assert_eq!(plan.env_var, "virtiofs_0=/b;virtiofs_1=/d");
}

#[test]
fn build_virtiofs_mount_plan_rejects_missing_colon() {
    let err = build_virtiofs_mount_plan(&["/host/noguest".to_string()]).unwrap_err();
    assert!(err.contains("Invalid mount format"));
}

#[test]
fn build_virtiofs_mount_plan_rejects_empty_host() {
    let err = build_virtiofs_mount_plan(&[":/guest".to_string()]).unwrap_err();
    assert!(err.contains("Invalid mount format"));
}

#[test]
fn build_virtiofs_mount_plan_rejects_empty_guest() {
    let err = build_virtiofs_mount_plan(&["/host:".to_string()]).unwrap_err();
    assert!(err.contains("Invalid mount format"));
}

#[test]
fn mount_plan_names_the_first_malformed_mount() {
    let mounts = strings(&["/a:/b", "bad", "worse"]);
    let err = build_virtiofs_mount_plan(&mounts).unwrap_err();
    assert!(err.contains("bad"));
    assert!(!err.contains("worse"));
}

#[test]
fn mount_splits_at_the_first_colon() {
    let plan = build_virtiofs_mount_plan(&["/a:/b:ro".to_string()]).unwrap();
    assert_eq!(plan.entries[0].host_path, "/a");
    assert_eq!(plan.entries[0].guest_path, "/b:ro");
}

#[test]
fn mount_tags_differ_past_the_tenth() {
    let mounts: Vec<String> = (0..12).map(|i| format!("/h{i}:/g{i}")).collect();
    let plan = build_virtiofs_mount_plan(&mounts).unwrap();
    assert_eq!(plan.entries[11].tag, "virtiofs_11");
    for i in 0..12 {
        for j in 0..i {
            assert_ne!(plan.entries[i].tag, plan.entries[j].tag);
        }
    }
}

#[test]
fn test_check_kvm_nonexistent_path() {
    let result = check_kvm_at_path(&KvmProbe::Missing);
    assert!(result.is_err());
    assert!(result.unwrap_err().contains("does not exist"));
}

#[test]
fn kvm_probe_outcomes() {
    assert_eq!(check_kvm_at_path(&KvmProbe::Opened), Ok(()));
    assert!(check_kvm_at_path(&KvmProbe::PermissionDenied).is_err());
    let failed = check_kvm_at_path(&KvmProbe::Failed("boom".to_string())).unwrap_err();
    assert!(failed.contains("boom"));
}

#[test]
fn test_shell_quote_with_embedded_single_quotes() {
    let result = shell_quote("it's a test");
    assert_eq!(result, "'it'\\''s a test'");
}

#[test]
fn quoted_words_read_back_through_a_shell_splitter() {
    let words = strings(&["/usr/bin/node", "it's", "a b", "$HOME", "x\"y", "\\n", "caf\u{e9}"]);
    let line = build_worker_cmd(&words[0], &words[1..]);
    assert_eq!(shlex::split(&line), Some(words));
}

#[test]
fn an_empty_word_is_not_quoted() {
    assert_eq!(shell_quote(""), "");
    assert_eq!(build_worker_cmd("a", &strings(&["", "b"])), "a  b");
}

#[test]
fn only_letters_digits_and_path_signs_go_unquoted() {
    for code in 0u32..0x3000 {
        if let Some(c) = char::from_u32(code) {
            let s = c.to_string();
            let safe = c.is_alphanumeric() || "-_./:=".contains(c);
            assert_eq!(shell_quote(&s) == s, safe, "{code:x}");
        }
    }
}

#[test]
fn env_has_path_detects_present() {
    let env = vec!["FOO=bar".to_string(), "PATH=/usr/bin".to_string(), "QUX=quux".to_string()];
    assert!(env_has_path(&env));
}

#[test]
fn env_has_path_returns_false_when_missing() {
    let env = vec!["FOO=bar".to_string(), "QUX=quux".to_string()];
    assert!(!env_has_path(&env));
}

#[test]
fn env_has_path_empty_is_false() {
    let env: Vec<String> = vec![];
    assert!(!env_has_path(&env));
}

#[test]
fn env_has_path_is_case_sensitive() {
    let env = vec!["Path=/usr/bin".to_string(), "path=/bin".to_string()];
    assert!(!env_has_path(&env));
}

#[test]
fn env_has_path_ignores_path_prefix_keys() {
    let env = vec!["PATHFOO=/x".to_string(), "MY_PATH=/y".to_string()];
    assert!(!env_has_path(&env));
}

#[test]
fn env_has_path_handles_empty_value() {
    let env = vec!["PATH=".to_string()];
    assert!(env_has_path(&env));
}

#[test]
fn default_guest_path_matches_debian_default() {
    assert_eq!(
        DEFAULT_GUEST_PATH,
        "/usr/local/sbin:/usr/local/bin:/usr/sbin:/usr/bin:/sbin:/bin"
    );
}

#[test]
fn vm_boot_args_oci_enables_network_and_roundtrips() {
    let env = vec![("III_URL".to_string(), "ws://localhost:3111".to_string())];
    let exec_args = vec!["--url".to_string(), "ws://localhost:3111".to_string()];

    let parsed = parse_vm_boot_args(vm_boot_args_oci(
        "/tmp/rootfs",
        "/bin/sh",
        "/",
        4,
        "2048",
        "/tmp/vm.pid",
        "/tmp/console.log",
        "/tmp/control.sock",
        "/tmp/shell.sock",
        &env,
        &exec_args,
   ));

    assert!(parsed.network);
    assert_eq!(parsed.rootfs, "/tmp/rootfs");
    assert_eq!(parsed.exec_path, "/bin/sh");
    assert_eq!(parsed.workdir, "/");
    assert_eq!(parsed.vcpus, 4);
    assert_eq!(parsed.ram, 2048);
    assert_eq!(parsed.pid_file.as_deref(), Some("/tmp/vm.pid"));
    assert_eq!(parsed.console_output.as_deref(), Some("/tmp/console.log"));
    assert_eq!(parsed.control_sock.as_deref(), Some("/tmp/control.sock"));
    assert_eq!(parsed.shell_sock.as_deref(), Some("/tmp/shell.sock"));
    assert_eq!(parsed.env, vec!["III_URL=ws://localhost:3111".to_string()]);
    assert_eq!(parsed.arg, exec_args);
}

#[test]
fn vm_boot_args_dev_enables_network_and_roundtrips() {
    let env = vec![("III_URL".to_string(), "ws://localhost:3111".to_string())];
    let mounts = vec![("/host/src".to_string(), "/guest/src".to_string())];
    let exec_args = vec!["-c".to_string(), "exec bash /run.sh".to_string()];

    let parsed = parse_vm_boot_args(vm_boot_args_dev(
        "/tmp/rootfs",
        "/bin/sh",
        2,
        2048,
        "/tmp/control.sock",
        "/tmp/shell.sock",
        &env,
        &mounts,
        &exec_args,
   ));

    assert!(parsed.network);
    assert_eq!(parsed.rootfs, "/tmp/rootfs");
    assert_eq!(parsed.exec_path, "/bin/sh");
    assert_eq!(parsed.workdir, "/workspace");
    assert_eq!(parsed.vcpus, 2);
    assert_eq!(parsed.ram, 2048);
    assert_eq!(parsed.control_sock.as_deref(), Some("/tmp/control.sock"));
    assert_eq!(parsed.shell_sock.as_deref(), Some("/tmp/shell.sock"));
    assert_eq!(parsed.env, vec!["III_URL=ws://localhost:3111".to_string()]);
    assert_eq!(parsed.mount, vec!["/host/src:/guest/src".to_string()]);
    assert_eq!(parsed.arg, exec_args);
}

fn tuning(v: [Option<&str>; 4]) -> VmTuning {
    VmTuning {
        hyperthreading: v[0].map(String::from),
        nested_virt: v[1].map(String::from),
        virtiofs_shm_size_mib: v[2].map(String::from),
        nofile_limit: v[3].map(String::from),
    }
}

#[test]
fn tuning_variables_become_flags() {
    let none = apply_vm_tuning_env(&tuning([None, None, None, None]));
    assert!(none.is_empty());
    let all = apply_vm_tuning_env(&tuning([Some("1"), Some("true"), Some("256"), Some("4096")]));
    let mut argv = strings(&["--rootfs", "/r", "--exec", "/bin/sh"]);
    argv.extend(all);
    let parsed = parse_vm_boot_args(argv);
    assert!(parsed.hyperthreading);
    assert!(parsed.nested_virt);
    assert_eq!(parsed.virtiofs_shm_size_mib, 256);
    assert_eq!(parsed.nofile_limit, 4096);
    let off = apply_vm_tuning_env(&tuning([Some("0"), Some("no"), Some("x"), Some("-1")]));
    assert!(off.is_empty());
}

#[test]
fn localhost_is_rewritten_to_the_gateway() {
    assert_eq!(
        rewrite_localhost("ws://localhost:3111", "10.0.0.1"),
        "ws://10.0.0.1:3111"
    );
    assert_eq!(
        rewrite_localhost("http://127.0.0.1:80/x", "10.0.0.1"),
        "http://10.0.0.1:80/x"
    );
    assert_eq!(maybe_rewrite_localhost("ws://localhost:1", None), "ws://localhost:1");
    assert_eq!(rewrite_localhost("plain text", "10.0.0.1"), "plain text");
}

#[test]
fn krunfw_file_is_used_only_where_it_exists() {
    let dir = Some("/opt/fw".to_string());
    let want = "/opt/fw/libkrunfw.so.5".to_string();
    assert_eq!(krunfw_candidate(&dir, "libkrunfw.so.5"), Some(want.clone()));
    assert_eq!(resolve_krunfw_file_path(&dir, "libkrunfw.so.5", true), Some(want));
    assert_eq!(resolve_krunfw_file_path(&dir, "libkrunfw.so.5", false), None);
    assert_eq!(resolve_krunfw_file_path(&None, "libkrunfw.so.5", true), None);
}

#[test]
fn missing_rootfs_is_reported() {
    assert_eq!(check_rootfs("/r", true), Ok(()));
    assert!(check_rootfs("/r", false).unwrap_err().contains("/r"));
}

#[test]
fn boot_needs_an_init_binary_and_few_enough_vcpus() {
    let mut args = plain_args();
    assert_eq!(check_boot(&args, false, true), Ok(2));
    assert_eq!(check_boot(&args, true, false), Ok(2));
    assert!(check_boot(&args, false, false).unwrap_err().starts_with("No init binary available"));
    args.vcpus = 255;
    assert_eq!(check_boot(&args, true, true), Ok(255));
    args.vcpus = 256;
    assert_eq!(
        check_boot(&args, true, true).unwrap_err(),
        "vcpus 256 exceeds maximum 255 for VmBuilder"
    );
}

#[test]
fn fd_limit_is_raised_as_far_as_allowed() {
    assert_eq!(raised_fd_limit(1024, 4096), Some(4096));
    assert_eq!(raised_fd_limit(1024, u64::MAX), Some(FD_LIMIT_TARGET));
    assert_eq!(raised_fd_limit(4096, 4096), None);
    assert_eq!(raised_fd_limit(2_000_000, u64::MAX), None);
}

#[test]
fn per_mount_window_and_limits() {
    let mut args = plain_args();
    assert_eq!(shm_bytes_per_mount(&args), None);
    args.virtiofs_shm_size_mib = 256;
    assert_eq!(shm_bytes_per_mount(&args), Some(268_435_456));
    args.virtiofs_shm_size_mib = u32::MAX;
    assert_eq!(shm_bytes_per_mount(&args), Some(4_503_599_626_321_920));
    assert_eq!(guest_nofile_limit(&args), Some(65536));
    args.nofile_limit = 0;
    assert_eq!(guest_nofile_limit(&args), None);
    assert_eq!(worker_threads(&args), 1);
    args.shell_sock = Some("/s".to_string());
    assert_eq!(worker_threads(&args), 2);
}

fn value<'a>(env: &'a [(String, String)], key: &str) -> Option<&'a str> {
    env.iter().find(|(k, _)| k == key).map(|(_, v)| v.as_str())
}

#[test]
fn guest_environment_with_a_network() {
    let mut args = plain_args();
    args.arg = strings(&["--url", "ws://localhost:3111"]);
    args.env = strings(&["III_URL=ws://127.0.0.1:3111", "novalue"]);
    args.control_sock = Some("/c".to_string());
    args.network = true;
    args.ram = 1000;
    let net = GuestNetwork {
        dns: "10.0.0.1".to_string(),
        guest_ip: "10.0.0.2".to_string(),
        gateway_ip: "10.0.0.1".to_string(),
    };
    let env = guest_env(&args, &Some(net), true, "virtiofs_0=/w");
    assert_eq!(value(&env, "III_WORKER_CMD"), Some("/bin/sh --url ws://10.0.0.1:3111"));
    assert_eq!(value(&env, "III_INIT_DNS"), Some("10.0.0.1"));
    assert_eq!(value(&env, "III_INIT_IP"), Some("10.0.0.2"));
    assert_eq!(value(&env, "III_INIT_GW"), Some("10.0.0.1"));
    assert_eq!(value(&env, "III_INIT_CIDR"), Some("30"));
    assert_eq!(value(&env, "III_WORKER_MEM_BYTES"), Some("786432000"));
    assert_eq!(value(&env, "III_CONTROL_PORT"), Some("iii.control"));
    assert_eq!(value(&env, "III_WORKER_WORKDIR"), Some("/"));
    assert_eq!(value(&env, "III_SHELL_PORT"), Some("iii.exec"));
    assert_eq!(value(&env, "III_VIRTIOFS_MOUNTS"), Some("virtiofs_0=/w"));
    assert_eq!(value(&env, "III_URL"), Some("ws://10.0.0.1:3111"));
    assert_eq!(value(&env, "novalue"), None);
    assert_eq!(env.last().unwrap(), &("PATH".to_string(), DEFAULT_GUEST_PATH.to_string()));
}

#[test]
fn guest_environment_without_a_network() {
    let mut args = plain_args();
    args.ram = 64;
    args.env = strings(&["PATH="]);
    let env = guest_env(&args, &None, false, "");
    let keys: Vec<&str> = env.iter().map(|(k, _)| k.as_str()).collect();
    assert_eq!(keys, vec!["III_WORKER_CMD", "III_WORKER_MEM_BYTES", "PATH"]);
    assert_eq!(value(&env, "PATH"), Some(""));
    assert_eq!(value(&env, "III_WORKER_MEM_BYTES"), Some("134217728"));
}

fn sock(path: &str, ino: u64, now: Option<(u64, u64)>) -> Option<BoundSocket> {
    Some(BoundSocket {
        fingerprint: SocketFingerprint { path: path.to_string(), dev: 1, ino },
        now,
    })
}

#[test]
fn only_own_sockets_are_removed_at_exit() {
    let removed = exit_removals(
        &Some("/vm.pid".to_string()),
        &sock("/control", 7, Some((1, 7))),
        &sock("/shell", 8, Some((1, 9))),
    );
    assert_eq!(removed, strings(&["/vm.pid", "/control"]));
    assert!(exit_removals(&None, &sock("/control", 7, None), &None).is_empty());
    assert!(!needs_exit_hook(false, false, false));
    assert!(needs_exit_hook(false, false, true));
}

#[test]
fn boot_messages() {
    let mut args = plain_args();
    assert_eq!(boot_banner(&args), "  Booting VM (2 vCPUs, 2048 MiB RAM)...");
    args.vcpus = 1;
    assert_eq!(boot_banner(&args), "  Booting VM (1 vCPU, 2048 MiB RAM)...");
    assert_eq!(exit_message(0), None);
    assert_eq!(exit_message(-1), Some("  VM exited with code -1".to_string()));
    assert_eq!(console_ports(true, true), strings(&["iii.control", "iii.exec"]));
    assert_eq!(console_ports(false, true), strings(&["iii.exec"]));
    assert!(console_ports(false, false).is_empty());
}

#[test]
fn machine_plan_reports_the_first_obstacle() {
    let mut args = plain_args();
    args.hyperthreading = true;
    let plan = plan_machine(&args, &KvmProbe::Opened, true, false).unwrap();
    assert_eq!((plan.vcpus, plan.memory_mib), (2, 2048));
    assert!(plan.hyperthreading && !plan.nested_virt);
    args.vcpus = 300;
    let err = |kvm: KvmProbe, init: bool| plan_machine(&args, &kvm, init, false).unwrap_err();
    assert!(err(KvmProbe::Missing, false).contains("does not exist"));
    assert!(err(KvmProbe::Opened, false).starts_with("No init binary available"));
    assert!(err(KvmProbe::Opened, true).starts_with("vcpus 300"));
}

#[test]
fn build_faults_are_told_apart() {
    let say = |f: fn(String) -> BuildFault| build_failed(&f("e".to_string()), "/r");
    assert_eq!(say(BuildFault::RootFs), "PassthroughFs failed for '/r': e");
    assert_eq!(say(BuildFault::Runtime), "tokio runtime failed: e");
    assert_eq!(say(BuildFault::SocketPair), "control socketpair: e");
    assert_eq!(say(BuildFault::Build), "VM build failed: e");
    assert_eq!(say(BuildFault::Enter), "VM enter failed: e");
}

#[test]
fn vm_watches_whatever_it_was_told_of() {
    assert!(vm_watches(&mut None, None).is_empty());
    let mut early = Some(EarlyCapture { lifeline: Some(7), spawner_pid: Some(20) });
    let watches = vm_watches(&mut early, Some("30"));
    assert_eq!(watches, vec![VmWatch::Lifeline(7), VmWatch::Spawner(20), VmWatch::Engine(30)]);
    assert_eq!(vm_watches(&mut early, Some("x")), vec![VmWatch::Spawner(20)]);
    let said: Vec<String> = watches.into_iter().map(vm_watch_message).collect();
    assert_eq!(
        said,
        strings(&[
            "vm-boot: spawner lifeline closed; shutting down VM",
            "vm-boot: spawner pid 20 exited; shutting down VM",
            "vm-boot: engine pid 30 exited; shutting down VM",
        ])
    );
}
