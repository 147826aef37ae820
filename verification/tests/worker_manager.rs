//! Workers: what they are started with, and how they are followed and stopped.

use iii_worker::cli::worker_manager::boot_args::VmTuning;
use iii_worker::cli::worker_manager::libkrun::{
    arch_matches, build_vm_env, engine_url, image_rootfs_in, inject_engine_url, k8s_mem_to_mib,
    libkrun_available, mem_fits, merge_env, needs_tightening, unpinned_image, worker_rootfs_use,
    CacheKeys, LibkrunAdapter, RootfsUse,
};
use iii_worker::cli::worker_manager::lifecycle::{
    begin_pull, begin_stop, container_pid, container_status, extracted_path, finish_pull,
    fs_dir_size, hosts_path, removed_worker, stop_step, CachedRootfs, DirItem, PullStart,
    StopAction, StopState, DEFAULT_HOSTS,
};
use iii_worker::cli::worker_manager::start::{
    after_dev_spawn, detached_env_remove, dev_exit_code, plan_dev, plan_start, try_plan_start,
    ContainerSpec, DevNext, DevSpec, DevWait, ImageConfig,
};
use iii_worker::paths::HostPath;
use iii_worker::str_map::StrMap;

/// Keys without separators.
struct Slugs;

impl CacheKeys for Slugs {
    fn cache_key(&self, image: String) -> String {
        image.replace(['/', ':'], "-")
    }
}

fn strings(items: &[&str]) -> Vec<String> {
    items.iter().map(|s| s.to_string()).collect()
}

fn map(pairs: &[(&str, &str)]) -> StrMap {
    let mut m = StrMap::new();
    for (k, v) in pairs {
        m.insert(k.to_string(), v.to_string());
    }
    m
}

fn no_tuning() -> VmTuning {
    VmTuning {
        hyperthreading: None,
        nested_virt: None,
        virtiofs_shm_size_mib: None,
        nofile_limit: None,
    }
}

#[test]
fn test_logs_dir_path() {
    let dir = LibkrunAdapter::logs_dir("test-worker");
    assert!(dir.to_string_lossy().contains(".iii/managed/test-worker/logs"));
}

#[test]
fn worker_files_lie_in_the_worker_directory() {
    let dir = LibkrunAdapter::worker_dir("w");
    assert!(dir.to_string_lossy().ends_with("/.iii/managed/w"));
    assert_eq!(LibkrunAdapter::pid_file("w"), dir.join("vm.pid"));
    assert_eq!(LibkrunAdapter::stdout_log("w"), dir.join("logs/stdout.log"));
    assert_eq!(LibkrunAdapter::stderr_log("w"), dir.join("logs").join("stderr.log"));
    let image = LibkrunAdapter::image_rootfs("a/b:1", &Slugs);
    assert!(image.to_string_lossy().ends_with("/.iii/cache/a-b-1"));
    let home = dirs::home_dir().unwrap_or("/tmp".into());
    let expected = home.join(".iii").join("managed").join("w").into_os_string();
    assert_eq!(dir.as_bytes(), expected.into_encoded_bytes());
    assert_eq!(LibkrunAdapter::new(), LibkrunAdapter::default());
}

#[test]
fn test_libkrun_available_returns_bool() {
    let result = libkrun_available(&None);
    let _ = result;
    assert!(!libkrun_available(&None));
    assert!(libkrun_available(&Some("/opt/fw".to_string())));
}

#[test]
fn build_vm_env_injects_isolation_marker_into_empty_input() {
    let merged = build_vm_env(StrMap::new());
    assert_eq!(merged.get("III_ISOLATION"), Some(&"libkrun".to_string()));
    assert_eq!(merged.len(), 1);
}

#[test]
fn build_vm_env_preserves_caller_vars_and_adds_isolation() {
    let mut caller = StrMap::new();
    caller.insert("NODE_ENV".to_string(), "production".to_string());
    caller.insert("III_URL".to_string(), "ws://127.0.0.1:3111".to_string());
    let merged = build_vm_env(caller);
    assert_eq!(merged.get("III_ISOLATION"), Some(&"libkrun".to_string()));
    assert_eq!(merged.get("NODE_ENV"), Some(&"production".to_string()));
    assert_eq!(merged.get("III_URL"), Some(&"ws://127.0.0.1:3111".to_string()));
    assert_eq!(merged.len(), 3);
}

#[test]
fn build_vm_env_launcher_overrides_caller_isolation() {
    let mut caller = StrMap::new();
    caller.insert("III_ISOLATION".to_string(), "docker".to_string());
    let merged = build_vm_env(caller);
    assert_eq!(merged.get("III_ISOLATION"), Some(&"libkrun".to_string()));
}

#[test]
fn test_k8s_mem_to_mib_mi() {
    assert_eq!(k8s_mem_to_mib("512Mi"), Some("512".to_string()));
}

#[test]
fn test_k8s_mem_to_mib_gi() {
    assert_eq!(k8s_mem_to_mib("2Gi"), Some("2048".to_string()));
}

#[test]
fn test_k8s_mem_to_mib_ki() {
    assert_eq!(k8s_mem_to_mib("1048576Ki"), Some("1024".to_string()));
}

#[test]
fn test_k8s_mem_to_mib_bytes() {
    assert_eq!(k8s_mem_to_mib("2147483648"), Some("2048".to_string()));
}

#[test]
fn test_k8s_mem_to_mib_invalid() {
    assert_eq!(k8s_mem_to_mib("not-a-number"), None);
}

#[test]
fn memory_quantities_at_the_edges() {
    assert_eq!(k8s_mem_to_mib("anyMi"), Some("any".to_string()));
    assert_eq!(k8s_mem_to_mib("1023Ki"), Some("0".to_string()));
    assert_eq!(k8s_mem_to_mib("xGi"), None);
    assert_eq!(k8s_mem_to_mib(""), None);
    assert_eq!(k8s_mem_to_mib("+1048576"), Some("1".to_string()));
    assert!(mem_fits("18014398509481983Gi"));
    assert!(!mem_fits("18014398509481984Gi"));
    assert!(mem_fits("99999999999999999999Gi"));
}

#[test]
fn specification_wins_over_image_and_marker_over_both() {
    let image = vec![
        ("A".to_string(), "image".to_string()),
        ("B".to_string(), "image".to_string()),
        ("III_ISOLATION".to_string(), "docker".to_string()),
    ];
    let env = merge_env(&image, &map(&[("B", "spec"), ("C", "spec")]));
    let listed: Vec<(&str, &str)> =
        env.entries().iter().map(|(k, v)| (k.as_str(), v.as_str())).collect();
    assert_eq!(
        listed,
        vec![("A", "image"), ("B", "spec"), ("C", "spec"), ("III_ISOLATION", "libkrun")]
    );
}

#[test]
fn engine_url_replaces_or_joins_the_arguments() {
    let replaced = inject_engine_url(strings(&["run", "--url", "old", "--x"]), "new");
    assert_eq!(replaced, strings(&["run", "--url", "new", "--x"]));
    let appended = inject_engine_url(strings(&["run"]), "new");
    assert_eq!(appended, strings(&["run", "--url", "new"]));
    let dangling = inject_engine_url(strings(&["--url"]), "new");
    assert_eq!(dangling, strings(&["--url", "--url", "new"]));
    assert_eq!(engine_url(&map(&[])), None);
    assert_eq!(engine_url(&map(&[("III_URL", "a")])), Some("a".to_string()));
    let both = map(&[("III_URL", "a"), ("III_ENGINE_URL", "b")]);
    assert_eq!(engine_url(&both), Some("b".to_string()));
}

#[test]
fn rootfs_of_another_machine_is_replaced() {
    assert!(arch_matches(Some("amd64"), "amd64"));
    assert!(!arch_matches(Some("arm64"), "amd64"));
    assert!(!arch_matches(None, "amd64"));
    assert_eq!(worker_rootfs_use(false, None, "amd64"), RootfsUse::Clone);
    assert_eq!(worker_rootfs_use(true, Some("amd64"), "amd64"), RootfsUse::Keep);
    assert_eq!(worker_rootfs_use(true, None, "amd64"), RootfsUse::WipeAndClone);
    assert!(needs_tightening(0o40755));
    assert!(!needs_tightening(0o40700));
}

fn spec(limit: Option<&str>) -> ContainerSpec {
    ContainerSpec {
        name: "w".to_string(),
        image: "img".to_string(),
        env: map(&[("III_URL", "ws://h:1"), ("A", "1")]),
        memory_limit: limit.map(String::from),
    }
}

fn image() -> ImageConfig {
    ImageConfig {
        entrypoint: Some(("/app".to_string(), strings(&["serve"]))),
        workdir: Some("/srv".to_string()),
        env: vec![("B".to_string(), "2".to_string())],
    }
}

#[test]
fn start_plan_of_a_worker() {
    let home = Some("/home/u".to_string());
    let plan = plan_start(&spec(Some("1Gi")), &image(), Some(3), &home, &no_tuning());
    let dir = "/home/u/.iii/managed/w";
    assert_eq!(plan.worker_rootfs, format!("{dir}/rootfs"));
    assert_eq!(plan.pid_file, format!("{dir}/vm.pid"));
    assert_eq!(plan.logs_dir, format!("{dir}/logs"));
    assert_eq!(plan.stdout_log, format!("{dir}/logs/stdout.log"));
    assert_eq!(plan.stderr_log, format!("{dir}/logs/stderr.log"));
    let rootfs = format!("{dir}/rootfs");
    let pid = format!("{dir}/vm.pid");
    let out = format!("{dir}/logs/stdout.log");
    let control = format!("{dir}/control.sock");
    let shell = format!("{dir}/shell.sock");
    assert_eq!(
        plan.argv,
        strings(&[
            "__vm-boot",
            "--rootfs",
            &rootfs,
            "--exec",
            "/app",
            "--workdir",
            "/srv",
            "--vcpus",
            "3",
            "--ram",
            "1024",
            "--pid-file",
            &pid,
            "--console-output",
            &out,
            "--control-sock",
            &control,
            "--shell-sock",
            &shell,
            "--network",
            "--env",
            "A=1",
            "--env",
            "B=2",
            "--env",
            "III_ISOLATION=libkrun",
            "--env",
            "III_URL=ws://h:1",
            "--arg",
            "serve",
            "--arg",
            "--url",
            "--arg",
            "ws://h:1",
        ])
    );
}

#[test]
fn start_plan_defaults() {
    let bare = ImageConfig { entrypoint: None, workdir: None, env: vec![] };
    let plan = plan_start(&spec(None), &bare, None, &None, &no_tuning());
    let at = |flag: &str| {
        let i = plan.argv.iter().position(|a| a == flag).unwrap();
        plan.argv[i + 1].clone()
    };
    assert_eq!(at("--exec"), "/bin/sh");
    assert_eq!(at("--workdir"), "/");
    assert_eq!(at("--vcpus"), "2");
    assert_eq!(at("--ram"), "2048");
    assert_eq!(plan.pid_file, "/tmp/.iii/managed/w/vm.pid");
}

#[test]
fn start_plan_is_refused_for_an_overlong_limit() {
    let huge = spec(Some("18014398509481984Gi"));
    assert!(try_plan_start(&huge, &image(), None, &None, &no_tuning()).is_none());
    let odd = spec(Some("rubbish"));
    let plan = try_plan_start(&odd, &image(), None, &None, &no_tuning()).unwrap();
    assert!(plan.argv.contains(&"2048".to_string()));
}

fn dev(background: bool) -> DevSpec {
    DevSpec {
        exec_path: "/bin/sh".to_string(),
        args: strings(&["-c", "x"]),
        env: map(&[("A", "1")]),
        vcpus: 2,
        ram_mib: 2048,
        rootfs: "/r".to_string(),
        background,
        worker_name: "w".to_string(),
        mounts: vec![("/h".to_string(), "/g".to_string())],
    }
}

#[test]
fn dev_plan_of_a_worker() {
    let home = Some("/home/u".to_string());
    let front = plan_dev(&dev(false), &home, &no_tuning());
    assert_eq!(front.pid_file, "/r/vm.pid");
    assert_eq!(front.argv[0], "__vm-boot");
    assert!(front.argv.contains(&"/h:/g".to_string()));
    assert!(!front.argv.contains(&"--console-output".to_string()));
    let back = plan_dev(&dev(true), &home, &no_tuning());
    let n = back.argv.len();
    assert_eq!(back.argv[n - 2], "--console-output");
    assert_eq!(back.argv[n - 1], format!("{}/stdout.log", back.logs_dir));
    assert_eq!(&back.argv[..n - 2], &front.argv[..]);
}

#[test]
fn dev_session_outcomes() {
    assert_eq!(after_dev_spawn(Some(7), false, true), DevNext::KillAndExit(1));
    assert_eq!(after_dev_spawn(Some(7), true, true), DevNext::Exit(0));
    assert_eq!(after_dev_spawn(None, false, false), DevNext::Wait);
    assert_eq!(dev_exit_code(DevWait::Exited(Some(3))), 3);
    assert_eq!(dev_exit_code(DevWait::Exited(None)), 1);
    assert_eq!(dev_exit_code(DevWait::Failed), 1);
    assert_eq!(dev_exit_code(DevWait::Interrupted), 0);
}

#[test]
fn pull_uses_a_cached_rootfs_of_this_machine() {
    let cached = |arch: Option<&str>| {
        Some(CachedRootfs { path: "/c".to_string(), arch: arch.map(String::from) })
    };
    assert_eq!(begin_pull(cached(Some("amd64")), "amd64"), PullStart::UseCached("/c".to_string()));
    assert_eq!(begin_pull(cached(None), "amd64"), PullStart::WipeAndPull("/c".to_string()));
    assert_eq!(begin_pull(None, "amd64"), PullStart::Pull);
    assert_eq!(finish_pull("img", Some("amd64"), "amd64"), Ok(()));
    let err = finish_pull("img", Some("arm64"), "amd64").unwrap_err();
    assert!(err.starts_with(
        "image architecture mismatch for img: expected linux/amd64 but pulled Some(\"arm64\")."
    ));
    assert!(finish_pull("img", None, "amd64").unwrap_err().contains("but pulled None."));
    assert_eq!(hosts_path("/r"), "/r/etc/hosts");
    assert_eq!(DEFAULT_HOSTS, "127.0.0.1\tlocalhost\n::1\t\tlocalhost\n");
}

#[test]
fn extraction_stays_inside_the_rootfs() {
    assert_eq!(extracted_path("/r", "etc/x"), "/r/etc/x");
    assert_eq!(extracted_path("/r", "/etc/x"), "/r/etc/x");
    assert_eq!(extracted_path("/r", "///etc/x"), "/r/etc/x");
}

#[test]
fn directory_size_skips_what_cannot_be_read() {
    let items = [DirItem::File(5), DirItem::Dir(Some(7)), DirItem::Dir(None)];
    assert_eq!(fs_dir_size(&items), 12);
    assert_eq!(fs_dir_size(&[]), 0);
}

#[test]
fn container_ids_are_process_ids() {
    assert_eq!(container_pid("42"), 42);
    assert_eq!(container_pid("x"), 0);
    let up = container_status("42", true);
    assert!(up.running);
    assert_eq!(up.exit_code, None);
    let down = container_status("42", false);
    assert!(!down.running);
    assert_eq!(down.exit_code, Some(0));
    assert!(!container_status("x", true).running);
    assert!(!container_status("0", true).running);
}

#[test]
fn stop_kills_only_a_survivor() {
    assert_eq!(begin_stop("x", true), (StopState::Done, StopAction::Finish));
    assert_eq!(begin_stop("7", false), (StopState::Done, StopAction::Finish));
    let (s, a) = begin_stop("7", true);
    assert_eq!(a, StopAction::Terminate(7));
    let (s, a) = stop_step(s, true, false);
    assert_eq!((s, a), (StopState::Polling(7), StopAction::PollAfter(7, 100)));
    assert_eq!(stop_step(s, false, true), (StopState::Done, StopAction::Finish));
    let (s, a) = stop_step(s, true, true);
    assert_eq!((s, a), (StopState::Killed(7), StopAction::Kill(7, 200)));
    assert_eq!(stop_step(s, true, true), (StopState::Done, StopAction::Finish));
}

#[test]
fn removal_takes_the_first_worker_with_the_id() {
    let pids = [None, Some("8\n".to_string()), Some(" 7 \n".to_string()), Some("7".to_string())];
    assert_eq!(removed_worker(&pids, "7"), Some(2));
    assert_eq!(removed_worker(&pids, "9"), None);
}

#[test]
fn a_pinned_image_is_the_unpinned_one() {
    assert_eq!(unpinned_image("docker.io/a/b:1"), "docker.io/a/b:1");
    assert_eq!(unpinned_image("docker.io/a/b:1@sha256:00ff"), "docker.io/a/b:1");
    assert_eq!(unpinned_image("b@sha256:00ff@x"), "b");
    assert_eq!(unpinned_image(""), "");
    let pinned = LibkrunAdapter::image_rootfs("a/b:1@sha256:00ff", &Slugs);
    assert_eq!(pinned, LibkrunAdapter::image_rootfs("a/b:1", &Slugs));
    let home = Some(HostPath::from_text("/h"));
    assert_eq!(
        image_rootfs_in(&home, "a/b:1@sha256:00ff", &Slugs),
        HostPath::from_text("/h/.iii/cache/a-b-1")
    );
}

#[test]
fn a_detached_vm_inherits_no_lifeline() {
    let names = vec!["III_LIFELINE_FD".to_string(), "III_LIFELINE_SPAWNER_PID".to_string()];
    assert_eq!(detached_env_remove(), names);
    let plan = plan_start(&spec(None), &image(), None, &None, &no_tuning());
    assert_eq!(plan.env_remove, names);
    for background in [true, false] {
        assert_eq!(plan_dev(&dev(background), &None, &no_tuning()).env_remove, names);
    }
}
