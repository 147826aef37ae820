//! Sandboxes: making, using, listing and ending them.

use iii_worker::daemon_exit::Lifeline;
use iii_worker::sandbox_daemon::catalog::check_allowlist;
use iii_worker::sandbox_daemon::config::{ImageCaps, PerImageCap, SandboxConfig};
use iii_worker::sandbox_daemon::create::{
    admit_create, choose_rootfs, decide_create, finish_create, handle_create, new_sandbox_id,
    prepare_boot, Admitted, BootHandle, BootParams, CreateRequest, CreateResponse, CreateSite, OverlayLayout,
    RootfsStep, SandboxCreateEvent, VmLauncher,
};
use iii_worker::sandbox_daemon::ending::{
    after_end_steps, reap_steps, stop_steps, take_step, EndStep, SandboxDirs,
};
use iii_worker::sandbox_daemon::errors::SandboxError;
use iii_worker::sandbox_daemon::exec::{
    handle_exec, is_valid_env_name, parse_sandbox_id, prepare_exec, resolve_cmd_shape,
    resolve_split, EnvShape, ExecRequest, ExecResponse, ShellRunner,
};
use iii_worker::sandbox_daemon::list::{handle_list, summarise, ListRequest, NANOS_PER_SEC};
use iii_worker::sandbox_daemon::reaper::{due, is_idle, reap};
use iii_worker::sandbox_daemon::registry::{SandboxRegistry, SandboxState};
use iii_worker::sandbox_daemon::stop::{begin_stop, handle_stop, StopRequest, StopStep, VmStopper};
use iii_worker::sandbox_daemon::{log_handler_result, SANDBOX_AGENT_GUIDE};
use iii_worker::str_map::StrMap;
use std::cell::{Cell, RefCell};
use uuid::Uuid;

const NOW: u64 = 1_000 * NANOS_PER_SEC;

fn strings(items: &[&str]) -> Vec<String> {
    items.iter().map(|s| s.to_string()).collect()
}

fn make_state(id: Uuid) -> SandboxState {
    SandboxState {
        id: id.as_u128(),
        name: None,
        image: "python".into(),
        rootfs: "/tmp/rootfs".into(),
        workdir: "/tmp/work".into(),
        shell_sock: "/tmp/shell.sock".into(),
        vm_pid: Some(4321),
        lifeline: None,
        created_at: NOW,
        last_exec_at: NOW,
        exec_in_progress: false,
        idle_timeout_secs: 300,
        stopped: false,
    }
}

fn live_sandbox(reg: &mut SandboxRegistry) -> Uuid {
    let id = Uuid::new_v4();
    reg.insert(make_state(id));
    id
}

fn build_req(id: Uuid, cmd: &str) -> ExecRequest {
    ExecRequest {
        sandbox_id: id.to_string(),
        cmd: cmd.to_string(),
        args: vec![],
        argv: vec![],
        stdin: None,
        env: EnvShape::default(),
        timeout_ms: None,
        workdir: None,
    }
}

struct FakeRunner {
    answer: Result<ExecResponse, SandboxError>,
    calls: RefCell<Vec<(String, String, Vec<String>)>>,
}

impl FakeRunner {
    fn ok(stdout: &str, exit: i32) -> FakeRunner {
        FakeRunner::answering(Ok(ExecResponse {
            stdout: stdout.into(),
            stderr: String::new(),
            exit_code: Some(exit),
            timed_out: false,
            duration_ms: 1,
            success: exit == 0,
        }))
    }

    fn answering(answer: Result<ExecResponse, SandboxError>) -> FakeRunner {
        FakeRunner { answer, calls: RefCell::new(vec![]) }
    }

    fn count(&self) -> usize {
        self.calls.borrow().len()
    }
}

impl ShellRunner for FakeRunner {
    fn run(&self, shell_sock: String, req: &ExecRequest) -> Result<ExecResponse, SandboxError> {
        self.calls.borrow_mut().push((shell_sock, req.cmd.clone(), req.args.clone()));
        self.answer.clone()
    }
}

struct FakeStopper {
    fail_once: Cell<bool>,
    pids: RefCell<Vec<u32>>,
    waits: RefCell<Vec<bool>>,
}

impl FakeStopper {
    fn ok() -> FakeStopper {
        FakeStopper {
            fail_once: Cell::new(false),
            pids: RefCell::new(vec![]),
            waits: RefCell::new(vec![]),
        }
    }

    fn flaky() -> FakeStopper {
        FakeStopper {
            fail_once: Cell::new(true),
            pids: RefCell::new(vec![]),
            waits: RefCell::new(vec![]),
        }
    }
}

impl VmStopper for FakeStopper {
    fn stop(&self, vm_pid: u32, wait: bool) -> Result<(), SandboxError> {
        self.pids.borrow_mut().push(vm_pid);
        self.waits.borrow_mut().push(wait);
        if self.fail_once.replace(false) {
            return Err(SandboxError::BootFailed("transient stop failure".into()));
        }
        Ok(())
    }
}

#[derive(Default)]
struct FakeDirs(RefCell<Vec<u128>>);

impl SandboxDirs for FakeDirs {
    fn remove(&self, id: u128) {
        self.0.borrow_mut().push(id);
    }
}

struct FakeLauncher {
    vm_pid: Result<u32, SandboxError>,
    boots: RefCell<Vec<BootParams>>,
}

impl FakeLauncher {
    fn ok(vm_pid: u32) -> FakeLauncher {
        FakeLauncher { vm_pid: Ok(vm_pid), boots: RefCell::new(vec![]) }
    }
}

impl VmLauncher for FakeLauncher {
    fn boot(&self, params: &BootParams) -> Result<BootHandle, SandboxError> {
        self.boots.borrow_mut().push(params.clone());
        self.vm_pid.clone().map(|vm_pid| BootHandle { vm_pid, lifeline: None })
    }
}

fn presets() -> StrMap {
    let mut m = StrMap::new();
    m.insert("python".into(), "docker.io/iii/python:latest".into());
    m.insert("node".into(), "docker.io/iii/node:latest".into());
    m
}

fn cfg(allowed: &[&str]) -> SandboxConfig {
    SandboxConfig {
        auto_install: false,
        image_allowlist: strings(allowed),
        preset_images: presets(),
        custom_images: StrMap::new(),
        per_image_caps: ImageCaps::new(),
        default_cpus: 1,
        default_memory_mb: 512,
        default_idle_timeout_secs: 300,
        max_concurrent_sandboxes: 32,
    }
}

fn create_req(image: &str) -> CreateRequest {
    CreateRequest {
        image: image.into(),
        cpus: None,
        memory_mb: None,
        name: None,
        network: None,
        idle_timeout_secs: None,
        env: EnvShape::default(),
    }
}

/// A host on which the image is there and the overlay can be made.
fn site() -> CreateSite {
    CreateSite {
        cached_rootfs: Some("/cache/python".into()),
        install: Err(SandboxError::BootFailed("not asked".into())),
        install_steps: vec![],
        id: new_sandbox_id(),
        overlay: Ok(OverlayLayout { base: "/o".into(), merged: "/o/merged".into() }),
        now: NOW,
    }
}

fn create(
    req: CreateRequest,
    cfg: &SandboxConfig,
    reg: &mut SandboxRegistry,
    launcher: &FakeLauncher,
) -> Result<CreateResponse, SandboxError> {
    handle_create(req, cfg, reg, launcher, site(), &mut vec![])
}

fn stop_req(id: Uuid, wait: bool) -> StopRequest {
    StopRequest { sandbox_id: id.to_string(), wait }
}

#[test]
fn image_not_in_allowlist_returns_s100() {
    let mut reg = SandboxRegistry::new();
    let launcher = FakeLauncher::ok(1);
    let err =
        create(create_req("malicious"), &cfg(&["python"]), &mut reg, &launcher).unwrap_err();
    assert_eq!(err.code().as_str(), "S100");
}

#[test]
fn custom_image_not_in_allowlist_returns_s100() {
    let mut cfg = cfg(&["python"]);
    cfg.custom_images.insert("my-app".into(), "ghcr.io/acme/my-app:1".into());
    let mut reg = SandboxRegistry::new();
    let launcher = FakeLauncher::ok(1);
    let err = create(create_req("my-app"), &cfg, &mut reg, &launcher).unwrap_err();
    assert_eq!(err.code().as_str(), "S100");
}

#[test]
fn cpu_cap_exceeded_returns_s400() {
    let mut cfg = cfg(&["python"]);
    cfg.per_image_caps
        .insert("python".into(), PerImageCap { max_cpus: 2, max_memory_mb: 1024 });
    let mut reg = SandboxRegistry::new();
    let launcher = FakeLauncher::ok(1);
    let mut req = create_req("python");
    req.cpus = Some(99);
    let err = create(req, &cfg, &mut reg, &launcher).unwrap_err();
    assert_eq!(err.code().as_str(), "S400");
}

#[test]
fn memory_cap_returns_s400() {
    let mut cfg = cfg(&["python", "node"]);
    cfg.per_image_caps
        .insert("python".into(), PerImageCap { max_cpus: 4, max_memory_mb: 1024 });
    let mut reg = SandboxRegistry::new();
    let launcher = FakeLauncher::ok(1);
    let mut req = create_req("python");
    req.memory_mb = Some(9999);
    let err = create(req, &cfg, &mut reg, &launcher).unwrap_err();
    assert_eq!(err.code().as_str(), "S400");
}

#[test]
fn image_not_allowlisted_returns_s100() {
    let mut reg = SandboxRegistry::new();
    let launcher = FakeLauncher::ok(1);
    let err = create(create_req("node"), &cfg(&["python"]), &mut reg, &launcher).unwrap_err();
    assert_eq!(err.code().as_str(), "S100");
}

#[test]
fn rootfs_missing_no_autoinstall_returns_s101() {
    let mut reg = SandboxRegistry::new();
    let launcher = FakeLauncher::ok(1);
    let mut bare = site();
    bare.cached_rootfs = None;
    let cfg = cfg(&["python", "node"]);
    let err = handle_create(create_req("python"), &cfg, &mut reg, &launcher, bare, &mut vec![])
        .unwrap_err();
    assert_eq!(err.code().as_str(), "S101");
}

#[test]
fn create_resource_limit_returns_s400_before_allowlist() {
    let mut cfg = cfg(&["python"]);
    cfg.max_concurrent_sandboxes = 1;
    let mut reg = SandboxRegistry::new();
    let _id = live_sandbox(&mut reg);
    let launcher = FakeLauncher::ok(1234);
    let err = create(create_req("python"), &cfg, &mut reg, &launcher).unwrap_err();
    assert_eq!(err.code().as_str(), "S400");
    assert!(
        launcher.boots.borrow().is_empty(),
        "launcher must not run when resource limit reached"
    );
    let err = create(create_req("malicious"), &cfg, &mut reg, &launcher).unwrap_err();
    assert_eq!(err.code().as_str(), "S400");
}

#[test]
fn create_image_not_in_catalog_skips_launcher() {
    let mut cfg = cfg(&["python"]);
    cfg.max_concurrent_sandboxes = 5;
    let mut reg = SandboxRegistry::new();
    let launcher = FakeLauncher::ok(1234);
    let err =
        create(create_req("definitely-not-allowed"), &cfg, &mut reg, &launcher).unwrap_err();
    assert_eq!(err.code().as_str(), "S100");
    assert!(launcher.boots.borrow().is_empty());
}

#[test]
fn end_to_end_create_exec_stop() {
    let mut reg = SandboxRegistry::new();
    let launcher = FakeLauncher::ok(10_001);
    let created =
        create(create_req("python"), &cfg(&["python", "node"]), &mut reg, &launcher).unwrap();
    let sid = created.sandbox_id;

    let mut req = build_req(Uuid::parse_str(&sid).unwrap(), "/bin/echo");
    req.args = strings(&["hi"]);
    let exec = handle_exec(req, &mut reg, &FakeRunner::ok("hi\n", 0), NOW).unwrap();
    assert_eq!(exec.stdout, "hi\n");
    assert_eq!(exec.exit_code, Some(0));

    let stopper = FakeStopper::ok();
    let stop = handle_stop(StopRequest { sandbox_id: sid, wait: true }, &mut reg, &stopper, &FakeDirs::default());
    assert!(stop.unwrap().stopped);
    assert_eq!(stopper.pids.borrow().len(), 1);
}

#[test]
fn concurrent_exec_returns_s003() {
    let mut reg = SandboxRegistry::new();
    let launcher = FakeLauncher::ok(1);
    let created =
        create(create_req("python"), &cfg(&["python", "node"]), &mut reg, &launcher).unwrap();
    let id = Uuid::parse_str(&created.sandbox_id).unwrap();
    reg.begin_exec(id.as_u128(), NOW).unwrap();
    let err = handle_exec(build_req(id, "/bin/true"), &mut reg, &FakeRunner::ok("", 0), NOW)
        .unwrap_err();
    assert_eq!(err.code().as_str(), "S003");
}

#[test]
fn fake_sandbox_relay_list_returns_every_sandbox() {
    let mut reg = SandboxRegistry::new();
    let launcher = FakeLauncher::ok(1);
    let cfg = cfg(&["python", "node"]);
    let _ = create(create_req("python"), &cfg, &mut reg, &launcher).unwrap();
    let _ = create(create_req("python"), &cfg, &mut reg, &launcher).unwrap();
    let resp = handle_list(ListRequest::default(), &reg, NOW);
    assert_eq!(resp.sandboxes.len(), 2);
}

#[test]
fn created_sandbox_is_booted_and_announced() {
    let mut reg = SandboxRegistry::new();
    let launcher = FakeLauncher::ok(77);
    let mut events = vec![];
    let mut req = create_req("python");
    req.env = EnvShape::Vec(strings(&["A=1"]));
    req.name = Some("n".into());
    let resp =
        handle_create(req, &cfg(&["python"]), &mut reg, &launcher, site(), &mut events).unwrap();
    assert_eq!(resp.image, "python");
    let id = parse_sandbox_id(&resp.sandbox_id).unwrap();
    assert_eq!(
        events,
        vec![
            SandboxCreateEvent::BootingVm,
            SandboxCreateEvent::Ready { sandbox_id: resp.sandbox_id.clone() },
        ]
    );
    let state = reg.get(id).unwrap();
    assert_eq!(state.vm_pid, Some(77));
    assert_eq!(state.name, Some("n".to_string()));
    assert_eq!(state.created_at, NOW);
    assert!(!state.exec_in_progress && !state.stopped);
    let boots = launcher.boots.borrow();
    assert_eq!(boots.len(), 1);
    assert_eq!(boots[0].env, strings(&["A=1"]));
    assert_eq!((boots[0].cpus, boots[0].memory_mb), (1, 512));
    assert_eq!(boots[0].shell_sock, state.shell_sock);
}

#[test]
fn failed_boot_leaves_no_sandbox() {
    let mut reg = SandboxRegistry::new();
    let launcher = FakeLauncher {
        vm_pid: Err(SandboxError::BootFailed("no kvm".into())),
        boots: RefCell::new(vec![]),
    };
    let mut events = vec![];
    let err = handle_create(
        create_req("python"),
        &cfg(&["python"]),
        &mut reg,
        &launcher,
        site(),
        &mut events,
    )
    .unwrap_err();
    assert_eq!(err, SandboxError::BootFailed("no kvm".into()));
    assert_eq!(events, vec![SandboxCreateEvent::BootingVm]);
    assert_eq!(reg.count(), 0);
}

#[test]
fn admission_takes_defaults_and_caps() {
    let mut cfg = cfg(&["python"]);
    let ok = admit_create(&create_req("python"), &cfg, 0).unwrap();
    assert_eq!(
        ok,
        Admitted { oci_ref: "docker.io/iii/python:latest".into(), cpus: 1, memory_mb: 512 }
    );
    cfg.per_image_caps
        .insert("python".into(), PerImageCap { max_cpus: 2, max_memory_mb: 1024 });
    let mut req = create_req("python");
    req.cpus = Some(2);
    req.memory_mb = Some(1024);
    assert!(admit_create(&req, &cfg, 0).is_ok());
    req.memory_mb = Some(1025);
    assert_eq!(admit_create(&req, &cfg, 0).unwrap_err().code().as_str(), "S400");
    assert!(admit_create(&create_req("python"), &cfg, 31).is_ok());
    let full = admit_create(&create_req("python"), &cfg, 32);
    assert_eq!(full.unwrap_err().code().as_str(), "S400");
    assert!(check_allowlist(&cfg, "python").is_ok());
    assert!(check_allowlist(&cfg, "node").is_err());
}

#[test]
fn installation_is_announced_before_the_boot() {
    let step = |t: &str| SandboxCreateEvent::Installing(t.to_string());
    let run = |cached: bool, overlay: bool, boot: bool| {
        let mut cfg = cfg(&["python"]);
        cfg.auto_install = true;
        let mut at = site();
        if !cached {
            at.cached_rootfs = None;
        }
        at.install = Ok("/installed".into());
        at.install_steps = vec!["pull".into(), "extract".into()];
        if !overlay {
            at.overlay = Err("read-only".into());
        }
        let mut launcher = FakeLauncher::ok(1);
        if !boot {
            launcher.vm_pid = Err(SandboxError::BootFailed("no kvm".into()));
        }
        let mut events = vec![];
        let mut reg = SandboxRegistry::new();
        let r = handle_create(create_req("python"), &cfg, &mut reg, &launcher, at, &mut events);
        (r.is_ok(), events)
    };
    let booting = SandboxCreateEvent::BootingVm;
    let (ok, events) = run(false, true, true);
    assert!(ok);
    assert_eq!(events[..3], [step("pull"), step("extract"), booting.clone()]);
    assert_eq!(events.len(), 4);
    assert!(matches!(events[3], SandboxCreateEvent::Ready { .. }));
    let (ok, events) = run(false, true, false);
    assert!(!ok);
    assert_eq!(events, vec![step("pull"), step("extract"), booting.clone()]);
    assert_eq!(run(false, false, true), (false, vec![step("pull"), step("extract")]));
    assert_eq!(run(true, true, false), (false, vec![booting]));
}

#[test]
fn rootfs_is_cached_installed_or_missing() {
    let mut cfg = cfg(&["python"]);
    let cached = Some("/c".to_string());
    assert_eq!(choose_rootfs(cached, &cfg, "python"), Ok(RootfsStep::Use("/c".into())));
    assert_eq!(
        choose_rootfs(None, &cfg, "python"),
        Err(SandboxError::RootfsMissing { image: "python".into() })
    );
    cfg.auto_install = true;
    assert_eq!(choose_rootfs(None, &cfg, "python"), Ok(RootfsStep::Install));
    let mut reg = SandboxRegistry::new();
    let launcher = FakeLauncher::ok(1);
    let mut fresh = site();
    fresh.cached_rootfs = None;
    fresh.install = Ok("/installed".into());
    let made =
        handle_create(create_req("python"), &cfg, &mut reg, &launcher, fresh, &mut vec![]);
    assert!(made.is_ok());
    let mut broken = site();
    broken.cached_rootfs = None;
    broken.install = Err(SandboxError::FsIo("disk full".into()));
    let err =
        handle_create(create_req("python"), &cfg, &mut reg, &launcher, broken, &mut vec![])
            .unwrap_err();
    assert_eq!(err, SandboxError::FsIo("disk full".into()));
}

#[test]
fn boot_is_prepared_and_finished_in_two_steps() {
    let cfg = cfg(&["python"]);
    let admitted = admit_create(&create_req("python"), &cfg, 0).unwrap();
    let layout = OverlayLayout { base: "/o".into(), merged: "/o/merged".into() };
    let mut req = create_req("python");
    req.idle_timeout_secs = Some(7);
    let (pending, params) =
        prepare_boot(req, &cfg, &admitted, "/c".into(), &layout).unwrap();
    assert_eq!(pending.idle_timeout_secs, 7);
    assert_eq!(params.shell_sock, "/o/shell.sock");
    let mut bad = create_req("python");
    let mut vars = StrMap::new();
    vars.insert("9bad".into(), "x".into());
    bad.env = EnvShape::Keyed(vars);
    let err = prepare_boot(bad, &cfg, &admitted, "/c".into(), &layout).unwrap_err();
    assert_eq!(err.code().as_str(), "S001");
    let mut reg = SandboxRegistry::new();
    let id = new_sandbox_id();
    let boot = Ok(BootHandle { vm_pid: 5, lifeline: Some(Lifeline { write_fd: 8, read_fd: 9 }) });
    let resp = finish_create(&mut reg, id, pending, params, boot, NOW).unwrap();
    assert_eq!(resp.sandbox_id, Uuid::from_u128(id).to_string());
    assert_eq!(reg.get(id).unwrap().lifeline, Some(Lifeline { write_fd: 8, read_fd: 9 }));
}

#[test]
fn fresh_ids_differ_and_are_random_uuids() {
    let a = new_sandbox_id();
    let b = new_sandbox_id();
    assert_ne!(a, b);
    assert_eq!(Uuid::from_u128(a).get_version_num(), 4);
}

#[test]
fn happy_path_runs_and_clears_flag() {
    let mut reg = SandboxRegistry::new();
    let id = live_sandbox(&mut reg);
    let runner = FakeRunner::ok("hi\n", 0);
    let resp = handle_exec(build_req(id, "/bin/true"), &mut reg, &runner, NOW).unwrap();
    assert_eq!(resp.stdout, "hi\n");
    let state = reg.get(id.as_u128()).unwrap();
    assert!(!state.exec_in_progress);
}

#[test]
fn invalid_uuid_returns_s001() {
    let mut reg = SandboxRegistry::new();
    let runner = FakeRunner::ok("", 0);
    let mut req = build_req(Uuid::new_v4(), "/bin/true");
    req.sandbox_id = "not-a-uuid".into();
    let err = handle_exec(req, &mut reg, &runner, NOW).unwrap_err();
    assert_eq!(err.code().as_str(), "S001");
}

#[test]
fn exec_missing_sandbox_returns_s002() {
    let mut reg = SandboxRegistry::new();
    let runner = FakeRunner::ok("", 0);
    let err = handle_exec(build_req(Uuid::new_v4(), "/bin/true"), &mut reg, &runner, NOW)
        .unwrap_err();
    assert_eq!(err.code().as_str(), "S002");
}

#[test]
fn cmd_with_whitespace_now_shlex_splits() {
    let mut reg = SandboxRegistry::new();
    let id = live_sandbox(&mut reg);
    let runner = FakeRunner::ok("ok", 0);
    let resp = handle_exec(build_req(id, "node -v"), &mut reg, &runner, NOW).unwrap();
    assert_eq!(resp.exit_code, Some(0));
    let state = reg.get(id.as_u128()).unwrap();
    assert!(!state.exec_in_progress);
    let calls = runner.calls.borrow();
    assert_eq!((calls[0].1.as_str(), &calls[0].2), ("node", &strings(&["-v"])));
}

#[test]
fn cmd_whitespace_plus_args_is_ambiguous() {
    let mut reg = SandboxRegistry::new();
    let id = live_sandbox(&mut reg);
    let runner = FakeRunner::ok("", 0);
    let mut req = build_req(id, "node -v");
    req.args = strings(&["extra"]);
    let err = handle_exec(req, &mut reg, &runner, NOW).unwrap_err();
    assert_eq!(err.code().as_str(), "S001");
    let msg = err.detail();
    assert!(msg.contains("ambiguous"), "msg={msg}");
}

#[test]
fn argv_shape_used_when_present() {
    let mut reg = SandboxRegistry::new();
    let id = live_sandbox(&mut reg);
    let runner = FakeRunner::ok("ok", 0);
    let mut req = build_req(id, "");
    req.argv = strings(&["node", "/home/app/index.js"]);
    let resp = handle_exec(req, &mut reg, &runner, NOW).unwrap();
    assert_eq!(resp.exit_code, Some(0));
    let calls = runner.calls.borrow();
    assert_eq!((calls[0].1.as_str(), &calls[0].2), ("node", &strings(&["/home/app/index.js"])));
}

#[test]
fn argv_combined_with_cmd_rejected() {
    let mut reg = SandboxRegistry::new();
    let id = live_sandbox(&mut reg);
    let runner = FakeRunner::ok("", 0);
    let mut req = build_req(id, "node");
    req.argv = strings(&["python"]);
    let err = handle_exec(req, &mut reg, &runner, NOW).unwrap_err();
    assert_eq!(err.code().as_str(), "S001");
}

#[test]
fn cmd_with_unbalanced_quote_returns_s001() {
    let mut reg = SandboxRegistry::new();
    let id = live_sandbox(&mut reg);
    let runner = FakeRunner::ok("", 0);
    let err = handle_exec(build_req(id, "node 'unterminated"), &mut reg, &runner, NOW)
        .unwrap_err();
    assert_eq!(err.code().as_str(), "S001");
    assert!(err.detail().contains("unbalanced"), "msg={}", err.detail());
}

#[test]
fn env_map_shape_normalises_to_vec() {
    let mut map = StrMap::new();
    map.insert("FOO".to_string(), "bar".to_string());
    map.insert("BAZ".to_string(), "qux".to_string());
    let v = EnvShape::Keyed(map).into_kv_vec().unwrap();
    assert_eq!(v, vec!["BAZ=qux".to_string(), "FOO=bar".to_string()]);
}

#[test]
fn env_map_rejects_invalid_var_name() {
    let mut map = StrMap::new();
    map.insert("9bad".to_string(), "x".to_string());
    let err = EnvShape::Keyed(map).into_kv_vec().unwrap_err();
    assert_eq!(err.code().as_str(), "S001");
}

#[test]
fn empty_cmd_returns_s001() {
    let mut reg = SandboxRegistry::new();
    let id = live_sandbox(&mut reg);
    let runner = FakeRunner::ok("", 0);
    let err = handle_exec(build_req(id, ""), &mut reg, &runner, NOW).unwrap_err();
    assert_eq!(err.code().as_str(), "S001");
}

#[test]
fn command_shapes() {
    let shape = |cmd: &str, args: &[&str], argv: &[&str]| {
        resolve_cmd_shape(cmd, &strings(args), &strings(argv))
    };
    assert_eq!(shape("a", &["b c"], &[]).unwrap(), ("a".to_string(), strings(&["b c"])));
    assert_eq!(
        shape("a 'b c' d", &[], &[]).unwrap(),
        ("a".to_string(), strings(&["b c", "d"]))
    );
    assert_eq!(shape("", &[], &["x", "y"]).unwrap(), ("x".to_string(), strings(&["y"])));
    assert_eq!(shape("", &[], &[]).unwrap(), (String::new(), vec![]));
    for bad in [shape("  ", &[], &[]), shape("", &["a"], &["x"]), shape("a b", &["c"], &[])] {
        assert_eq!(bad.unwrap_err().code().as_str(), "S001");
    }
    assert_eq!(
        shape("a", &["b c"], &[]).unwrap(),
        shape("", &[], &["a", "b c"]).unwrap()
    );
    assert_eq!(resolve_split("q", None).unwrap_err().code().as_str(), "S001");
    assert_eq!(resolve_split(" ", Some(vec![])).unwrap_err().code().as_str(), "S001");
    assert_eq!(
        resolve_split("a b", Some(strings(&["a", "b"]))).unwrap(),
        ("a".to_string(), strings(&["b"]))
    );
}

#[test]
fn a_line_of_plain_words_is_the_list_of_them() {
    for words in [
        vec!["node"],
        vec!["node", "-v"],
        vec!["a#b", "c=$d", "\u{e9}t\u{e9}", "{x}", "~", "|", "a\u{a0}b"],
        vec!["a\u{a0}b"],
    ] {
        let line = resolve_cmd_shape(&words.join(" "), &[], &[]).unwrap();
        let list = resolve_cmd_shape("", &[], &strings(&words)).unwrap();
        assert_eq!(line, list);
    }
    let cut = resolve_cmd_shape("a #b c", &[], &[]).unwrap();
    assert_eq!(cut, ("a".to_string(), vec![]));
}

#[test]
fn prepared_exec_carries_the_resolved_command() {
    let id = Uuid::new_v4();
    let mut vars = StrMap::new();
    vars.insert("B".into(), "2".into());
    vars.insert("A".into(), "1".into());
    let mut req = build_req(id, "node -v");
    req.env = EnvShape::Keyed(vars);
    let (found, ready) = prepare_exec(req).unwrap();
    assert_eq!(found, id.as_u128());
    assert_eq!((ready.cmd.as_str(), &ready.args), ("node", &strings(&["-v"])));
    assert!(ready.argv.is_empty());
    assert_eq!(ready.env.into_kv_vec().unwrap(), strings(&["A=1", "B=2"]));
}

#[test]
fn variable_names() {
    for good in ["A", "_", "a9", "PATH_2"] {
        assert!(is_valid_env_name(good), "{good}");
    }
    for bad in ["", "9a", "a-b", "a b", "a=b", "\u{e9}"] {
        assert!(!is_valid_env_name(bad), "{bad}");
    }
}

#[test]
fn ids_read_in_every_form_a_uuid_has() {
    let id = Uuid::new_v4();
    assert_eq!(parse_sandbox_id(&id.to_string()), Ok(id.as_u128()));
    assert_eq!(parse_sandbox_id(&id.simple().to_string()), Ok(id.as_u128()));
    assert_eq!(parse_sandbox_id(&id.urn().to_string()), Ok(id.as_u128()));
    let err = parse_sandbox_id("nope").unwrap_err();
    assert_eq!(err.code().as_str(), "S001");
    assert!(err.detail().contains("nope"));
}

#[test]
fn exec_happy_path_returns_response_and_clears_in_progress() {
    let mut reg = SandboxRegistry::new();
    let id = live_sandbox(&mut reg);
    let runner = FakeRunner::ok("hi\n", 0);
    let resp = handle_exec(build_req(id, "/bin/echo"), &mut reg, &runner, NOW).unwrap();
    assert_eq!(resp.stdout, "hi\n");
    assert_eq!(resp.exit_code, Some(0));
    assert!(resp.success);
    let state = reg.get(id.as_u128()).unwrap();
    assert!(!state.exec_in_progress, "in-progress flag must be cleared");
    assert_eq!(runner.count(), 1);
    assert_eq!(runner.calls.borrow()[0].0, "/tmp/shell.sock");
}

#[test]
fn exec_invalid_uuid_returns_s001() {
    let mut reg = SandboxRegistry::new();
    let runner = FakeRunner::ok("", 0);
    let mut req = build_req(Uuid::new_v4(), "/bin/true");
    req.sandbox_id = "not-a-uuid".into();
    let err = handle_exec(req, &mut reg, &runner, NOW).unwrap_err();
    assert_eq!(err.code().as_str(), "S001");
    assert_eq!(runner.count(), 0);
}

#[test]
fn exec_unknown_sandbox_returns_s002() {
    let mut reg = SandboxRegistry::new();
    let runner = FakeRunner::ok("", 0);
    let err = handle_exec(build_req(Uuid::new_v4(), "/bin/true"), &mut reg, &runner, NOW)
        .unwrap_err();
    assert_eq!(err.code().as_str(), "S002");
}

#[test]
fn exec_on_stopped_sandbox_returns_s004() {
    let mut reg = SandboxRegistry::new();
    let id = live_sandbox(&mut reg);
    reg.mark_stopped(id.as_u128());
    let runner = FakeRunner::ok("", 0);
    let err = handle_exec(build_req(id, "/bin/true"), &mut reg, &runner, NOW).unwrap_err();
    assert_eq!(err.code().as_str(), "S004");
    assert_eq!(runner.count(), 0);
}

#[test]
fn exec_concurrent_on_same_sandbox_returns_s003() {
    let mut reg = SandboxRegistry::new();
    let id = live_sandbox(&mut reg);
    let _claim = reg.begin_exec(id.as_u128(), NOW).unwrap();
    let runner = FakeRunner::ok("", 0);
    let err = handle_exec(build_req(id, "/bin/true"), &mut reg, &runner, NOW).unwrap_err();
    assert_eq!(err.code().as_str(), "S003");
}

#[test]
fn exec_runner_error_clears_in_progress_flag() {
    let mut reg = SandboxRegistry::new();
    let id = live_sandbox(&mut reg);
    let runner = FakeRunner::answering(Err(SandboxError::BootFailed("vm wedged".into())));
    let err = handle_exec(build_req(id, "/bin/true"), &mut reg, &runner, NOW).unwrap_err();
    assert!(matches!(err, SandboxError::BootFailed(_)));
    let state = reg.get(id.as_u128()).unwrap();
    assert!(
        !state.exec_in_progress,
        "exec_in_progress must clear even when runner returns Err"
    );
}

#[test]
fn exec_nonzero_exit_surfaced_as_response_not_error() {
    let mut reg = SandboxRegistry::new();
    let id = live_sandbox(&mut reg);
    let runner = FakeRunner::ok("oom\n", 137);
    let resp = handle_exec(build_req(id, "/bin/sleep"), &mut reg, &runner, NOW)
        .expect("non-zero exit is a normal response, not an Err");
    assert_eq!(resp.exit_code, Some(137));
    assert!(!resp.success);
}

#[test]
fn exec_argv_passed_verbatim_no_shell_interpretation() {
    let mut reg = SandboxRegistry::new();
    let id = live_sandbox(&mut reg);
    let runner = FakeRunner::ok("", 0);
    let nasty = strings(&["; rm -rf /", "$(whoami)", "&& ls"]);
    let mut req = build_req(id, "/bin/echo");
    req.args = nasty.clone();
    let _ = handle_exec(req, &mut reg, &runner, NOW).unwrap();
    let calls = runner.calls.borrow();
    assert_eq!(calls.len(), 1);
    assert_eq!(calls[0].1, "/bin/echo");
    assert_eq!(calls[0].2, nasty, "argv must pass through unmodified");
}

#[test]
fn exec_timeout_response_passes_through_unchanged() {
    let mut reg = SandboxRegistry::new();
    let id = live_sandbox(&mut reg);
    let runner = FakeRunner::answering(Ok(ExecResponse {
        stdout: String::new(),
        stderr: "killed\n".into(),
        exit_code: None,
        timed_out: true,
        duration_ms: 30_000,
        success: false,
    }));
    let resp = handle_exec(build_req(id, "/bin/sleep"), &mut reg, &runner, NOW).unwrap();
    assert!(resp.timed_out);
    assert_eq!(resp.exit_code, None);
    assert!(!resp.success);
}

#[test]
fn stop_happy_path_marks_and_calls_stopper() {
    let mut reg = SandboxRegistry::new();
    let id = live_sandbox(&mut reg);
    let stopper = FakeStopper::ok();
    let resp = handle_stop(stop_req(id, true), &mut reg, &stopper, &FakeDirs::default()).unwrap();
    assert!(resp.stopped);
    assert!(!stopper.pids.borrow().is_empty());
    assert!(reg.get(id.as_u128()).is_err());
}

#[test]
fn stop_error_preserves_state_and_retry_converges() {
    let mut reg = SandboxRegistry::new();
    let id = live_sandbox(&mut reg);
    let stopper = FakeStopper::flaky();
    let err = handle_stop(stop_req(id, true), &mut reg, &stopper, &FakeDirs::default()).unwrap_err();
    assert!(matches!(err, SandboxError::BootFailed(_)));
    let after_fail = reg.get(id.as_u128()).expect("entry must remain after failed stop");
    assert!(
        !after_fail.stopped,
        "stopped flag must not be set when stopper.stop returned Err"
    );
    let resp = handle_stop(stop_req(id, true), &mut reg, &stopper, &FakeDirs::default()).unwrap();
    assert!(resp.stopped);
    assert_eq!(stopper.pids.borrow().len(), 2, "retry must invoke stopper again");
    assert!(
        reg.get(id.as_u128()).is_err(),
        "registry entry must be removed after successful retry"
    );
}

#[test]
fn stop_nonexistent_returns_s002() {
    let mut reg = SandboxRegistry::new();
    let err =
        handle_stop(stop_req(Uuid::new_v4(), false), &mut reg, &FakeStopper::ok(), &FakeDirs::default()).unwrap_err();
    assert_eq!(err.code().as_str(), "S002");
}

#[test]
fn stop_happy_path_calls_stopper_and_removes_entry() {
    let mut reg = SandboxRegistry::new();
    let id = live_sandbox(&mut reg);
    let stopper = FakeStopper::ok();
    let resp = handle_stop(stop_req(id, true), &mut reg, &stopper, &FakeDirs::default()).unwrap();
    assert!(resp.stopped);
    assert_eq!(*stopper.pids.borrow(), vec![4321u32]);
    assert!(
        reg.get(id.as_u128()).is_err(),
        "registry entry must be removed after successful stop"
    );
}

#[test]
fn stop_invalid_uuid_returns_s001() {
    let mut reg = SandboxRegistry::new();
    let stopper = FakeStopper::ok();
    let req = StopRequest { sandbox_id: "not-a-uuid".into(), wait: false };
    let err = handle_stop(req, &mut reg, &stopper, &FakeDirs::default()).unwrap_err();
    assert_eq!(err.code().as_str(), "S001");
    assert!(stopper.pids.borrow().is_empty());
}

#[test]
fn stop_unknown_sandbox_returns_s002() {
    let mut reg = SandboxRegistry::new();
    let stopper = FakeStopper::ok();
    let err = handle_stop(stop_req(Uuid::new_v4(), false), &mut reg, &stopper, &FakeDirs::default()).unwrap_err();
    assert_eq!(err.code().as_str(), "S002");
    assert!(stopper.pids.borrow().is_empty());
}

#[test]
fn stop_on_already_stopped_sandbox_is_idempotent_and_skips_stopper() {
    let mut reg = SandboxRegistry::new();
    let id = live_sandbox(&mut reg);
    reg.mark_stopped(id.as_u128());
    let stopper = FakeStopper::ok();
    let resp = handle_stop(stop_req(id, false), &mut reg, &stopper, &FakeDirs::default()).unwrap();
    assert!(resp.stopped);
    assert!(
        stopper.pids.borrow().is_empty(),
        "stopper must not be invoked for an already-stopped sandbox"
    );
}

#[test]
fn stop_signal_error_preserves_state_for_retry() {
    let mut reg = SandboxRegistry::new();
    let id = live_sandbox(&mut reg);
    let stopper = FakeStopper::flaky();
    let err = handle_stop(stop_req(id, true), &mut reg, &stopper, &FakeDirs::default()).unwrap_err();
    assert!(matches!(err, SandboxError::BootFailed(_)));
    let state =
        reg.get(id.as_u128()).expect("registry entry must remain after a failed stop");
    assert!(
        !state.stopped,
        "stopped flag must NOT be set when stopper returned Err"
    );
}

#[test]
fn list_list_returns_every_sandbox() {
    let mut reg = SandboxRegistry::new();
    live_sandbox(&mut reg);
    live_sandbox(&mut reg);
    let resp = handle_list(ListRequest::default(), &reg, NOW);
    assert_eq!(resp.sandboxes.len(), 2);
}

#[test]
fn empty_registry_returns_empty_list() {
    let reg = SandboxRegistry::new();
    let resp = handle_list(ListRequest::default(), &reg, NOW);
    assert!(resp.sandboxes.is_empty());
}

#[test]
fn list_empty_registry_returns_empty_array() {
    let reg = SandboxRegistry::new();
    let resp = handle_list(ListRequest::default(), &reg, NOW);
    assert!(resp.sandboxes.is_empty());
}

#[test]
fn list_returns_summary_for_each_sandbox() {
    let mut reg = SandboxRegistry::new();
    let _ = live_sandbox(&mut reg);
    let _ = live_sandbox(&mut reg);
    let _ = live_sandbox(&mut reg);
    let resp = handle_list(ListRequest::default(), &reg, NOW);
    assert_eq!(resp.sandboxes.len(), 3);
    for s in &resp.sandboxes {
        assert_eq!(s.image, "python");
        assert!(!s.exec_in_progress);
        assert!(!s.stopped);
    }
}

#[test]
fn ages_are_whole_seconds() {
    let state = make_state(Uuid::new_v4());
    assert_eq!(summarise(&state, NOW).age_secs, 0);
    assert_eq!(summarise(&state, NOW + 2 * NANOS_PER_SEC - 1).age_secs, 1);
    assert_eq!(summarise(&state, NOW - 5).age_secs, 0);
}

#[test]
fn reaps_idle_sandboxes() {
    let mut reg = SandboxRegistry::new();
    let id = Uuid::new_v4();
    let mut state = make_state(id);
    state.last_exec_at = NOW - 600 * NANOS_PER_SEC;
    state.created_at = state.last_exec_at;
    reg.insert(state);
    let stopper = FakeStopper::ok();
    assert_eq!(reap(&mut reg, &stopper, &FakeDirs::default(), NOW), vec![id.as_u128()]);
    assert_eq!(stopper.pids.borrow().len(), 1);
    assert!(reap(&mut reg, &stopper, &FakeDirs::default(), NOW).is_empty());
    assert_eq!(stopper.pids.borrow().len(), 1);
}

#[test]
fn only_idle_sandboxes_are_reaped() {
    let at = |secs: u64, busy: bool, stopped: bool| {
        let mut s = make_state(Uuid::new_v4());
        s.last_exec_at = NOW - secs * NANOS_PER_SEC;
        s.exec_in_progress = busy;
        s.stopped = stopped;
        s
    };
    assert!(!is_idle(&at(300, false, false), NOW));
    assert!(is_idle(&at(301, false, false), NOW));
    assert!(!is_idle(&at(301, false, true), NOW));
    let mut reg = SandboxRegistry::new();
    reg.insert(at(10, false, false));
    reg.insert(at(301, false, false));
    assert_eq!(due(&reg, NOW).len(), 1);
}

#[test]
fn the_stopper_is_told_whether_to_wait() {
    for wait in [true, false] {
        let mut reg = SandboxRegistry::new();
        let id = live_sandbox(&mut reg);
        let stopper = FakeStopper::ok();
        assert!(handle_stop(stop_req(id, wait), &mut reg, &stopper, &FakeDirs::default()).unwrap().stopped);
        assert_eq!(*stopper.waits.borrow(), vec![wait]);
        let step = begin_stop(&stop_req(id, wait), &reg);
        assert_eq!(step.unwrap_err().code().as_str(), "S002");
        let id = live_sandbox(&mut reg);
        assert_eq!(
            begin_stop(&stop_req(id, wait), &reg),
            Ok(StopStep::End { id: id.as_u128(), vm_pid: Some(4321), wait })
        );
    }
    let mut reg = SandboxRegistry::new();
    let mut idle = make_state(Uuid::new_v4());
    idle.last_exec_at = NOW - 301 * NANOS_PER_SEC;
    reg.insert(idle);
    let stopper = FakeStopper::ok();
    reap(&mut reg, &stopper, &FakeDirs::default(), NOW);
    assert_eq!(*stopper.waits.borrow(), vec![false]);
}

#[test]
fn ending_goes_step_by_step() {
    let end = |vm_pid, wait| EndStep::EndVm { vm_pid, wait };
    let (mark, dirs, forget) = (EndStep::MarkStopped, EndStep::RemoveDirs, EndStep::Forget);
    assert_eq!(reap_steps(Some(7)), vec![mark, end(7, false), dirs, forget]);
    assert_eq!(reap_steps(None), vec![mark, dirs, forget]);
    assert_eq!(stop_steps(Some(7), true), vec![end(7, true)]);
    assert_eq!(stop_steps(Some(7), false), vec![end(7, false)]);
    assert!(stop_steps(None, true).is_empty());
    assert_eq!(after_end_steps(true), vec![mark, dirs, forget]);
    assert!(after_end_steps(false).is_empty());
    let mut reg = SandboxRegistry::new();
    let id = live_sandbox(&mut reg).as_u128();
    for step in [end(7, true), dirs] {
        take_step(&mut reg, id, step);
        assert!(!reg.get(id).unwrap().stopped);
    }
    take_step(&mut reg, id, mark);
    assert!(reg.get(id).unwrap().stopped);
    take_step(&mut reg, id, forget);
    assert!(reg.get(id).is_err());
}

#[test]
fn the_directories_of_ended_sandboxes_are_removed() {
    let mut reg = SandboxRegistry::new();
    let id = live_sandbox(&mut reg);
    let removed = FakeDirs::default();
    let stopper = FakeStopper::flaky();
    assert!(handle_stop(stop_req(id, true), &mut reg, &stopper, &removed).is_err());
    assert!(removed.0.borrow().is_empty());
    handle_stop(stop_req(id, true), &mut reg, &stopper, &removed).unwrap();
    assert_eq!(*removed.0.borrow(), vec![id.as_u128()]);
    let mut idle = make_state(Uuid::new_v4());
    idle.last_exec_at = NOW - 301 * NANOS_PER_SEC;
    let idle_id = idle.id;
    reg.insert(idle);
    let kept = live_sandbox(&mut reg);
    let removed = FakeDirs::default();
    assert_eq!(reap(&mut reg, &FakeStopper::flaky(), &removed, NOW), vec![idle_id]);
    assert_eq!(*removed.0.borrow(), vec![idle_id]);
    assert!(reg.get(kept.as_u128()).is_ok());
}

#[test]
fn what_is_refused_is_decided_before_the_launcher() {
    let cfg = cfg(&["python"]);
    let mut events = vec![];
    let (pending, params) =
        decide_create(create_req("python"), &cfg, 0, site(), &mut events).unwrap();
    assert_eq!(pending.image, "python");
    assert_eq!(params.rootfs, "/cache/python");
    assert_eq!(params.shell_sock, "/o/shell.sock");
    let err = decide_create(create_req("ruby"), &cfg, 0, site(), &mut events).unwrap_err();
    assert_eq!(err.code().as_str(), "S100");
    let mut bare = site();
    bare.cached_rootfs = None;
    let err = decide_create(create_req("python"), &cfg, 0, bare, &mut events).unwrap_err();
    assert_eq!(err.code().as_str(), "S101");
    assert!(events.is_empty());
    let launcher = FakeLauncher::ok(1);
    let mut reg = SandboxRegistry::new();
    let r = handle_create(create_req("ruby"), &cfg, &mut reg, &launcher, site(), &mut events);
    assert!(r.is_err());
    assert!(launcher.boots.borrow().is_empty());
}

#[test]
fn each_reaped_sandbox_is_stopped_once() {
    let mut reg = SandboxRegistry::new();
    let mut expected = Vec::new();
    for pid in [Some(11), Some(12), None] {
        let mut s = make_state(Uuid::new_v4());
        s.last_exec_at = NOW - 301 * NANOS_PER_SEC;
        s.vm_pid = pid;
        expected.push(s.id);
        reg.insert(s);
    }
    let kept = live_sandbox(&mut reg);
    let stopper = FakeStopper::ok();
    let mut reaped = reap(&mut reg, &stopper, &FakeDirs::default(), NOW);
    reaped.sort();
    expected.sort();
    assert_eq!(reaped, expected);
    let mut pids = stopper.pids.borrow().clone();
    pids.sort();
    assert_eq!(pids, vec![11, 12]);
    assert_eq!(reg.count(), 1);
    assert!(reg.get(kept.as_u128()).is_ok());
}

#[test]
fn workflow_create_exec_stop_list_round_trip() {
    let mut reg = SandboxRegistry::new();
    let id = live_sandbox(&mut reg);
    let pre_list = handle_list(ListRequest::default(), &reg, NOW);
    assert_eq!(pre_list.sandboxes.len(), 1);
    assert_eq!(pre_list.sandboxes[0].sandbox_id, id.to_string());
    assert!(!pre_list.sandboxes[0].stopped);
    let runner = FakeRunner::ok("hello world\n", 0);
    let resp = handle_exec(build_req(id, "/bin/echo"), &mut reg, &runner, NOW).unwrap();
    assert_eq!(resp.stdout, "hello world\n");
    let stopped = handle_stop(stop_req(id, true), &mut reg, &FakeStopper::ok(), &FakeDirs::default()).unwrap();
    assert!(stopped.stopped);
    let post_list = handle_list(ListRequest::default(), &reg, NOW);
    assert!(post_list.sandboxes.is_empty(), "list must be empty after stop");
}

#[test]
fn workflow_stopped_sandbox_rejects_further_work() {
    let mut reg = SandboxRegistry::new();
    let id = live_sandbox(&mut reg);
    reg.mark_stopped(id.as_u128());
    let runner = FakeRunner::ok("", 0);
    let err = handle_exec(build_req(id, "/bin/true"), &mut reg, &runner, NOW).unwrap_err();
    assert_eq!(err.code().as_str(), "S004");
    let stopper = FakeStopper::ok();
    let stop_resp = handle_stop(stop_req(id, false), &mut reg, &stopper, &FakeDirs::default()).unwrap();
    assert!(stop_resp.stopped);
    assert!(stopper.pids.borrow().is_empty());
}

#[test]
fn workflow_list_reflects_mark_stopped_transitions() {
    let mut reg = SandboxRegistry::new();
    let id_running = live_sandbox(&mut reg);
    let id_stopped = live_sandbox(&mut reg);
    reg.mark_stopped(id_stopped.as_u128());
    let resp = handle_list(ListRequest::default(), &reg, NOW);
    assert_eq!(resp.sandboxes.len(), 2);
    let running_summary = resp
        .sandboxes
        .iter()
        .find(|s| s.sandbox_id == id_running.to_string())
        .expect("running sandbox should appear");
    assert!(!running_summary.stopped);
    let stopped_summary = resp
        .sandboxes
        .iter()
        .find(|s| s.sandbox_id == id_stopped.to_string())
        .expect("stopped sandbox should appear");
    assert!(stopped_summary.stopped);
}

#[test]
fn workflow_runner_errors_dont_corrupt_subsequent_calls() {
    let mut reg = SandboxRegistry::new();
    let id = live_sandbox(&mut reg);
    let runner_err = FakeRunner::answering(Err(SandboxError::FsIo("simulated".into())));
    let _ = handle_exec(build_req(id, "/bin/true"), &mut reg, &runner_err, NOW).unwrap_err();
    let runner_ok = FakeRunner::ok("recovered\n", 0);
    let resp = handle_exec(build_req(id, "/bin/echo"), &mut reg, &runner_ok, NOW).unwrap();
    assert_eq!(resp.stdout, "recovered\n");
}

#[test]
fn log_handler_result_success_branch_runs() {
    let ok: Result<&str, SandboxError> = Ok("ignored");
    let record = log_handler_result("sandbox::test", Some("sid-1"), &ok, 42, "", false);
    assert!(record.success);
    assert_eq!((record.error_type.as_str(), record.retryable), ("", None));
    assert_eq!(record.sandbox_id, "sid-1");
    assert_eq!(record.duration_ms, 42);
    log_handler_result("sandbox::test", None, &ok, 0, "validation", true);
}

#[test]
fn log_handler_result_error_branch_runs_with_code() {
    let err: Result<(), _> = Err(SandboxError::InvalidRequest("missing path".to_string()));
    let record = log_handler_result("sandbox::test", Some("sid-1"), &err, 7, "validation", true);
    assert!(!record.success);
    assert_eq!((record.error_type.as_str(), record.retryable), ("validation", Some(true)));
    assert_eq!(record.error_code, "S001");
    let record = log_handler_result("sandbox::test", None, &err, 99, "", false);
    assert_eq!((record.error_type.as_str(), record.retryable), ("", Some(false)));
}

#[test]
fn every_error_has_its_code() {
    let s = || "x".to_string();
    let cases = [
        (SandboxError::InvalidRequest(s()), "S001"),
        (SandboxError::NotFound(s()), "S002"),
        (SandboxError::ConcurrentExec(s()), "S003"),
        (SandboxError::AlreadyStopped(s()), "S004"),
        (SandboxError::ImageNotAllowed { image: s() }, "S100"),
        (SandboxError::RootfsMissing { image: s() }, "S101"),
        (SandboxError::ExecTimedOut { timeout_ms: 5 }, "S200"),
        (SandboxError::FsInvalidRequest(s()), "S210"),
        (SandboxError::FsNotFound { path: s() }, "S211"),
        (SandboxError::FsAlreadyExists { path: s() }, "S213"),
        (SandboxError::FsPermission(s()), "S215"),
        (SandboxError::FsChannelAborted(s()), "S218"),
        (SandboxError::BootFailed(s()), "S300"),
        (SandboxError::ResourceLimit(s()), "S400"),
    ];
    for (err, code) in cases {
        assert_eq!(err.code().as_str(), code);
    }
}

#[test]
fn guide_names_the_functions_and_the_error_field() {
    let guide = SANDBOX_AGENT_GUIDE;
    assert!(guide.contains("sandbox::run"));
    assert!(guide.contains("sandbox::exec"));
    assert!(guide.contains("error.message"));
}
