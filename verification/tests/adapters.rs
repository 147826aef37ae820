//! Launching VMs, running commands in them and ending them.

use iii_worker::sandbox_daemon::adapters::{
    cap_tail, classify_dispatcher_spawn_error, decode_stdin, read_stderr_tail, stdin_from,
    tail_lines, BootFault, BootWait, IiiWorkerLauncher, LaunchFault, LogRead, RunOutcome,
    ShellProtoRunner, SignalStep, SignalStopper, SockProbe, DEFAULT_EXEC_TIMEOUT_MS,
};
use iii_worker::sandbox_daemon::create::BootParams;
use iii_worker::sandbox_daemon::errors::SandboxError;
use iii_worker::sandbox_daemon::exec::{EnvShape, ExecRequest};
use iii_worker::str_map::StrMap;

fn strings(items: &[&str]) -> Vec<String> {
    items.iter().map(|s| s.to_string()).collect()
}

#[test]
fn decode_stdin_empty_string_is_eof_not_none() {
    let got = decode_stdin(Some("")).unwrap();
    assert_eq!(
        got,
        Some(Vec::<u8>::new()),
        "stdin: \"\" must produce Some(empty) so the child sees EOF"
    );
}

#[test]
fn decode_stdin_missing_is_eof_not_none() {
    let got = decode_stdin(None).unwrap();
    assert_eq!(
        got,
        Some(Vec::<u8>::new()),
        "missing stdin must produce Some(empty) so the child sees EOF"
    );
}

#[test]
fn decode_stdin_non_empty_decodes_base64() {
    let got = decode_stdin(Some("aGkK")).unwrap();
    assert_eq!(got, Some(b"hi\n".to_vec()));
}

#[test]
fn decode_stdin_invalid_base64_is_invalid_request() {
    let err = decode_stdin(Some("!!!not-base64!!!")).unwrap_err();
    assert_eq!(err.code().as_str(), "S001");
}

#[test]
fn undecodable_input_names_the_reason() {
    let err = stdin_from(Err("bad byte".to_string())).unwrap_err();
    assert_eq!(err, SandboxError::InvalidRequest("stdin base64 decode: bad byte".to_string()));
    assert_eq!(stdin_from(Ok(vec![7])), Ok(Some(vec![7])));
}

#[test]
fn classify_spawn_enoent_returns_exit_127() {
    let resp = classify_dispatcher_spawn_error(
        "spawn: No such file or directory (os error 2)",
        "/no/such/binary",
        42,
    )
    .expect("ENOENT must classify as a synthetic ExecResponse, not None");
    assert_eq!(resp.exit_code, Some(127));
    assert!(!resp.success);
    assert!(!resp.timed_out);
    assert!(resp.stdout.is_empty());
    assert!(
        resp.stderr.contains("/no/such/binary") && resp.stderr.contains("not found"),
        "stderr should look like POSIX shell 'not found' message, got {:?}",
        resp.stderr
    );
    assert_eq!(resp.duration_ms, 42);
}

#[test]
fn classify_spawn_enoent_handles_non_ascii_cmd() {
    let resp = classify_dispatcher_spawn_error(
        "spawn: No such file or directory (os error 2)",
        "/💥/no/such",
        0,
    )
    .expect("ENOENT must classify regardless of cmd encoding");
    assert_eq!(resp.exit_code, Some(127));
    assert!(resp.stderr.contains("/💥/no/such"));
}

#[test]
fn classify_spawn_enotdir_returns_exit_127() {
    let resp = classify_dispatcher_spawn_error(
        "spawn: Not a directory (os error 20)",
        "/etc/hosts/x",
        0,
    )
    .expect("ENOTDIR must classify as 127 like POSIX shells");
    assert_eq!(resp.exit_code, Some(127));
    assert!(resp.stderr.contains("not found"));
}

#[test]
fn classify_spawn_eacces_returns_exit_126() {
    let resp = classify_dispatcher_spawn_error(
        "spawn: Permission denied (os error 13)",
        "/tmp/not-exec",
        0,
    )
    .expect("EACCES must classify as 126");
    assert_eq!(resp.exit_code, Some(126));
    assert!(
        resp.stderr.contains("permission denied"),
        "stderr should mention permission denied, got {:?}",
        resp.stderr
    );
}

#[test]
fn classify_unknown_dispatcher_error_returns_none() {
    let resp = classify_dispatcher_spawn_error(
        "openpty: Resource temporarily unavailable (os error 11)",
        "/bin/sh",
        0,
    );
    assert!(
        resp.is_none(),
        "non-ENOENT/ENOTDIR/EACCES must fall through to BootFailed, got {resp:?}"
    );
}

#[test]
fn classify_empty_message_returns_none() {
    assert!(classify_dispatcher_spawn_error("", "/bin/true", 0).is_none());
}

fn params(network: bool) -> BootParams {
    BootParams {
        rootfs: "/o/merged".to_string(),
        workdir: "/o/work".to_string(),
        shell_sock: "/o/shell.sock".to_string(),
        cpus: 2,
        memory_mb: 512,
        env: strings(&["A=1"]),
        network,
    }
}

#[test]
fn launch_plan_of_a_sandbox() {
    let plan = IiiWorkerLauncher::plan(&params(true));
    assert_eq!(plan.control_sock, "/o/control.sock");
    assert_eq!(plan.stderr_log, "/o/vm-boot.stderr.log");
    assert_eq!(
        plan.argv,
        strings(&[
            "__vm-boot",
            "--rootfs",
            "/o/merged",
            "--exec",
            "/bin/sh",
            "--arg",
            "-c",
            "--arg",
            "exec sleep infinity",
            "--workdir",
            "/",
            "--vcpus",
            "2",
            "--ram",
            "512",
            "--shell-sock",
            "/o/shell.sock",
            "--control-sock",
            "/o/control.sock",
            "--network",
            "--env",
            "A=1",
        ])
    );
    let mut deep = params(true);
    deep.shell_sock = "/home/u/.iii/sandboxes/x.y/shell.sock".into();
    let plan = IiiWorkerLauncher::plan(&deep);
    assert_eq!(plan.control_sock, "/home/u/.iii/sandboxes/x.y/control.sock");
    assert_eq!(plan.stderr_log, "/home/u/.iii/sandboxes/x.y/vm-boot.stderr.log");
    deep.shell_sock = "/home/u/../.v/..w/shell.sock".into();
    assert_eq!(IiiWorkerLauncher::plan(&deep).control_sock, "/home/u/../.v/..w/control.sock");
    assert!(!IiiWorkerLauncher::plan(&params(false)).argv.contains(&"--network".to_string()));
    assert!(IiiWorkerLauncher::needs_init_copy(false, false));
    assert!(!IiiWorkerLauncher::needs_init_copy(true, false));
}

#[test]
fn launch_faults_are_boot_failures() {
    let s = |t: &str| t.to_string();
    let cases = [
        (LaunchFault::NoExecutable(s("e")), "current_exe() failed: e"),
        (
            LaunchFault::NoFirmware(s("e")),
            "ensure_libkrunfw failed (vm.enter would crash with dlopen error): e",
        ),
        (LaunchFault::NoInit(s("e")), "ensure_init_binary failed: e"),
        (LaunchFault::InitNotCopied(s("/d"), s("e")), "copy init.krun to /d: e"),
        (
            LaunchFault::NoLog(s("/l"), s("e")),
            "cannot create vm-boot stderr log at /l: e",
        ),
        (LaunchFault::NoLifeline(s("e")), "lifeline pipe: e"),
        (LaunchFault::NotSpawned(s("e")), "spawn iii-worker __vm-boot: e"),
        (LaunchFault::Exited, "child exited immediately"),
    ];
    for (fault, text) in cases {
        assert_eq!(
            IiiWorkerLauncher::launch_failed(fault),
            SandboxError::BootFailed(text.to_string())
        );
    }
}

#[test]
fn boot_wait_decisions() {
    let step = IiiWorkerLauncher::boot_wait_step;
    assert_eq!(step(SockProbe::Connected, false, true), BootWait::Ready);
    assert_eq!(step(SockProbe::Missing, true, false), BootWait::RetryAfter(10));
    assert_eq!(step(SockProbe::Refused, true, false), BootWait::RetryAfter(10));
    assert_eq!(step(SockProbe::Refused, true, true), BootWait::Failed(BootFault::TimedOut));
    assert_eq!(
        step(SockProbe::Refused, false, false),
        BootWait::Failed(BootFault::ExitedBeforeAccept)
    );
    assert_eq!(
        step(SockProbe::Missing, false, false),
        BootWait::Failed(BootFault::ExitedBeforeBind)
    );
    assert_eq!(
        step(SockProbe::Failed("e".to_string()), true, false),
        BootWait::Failed(BootFault::ConnectFailed("e".to_string()))
    );
}

#[test]
fn boot_faults_quote_the_log() {
    let text = |fault| IiiWorkerLauncher::boot_failed(fault, 7, "/s", "HINT").detail();
    assert_eq!(
        text(BootFault::ExitedBeforeAccept),
        "__vm-boot child 7 exited before the shell relay accepted connections. Last stderr lines:\nHINT"
    );
    assert_eq!(
        text(BootFault::ExitedBeforeBind),
        "__vm-boot child 7 exited before binding shell socket /s. Last stderr lines:\nHINT"
    );
    assert_eq!(
        text(BootFault::ConnectFailed("e".to_string())),
        "connect(/s) failed unexpectedly: e. Last stderr:\nHINT"
    );
    assert_eq!(
        text(BootFault::TimedOut),
        "shell socket /s did not start accepting within 30s. Last stderr:\nHINT"
    );
}

#[test]
fn log_tails() {
    let content: String = (1..=40).map(|i| format!("line {i}\n")).collect();
    let tail = tail_lines(&content);
    assert_eq!(tail.lines().count(), 32);
    assert!(tail.starts_with("line 9\n"));
    assert!(tail.ends_with("line 40"));
    assert_eq!(tail_lines("a\r\nb\n\nc"), "a\nb\n\nc");
    assert_eq!(cap_tail("short"), "short");
    let long = "x".repeat(5000);
    let capped = cap_tail(&long);
    assert_eq!(capped, format!("  ...(truncated)\n{}", "x".repeat(4096)));
    let read = LogRead::Content(String::new());
    assert_eq!(read_stderr_tail("/l", &read), "  (stderr log at /l is empty)");
    let read = LogRead::Failed("gone".to_string());
    assert_eq!(read_stderr_tail("/l", &read), "  (could not read stderr log /l: gone)");
    assert_eq!(read_stderr_tail("/l", &LogRead::Content("a\nb\n".to_string())), "a\nb");
}

fn request(env: EnvShape, stdin: Option<&str>) -> ExecRequest {
    ExecRequest {
        sandbox_id: "x".to_string(),
        cmd: "/bin/cat".to_string(),
        args: strings(&["-n"]),
        argv: vec![],
        stdin: stdin.map(String::from),
        env,
        timeout_ms: None,
        workdir: Some("/w".to_string()),
    }
}

#[test]
fn request_sent_to_a_sandbox() {
    let req = request(EnvShape::Vec(strings(&["A=1"])), Some("aGkK"));
    let sent = ShellProtoRunner::request_spec(&req).unwrap();
    assert_eq!(sent.cmd, "/bin/cat");
    assert_eq!(sent.args, strings(&["-n"]));
    assert_eq!(sent.cwd, Some("/w".to_string()));
    assert_eq!(sent.env, strings(&["A=1"]));
    assert_eq!(sent.stdin, Some(b"hi\n".to_vec()));
    assert_eq!(ShellProtoRunner::timeout_ms(&req), DEFAULT_EXEC_TIMEOUT_MS);
    let mut bad = StrMap::new();
    bad.insert("9x".to_string(), "1".to_string());
    let req = request(EnvShape::Keyed(bad), Some("!!"));
    assert!(ShellProtoRunner::request_spec(&req).unwrap_err().detail().contains("9x"));
    let req = request(EnvShape::default(), Some("!!"));
    let err = ShellProtoRunner::request_spec(&req).unwrap_err();
    assert!(err.detail().starts_with("stdin base64 decode: "));
}

#[test]
fn outcomes_of_a_run() {
    let finish = |o| ShellProtoRunner::finish_run(o, "/bin/x", 500, 42);
    let s = |t: &str| t.to_string();
    let err = finish(RunOutcome::ConnectFailed(s("e"))).unwrap_err();
    assert_eq!(err, SandboxError::BootFailed(s("shell connect: e")));
    assert_eq!(
        finish(RunOutcome::TimedOut).unwrap_err(),
        SandboxError::ExecTimedOut { timeout_ms: 500 }
    );
    let err = finish(RunOutcome::NoRuntime(s("e"))).unwrap_err();
    assert_eq!(err, SandboxError::BootFailed(s("inner runtime build: e")));
    let err = finish(RunOutcome::Lost(s("e"))).unwrap_err();
    assert_eq!(err, SandboxError::BootFailed(s("spawn_blocking join: e")));
    let err = finish(RunOutcome::Failed(s("e"))).unwrap_err();
    assert_eq!(err, SandboxError::BootFailed(s("shell run: e")));
    let err = finish(RunOutcome::Dispatcher(s("openpty"), s("e"))).unwrap_err();
    assert_eq!(err, SandboxError::BootFailed(s("shell run: e")));
    let resp = finish(RunOutcome::Dispatcher(s("(os error 13)"), s("e"))).unwrap();
    assert_eq!(resp.exit_code, Some(126));
    let done = |code, timed_out| RunOutcome::Done {
        code,
        timed_out,
        stdout: b"a\xffb".to_vec(),
        stderr: vec![],
    };
    let resp = finish(done(Some(0), false)).unwrap();
    assert_eq!(resp.stdout, "a\u{fffd}b");
    let kept = finish(RunOutcome::Done {
        code: Some(0),
        timed_out: false,
        stdout: "\u{e9}t\u{e9} \u{1f980}\0".as_bytes().to_vec(),
        stderr: "\u{fffd}".as_bytes().to_vec(),
    })
    .unwrap();
    assert_eq!((kept.stdout.as_str(), kept.stderr.as_str()), ("\u{e9}t\u{e9} \u{1f980}\0", "\u{fffd}"));
    assert!(resp.success);
    assert_eq!(resp.duration_ms, 42);
    assert!(!finish(done(None, false)).unwrap().success);
    assert!(!finish(done(Some(1), false)).unwrap().success);
    assert_eq!(
        finish(done(Some(0), true)).unwrap_err(),
        SandboxError::ExecTimedOut { timeout_ms: 500 }
    );
}

#[test]
fn ending_a_vm_asks_before_it_kills() {
    assert_eq!(
        SignalStopper::steps(7, false),
        vec![SignalStep::Terminate(7), SignalStep::WaitMs(200), SignalStep::Kill(7)]
    );
    assert_eq!(
        SignalStopper::steps(7, true),
        vec![
            SignalStep::Terminate(7),
            SignalStep::WaitMs(200),
            SignalStep::Kill(7),
            SignalStep::AwaitGone(7),
        ]
    );
    assert_eq!(SignalStopper::gone_wait_step(Some(3)), None);
    assert_eq!(SignalStopper::gone_wait_step(Some(1)), Some(10));
    assert_eq!(SignalStopper::gone_wait_step(None), Some(10));
}
