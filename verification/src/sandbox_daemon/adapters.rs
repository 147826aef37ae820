//! How sandboxes reach the machine: what a VM is launched with and when it
//! counts as up, what a command run comes to, and how a VM is ended.

use crate::cli::worker_manager::boot_args::{flagged, push_flag, push_flagged, push_text};
use crate::daemon_exit::{process_is_gone, ESRCH};
use crate::encoding::{base64_decoded, decode_base64, lossy_text, utf8_lossy};
use crate::numbers::{decimal, u64_text};
use crate::paths::{joined, plain_dir, sibling_path, with_file_name};
use crate::sandbox_daemon::create::BootParams;
use crate::sandbox_daemon::errors::{fails, SandboxError, SandboxErrorCode};
use crate::sandbox_daemon::exec::{ExecRequest, ExecResponse};
use crate::text::{
    concat, concat3, contains_text, has_substring, join_strings, join_with, lines_of, opt_str,
    split_lines, texts,
};
use vstd::prelude::*;
use vstd::utf8::{decode_utf8, encode_utf8, is_char_boundary, valid_utf8};

verus! {

/// Milliseconds between two looks at a VM's shell socket.
pub const BOOT_SOCKET_POLL_MS: u64 = 10;

/// Seconds that a VM gets to accept connections.
pub const BOOT_SOCKET_TIMEOUT_SECS: u64 = 30;

/// Milliseconds that a command gets where the caller does not say.
pub const DEFAULT_EXEC_TIMEOUT_MS: u64 = 300_000;

/// Milliseconds between asking a VM to end and killing it.
pub const STOP_GRACE_MS: u64 = 200;

/// Bytes kept of each output stream.
pub const OUTPUT_CAP: usize = 1_048_576;

/// Lines of a boot log that an error quotes.
pub const TAIL_LINES: usize = 32;

/// Bytes of a boot log that an error quotes.
pub const TAIL_BYTES: usize = 4096;

/// Launches VMs in processes of their own.
#[derive(Debug, Clone, Copy, PartialEq, Eq)]
pub struct IiiWorkerLauncher;

/// The argument list of a sandbox's VM, with its control socket at
/// `control_sock`: it runs nothing but a sleep, and commands come by the shell
/// socket.
pub open spec fn launch_args(p: BootParams, control_sock: Seq<char>) -> Seq<Seq<char>> {
    seq![
        "__vm-boot"@,
        "--rootfs"@,
        p.rootfs@,
        "--exec"@,
        "/bin/sh"@,
        "--arg"@,
        "-c"@,
        "--arg"@,
        "exec sleep infinity"@,
        "--workdir"@,
        "/"@,
        "--vcpus"@,
        decimal(p.cpus as nat),
        "--ram"@,
        decimal(p.memory_mb as nat),
        "--shell-sock"@,
        p.shell_sock@,
        "--control-sock"@,
        control_sock,
    ] + (if p.network {
        seq!["--network"@]
    } else {
        Seq::empty()
    }) + flagged("--env"@, texts(p.env@))
}

/// What a VM is launched with.
#[derive(Debug, Clone, PartialEq, Eq)]
pub struct LaunchPlan {
    pub argv: Vec<String>,
    pub control_sock: String,
    /// Where the process's errors are logged.
    pub stderr_log: String,
}

/// Whether a look at a VM's shell socket found it accepting.
#[derive(Debug, Clone, PartialEq, Eq)]
pub enum SockProbe {
    /// There is no socket.
    Missing,
    /// A connection was accepted.
    Connected,
    /// Nobody listens on the socket.
    Refused,
    /// Connecting failed otherwise, for the reason given.
    Failed(String),
}

/// Why a VM is given up.
#[derive(Debug, Clone, PartialEq, Eq)]
pub enum BootFault {
    ExitedBeforeAccept,
    ExitedBeforeBind,
    ConnectFailed(String),
    TimedOut,
}

/// How the wait for a VM goes on.
#[derive(Debug, Clone, PartialEq, Eq)]
pub enum BootWait {
    Ready,
    Failed(BootFault),
    /// Look again after this many milliseconds.
    RetryAfter(u64),
}

/// Why a VM could not be launched. Reasons from the machine come as text.
#[derive(Debug, Clone, PartialEq, Eq)]
pub enum LaunchFault {
    /// This program's own file could not be found.
    NoExecutable(String),
    /// The firmware could not be put in place.
    NoFirmware(String),
    /// The init binary could not be had.
    NoInit(String),
    /// The init binary could not be copied to the path given.
    InitNotCopied(String, String),
    /// The log could not be made at the path given.
    NoLog(String, String),
    /// The lifeline could not be made.
    NoLifeline(String),
    /// The process could not be started.
    NotSpawned(String),
    /// The process ended at once.
    Exited,
}

/// What is said of a VM that could not be launched.
pub open spec fn launch_message(fault: LaunchFault) -> Seq<char> {
    match fault {
        LaunchFault::NoExecutable(e) => "current_exe() failed: "@ + e@,
        LaunchFault::NoFirmware(e) =>
            "ensure_libkrunfw failed (vm.enter would crash with dlopen error): "@ + e@,
        LaunchFault::NoInit(e) => "ensure_init_binary failed: "@ + e@,
        LaunchFault::InitNotCopied(dest, e) => "copy init.krun to "@ + dest@ + ": "@ + e@,
        LaunchFault::NoLog(path, e) => "cannot create vm-boot stderr log at "@ + path@ + ": "@
            + e@,
        LaunchFault::NoLifeline(e) => "lifeline pipe: "@ + e@,
        LaunchFault::NotSpawned(e) => "spawn iii-worker __vm-boot: "@ + e@,
        LaunchFault::Exited => "child exited immediately"@,
    }
}

/// What is said of a VM that is given up. `hint` is the end of its log.
pub open spec fn fault_message(
    fault: BootFault,
    vm_pid: nat,
    sock: Seq<char>,
    hint: Seq<char>,
) -> Seq<char> {
    match fault {
        BootFault::ExitedBeforeAccept => "__vm-boot child "@ + decimal(vm_pid)
            + " exited before the shell relay accepted connections. Last stderr lines:\n"@ + hint,
        BootFault::ExitedBeforeBind => "__vm-boot child "@ + decimal(vm_pid)
            + " exited before binding shell socket "@ + sock + ". Last stderr lines:\n"@ + hint,
        BootFault::ConnectFailed(e) => "connect("@ + sock + ") failed unexpectedly: "@ + e@
            + ". Last stderr:\n"@ + hint,
        BootFault::TimedOut => "shell socket "@ + sock
            + " did not start accepting within 30s. Last stderr:\n"@ + hint,
    }
}

impl IiiWorkerLauncher {
    /// What a VM is launched with.
    pub fn plan(params: &BootParams) -> (r: LaunchPlan)
        ensures
            r.control_sock@ == with_file_name(params.shell_sock@, "control.sock"@),
            r.stderr_log@ == with_file_name(params.shell_sock@, "vm-boot.stderr.log"@),
            texts(r.argv@) == launch_args(*params, r.control_sock@),
            forall|dir: Seq<char>|
                plain_dir(dir) && params.shell_sock@ == #[trigger] joined(dir, "shell.sock"@) ==> {
                    &&& r.control_sock@ == joined(dir, "control.sock"@)
                    &&& r.stderr_log@ == joined(dir, "vm-boot.stderr.log"@)
                },
    {
        proof {
            reveal_strlit("shell.sock");
            reveal_strlit("control.sock");
            reveal_strlit("vm-boot.stderr.log");
        }
        let control_sock = sibling_path(params.shell_sock.as_str(), "control.sock");
        let stderr_log = sibling_path(params.shell_sock.as_str(), "vm-boot.stderr.log");
        let argv = Self::boot_argv(params, control_sock.as_str());
        LaunchPlan { argv, control_sock, stderr_log }
    }

    /// The argument list of a sandbox's VM.
    pub fn boot_argv(params: &BootParams, control_sock: &str) -> (r: Vec<String>)
        ensures
            texts(r@) == launch_args(*params, control_sock@),
    {
        let mut out: Vec<String> = Vec::new();
        push_text(&mut out, "__vm-boot");
        push_flag(&mut out, "--rootfs", params.rootfs.as_str());
        push_flag(&mut out, "--exec", "/bin/sh");
        push_flag(&mut out, "--arg", "-c");
        push_flag(&mut out, "--arg", "exec sleep infinity");
        push_flag(&mut out, "--workdir", "/");
        push_flag(&mut out, "--vcpus", u64_text(params.cpus as u64).as_str());
        push_flag(&mut out, "--ram", u64_text(params.memory_mb as u64).as_str());
        push_flag(&mut out, "--shell-sock", params.shell_sock.as_str());
        push_flag(&mut out, "--control-sock", control_sock);
        if params.network {
            push_text(&mut out, "--network");
        }
        push_flagged(&mut out, "--env", params.env.as_slice());
        out
    }

    /// Whether the init binary is to be copied into the rootfs before the
    /// launch: there is none in this program and none there.
    pub fn needs_init_copy(embedded: bool, on_disk: bool) -> (r: bool)
        ensures
            r == (!embedded && !on_disk),
    {
        !embedded && !on_disk
    }

    /// The error of a VM that could not be launched.
    pub fn launch_failed(fault: LaunchFault) -> (r: SandboxError)
        ensures
            r is BootFailed,
            r.detail_spec() == launch_message(fault),
    {
        let m = match fault {
            LaunchFault::NoExecutable(e) => concat("current_exe() failed: ", e.as_str()),
            LaunchFault::NoFirmware(e) => concat(
                "ensure_libkrunfw failed (vm.enter would crash with dlopen error): ",
                e.as_str(),
            ),
            LaunchFault::NoInit(e) => concat("ensure_init_binary failed: ", e.as_str()),
            LaunchFault::InitNotCopied(dest, e) => {
                let head = concat3("copy init.krun to ", dest.as_str(), ": ");
                concat(head.as_str(), e.as_str())
            },
            LaunchFault::NoLog(path, e) => {
                let head = concat3("cannot create vm-boot stderr log at ", path.as_str(), ": ");
                concat(head.as_str(), e.as_str())
            },
            LaunchFault::NoLifeline(e) => concat("lifeline pipe: ", e.as_str()),
            LaunchFault::NotSpawned(e) => concat("spawn iii-worker __vm-boot: ", e.as_str()),
            LaunchFault::Exited => "child exited immediately".to_owned(),
        };
        SandboxError::BootFailed(m)
    }

    /// How the wait for a VM goes on after a look at its socket, its process
    /// and the clock. A VM is up once it accepts a connection; a socket that
    /// nobody listens on, or none at all, is waited for while the process is
    /// alive and there is time.
    pub fn boot_wait_step(probe: SockProbe, alive: bool, past_deadline: bool) -> (r: BootWait)
        ensures
            r == (match probe {
                SockProbe::Connected => BootWait::Ready,
                SockProbe::Failed(e) => BootWait::Failed(BootFault::ConnectFailed(e)),
                SockProbe::Refused if !alive => BootWait::Failed(BootFault::ExitedBeforeAccept),
                SockProbe::Missing if !alive => BootWait::Failed(BootFault::ExitedBeforeBind),
                _ => if past_deadline {
                    BootWait::Failed(BootFault::TimedOut)
                } else {
                    BootWait::RetryAfter(BOOT_SOCKET_POLL_MS)
                },
            }),
    {
        match probe {
            SockProbe::Connected => return BootWait::Ready,
            SockProbe::Failed(e) => return BootWait::Failed(BootFault::ConnectFailed(e)),
            SockProbe::Refused => if !alive {
                return BootWait::Failed(BootFault::ExitedBeforeAccept);
            },
            SockProbe::Missing => if !alive {
                return BootWait::Failed(BootFault::ExitedBeforeBind);
            },
        }
        if past_deadline {
            BootWait::Failed(BootFault::TimedOut)
        } else {
            BootWait::RetryAfter(BOOT_SOCKET_POLL_MS)
        }
    }

    /// The error of a VM that is given up.
    pub fn boot_failed(fault: BootFault, vm_pid: u32, sock: &str, hint: &str) -> (r: SandboxError)
        ensures
            r is BootFailed,
            r.detail_spec() == fault_message(fault, vm_pid as nat, sock@, hint@),
    {
        let mut m = match fault {
            BootFault::ExitedBeforeAccept => concat3(
                "__vm-boot child ",
                u64_text(vm_pid as u64).as_str(),
                " exited before the shell relay accepted connections. Last stderr lines:\n",
            ),
            BootFault::ExitedBeforeBind => {
                let mut m = concat3(
                    "__vm-boot child ",
                    u64_text(vm_pid as u64).as_str(),
                    " exited before binding shell socket ",
                );
                m.append(sock);
                m.append(". Last stderr lines:\n");
                m
            },
            BootFault::ConnectFailed(e) => {
                let mut m = concat3("connect(", sock, ") failed unexpectedly: ");
                m.append(e.as_str());
                m.append(". Last stderr:\n");
                m
            },
            BootFault::TimedOut => concat3(
                "shell socket ",
                sock,
                " did not start accepting within 30s. Last stderr:\n",
            ),
        };
        m.append(hint);
        SandboxError::BootFailed(m)
    }
}

/// The last lines of a log.
pub open spec fn last_lines(lines: Seq<Seq<char>>) -> Seq<Seq<char>> {
    if lines.len() <= TAIL_LINES {
        lines
    } else {
        lines.skip(lines.len() - TAIL_LINES)
    }
}

/// The last lines of a log as one text.
pub open spec fn tail_text(content: Seq<char>) -> Seq<char> {
    join_with(last_lines(lines_of(content)), "\n"@)
}

/// The last lines of a log as one text.
pub fn tail_lines(content: &str) -> (r: String)
    ensures
        r@ == tail_text(content@),
{
    let lines = split_lines(content);
    let from: usize = if lines.len() <= TAIL_LINES {
        0
    } else {
        lines.len() - TAIL_LINES
    };
    let mut last: Vec<String> = Vec::new();
    let mut i: usize = from;
    while i < lines.len()
        invariant
            from <= i <= lines@.len(),
            last@.len() == i - from,
            forall|j: int| 0 <= j < i - from ==> (#[trigger] last@[j])@ == lines@[from + j]@,
        decreases lines@.len() - i,
    {
        last.push(lines[i].clone());
        i += 1;
    }
    assert(texts(lines@).len() == lines@.len());
    assert(texts(last@) == last_lines(texts(lines@)));
    join_strings(last.as_slice(), "\n")
}

/// `tail` is short, or its last bytes start at a character.
pub open spec fn cuttable(tail: Seq<char>) -> bool {
    let bytes = encode_utf8(tail);
    bytes.len() > TAIL_BYTES ==> is_char_boundary(bytes, bytes.len() - TAIL_BYTES)
}

/// `tail`, cut to its last bytes where it is long.
pub open spec fn capped(tail: Seq<char>) -> Seq<char> {
    let bytes = encode_utf8(tail);
    if bytes.len() > TAIL_BYTES {
        "  ...(truncated)\n"@ + decode_utf8(
            bytes.subrange(bytes.len() - TAIL_BYTES, bytes.len() as int),
        )
    } else {
        tail
    }
}

/// Cut the end of a log to what an error quotes. A long one must not be cut
/// inside a character.
pub fn cap_tail(tail: &str) -> (r: String)
    requires
        cuttable(tail@),
    ensures
        r@ == capped(tail@),
{
    let bytes = tail.as_bytes();
    let n: usize = bytes.len();
    if n > TAIL_BYTES {
        let (_, end) = tail.split_at(n - TAIL_BYTES);
        proof {
            vstd::utf8::encode_utf8_decode_utf8(end@);
        }
        concat("  ...(truncated)\n", end)
    } else {
        tail.to_owned()
    }
}

/// What could be read of a log.
#[derive(Debug, Clone, PartialEq, Eq)]
pub enum LogRead {
    Content(String),
    Failed(String),
}

/// What an error quotes of the log at `path`.
pub open spec fn stderr_hint(path: Seq<char>, read: LogRead) -> Seq<char> {
    match read {
        LogRead::Content(c) => if c@.len() == 0 {
            "  (stderr log at "@ + path + " is empty)"@
        } else {
            capped(tail_text(c@))
        },
        LogRead::Failed(e) => "  (could not read stderr log "@ + path + ": "@ + e@ + ")"@,
    }
}

/// What an error quotes of the log at `path`: its last lines.
pub fn read_stderr_tail(path: &str, read: &LogRead) -> (r: String)
    requires
        match *read {
            LogRead::Content(c) => cuttable(tail_text(c@)),
            LogRead::Failed(_) => true,
        },
    ensures
        r@ == stderr_hint(path@, *read),
{
    match read {
        LogRead::Content(c) => if c.as_str().is_empty() {
            concat3("  (stderr log at ", path, " is empty)")
        } else {
            cap_tail(tail_lines(c.as_str()).as_str())
        },
        LogRead::Failed(e) => {
            let mut m = concat3("  (could not read stderr log ", path, ": ");
            m.append(e.as_str());
            m.append(")");
            m
        },
    }
}

/// The message of a command's dispatcher tells of a missing program.
pub open spec fn says_not_found(msg: Seq<char>) -> bool {
    ||| has_substring(msg, "No such file or directory"@)
    ||| has_substring(msg, "(os error 2)"@)
    ||| has_substring(msg, "Not a directory"@)
    ||| has_substring(msg, "(os error 20)"@)
}

/// The message of a command's dispatcher tells of a program that may not run.
pub open spec fn says_denied(msg: Seq<char>) -> bool {
    has_substring(msg, "Permission denied"@) || has_substring(msg, "(os error 13)"@)
}

/// `resp` is what a shell answers where it cannot run `cmd`.
pub open spec fn cannot_run(
    resp: ExecResponse,
    cmd: Seq<char>,
    why: Seq<char>,
    exit_code: i32,
    duration_ms: u64,
) -> bool {
    &&& resp.stdout@ == Seq::<char>::empty()
    &&& resp.stderr@ == "exec: "@ + cmd + why
    &&& resp.exit_code == Some(exit_code)
    &&& !resp.timed_out
    &&& resp.duration_ms == duration_ms
    &&& !resp.success
}

/// What a shell would answer to a dispatcher's failure to start `cmd`: exit
/// code 127 where the program was not found, 126 where it may not run. Any
/// other failure is none of the command's.
pub fn classify_dispatcher_spawn_error(msg: &str, cmd: &str, duration_ms: u64) -> (r: Option<
    ExecResponse,
>)
    ensures
        match r {
            Some(resp) => if says_not_found(msg@) {
                cannot_run(resp, cmd@, ": not found\n"@, 127, duration_ms)
            } else {
                says_denied(msg@) && cannot_run(
                    resp,
                    cmd@,
                    ": permission denied\n"@,
                    126,
                    duration_ms,
                )
            },
            None => !says_not_found(msg@) && !says_denied(msg@),
        },
{
    let is_enoent = contains_text(msg, "No such file or directory") || contains_text(
        msg,
        "(os error 2)",
    );
    let is_enotdir = contains_text(msg, "Not a directory") || contains_text(msg, "(os error 20)");
    let is_eacces = contains_text(msg, "Permission denied") || contains_text(msg, "(os error 13)");
    if is_enoent || is_enotdir {
        return Some(
            ExecResponse {
                stdout: String::new(),
                stderr: concat3("exec: ", cmd, ": not found\n"),
                exit_code: Some(127),
                timed_out: false,
                duration_ms,
                success: false,
            },
        );
    }
    if is_eacces {
        return Some(
            ExecResponse {
                stdout: String::new(),
                stderr: concat3("exec: ", cmd, ": permission denied\n"),
                exit_code: Some(126),
                timed_out: false,
                duration_ms,
                success: false,
            },
        );
    }
    None
}

/// A command's input, given what decoding it came to.
pub fn stdin_from(decoded: Result<Vec<u8>, String>) -> (r: Result<Option<Vec<u8>>, SandboxError>)
    ensures
        match decoded {
            Ok(bytes) => r == Ok::<Option<Vec<u8>>, SandboxError>(Some(bytes)),
            Err(e) => fails(r, SandboxErrorCode::S001, "stdin base64 decode: "@ + e@),
        },
{
    match decoded {
        Ok(bytes) => Ok(Some(bytes)),
        Err(e) => Err(
            SandboxError::InvalidRequest(concat("stdin base64 decode: ", e.as_str())),
        ),
    }
}

/// A command's input: what the request carries, and nothing where it carries
/// none. There always is an input, so that a command that reads it sees its
/// end.
pub fn decode_stdin(stdin: Option<&str>) -> (r: Result<Option<Vec<u8>>, SandboxError>)
    ensures
        match opt_str(stdin) {
            None => r is Ok && r->Ok_0 is Some && r->Ok_0->0@ == Seq::<u8>::empty(),
            Some(s) => if s.len() == 0 {
                r is Ok && r->Ok_0 is Some && r->Ok_0->0@ == Seq::<u8>::empty()
            } else {
                match base64_decoded(s) {
                    Ok(bytes) => r is Ok && r->Ok_0 is Some && r->Ok_0->0@ == bytes,
                    Err(e) => fails(r, SandboxErrorCode::S001, "stdin base64 decode: "@ + e),
                }
            },
        },
{
    match stdin {
        None => Ok(Some(Vec::new())),
        Some(s) => if s.is_empty() {
            Ok(Some(Vec::new()))
        } else {
            stdin_from(decode_base64(s))
        },
    }
}

/// Runs commands over a sandbox's shell socket.
#[derive(Debug, Clone, Copy, PartialEq, Eq)]
pub struct ShellProtoRunner;

/// What is sent to a sandbox to run a command.
#[derive(Debug, Clone, PartialEq, Eq)]
pub struct RequestSpec {
    pub cmd: String,
    pub args: Vec<String>,
    pub cwd: Option<String>,
    pub env: Vec<String>,
    pub stdin: Option<Vec<u8>>,
}

/// What became of a command that was sent to a sandbox.
#[derive(Debug, Clone, PartialEq, Eq)]
pub enum RunOutcome {
    /// There was no runtime to run the exchange on, for the reason given.
    NoRuntime(String),
    /// The exchange was lost, for the reason given.
    Lost(String),
    /// The sandbox could not be reached, for the reason given.
    ConnectFailed(String),
    /// The deadline passed.
    TimedOut,
    /// The dispatcher in the sandbox refused: its message, and the whole error
    /// as text.
    Dispatcher(String, String),
    /// The exchange failed, with the error given as text.
    Failed(String),
    /// The command ended, or was ended.
    Done { code: Option<i32>, timed_out: bool, stdout: Vec<u8>, stderr: Vec<u8> },
}

impl ShellProtoRunner {
    /// The milliseconds that a command gets.
    pub fn timeout_ms(req: &ExecRequest) -> (r: u64)
        ensures
            r == (match req.timeout_ms {
                Some(t) => t,
                None => DEFAULT_EXEC_TIMEOUT_MS,
            }),
    {
        match req.timeout_ms {
            Some(t) => t,
            None => DEFAULT_EXEC_TIMEOUT_MS,
        }
    }

    /// What is sent to a sandbox to run a command: the variables are checked
    /// first, then the input is decoded.
    pub fn request_spec(req: &ExecRequest) -> (r: Result<RequestSpec, SandboxError>)
        ensures
            match req.env.kv_spec() {
                Err(m) => fails(r, SandboxErrorCode::S001, m),
                Ok(env) => {
                    let input = match req.stdin {
                        Some(s) => if s@.len() == 0 {
                            Ok::<Seq<u8>, Seq<char>>(Seq::empty())
                        } else {
                            base64_decoded(s@)
                        },
                        None => Ok::<Seq<u8>, Seq<char>>(Seq::empty()),
                    };
                    match input {
                        Err(e) => fails(
                            r,
                            SandboxErrorCode::S001,
                            "stdin base64 decode: "@ + e,
                        ),
                        Ok(bytes) => {
                            &&& r is Ok
                            &&& r->Ok_0.cmd@ == req.cmd@
                            &&& texts(r->Ok_0.args@) == texts(req.args@)
                            &&& r->Ok_0.cwd == req.workdir
                            &&& texts(r->Ok_0.env@) == env
                            &&& r->Ok_0.stdin is Some
                            &&& r->Ok_0.stdin->0@ == bytes
                        },
                    }
                },
            },
    {
        let env = match req.env.clone().into_kv_vec() {
            Ok(v) => v,
            Err(e) => return Err(e),
        };
        let given: Option<&str> = match &req.stdin {
            Some(s) => Some(s.as_str()),
            None => None,
        };
        let stdin = match decode_stdin(given) {
            Ok(b) => b,
            Err(e) => return Err(e),
        };
        let args = req.args.clone();
        assert(texts(args@) == texts(req.args@));
        let cwd = match &req.workdir {
            Some(d) => Some(d.clone()),
            None => None,
        };
        Ok(RequestSpec { cmd: req.cmd.clone(), args, cwd, env, stdin })
    }

    /// What a command came to. A command that could not be started is the
    /// command's own failure; one that ran out of time, and a sandbox that
    /// could not be reached, are errors.
    pub fn finish_run(
        outcome: RunOutcome,
        cmd: &str,
        timeout_ms: u64,
        duration_ms: u64,
    ) -> (r: Result<ExecResponse, SandboxError>)
        ensures
            match outcome {
                RunOutcome::NoRuntime(e) => fails(
                    r,
                    SandboxErrorCode::S300,
                    "inner runtime build: "@ + e@,
                ),
                RunOutcome::Lost(e) => fails(
                    r,
                    SandboxErrorCode::S300,
                    "spawn_blocking join: "@ + e@,
                ),
                RunOutcome::ConnectFailed(e) => fails(
                    r,
                    SandboxErrorCode::S300,
                    "shell connect: "@ + e@,
                ),
                RunOutcome::TimedOut => r == Err::<ExecResponse, SandboxError>(
                    SandboxError::ExecTimedOut { timeout_ms },
                ),
                RunOutcome::Dispatcher(msg, e) => if says_not_found(msg@) {
                    r is Ok && cannot_run(r->Ok_0, cmd@, ": not found\n"@, 127, duration_ms)
                } else if says_denied(msg@) {
                    r is Ok && cannot_run(
                        r->Ok_0,
                        cmd@,
                        ": permission denied\n"@,
                        126,
                        duration_ms,
                    )
                } else {
                    fails(r, SandboxErrorCode::S300, "shell run: "@ + e@)
                },
                RunOutcome::Failed(e) => fails(r, SandboxErrorCode::S300, "shell run: "@ + e@),
                RunOutcome::Done { code, timed_out, stdout, stderr } => if timed_out {
                    r == Err::<ExecResponse, SandboxError>(
                        SandboxError::ExecTimedOut { timeout_ms },
                    )
                } else {
                    &&& r is Ok
                    &&& r->Ok_0.stdout@ == utf8_lossy(stdout@)
                    &&& r->Ok_0.stderr@ == utf8_lossy(stderr@)
                    &&& valid_utf8(stdout@) ==> r->Ok_0.stdout@ == decode_utf8(stdout@)
                    &&& valid_utf8(stderr@) ==> r->Ok_0.stderr@ == decode_utf8(stderr@)
                    &&& r->Ok_0.exit_code == code
                    &&& !r->Ok_0.timed_out
                    &&& r->Ok_0.duration_ms == duration_ms
                    &&& r->Ok_0.success == (code == Some(0i32))
                },
            },
    {
        match outcome {
            RunOutcome::NoRuntime(e) => Err(
                SandboxError::BootFailed(concat("inner runtime build: ", e.as_str())),
            ),
            RunOutcome::Lost(e) => Err(
                SandboxError::BootFailed(concat("spawn_blocking join: ", e.as_str())),
            ),
            RunOutcome::ConnectFailed(e) => Err(
                SandboxError::BootFailed(concat("shell connect: ", e.as_str())),
            ),
            RunOutcome::TimedOut => Err(SandboxError::ExecTimedOut { timeout_ms }),
            RunOutcome::Dispatcher(msg, e) => match classify_dispatcher_spawn_error(
                msg.as_str(),
                cmd,
                duration_ms,
            ) {
                Some(resp) => Ok(resp),
                None => Err(SandboxError::BootFailed(concat("shell run: ", e.as_str()))),
            },
            RunOutcome::Failed(e) => Err(
                SandboxError::BootFailed(concat("shell run: ", e.as_str())),
            ),
            RunOutcome::Done { code, timed_out, stdout, stderr } => {
                if timed_out {
                    return Err(SandboxError::ExecTimedOut { timeout_ms });
                }
                let success = match code {
                    Some(c) => c == 0,
                    None => false,
                };
                Ok(
                    ExecResponse {
                        stdout: lossy_text(stdout.as_slice()),
                        stderr: lossy_text(stderr.as_slice()),
                        exit_code: code,
                        timed_out: false,
                        duration_ms,
                        success,
                    },
                )
            },
        }
    }
}

/// A VM is up only if it accepted a connection, and is never given up while it
/// may still come up: a live process without a failed connect is waited for
/// until the deadline.
pub proof fn boot_wait_is_patient(probe: SockProbe, past_deadline: bool, r: BootWait)
    requires
        call_ensures(IiiWorkerLauncher::boot_wait_step, (probe, true, past_deadline), r),
        !(probe is Failed),
    ensures
        r is Ready <==> probe is Connected,
        r is Failed ==> past_deadline,
{
}

/// Ends VMs by signals.
#[derive(Debug, Clone, Copy, PartialEq, Eq)]
pub struct SignalStopper;

/// A step of ending a VM.
#[derive(Debug, Clone, Copy, PartialEq, Eq)]
pub enum SignalStep {
    Terminate(u32),
    WaitMs(u64),
    Kill(u32),
    /// Look at the process until it is gone.
    AwaitGone(u32),
}

/// Milliseconds between two looks at a VM's process that is to be gone.
pub const GONE_POLL_MS: u64 = 10;

/// The steps of ending a VM: ask, wait a little, kill; and, if the caller is to
/// be answered only then, wait until the process is gone.
pub open spec fn signal_steps(vm_pid: u32, wait: bool) -> Seq<SignalStep> {
    seq![
        SignalStep::Terminate(vm_pid),
        SignalStep::WaitMs(STOP_GRACE_MS),
        SignalStep::Kill(vm_pid),
    ] + (if wait {
        seq![SignalStep::AwaitGone(vm_pid)]
    } else {
        Seq::empty()
    })
}

impl SignalStopper {
    /// The steps of ending a VM, whatever each signal comes to.
    pub fn steps(vm_pid: u32, wait: bool) -> (r: Vec<SignalStep>)
        ensures
            r@ == signal_steps(vm_pid, wait),
    {
        let mut steps: Vec<SignalStep> = Vec::new();
        steps.push(SignalStep::Terminate(vm_pid));
        steps.push(SignalStep::WaitMs(STOP_GRACE_MS));
        steps.push(SignalStep::Kill(vm_pid));
        if wait {
            steps.push(SignalStep::AwaitGone(vm_pid));
        }
        steps
    }

    /// How the wait for a process to be gone goes on, given the error of
    /// probing it, if any: it is over once there is no such process, and goes
    /// on after so many milliseconds until then.
    pub fn gone_wait_step(probe_errno: Option<i32>) -> (r: Option<u64>)
        ensures
            r == (if probe_errno == Some(ESRCH) {
                None
            } else {
                Some(GONE_POLL_MS)
            }),
    {
        if process_is_gone(probe_errno) {
            None
        } else {
            Some(GONE_POLL_MS)
        }
    }
}

/// A stop that waits ends with the wait for the process that it ends, and a
/// stop that does not wait holds no such step.
pub proof fn waiting_stop_ends_with_the_process(vm_pid: u32, pid: u32)
    ensures
        signal_steps(vm_pid, true).last() == SignalStep::AwaitGone(vm_pid),
        signal_steps(vm_pid, true).drop_last() == signal_steps(vm_pid, false),
        !signal_steps(vm_pid, false).contains(SignalStep::AwaitGone(pid)),
{
    assert(signal_steps(vm_pid, true).drop_last() =~= signal_steps(vm_pid, false));
}

} // verus!
