//! When a daemon ends itself: on a signal, or once the engine that it serves
//! is gone. A pipe from the spawner (the lifeline) tells of the spawner's
//! death; polling a declared process id, or the parent's, backs it up.

use crate::numbers::{
    decimal, decimal_int, decimal_int_is_trimmed, decimal_int_reads_back, i64_text, parse_i32,
    parsed_i32, u64_text,
};
use crate::paths::{joined_bytes, opt_path, HostPath};
use crate::text::{concat, concat3, opt_str, pair_texts, trim, trimmed};
use vstd::prelude::*;
use vstd::utf8::encode_utf8;

verus! {

/// Names the engine's process id.
pub const ENGINE_PID_ENV: &'static str = "III_ENGINE_PID";

/// Names the lifeline's read end.
pub const LIFELINE_FD_ENV: &'static str = "III_LIFELINE_FD";

/// Names the process that holds the lifeline's write end.
pub const LIFELINE_SPAWNER_PID_ENV: &'static str = "III_LIFELINE_SPAWNER_PID";

/// Seconds between two looks at a watched process.
pub const ENGINE_POLL_INTERVAL_SECS: u64 = 2;

/// The process id that a variable declares: a number above 1, whitespace
/// around it aside.
pub open spec fn declared_pid(value: Option<Seq<char>>) -> Option<int> {
    match value {
        Some(v) => match parsed_i32(trimmed(v)) {
            Some(p) => if p > 1 {
                Some(p)
            } else {
                None
            },
            None => None,
        },
        None => None,
    }
}

/// The contents of an optional process id.
pub open spec fn opt_pid(o: Option<i32>) -> Option<int> {
    match o {
        Some(p) => Some(p as int),
        None => None,
    }
}

/// The engine's process id, as the environment declares it.
pub fn engine_pid_from_env(value: Option<&str>) -> (r: Option<i32>)
    ensures
        opt_pid(r) == declared_pid(opt_str(value)),
{
    match value {
        Some(v) => match parse_i32(trim(v).as_str()) {
            Some(p) => if p > 1 {
                Some(p)
            } else {
                None
            },
            None => None,
        },
        None => None,
    }
}

/// What was taken from the environment before any thread ran: the lifeline's
/// descriptor, until someone takes it, and the spawner's process id.
#[derive(Debug, Clone, Copy, PartialEq, Eq)]
pub struct EarlyCapture {
    pub lifeline: Option<i32>,
    pub spawner_pid: Option<i32>,
}

/// Capture the environment once: a later capture changes nothing.
pub fn capture_early(
    early: &mut Option<EarlyCapture>,
    lifeline: Option<i32>,
    spawner_pid: Option<&str>,
)
    ensures
        match *old(early) {
            Some(_) => *final(early) == *old(early),
            None => match *final(early) {
                Some(e) => {
                    &&& e.lifeline == lifeline
                    &&& opt_pid(e.spawner_pid) == declared_pid(opt_str(spawner_pid))
                },
                None => false,
            },
        },
{
    if early.is_none() {
        *early = Some(EarlyCapture { lifeline, spawner_pid: engine_pid_from_env(spawner_pid) });
    }
}

/// Take the captured lifeline; there is one to take at most once.
pub fn take_early_lifeline(early: &mut Option<EarlyCapture>) -> (r: Option<i32>)
    ensures
        match *old(early) {
            Some(e) => {
                &&& r == e.lifeline
                &&& *final(early) == Some(
                    EarlyCapture { lifeline: None, spawner_pid: e.spawner_pid },
                )
            },
            None => r is None && *final(early) is None,
        },
{
    match *early {
        Some(e) => {
            *early = Some(EarlyCapture { lifeline: None, spawner_pid: e.spawner_pid });
            e.lifeline
        },
        None => None,
    }
}

/// The captured spawner's process id.
pub fn early_spawner_pid(early: &Option<EarlyCapture>) -> (r: Option<i32>)
    ensures
        r == (match *early {
            Some(e) => e.spawner_pid,
            None => None,
        }),
{
    match early {
        Some(e) => e.spawner_pid,
        None => None,
    }
}

/// Why a declared lifeline is not used.
#[derive(Debug, Clone, Copy, PartialEq, Eq)]
pub enum LifelineRefusal {
    /// The variable does not hold a number.
    Unparsable,
    /// The variable names a standard stream.
    Stdio,
    /// The descriptor is not open.
    NotOpen,
    /// The descriptor is open and not a pipe.
    NotAPipe,
    /// The descriptor could not be kept from children.
    NotRearmed,
}

/// The file type bits of a mode.
pub const FILE_TYPE_MASK: u32 = 0o170000;

/// The file type of a pipe.
pub const FILE_TYPE_FIFO: u32 = 0o010000;

/// The descriptor that the lifeline variable names.
pub fn declared_lifeline_fd(value: &str) -> (r: Result<i32, LifelineRefusal>)
    ensures
        match parsed_i32(trimmed(value@)) {
            Some(fd) => if fd <= 2 {
                r == Err::<i32, LifelineRefusal>(LifelineRefusal::Stdio)
            } else {
                r is Ok && r->Ok_0 == fd
            },
            None => r == Err::<i32, LifelineRefusal>(LifelineRefusal::Unparsable),
        },
{
    match parse_i32(trim(value).as_str()) {
        Some(fd) => if fd <= 2 {
            Err(LifelineRefusal::Stdio)
        } else {
            Ok(fd)
        },
        None => Err(LifelineRefusal::Unparsable),
    }
}

/// Whether an open descriptor can be the lifeline. `mode` is what the file
/// system says of it, if it is open.
pub fn check_lifeline_fd(mode: Option<u32>) -> (r: Result<(), LifelineRefusal>)
    ensures
        r == (match mode {
            Some(m) => if m & FILE_TYPE_MASK == FILE_TYPE_FIFO {
                Ok::<(), LifelineRefusal>(())
            } else {
                Err::<(), LifelineRefusal>(LifelineRefusal::NotAPipe)
            },
            None => Err::<(), LifelineRefusal>(LifelineRefusal::NotOpen),
        }),
{
    match mode {
        Some(m) => if m & FILE_TYPE_MASK == FILE_TYPE_FIFO {
            Ok(())
        } else {
            Err(LifelineRefusal::NotAPipe)
        },
        None => Err(LifelineRefusal::NotOpen),
    }
}

/// The lifeline that the environment declares: `None` where it declares none,
/// a refusal where what it declares cannot be used. `mode` is what the file
/// system says of the descriptor, if it is open; `rearmed` whether it could be
/// kept from children.
pub fn lifeline_fd_from_env(value: Option<&str>, mode: Option<u32>, rearmed: bool) -> (r: Option<
    Result<i32, LifelineRefusal>,
>)
    ensures
        match value {
            None => r is None,
            Some(v) => match parsed_i32(trimmed(v@)) {
                None => r == Some(Err::<i32, LifelineRefusal>(LifelineRefusal::Unparsable)),
                Some(fd) => if fd <= 2 {
                    r == Some(Err::<i32, LifelineRefusal>(LifelineRefusal::Stdio))
                } else if mode is None {
                    r == Some(Err::<i32, LifelineRefusal>(LifelineRefusal::NotOpen))
                } else if mode->0 & FILE_TYPE_MASK != FILE_TYPE_FIFO {
                    r == Some(Err::<i32, LifelineRefusal>(LifelineRefusal::NotAPipe))
                } else if !rearmed {
                    r == Some(Err::<i32, LifelineRefusal>(LifelineRefusal::NotRearmed))
                } else {
                    r is Some && r->0 is Ok && r->0->Ok_0 == fd
                },
            },
        },
{
    match value {
        None => None,
        Some(v) => match declared_lifeline_fd(v) {
            Err(e) => Some(Err(e)),
            Ok(fd) => match check_lifeline_fd(mode) {
                Err(e) => Some(Err(e)),
                Ok(_) => if rearmed {
                    Some(Ok(fd))
                } else {
                    Some(Err(LifelineRefusal::NotRearmed))
                },
            },
        },
    }
}

/// The descriptor flag that closes a descriptor across exec.
pub const FD_CLOEXEC: i32 = 1;

/// Descriptor flags with close-on-exec set and the others kept.
pub fn set_cloexec(flags: i32) -> (r: i32)
    ensures
        r & FD_CLOEXEC == FD_CLOEXEC,
        r & !FD_CLOEXEC == flags & !FD_CLOEXEC,
{
    let r: i32 = flags | FD_CLOEXEC;
    assert((flags | 1i32) & 1i32 == 1i32) by (bit_vector);
    assert((flags | 1i32) & !1i32 == flags & !1i32) by (bit_vector);
    r
}

/// Descriptor flags with close-on-exec cleared and the others kept.
pub fn clear_cloexec(flags: i32) -> (r: i32)
    ensures
        r & FD_CLOEXEC == 0,
        r & !FD_CLOEXEC == flags & !FD_CLOEXEC,
{
    let r: i32 = flags & !FD_CLOEXEC;
    assert((flags & !1i32) & 1i32 == 0i32) by (bit_vector);
    assert((flags & !1i32) & !1i32 == flags & !1i32) by (bit_vector);
    r
}

/// The two ends of a lifeline that this process holds for a child: the child
/// dies when the last write end closes.
#[derive(Debug, Clone, Copy, PartialEq, Eq)]
pub struct Lifeline {
    pub write_fd: i32,
    pub read_fd: i32,
}

/// The variables that hand a lifeline to a child.
pub fn lifeline_env(lifeline: &Lifeline, own_pid: u32) -> (r: Vec<(String, String)>)
    ensures
        pair_texts(r@) == seq![
            (LIFELINE_FD_ENV@, decimal_int(lifeline.read_fd as int)),
            (LIFELINE_SPAWNER_PID_ENV@, decimal(own_pid as nat)),
        ],
{
    let mut env: Vec<(String, String)> = Vec::new();
    env.push((LIFELINE_FD_ENV.to_owned(), i64_text(lifeline.read_fd as i64)));
    env.push((LIFELINE_SPAWNER_PID_ENV.to_owned(), u64_text(own_pid as u64)));
    env
}

/// What one read of the lifeline came to.
#[derive(Debug, Clone, Copy, PartialEq, Eq)]
pub enum PipeRead {
    Data,
    Eof,
    Interrupted,
    Failed,
}

/// Whether the wait for the lifeline's end is over: with `true` at the end of
/// the pipe, with `false` where reading failed, and not otherwise.
pub fn lifeline_verdict(read: PipeRead) -> (r: Option<bool>)
    ensures
        r == (match read {
            PipeRead::Eof => Some(true),
            PipeRead::Failed => Some(false),
            _ => None,
        }),
{
    match read {
        PipeRead::Eof => Some(true),
        PipeRead::Failed => Some(false),
        _ => None,
    }
}

/// The error number that says that there is no such process.
pub const ESRCH: i32 = 3;

/// Whether a process is gone, given the error of probing it, if any: one that
/// may not be signalled exists.
pub fn process_is_gone(probe_errno: Option<i32>) -> (r: bool)
    ensures
        r == (probe_errno == Some(ESRCH)),
{
    match probe_errno {
        Some(e) => e == ESRCH,
        None => false,
    }
}

/// Whether a look at the parent's process id means that the parent that
/// spawned this process is no longer its parent. A process without a real
/// parent at startup was never reparented.
pub fn reparented_away(initial: i32, current: i32) -> (r: bool)
    ensures
        r == (initial > 1 && current != initial),
{
    initial > 1 && current != initial
}

/// Which process the exit watch polls.
#[derive(Debug, Clone, Copy, PartialEq, Eq)]
pub enum Backstop {
    /// The declared engine, or else the declared spawner.
    Pid(i32),
    /// The parent that spawned this process.
    Parent(i32),
    /// None: there is no parent to watch.
    Disarmed,
}

/// What ends a daemon.
#[derive(Debug, Clone, Copy, PartialEq, Eq)]
pub enum ExitReason {
    Sigint,
    Sigterm,
    Sighup,
    EngineGone,
}

impl ExitReason {
    /// The reason as it is logged.
    pub open spec fn text(self) -> Seq<char> {
        match self {
            ExitReason::Sigint => "sigint"@,
            ExitReason::Sigterm => "sigterm"@,
            ExitReason::Sighup => "sighup"@,
            ExitReason::EngineGone => "engine-gone"@,
        }
    }

    /// The reason as it is logged.
    pub fn as_str(self) -> (r: &'static str)
        ensures
            r@ == self.text(),
    {
        match self {
            ExitReason::Sigint => "sigint",
            ExitReason::Sigterm => "sigterm",
            ExitReason::Sighup => "sighup",
            ExitReason::EngineGone => "engine-gone",
        }
    }
}

/// What the exit watch learns.
#[derive(Debug, Clone, Copy, PartialEq, Eq)]
pub enum WatchEvent {
    Sigint,
    Sigterm,
    Sighup,
    /// The lifeline's last write end closed.
    LifelineEof,
    /// The lifeline cannot be read any more.
    LifelineFailed,
    /// A look at the watched process: whether it is gone, and the parent's
    /// process id now.
    Poll { gone: bool, parent: i32 },
}

/// What a daemon watches in order to end with its engine.
#[derive(Debug, Clone, Copy, PartialEq, Eq)]
pub struct ExitWatch {
    /// The parent at startup.
    pub spawn_parent: i32,
    pub engine_pid: Option<i32>,
    pub spawner_pid: Option<i32>,
    /// The lifeline's read end, while it can be trusted.
    pub lifeline: Option<i32>,
}

impl ExitWatch {
    /// Arm the watch from what is known at startup. A lifeline captured early
    /// comes before one found in the environment now.
    pub fn arm_at_startup(
        spawn_parent: i32,
        engine_pid: Option<&str>,
        early: &mut Option<EarlyCapture>,
        env_lifeline: Option<i32>,
    ) -> (r: ExitWatch)
        ensures
            r.spawn_parent == spawn_parent,
            opt_pid(r.engine_pid) == declared_pid(opt_str(engine_pid)),
            match *old(early) {
                Some(e) => {
                    &&& r.spawner_pid == e.spawner_pid
                    &&& r.lifeline == (if e.lifeline is Some {
                        e.lifeline
                    } else {
                        env_lifeline
                    })
                    &&& *final(early) == Some(
                        EarlyCapture { lifeline: None, spawner_pid: e.spawner_pid },
                    )
                },
                None => r.spawner_pid is None && r.lifeline == env_lifeline && *final(early) is None,
            },
    {
        let spawner_pid = early_spawner_pid(early);
        let lifeline = match take_early_lifeline(early) {
            Some(fd) => Some(fd),
            None => env_lifeline,
        };
        ExitWatch {
            spawn_parent,
            engine_pid: engine_pid_from_env(engine_pid),
            spawner_pid,
            lifeline,
        }
    }

    /// Which process is polled.
    pub open spec fn backstop_spec(self) -> Backstop {
        match (self.engine_pid, self.spawner_pid) {
            (Some(p), _) => Backstop::Pid(p),
            (None, Some(p)) => Backstop::Pid(p),
            (None, None) => if self.spawn_parent <= 1 {
                Backstop::Disarmed
            } else {
                Backstop::Parent(self.spawn_parent)
            },
        }
    }

    /// Which process is polled: the engine if it is declared, else the
    /// spawner, else the parent.
    pub fn backstop(&self) -> (r: Backstop)
        ensures
            r == self.backstop_spec(),
    {
        match self.engine_pid {
            Some(p) => Backstop::Pid(p),
            None => match self.spawner_pid {
                Some(p) => Backstop::Pid(p),
                None => if self.spawn_parent <= 1 {
                    Backstop::Disarmed
                } else {
                    Backstop::Parent(self.spawn_parent)
                },
            },
        }
    }

    /// A look at the watched process shows that the engine is gone.
    pub open spec fn poll_fires(self, gone: bool, parent: i32) -> bool {
        match self.backstop_spec() {
            Backstop::Pid(_) => gone,
            Backstop::Parent(initial) => initial > 1 && parent != initial && gone,
            Backstop::Disarmed => false,
        }
    }

    /// Why the daemon ends on `event`, if it does.
    pub open spec fn reason_for(self, event: WatchEvent) -> Option<ExitReason> {
        match event {
            WatchEvent::Sigint => Some(ExitReason::Sigint),
            WatchEvent::Sigterm => Some(ExitReason::Sigterm),
            WatchEvent::Sighup => Some(ExitReason::Sighup),
            WatchEvent::LifelineEof => if self.lifeline is Some {
                Some(ExitReason::EngineGone)
            } else {
                None
            },
            WatchEvent::LifelineFailed => None,
            WatchEvent::Poll { gone, parent } => if self.poll_fires(gone, parent) {
                Some(ExitReason::EngineGone)
            } else {
                None
            },
        }
    }

    /// Take an event: why the daemon ends on it, if it does. A lifeline that
    /// fails is given up, and the polling goes on.
    pub fn step(&mut self, event: WatchEvent) -> (r: Option<ExitReason>)
        ensures
            r == old(self).reason_for(event),
            *final(self) == (if event is LifelineFailed {
                ExitWatch { lifeline: None, ..*old(self) }
            } else {
                *old(self)
            }),
    {
        match event {
            WatchEvent::Sigint => Some(ExitReason::Sigint),
            WatchEvent::Sigterm => Some(ExitReason::Sigterm),
            WatchEvent::Sighup => Some(ExitReason::Sighup),
            WatchEvent::LifelineEof => if self.lifeline.is_some() {
                Some(ExitReason::EngineGone)
            } else {
                None
            },
            WatchEvent::LifelineFailed => {
                self.lifeline = None;
                None
            },
            WatchEvent::Poll { gone, parent } => {
                let fires = match self.backstop() {
                    Backstop::Pid(_) => gone,
                    Backstop::Parent(initial) => reparented_away(initial, parent) && gone,
                    Backstop::Disarmed => false,
                };
                if fires {
                    Some(ExitReason::EngineGone)
                } else {
                    None
                }
            },
        }
    }

    /// The line left in the exit log when the daemon ends for `reason`: only
    /// an engine that is gone leaves one.
    pub fn breadcrumb(&self, daemon: &str, reason: ExitReason, unix_secs: u64) -> (r: Option<
        String,
    >)
        ensures
            match r {
                Some(line) => {
                    &&& reason is EngineGone
                    &&& line@ == breadcrumb_line(
                        unix_secs as nat,
                        daemon@,
                        opt_pid(self.engine_pid),
                        self.spawn_parent as int,
                    )
                },
                None => !(reason is EngineGone),
            },
    {
        match reason {
            ExitReason::EngineGone => Some(
                write_exit_breadcrumb(unix_secs, daemon, self.engine_pid, self.spawn_parent),
            ),
            _ => None,
        }
    }
}

/// The exit log's line for an engine that is gone.
pub open spec fn breadcrumb_line(
    unix_secs: nat,
    daemon: Seq<char>,
    engine_pid: Option<int>,
    spawn_parent: int,
) -> Seq<char> {
    "ts="@ + decimal(unix_secs) + " daemon="@ + daemon
        + " self-exit reason=engine-gone engine_pid="@ + (match engine_pid {
        Some(p) => decimal_int(p),
        None => "none"@,
    }) + " spawn_parent="@ + decimal_int(spawn_parent) + "\n"@
}

/// The exit log's line for an engine that is gone.
pub fn write_exit_breadcrumb(
    unix_secs: u64,
    daemon: &str,
    engine_pid: Option<i32>,
    spawn_parent: i32,
) -> (r: String)
    ensures
        r@ == breadcrumb_line(
            unix_secs as nat,
            daemon@,
            opt_pid(engine_pid),
            spawn_parent as int,
        ),
{
    let mut line = concat3("ts=", u64_text(unix_secs).as_str(), " daemon=");
    line.append(daemon);
    line.append(" self-exit reason=engine-gone engine_pid=");
    match engine_pid {
        Some(p) => line.append(i64_text(p as i64).as_str()),
        None => line.append("none"),
    }
    line.append(" spawn_parent=");
    line.append(i64_text(spawn_parent as i64).as_str());
    line.append("\n");
    line
}

/// Where a daemon leaves its last words, if the user has a home.
pub fn exit_log_path(home: &Option<HostPath>, daemon: &str) -> (r: Option<HostPath>)
    ensures
        opt_path(r) == (match *home {
            Some(h) => Some(
                joined_bytes(
                    joined_bytes(h@, encode_utf8(".iii/logs"@)),
                    encode_utf8(daemon@ + ".log"@),
                ),
            ),
            None => None,
        }),
{
    match home {
        Some(h) => Some(h.join(".iii/logs").join(concat(daemon, ".log").as_str())),
        None => None,
    }
}

/// What a spawner writes of a lifeline, its child reads back: the descriptor,
/// and the spawner's process id.
pub proof fn lifeline_env_reads_back(read_fd: i32, own_pid: u32)
    requires
        read_fd > 2,
        1 < own_pid <= i32::MAX,
    ensures
        parsed_i32(trimmed(decimal_int(read_fd as int))) == Some(read_fd as int),
        declared_pid(Some(decimal(own_pid as nat))) == Some(own_pid as int),
{
    decimal_int_reads_back(read_fd);
    decimal_int_is_trimmed(read_fd as int);
    decimal_int_reads_back(own_pid as i32);
    decimal_int_is_trimmed(own_pid as int);
}

/// A daemon whose engine is declared and alive does not end for being
/// orphaned, whoever its parent now is.
pub proof fn declared_engine_outranks_parent(w: ExitWatch, parent: i32)
    requires
        w.engine_pid is Some,
    ensures
        w.reason_for(WatchEvent::Poll { gone: false, parent }) is None,
        w.backstop_spec() == Backstop::Pid(w.engine_pid->0),
{
}

/// The end of the lifeline ends the daemon at once, even while the engine that
/// is declared lives.
pub proof fn lifeline_outranks_backstop(w: ExitWatch)
    requires
        w.lifeline is Some,
    ensures
        w.reason_for(WatchEvent::LifelineEof) == Some(ExitReason::EngineGone),
{
}

/// Where no engine is declared, the spawner's death ends the daemon, though
/// someone else still holds the lifeline open.
pub proof fn spawner_covers_leaked_lifeline(w: ExitWatch, gone: bool, parent: i32)
    requires
        w.engine_pid is None,
        w.spawner_pid is Some,
    ensures
        w.backstop_spec() == Backstop::Pid(w.spawner_pid->0),
        w.reason_for(WatchEvent::Poll { gone, parent }) == (if gone {
            Some(ExitReason::EngineGone)
        } else {
            None
        }),
{
}

/// A variable that declares no process id leaves the watch on the parent.
pub proof fn garbage_pid_falls_back_to_parent(w: ExitWatch)
    requires
        w.engine_pid is None,
        w.spawner_pid is None,
        w.spawn_parent > 1,
    ensures
        w.backstop_spec() == Backstop::Parent(w.spawn_parent),
        forall|parent: i32|
            w.reason_for(WatchEvent::Poll { gone: true, parent }) is Some <==> parent
                != w.spawn_parent,
{
}

/// A daemon that was orphaned before it started ends on signals and on its
/// lifeline only.
pub proof fn orphan_at_startup_never_polls_out(w: ExitWatch, gone: bool, parent: i32)
    requires
        w.engine_pid is None,
        w.spawner_pid is None,
        w.spawn_parent <= 1,
    ensures
        w.reason_for(WatchEvent::Poll { gone, parent }) is None,
{
}

/// A lifeline that failed never ends the daemon, and the process watched is
/// the same as before.
pub proof fn failed_lifeline_keeps_backstop(w: ExitWatch)
    ensures
        ({
            let after = ExitWatch { lifeline: None, ..w };
            &&& after.backstop_spec() == w.backstop_spec()
            &&& after.reason_for(WatchEvent::LifelineEof) is None
            &&& forall|gone: bool, parent: i32|
                after.reason_for(WatchEvent::Poll { gone, parent }) == w.reason_for(
                    WatchEvent::Poll { gone, parent },
                )
        }),
{
}

} // verus!
