//! When a daemon ends, and what it leaves behind.

use iii_worker::daemon_exit::{
    capture_early, check_lifeline_fd, clear_cloexec, declared_lifeline_fd, early_spawner_pid,
    engine_pid_from_env, exit_log_path, lifeline_env, lifeline_fd_from_env, lifeline_verdict,
    process_is_gone, reparented_away, set_cloexec, take_early_lifeline, write_exit_breadcrumb,
    Backstop, EarlyCapture, ExitReason, ExitWatch, Lifeline, LifelineRefusal, PipeRead,
    WatchEvent, ENGINE_PID_ENV, ENGINE_POLL_INTERVAL_SECS, LIFELINE_FD_ENV,
    LIFELINE_SPAWNER_PID_ENV,
};
use iii_worker::paths::HostPath;
use nix::sys::stat::SFlag;
use nix::unistd::Pid;

/// Whether a process is gone, asked of the system itself.
fn gone(pid: i32) -> bool {
    process_is_gone(nix::sys::signal::kill(Pid::from_raw(pid), None).err().map(|e| e as i32))
}

#[test]
fn reparent_detection_keys_on_change_not_pid_one() {
    assert!(!reparented_away(12345, 12345));
    assert!(reparented_away(12345, 1));
    assert!(reparented_away(12345, 999));
    assert!(!reparented_away(1, 1));
    assert!(!reparented_away(1, 999));
    assert!(!reparented_away(0, 1));
}

#[test]
fn process_is_gone_only_on_esrch() {
    assert!(!gone(nix::unistd::getpid().as_raw()));
    assert!(!gone(nix::unistd::getppid().as_raw()));
    assert!(!gone(1));
    assert!(process_is_gone(Some(nix::errno::Errno::ESRCH as i32)));
    assert!(!process_is_gone(Some(nix::errno::Errno::EPERM as i32)));
    assert!(!process_is_gone(None));
}

#[test]
fn arm_at_startup_parses_engine_pid_env() {
    let arm = |value: Option<&str>| ExitWatch::arm_at_startup(100, value, &mut None, None);
    assert_eq!(arm(Some("  4242 ")).engine_pid, Some(4242));
    assert_eq!(arm(Some("1")).engine_pid, None);
    assert_eq!(arm(Some("not-a-pid")).engine_pid, None);
    assert_eq!(arm(None).engine_pid, None);
}

#[test]
fn lifeline_env_rejects_garbage_and_non_pipes() {
    assert!(lifeline_fd_from_env(None, None, true).is_none());
    let fifo = Some(SFlag::S_IFIFO.bits() | 0o600);
    assert_eq!(
        lifeline_fd_from_env(Some("0"), fifo, true),
        Some(Err(LifelineRefusal::Stdio))
    );
    let device = nix::sys::stat::stat("/dev/null").unwrap().st_mode;
    assert_eq!(
        lifeline_fd_from_env(Some("7"), Some(device), true),
        Some(Err(LifelineRefusal::NotAPipe))
    );
    let closed = nix::sys::stat::fstat(9999).ok().map(|s| s.st_mode);
    assert_eq!(
        lifeline_fd_from_env(Some("9999"), closed, true),
        Some(Err(LifelineRefusal::NotOpen))
    );
    assert_eq!(
        lifeline_fd_from_env(Some("x"), fifo, true),
        Some(Err(LifelineRefusal::Unparsable))
    );
    assert_eq!(
        lifeline_fd_from_env(Some("7"), fifo, false),
        Some(Err(LifelineRefusal::NotRearmed))
    );
}

#[test]
fn lifeline_accepts_pipe_and_sees_eof_when_writer_drops() {
    let fifo = Some(SFlag::S_IFIFO.bits() | 0o600);
    assert_eq!(lifeline_fd_from_env(Some(" 7\n"), fifo, true), Some(Ok(7)));
    let runtime = tokio::runtime::Builder::new_current_thread().enable_all().build().unwrap();
    runtime.block_on(async {
        let (write, read) = tokio::net::unix::pipe::pipe().unwrap();
        let mut buf = [0u8; 8];
        assert!(read.try_read(&mut buf).is_err(), "no EOF while the writer is alive");
        drop(write);
        read.readable().await.unwrap();
        let seen = match read.try_read(&mut buf) {
            Ok(0) => PipeRead::Eof,
            Ok(_) => PipeRead::Data,
            Err(_) => PipeRead::Failed,
        };
        assert_eq!(lifeline_verdict(seen), Some(true));
    });
}

#[test]
fn lifeline_reads_that_go_on() {
    assert_eq!(lifeline_verdict(PipeRead::Data), None);
    assert_eq!(lifeline_verdict(PipeRead::Interrupted), None);
    assert_eq!(lifeline_verdict(PipeRead::Failed), Some(false));
}

#[test]
fn declared_descriptors_and_modes() {
    assert_eq!(declared_lifeline_fd("3"), Ok(3));
    assert_eq!(declared_lifeline_fd("2"), Err(LifelineRefusal::Stdio));
    assert_eq!(declared_lifeline_fd("-1"), Err(LifelineRefusal::Stdio));
    assert_eq!(declared_lifeline_fd(""), Err(LifelineRefusal::Unparsable));
    assert_eq!(declared_lifeline_fd("2147483648"), Err(LifelineRefusal::Unparsable));
    assert_eq!(check_lifeline_fd(Some(SFlag::S_IFIFO.bits())), Ok(()));
    assert_eq!(check_lifeline_fd(Some(SFlag::S_IFREG.bits())), Err(LifelineRefusal::NotAPipe));
    assert_eq!(check_lifeline_fd(Some(SFlag::S_IFSOCK.bits())), Err(LifelineRefusal::NotAPipe));
}

#[test]
fn close_on_exec_flips_one_bit() {
    assert_eq!(set_cloexec(0), libc::FD_CLOEXEC);
    assert_eq!(set_cloexec(6), 7);
    assert_eq!(clear_cloexec(7), 6);
    assert_eq!(clear_cloexec(0), 0);
}

#[test]
fn lifeline_variables_read_back() {
    let env = lifeline_env(&Lifeline { write_fd: 8, read_fd: 9 }, 4321);
    assert_eq!(
        env,
        vec![
            (LIFELINE_FD_ENV.to_string(), "9".to_string()),
            (LIFELINE_SPAWNER_PID_ENV.to_string(), "4321".to_string()),
        ]
    );
    assert_eq!(declared_lifeline_fd(&env[0].1), Ok(9));
    assert_eq!(engine_pid_from_env(Some(&env[1].1)), Some(4321));
    assert_eq!(ENGINE_PID_ENV, "III_ENGINE_PID");
    assert_eq!(ENGINE_POLL_INTERVAL_SECS, 2);
}

#[test]
fn early_capture_happens_once_and_is_taken_once() {
    let mut early: Option<EarlyCapture> = None;
    capture_early(&mut early, Some(7), Some("42"));
    capture_early(&mut early, Some(8), Some("43"));
    assert_eq!(early_spawner_pid(&early), Some(42));
    assert_eq!(take_early_lifeline(&mut early), Some(7));
    assert_eq!(take_early_lifeline(&mut early), None);
    assert_eq!(early_spawner_pid(&early), Some(42));
}

#[test]
fn early_lifeline_comes_before_a_later_one() {
    let mut early = Some(EarlyCapture { lifeline: Some(7), spawner_pid: Some(42) });
    let first = ExitWatch::arm_at_startup(100, None, &mut early, Some(9));
    assert_eq!(first.lifeline, Some(7));
    assert_eq!(first.spawner_pid, Some(42));
    let second = ExitWatch::arm_at_startup(100, None, &mut early, Some(9));
    assert_eq!(second.lifeline, Some(9));
}

fn watch(engine_pid: Option<i32>, spawner_pid: Option<i32>, spawn_parent: i32) -> ExitWatch {
    ExitWatch { spawn_parent, engine_pid, spawner_pid, lifeline: Some(7) }
}

fn poll(gone: bool, parent: i32) -> WatchEvent {
    WatchEvent::Poll { gone, parent }
}

#[test]
fn declared_engine_is_watched_before_anyone_else() {
    let mut w = watch(Some(10), Some(20), 30);
    assert_eq!(w.backstop(), Backstop::Pid(10));
    assert_eq!(w.step(poll(false, 1)), None);
    assert_eq!(w.step(poll(true, 30)), Some(ExitReason::EngineGone));
}

#[test]
fn spawner_is_watched_where_no_engine_is_declared() {
    let mut w = watch(None, Some(20), 30);
    assert_eq!(w.backstop(), Backstop::Pid(20));
    assert_eq!(w.step(poll(false, 1)), None);
    assert_eq!(w.step(poll(true, 30)), Some(ExitReason::EngineGone));
}

#[test]
fn parent_is_watched_where_nobody_is_declared() {
    let mut w = watch(None, None, 30);
    assert_eq!(w.backstop(), Backstop::Parent(30));
    assert_eq!(w.step(poll(true, 30)), None);
    assert_eq!(w.step(poll(true, 1)), Some(ExitReason::EngineGone));
    let mut orphan = watch(None, None, 1);
    assert_eq!(orphan.backstop(), Backstop::Disarmed);
    assert_eq!(orphan.step(poll(true, 999)), None);
}

#[test]
fn lifeline_end_is_final_and_its_failure_is_not() {
    let mut w = watch(Some(10), None, 30);
    assert_eq!(w.step(WatchEvent::LifelineEof), Some(ExitReason::EngineGone));
    assert_eq!(w.step(WatchEvent::LifelineFailed), None);
    assert_eq!(w.lifeline, None);
    assert_eq!(w.step(WatchEvent::LifelineEof), None);
    assert_eq!(w.step(poll(true, 30)), Some(ExitReason::EngineGone));
}

#[test]
fn signals_end_the_daemon_without_a_breadcrumb() {
    let mut w = watch(Some(10), None, 30);
    let signals = [
        (WatchEvent::Sigint, ExitReason::Sigint, "sigint"),
        (WatchEvent::Sigterm, ExitReason::Sigterm, "sigterm"),
        (WatchEvent::Sighup, ExitReason::Sighup, "sighup"),
    ];
    for (event, reason, text) in signals {
        assert_eq!(w.step(event), Some(reason));
        assert_eq!(reason.as_str(), text);
        assert_eq!(w.breadcrumb("worker-manager-daemon", reason, 5), None);
    }
    assert_eq!(ExitReason::EngineGone.as_str(), "engine-gone");
}

#[test]
fn breadcrumb_records_engine_and_spawn_parent() {
    let line = watch(Some(10), None, 30)
        .breadcrumb("worker-manager-daemon", ExitReason::EngineGone, 1700000000)
        .unwrap();
    assert_eq!(
        line,
        "ts=1700000000 daemon=worker-manager-daemon self-exit reason=engine-gone engine_pid=10 spawn_parent=30\n"
    );
    assert!(write_exit_breadcrumb(1, "d", None, -3).contains("engine_pid=none spawn_parent=-3\n"));
    assert_eq!(exit_log_path(&None, "d"), None);
    assert_eq!(
        exit_log_path(&Some(HostPath::from_text("/h")), "d"),
        Some(HostPath::from_text("/h/.iii/logs/d.log"))
    );
}
