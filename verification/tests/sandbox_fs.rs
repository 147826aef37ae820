//! Files in a sandbox.

use base64::Engine as _;
use iii_worker::sandbox_daemon::errors::SandboxError;
use iii_worker::sandbox_daemon::fs::adapter::{FsRunner, StreamChannelRef, WriteBody};
use iii_worker::sandbox_daemon::fs::gate::enter;
use iii_worker::sandbox_daemon::fs::grep::{
    default_max_line_bytes, default_max_matches, default_recursive, grep_response, handle_grep,
    GrepRequest,
};
use iii_worker::sandbox_daemon::fs::ls::{handle_ls, ls_response, LsRequest};
use iii_worker::sandbox_daemon::fs::mv::{handle_mv, mv_response, MvRequest};
use iii_worker::sandbox_daemon::fs::proto::{
    FsEntry, FsMatch, FsOp, FsReply, FsResult, FsSedFileResult,
};
use iii_worker::sandbox_daemon::fs::rm::{handle_rm, rm_response, RmRequest};
use iii_worker::sandbox_daemon::fs::sed::{default_true, handle_sed, sed_response, SedRequest};
use iii_worker::sandbox_daemon::fs::stat::{handle_stat, stat_response, StatRequest, StatResponse};
use iii_worker::sandbox_daemon::fs::write::{
    body_from_b64, default_mode, handle_write, handle_write_with_reader, write_body,
    write_response, ChannelReaderAdapter, WriteContent, WriteRequest,
};
use iii_worker::sandbox_daemon::registry::{SandboxRegistry, SandboxState};
use std::cell::RefCell;
use uuid::Uuid;

fn make_state(id: Uuid) -> SandboxState {
    SandboxState {
        id: id.as_u128(),
        name: None,
        image: "python".into(),
        rootfs: "/tmp/r".into(),
        workdir: "/tmp/w".into(),
        shell_sock: "/tmp/s".into(),
        vm_pid: Some(1),
        lifeline: None,
        created_at: 0,
        last_exec_at: 0,
        exec_in_progress: false,
        idle_timeout_secs: 300,
        stopped: false,
    }
}

fn live_sandbox(reg: &mut SandboxRegistry) -> Uuid {
    let id = Uuid::new_v4();
    reg.insert(make_state(id));
    id
}

/// An answer as a runner gives it.
fn reply(result: FsResult) -> FsReply {
    let shown = format!("{result:?}");
    FsReply { result, shown }
}

/// Answers every operation the same, and keeps what it was sent.
struct FakeRunner {
    answer: Result<FsResult, SandboxError>,
    ops: RefCell<Vec<(String, FsOp)>>,
    captured: RefCell<Vec<u8>>,
}

impl FakeRunner {
    fn new(answer: Result<FsResult, SandboxError>) -> FakeRunner {
        FakeRunner { answer, ops: RefCell::new(vec![]), captured: RefCell::new(vec![]) }
    }

    fn ok(answer: FsResult) -> FakeRunner {
        FakeRunner::new(Ok(answer))
    }

    fn writer() -> FakeRunner {
        FakeRunner::ok(FsResult::Write { bytes_written: 0, path: String::new() })
    }
}

impl FsRunner for FakeRunner {
    fn fs_call(&self, shell_sock: String, op: FsOp) -> Result<FsReply, SandboxError> {
        self.ops.borrow_mut().push((shell_sock, op));
        self.answer.clone().map(reply)
    }

    fn fs_write_stream(
        &self,
        _shell_sock: String,
        path: String,
        _mode: String,
        _parents: bool,
        body: WriteBody,
    ) -> Result<FsReply, SandboxError> {
        self.answer.clone()?;
        let bytes = match body {
            WriteBody::Inline(b) => b,
            WriteBody::Channel(c) => c.reference.into_bytes(),
        };
        let bytes_written = bytes.len() as u64;
        *self.captured.borrow_mut() = bytes;
        Ok(reply(FsResult::Write { bytes_written, path }))
    }
}

fn entry() -> FsEntry {
    FsEntry {
        name: "foo.txt".into(),
        is_dir: false,
        size: 42,
        mode: "0644".into(),
        mtime: 100,
        is_symlink: false,
    }
}

fn grep_req(sandbox_id: String) -> GrepRequest {
    GrepRequest {
        sandbox_id,
        path: "/workspace".into(),
        pattern: "hello".into(),
        recursive: true,
        ignore_case: false,
        include_glob: vec![],
        exclude_glob: vec![],
        max_matches: 10_000,
        max_line_bytes: 4096,
    }
}

fn grep_runner(matches: Vec<FsMatch>) -> FakeRunner {
    FakeRunner::ok(FsResult::Grep { matches, truncated: false })
}

#[test]
fn happy_path_returns_matches() {
    let mut reg = SandboxRegistry::new();
    let id = live_sandbox(&mut reg);
    let runner = grep_runner(vec![FsMatch {
        path: "a.py".into(),
        line: 1,
        content: "hello".into(),
    }]);
    let resp = handle_grep(grep_req(id.to_string()), &mut reg, &runner, 5).unwrap();
    assert_eq!(resp.matches.len(), 1);
    assert!(!resp.truncated);
}

#[test]
fn grep_bad_uuid_returns_s001() {
    let mut reg = SandboxRegistry::new();
    let err = handle_grep(grep_req("bad".into()), &mut reg, &grep_runner(vec![]), 5).unwrap_err();
    assert_eq!(err.code().as_str(), "S001");
}

#[test]
fn grep_missing_sandbox_returns_s002() {
    let mut reg = SandboxRegistry::new();
    let req = grep_req(Uuid::new_v4().to_string());
    let err = handle_grep(req, &mut reg, &grep_runner(vec![]), 5).unwrap_err();
    assert_eq!(err.code().as_str(), "S002");
}

#[test]
fn happy_path_returns_entries() {
    let mut reg = SandboxRegistry::new();
    let id = live_sandbox(&mut reg);
    let runner = FakeRunner::ok(FsResult::Ls {
        entries: vec![FsEntry {
            name: "hello.txt".into(),
            is_dir: false,
            size: 5,
            mode: "0644".into(),
            mtime: 0,
            is_symlink: false,
        }],
    });
    let req = LsRequest { sandbox_id: id.to_string(), path: "/workspace".into() };
    let resp = handle_ls(req, &mut reg, &runner, 5).unwrap();
    assert_eq!(resp.entries.len(), 1);
    assert_eq!(resp.entries[0].name, "hello.txt");
    assert_eq!(
        *runner.ops.borrow(),
        vec![("/tmp/s".to_string(), FsOp::Ls { path: "/workspace".into() })]
    );
}

fn ls_runner() -> FakeRunner {
    FakeRunner::ok(FsResult::Ls { entries: vec![] })
}

#[test]
fn ls_bad_uuid_returns_s001() {
    let mut reg = SandboxRegistry::new();
    let req = LsRequest { sandbox_id: "not-a-uuid".into(), path: "/".into() };
    let err = handle_ls(req, &mut reg, &ls_runner(), 5).unwrap_err();
    assert_eq!(err.code().as_str(), "S001");
}

#[test]
fn ls_missing_sandbox_returns_s002() {
    let mut reg = SandboxRegistry::new();
    let req = LsRequest { sandbox_id: Uuid::new_v4().to_string(), path: "/".into() };
    let err = handle_ls(req, &mut reg, &ls_runner(), 5).unwrap_err();
    assert_eq!(err.code().as_str(), "S002");
}

fn mv_req(sandbox_id: String, src: &str, dst: &str) -> MvRequest {
    MvRequest { sandbox_id, src: src.into(), dst: dst.into(), overwrite: false }
}

fn mv_runner() -> FakeRunner {
    FakeRunner::ok(FsResult::Mv { moved: true })
}

#[test]
fn happy_path_returns_moved() {
    let mut reg = SandboxRegistry::new();
    let id = live_sandbox(&mut reg);
    let req = mv_req(id.to_string(), "/workspace/a", "/workspace/b");
    let resp = handle_mv(req, &mut reg, &mv_runner(), 5).unwrap();
    assert!(resp.moved);
}

#[test]
fn mv_bad_uuid_returns_s001() {
    let mut reg = SandboxRegistry::new();
    let err =
        handle_mv(mv_req("bad".into(), "/a", "/b"), &mut reg, &mv_runner(), 5).unwrap_err();
    assert_eq!(err.code().as_str(), "S001");
}

#[test]
fn mv_missing_sandbox_returns_s002() {
    let mut reg = SandboxRegistry::new();
    let req = mv_req(Uuid::new_v4().to_string(), "/a", "/b");
    let err = handle_mv(req, &mut reg, &mv_runner(), 5).unwrap_err();
    assert_eq!(err.code().as_str(), "S002");
}

fn rm_req(sandbox_id: String, path: &str) -> RmRequest {
    RmRequest { sandbox_id, path: path.into(), recursive: false }
}

fn rm_runner() -> FakeRunner {
    FakeRunner::ok(FsResult::Rm { removed: true })
}

#[test]
fn happy_path_returns_removed() {
    let mut reg = SandboxRegistry::new();
    let id = live_sandbox(&mut reg);
    let req = rm_req(id.to_string(), "/workspace/file.txt");
    let resp = handle_rm(req, &mut reg, &rm_runner(), 5).unwrap();
    assert!(resp.removed);
}

#[test]
fn rm_bad_uuid_returns_s001() {
    let mut reg = SandboxRegistry::new();
    let err = handle_rm(rm_req("bad".into(), "/"), &mut reg, &rm_runner(), 5).unwrap_err();
    assert_eq!(err.code().as_str(), "S001");
}

#[test]
fn rm_missing_sandbox_returns_s002() {
    let mut reg = SandboxRegistry::new();
    let req = rm_req(Uuid::new_v4().to_string(), "/");
    let err = handle_rm(req, &mut reg, &rm_runner(), 5).unwrap_err();
    assert_eq!(err.code().as_str(), "S002");
}

fn req_files(sandbox_id: String, files: Vec<String>) -> SedRequest {
    SedRequest {
        sandbox_id,
        files,
        path: None,
        recursive: true,
        include_glob: Vec::new(),
        exclude_glob: Vec::new(),
        pattern: "hello".into(),
        replacement: "world".into(),
        regex: true,
        first_only: false,
        ignore_case: false,
    }
}

fn sed_runner() -> FakeRunner {
    FakeRunner::ok(FsResult::Sed {
        results: vec![FsSedFileResult {
            path: "a.py".into(),
            replacements: 2,
            success: true,
            error: None,
        }],
        total_replacements: 2,
    })
}

#[test]
fn happy_path_returns_results() {
    let mut reg = SandboxRegistry::new();
    let id = live_sandbox(&mut reg);
    let req = req_files(id.to_string(), vec!["/workspace/a.py".into()]);
    let resp = handle_sed(req, &mut reg, &sed_runner(), 5).unwrap();
    assert_eq!(resp.total_replacements, 2);
    assert_eq!(resp.results.len(), 1);
}

#[test]
fn sed_bad_uuid_returns_s001() {
    let mut reg = SandboxRegistry::new();
    let req = req_files("bad".into(), vec!["/workspace/a.py".into()]);
    let err = handle_sed(req, &mut reg, &sed_runner(), 5).unwrap_err();
    assert_eq!(err.code().as_str(), "S001");
}

#[test]
fn sed_missing_sandbox_returns_s002() {
    let mut reg = SandboxRegistry::new();
    let req = req_files(Uuid::new_v4().to_string(), vec!["/workspace/a.py".into()]);
    let err = handle_sed(req, &mut reg, &sed_runner(), 5).unwrap_err();
    assert_eq!(err.code().as_str(), "S002");
}

#[test]
fn sed_request_with_both_files_and_path_returns_s210() {
    let mut reg = SandboxRegistry::new();
    let mut req = req_files(Uuid::new_v4().to_string(), vec!["/workspace/a.py".into()]);
    req.path = Some("/workspace".into());
    let err = handle_sed(req, &mut reg, &sed_runner(), 5).unwrap_err();
    assert_eq!(err.code().as_str(), "S210");
}

#[test]
fn sed_request_with_neither_returns_s210() {
    let mut reg = SandboxRegistry::new();
    let req = req_files(Uuid::new_v4().to_string(), Vec::new());
    let err = handle_sed(req, &mut reg, &sed_runner(), 5).unwrap_err();
    assert_eq!(err.code().as_str(), "S210");
}

fn stat_req(sandbox_id: String, path: &str) -> StatRequest {
    StatRequest { sandbox_id, path: path.into() }
}

fn stat_runner() -> FakeRunner {
    FakeRunner::ok(FsResult::Stat(entry()))
}

#[test]
fn happy_path_returns_stat() {
    let mut reg = SandboxRegistry::new();
    let id = live_sandbox(&mut reg);
    let req = stat_req(id.to_string(), "/workspace/foo.txt");
    let resp = handle_stat(req, &mut reg, &stat_runner(), 5).unwrap();
    assert_eq!(resp.name, "foo.txt");
    assert_eq!(resp.size, 42);
}

#[test]
fn stat_bad_uuid_returns_s001() {
    let mut reg = SandboxRegistry::new();
    let err =
        handle_stat(stat_req("not-a-uuid".into(), "/"), &mut reg, &stat_runner(), 5).unwrap_err();
    assert_eq!(err.code().as_str(), "S001");
}

#[test]
fn stat_missing_sandbox_returns_s002() {
    let mut reg = SandboxRegistry::new();
    let req = stat_req(Uuid::new_v4().to_string(), "/");
    let err = handle_stat(req, &mut reg, &stat_runner(), 5).unwrap_err();
    assert_eq!(err.code().as_str(), "S002");
}

#[test]
fn write_with_reader_captures_bytes() {
    let mut reg = SandboxRegistry::new();
    let id = live_sandbox(&mut reg);
    let data = b"hello, sandbox!";
    let runner = FakeRunner::writer();
    let resp = handle_write_with_reader(
        id.to_string(),
        "/workspace/test.txt".into(),
        "0644".into(),
        false,
        WriteBody::Inline(data.to_vec()),
        &mut reg,
        &runner,
        5,
    )
    .unwrap();
    assert_eq!(resp.bytes_written, data.len() as u64);
    assert_eq!(*runner.captured.borrow(), data);
}

fn write_inline(
    sandbox_id: String,
    reg: &mut SandboxRegistry,
    runner: &FakeRunner,
) -> Result<u64, SandboxError> {
    handle_write_with_reader(
        sandbox_id,
        "/".into(),
        "0644".into(),
        false,
        WriteBody::Inline(vec![]),
        reg,
        runner,
        5,
    )
    .map(|r| r.bytes_written)
}

#[test]
fn write_bad_uuid_returns_s001() {
    let mut reg = SandboxRegistry::new();
    let err = write_inline("not-a-uuid".into(), &mut reg, &FakeRunner::writer()).unwrap_err();
    assert_eq!(err.code().as_str(), "S001");
}

#[test]
fn write_missing_sandbox_returns_s002() {
    let mut reg = SandboxRegistry::new();
    let id = Uuid::new_v4().to_string();
    let err = write_inline(id, &mut reg, &FakeRunner::writer()).unwrap_err();
    assert_eq!(err.code().as_str(), "S002");
}

fn write_req(
    id: Uuid,
    path: &str,
    content: Option<WriteContent>,
    content_b64: Option<String>,
) -> WriteRequest {
    WriteRequest {
        sandbox_id: id.to_string(),
        path: path.into(),
        mode: "0644".into(),
        parents: false,
        content,
        content_b64,
    }
}

#[test]
fn handle_write_accepts_inline_utf8_content() {
    let mut reg = SandboxRegistry::new();
    let id = live_sandbox(&mut reg);
    let runner = FakeRunner::writer();
    let content = Some(WriteContent::Utf8("console.log('hi')\n".into()));
    let req = write_req(id, "/workspace/app.js", content, None);
    let resp = handle_write(req, &mut reg, &runner, 5).unwrap();
    assert_eq!(resp.bytes_written, "console.log('hi')\n".len() as u64);
    assert_eq!(*runner.captured.borrow(), b"console.log('hi')\n");
}

#[test]
fn handle_write_accepts_inline_content_b64() {
    let mut reg = SandboxRegistry::new();
    let id = live_sandbox(&mut reg);
    let runner = FakeRunner::writer();
    let payload = b"\x00\x01\x02binary\xffbytes";
    let b64 = base64::engine::general_purpose::STANDARD.encode(payload);
    let req = write_req(id, "/workspace/blob.bin", None, Some(b64));
    let resp = handle_write(req, &mut reg, &runner, 5).unwrap();
    assert_eq!(resp.bytes_written, payload.len() as u64);
    assert_eq!(&*runner.captured.borrow(), payload);
}

#[test]
fn handle_write_rejects_invalid_base64() {
    let mut reg = SandboxRegistry::new();
    let id = live_sandbox(&mut reg);
    let req = write_req(id, "/x", None, Some("not!valid!base64!".into()));
    let err = handle_write(req, &mut reg, &FakeRunner::writer(), 5).unwrap_err();
    assert_eq!(err.code().as_str(), "S001");
    assert!(err.detail().contains("not valid base64"), "got: {}", err.detail());
}

#[test]
fn handle_write_rejects_both_content_and_content_b64() {
    let mut reg = SandboxRegistry::new();
    let id = live_sandbox(&mut reg);
    let content = Some(WriteContent::Utf8("a".into()));
    let req = write_req(id, "/x", content, Some("YQ==".into()));
    let err = handle_write(req, &mut reg, &FakeRunner::writer(), 5).unwrap_err();
    assert_eq!(err.code().as_str(), "S001");
    assert!(err.detail().contains("not both"), "got: {}", err.detail());
}

#[test]
fn handle_write_rejects_neither_content_nor_content_b64() {
    let mut reg = SandboxRegistry::new();
    let id = live_sandbox(&mut reg);
    let req = write_req(id, "/x", None, None);
    let err = handle_write(req, &mut reg, &FakeRunner::writer(), 5).unwrap_err();
    assert_eq!(err.code().as_str(), "S001");
    assert!(err.detail().contains("missing file body"), "got: {}", err.detail());
}

#[test]
fn streamed_bodies_are_handed_on() {
    let mut reg = SandboxRegistry::new();
    let id = live_sandbox(&mut reg);
    let runner = FakeRunner::writer();
    let channel = StreamChannelRef { reference: "chan-1".into() };
    let req = write_req(id, "/x", Some(WriteContent::Stream(channel.clone())), None);
    handle_write(req, &mut reg, &runner, 5).unwrap();
    assert_eq!(*runner.captured.borrow(), b"chan-1");
    assert_eq!(
        write_body(Some(WriteContent::Stream(channel.clone())), None),
        Ok(WriteBody::Channel(channel))
    );
    assert_eq!(body_from_b64(Ok(vec![1])), Ok(WriteBody::Inline(vec![1])));
    let caf = Some(WriteContent::Utf8("caf\u{e9}".into()));
    assert_eq!(write_body(caf, None), Ok(WriteBody::Inline("caf\u{e9}".as_bytes().to_vec())));
}

/// One request for each kind of file operation, and what each came to.
fn for_each_fs_handler(
    sid: String,
    reg: &mut SandboxRegistry,
    error: Option<SandboxError>,
) -> Vec<(&'static str, Result<(), SandboxError>)> {
    let with = |answer: FsResult| match &error {
        Some(e) => FakeRunner::new(Err(e.clone())),
        None => FakeRunner::ok(answer),
    };
    vec![
        (
            "ls",
            handle_ls(
                LsRequest { sandbox_id: sid.clone(), path: "/tmp".into() },
                reg,
                &with(FsResult::Ls { entries: vec![] }),
                5,
            )
            .map(|_| ()),
        ),
        (
            "stat",
            handle_stat(
                stat_req(sid.clone(), "/tmp"),
                reg,
                &with(FsResult::Stat(entry())),
                5,
            )
            .map(|_| ()),
        ),
        (
            "rm",
            handle_rm(
                rm_req(sid.clone(), "/tmp/x"),
                reg,
                &with(FsResult::Rm { removed: true }),
                5,
            )
            .map(|_| ()),
        ),
        (
            "mv",
            handle_mv(
                mv_req(sid.clone(), "/tmp/a", "/tmp/b"),
                reg,
                &with(FsResult::Mv { moved: true }),
                5,
            )
            .map(|_| ()),
        ),
        (
            "grep",
            handle_grep(
                grep_req(sid.clone()),
                reg,
                &with(FsResult::Grep { matches: vec![], truncated: false }),
                5,
            )
            .map(|_| ()),
        ),
        (
            "sed",
            handle_sed(
                req_files(sid.clone(), vec!["/tmp/x".into()]),
                reg,
                &with(FsResult::Sed { results: vec![], total_replacements: 0 }),
                5,
            )
            .map(|_| ()),
        ),
        (
            "write",
            write_inline(
                sid,
                reg,
                &with(FsResult::Write { bytes_written: 0, path: String::new() }),
            )
            .map(|_| ()),
        ),
    ]
}

#[test]
fn every_fs_handler_rejects_bad_uuid_with_s001() {
    let mut reg = SandboxRegistry::new();
    for (name, r) in for_each_fs_handler("not-a-uuid".into(), &mut reg, None) {
        match r {
            Err(e) => assert_eq!(
                e.code().as_str(),
                "S001",
                "{name} should map bad UUID to S001 (got {e:?})"
            ),
            Ok(()) => panic!("{name} accepted a malformed UUID"),
        }
    }
}

#[test]
fn every_fs_handler_rejects_unknown_sandbox_with_s002() {
    let mut reg = SandboxRegistry::new();
    let unknown = Uuid::new_v4().to_string();
    for (name, r) in for_each_fs_handler(unknown, &mut reg, None) {
        match r {
            Err(e) => assert_eq!(
                e.code().as_str(),
                "S002",
                "{name} should map unknown sandbox to S002 (got {e:?})"
            ),
            Ok(()) => panic!("{name} accepted a missing sandbox"),
        }
    }
}

#[test]
fn every_fs_handler_rejects_stopped_sandbox_with_s004() {
    let mut reg = SandboxRegistry::new();
    let id = live_sandbox(&mut reg);
    reg.mark_stopped(id.as_u128());
    for (name, r) in for_each_fs_handler(id.to_string(), &mut reg, None) {
        match r {
            Err(e) => assert_eq!(
                e.code().as_str(),
                "S004",
                "{name} should map stopped sandbox to S004 (got {e:?})"
            ),
            Ok(()) => panic!("{name} accepted a stopped sandbox"),
        }
    }
}

#[test]
fn every_fs_handler_hands_the_runner_error_on() {
    let mut reg = SandboxRegistry::new();
    let id = live_sandbox(&mut reg);
    let error = SandboxError::FsPermission("EACCES".into());
    for (name, r) in for_each_fs_handler(id.to_string(), &mut reg, Some(error.clone())) {
        assert_eq!(r, Err(error.clone()), "{name}");
    }
}

#[test]
fn s211_not_found_propagates_through_handler() {
    let mut reg = SandboxRegistry::new();
    let id = live_sandbox(&mut reg);
    let runner = FakeRunner::new(Err(SandboxError::FsNotFound { path: "/missing".into() }));
    let err = handle_stat(stat_req(id.to_string(), "/missing"), &mut reg, &runner, 5).unwrap_err();
    assert_eq!(err.code().as_str(), "S211");
}

#[test]
fn s218_channel_aborted_propagates_through_write_handler() {
    let mut reg = SandboxRegistry::new();
    let id = live_sandbox(&mut reg);
    let runner = FakeRunner::new(Err(SandboxError::FsChannelAborted("client hung up".into())));
    let err = handle_write_with_reader(
        id.to_string(),
        "/tmp/aborted.bin".into(),
        "0644".into(),
        false,
        WriteBody::Inline(b"never lands".to_vec()),
        &mut reg,
        &runner,
        5,
    )
    .unwrap_err();
    assert_eq!(err.code().as_str(), "S218");
}

#[test]
fn file_operations_neither_wait_for_nor_end_a_command() {
    let mut reg = SandboxRegistry::new();
    let id = live_sandbox(&mut reg);
    let _slot = reg.begin_exec(id.as_u128(), 1).unwrap();
    for (name, r) in for_each_fs_handler(id.to_string(), &mut reg, None) {
        assert_eq!(r, Ok(()), "{name}");
    }
    let after = reg.get(id.as_u128()).unwrap();
    assert!(after.exec_in_progress);
    assert_eq!(after.last_exec_at, 5);
}

#[test]
fn entering_a_sandbox_gives_its_socket() {
    let mut reg = SandboxRegistry::new();
    let id = live_sandbox(&mut reg);
    assert_eq!(enter(&id.to_string(), &mut reg, 9), Ok("/tmp/s".to_string()));
    assert_eq!(reg.get(id.as_u128()).unwrap().last_exec_at, 9);
}

fn results() -> Vec<FsResult> {
    vec![
        FsResult::Ls { entries: vec![entry(), entry()] },
        FsResult::Stat(entry()),
        FsResult::Mkdir { created: true },
        FsResult::Rm { removed: false },
        FsResult::Chmod { updated: 7 },
        FsResult::Mv { moved: true },
        FsResult::Grep {
            matches: vec![FsMatch { path: "a\"b".into(), line: 3, content: "x\ty".into() }],
            truncated: true,
        },
        FsResult::Sed {
            results: vec![FsSedFileResult {
                path: "p".into(),
                replacements: 1,
                success: false,
                error: Some("e'\\".into()),
            }],
            total_replacements: 1,
        },
        FsResult::Write { bytes_written: 5, path: "/x".into() },
    ]
}

#[test]
fn answers_of_the_wrong_kind_are_refused() {
    let mut refused = 0;
    for r in results() {
        let text = format!("{r:?}");
        let all: Vec<Result<(), SandboxError>> = vec![
            ls_response(Ok(reply(r.clone()))).map(|_| ()),
            stat_response(Ok(reply(r.clone()))).map(|_| ()),
            rm_response(Ok(reply(r.clone()))).map(|_| ()),
            mv_response(Ok(reply(r.clone()))).map(|_| ()),
            grep_response(Ok(reply(r.clone()))).map(|_| ()),
            sed_response(Ok(reply(r.clone()))).map(|_| ()),
            write_response(Ok(reply(r.clone()))).map(|_| ()),
        ];
        for err in all.into_iter().filter_map(Result::err) {
            refused += 1;
            assert!(matches!(err, SandboxError::FsIo(_)));
            assert!(err.detail().contains(&text), "{}", err.detail());
        }
    }
    assert_eq!(refused, 9 * 7 - 7);
    let odd = FsReply { result: FsResult::Rm { removed: true }, shown: "Rm!".into() };
    assert_eq!(
        ls_response(Ok(odd)).unwrap_err(),
        SandboxError::FsIo("expected Ls result, got Rm!".into())
    );
}

#[test]
fn stat_answers_are_entries() {
    let e = entry();
    let r = StatResponse::from(e.clone());
    assert_eq!((r.name, r.size, r.mode, r.mtime), (e.name, e.size, e.mode, e.mtime));
}

#[test]
fn request_defaults() {
    assert!(default_recursive());
    assert!(default_true());
    assert_eq!(default_max_matches(), 10_000);
    assert_eq!(default_max_line_bytes(), 4096);
    assert_eq!(default_mode(), "0644");
}

#[test]
fn channel_reader_conserves_bytes() {
    let mut reader = ChannelReaderAdapter::new();
    assert_eq!(reader.read_pending(4), None);
    assert_eq!(reader.read_chunk(Some(b"abcdef".to_vec()), 4), b"abcd".to_vec());
    assert_eq!(reader.read_pending(1), Some(b"e".to_vec()));
    assert_eq!(reader.read_pending(9), Some(b"f".to_vec()));
    assert_eq!(reader.read_pending(9), None);
    assert_eq!(reader.read_chunk(Some(b"xy".to_vec()), 2), b"xy".to_vec());
    assert_eq!(reader.read_chunk(None, 4), Vec::<u8>::new());
    assert_eq!(reader.read_pending(4), Some(vec![]));
}
