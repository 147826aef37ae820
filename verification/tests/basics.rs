//! Texts, numbers, maps, paths and the smaller decisions.

use iii_worker::cli::control_proxy::{
    line_end, meet_client, peer_uid_matches, proxy_one_round_trip, proxy_step, serve_client,
    LineRead, ProxyAction, ProxyEvent, ProxyState, MAX_LINE,
};
use iii_worker::cli::worker_manager_daemon::{
    op_description, op_metadata, project_root, reap_report, reaps_workers, schema_entries,
    worker_ops, ReapReport,
};
use iii_worker::daemon_exit::ExitReason;
use iii_worker::numbers::{i64_text, parse_i32, parse_u32, parse_u64, u64_text};
use iii_worker::paths::{
    home_of, host_home, image_path_in, join_path, managed_dir_in, managed_path_in, worker_dir_in,
    worker_path_in, HostPath,
};
use iii_worker::str_map::StrMap;
use iii_worker::text::{
    contains_text, debug_list, debug_opt_text, has_whitespace, is_whitespace, join_strings,
    replace_text, split_lines, split_once, strip_suffix, to_ascii_lower, trim,
    trim_leading_slashes,
};

#[test]
fn whitespace_is_what_std_says() {
    for code in 0..=0x10ffffu32 {
        if let Some(c) = char::from_u32(code) {
            assert_eq!(is_whitespace(c), c.is_whitespace(), "{code:x}");
        }
    }
}

#[test]
fn texts_agree_with_std() {
    let samples = [
        "", " ", "a", " a b ", "a=b=c", "==", "x\r\ny\n", "\n\n", "a\rb", "\u{2003}wide\u{85}",
        "//abs/x", "UPPER caf\u{c9}", "aaa", "it's \"quoted\"\t\\", "\u{1f4a5}\u{0}", "\r", "a\r",
    ];
    for s in samples {
        assert_eq!(trim(s), s.trim());
        assert_eq!(has_whitespace(s), s.chars().any(char::is_whitespace));
        assert_eq!(to_ascii_lower(s), s.to_ascii_lowercase());
        assert_eq!(trim_leading_slashes(s), s.trim_start_matches('/'));
        let lines: Vec<String> = s.lines().map(String::from).collect();
        assert_eq!(split_lines(s), lines, "{s:?}");
        let pair = s.split_once('=').map(|(a, b)| (a.to_string(), b.to_string()));
        assert_eq!(split_once(s, '='), pair);
        for p in ["a", "aa", "b ", "\"", "zz"] {
            assert_eq!(contains_text(s, p), s.contains(p));
            assert_eq!(replace_text(s, p, "<>"), s.replace(p, "<>"));
            assert_eq!(strip_suffix(s, p), s.strip_suffix(p).map(String::from));
        }
        assert_eq!(debug_opt_text(Some(s)), format!("{:?}", Some(s)));
    }
    assert_eq!(debug_opt_text(None), format!("{:?}", None::<&str>));
    let all: Vec<String> = samples.iter().map(|s| s.to_string()).collect();
    assert_eq!(debug_list(&all), format!("{all:?}"));
    assert_eq!(debug_list(&[]), "[]");
    assert_eq!(join_strings(&all, ", "), all.join(", "));
}

#[test]
fn numbers_agree_with_std() {
    let samples = [
        "", "0", "-0", "+7", "-7", "+", "-", "00012", " 1", "1 ", "1_0", "0x1", "4294967295",
        "4294967296", "2147483647", "2147483648", "-2147483648", "-2147483649",
        "18446744073709551615", "18446744073709551616", "99999999999999999999999",
    ];
    for s in samples {
        assert_eq!(parse_u64(s), s.parse::<u64>().ok(), "{s:?}");
        assert_eq!(parse_u32(s), s.parse::<u32>().ok(), "{s:?}");
        assert_eq!(parse_i32(s), s.parse::<i32>().ok(), "{s:?}");
    }
    for n in [0u64, 9, 10, 99, 1_000_000, u64::MAX] {
        assert_eq!(u64_text(n), n.to_string());
        assert_eq!(parse_u64(&u64_text(n)), Some(n));
    }
    for n in [0i64, -1, i64::MAX, i64::MIN, 42] {
        assert_eq!(i64_text(n), n.to_string());
    }
}

#[test]
fn maps_list_in_key_order_as_std_does() {
    let mut ours = StrMap::new();
    let mut std = std::collections::BTreeMap::new();
    for (k, v) in [("b", "1"), ("", "2"), ("B", "3"), ("ab", "4"), ("b", "5"), ("\u{e9}", "6"),
        ("\u{ffff}", "7"), ("\u{10000}", "8")]
    {
        ours.insert(k.to_string(), v.to_string());
        std.insert(k.to_string(), v.to_string());
    }
    let listed: Vec<(String, String)> = std.clone().into_iter().collect();
    assert_eq!(ours.entries(), &listed);
    assert_eq!(ours.len(), std.len());
    assert_eq!(ours.get("b"), Some(&"5".to_string()));
    assert_eq!(ours.get("c"), None);
    assert_eq!(ours.clone(), ours);
}

#[test]
fn paths_join_as_std_joins() {
    for (base, rel) in [("/a", "b"), ("/a/", "b"), ("a", "/b"), ("", "b"), ("/a", ""), ("/", "x")] {
        let std = std::path::Path::new(base).join(rel);
        assert_eq!(join_path(base, rel), std.to_str().unwrap(), "{base:?} {rel:?}");
    }
    assert_eq!(managed_dir_in(&Some("/h".to_string())), "/h/.iii/managed");
    assert_eq!(worker_dir_in(&None, "w"), "/tmp/.iii/managed/w");
}

#[test]
fn control_lines_are_capped() {
    assert_eq!(line_end(b"ab\ncd", MAX_LINE), Some(3));
    assert_eq!(line_end(b"abcd", MAX_LINE), None);
    assert_eq!(line_end(b"abcd", 4), Some(4));
    assert_eq!(line_end(b"abcd\n", 4), Some(4));
    assert_eq!(line_end(b"", 0), Some(0));
    assert_eq!(line_end(b"\n", 4), Some(1));
}

#[test]
fn control_round_trips() {
    let line = |b: &[u8]| LineRead::Line(b.to_vec());
    let good = proxy_one_round_trip(line(b"q\n"), true, line(b"a\n"));
    assert_eq!(good.forwarded, Some(b"q\n".to_vec()));
    assert_eq!(good.replied, Some(b"a\n".to_vec()));
    assert!(good.keep_listening);
    let gone = proxy_one_round_trip(LineRead::Closed, true, LineRead::Failed);
    assert_eq!((gone.forwarded, gone.replied, gone.keep_listening), (None, None, true));
    let dead = proxy_one_round_trip(line(b"q\n"), false, line(b"a\n"));
    assert_eq!((dead.replied, dead.keep_listening), (None, false));
    let mute = proxy_one_round_trip(line(b"q\n"), true, LineRead::Failed);
    assert_eq!((mute.replied, mute.keep_listening), (None, false));
    assert_eq!(
        proxy_step(ProxyState::Idle, ProxyEvent::VmWrote(true)),
        (ProxyState::Idle, ProxyAction::Ignore)
    );
    assert!(peer_uid_matches(Some(7), 7));
    assert!(!peer_uid_matches(Some(8), 7));
    assert!(!peer_uid_matches(None, 7));
}

#[test]
fn operations_are_described() {
    let ops = worker_ops();
    assert_eq!(ops.len(), 9);
    for op in &ops {
        assert!(!op_description(op).is_empty());
    }
    assert_eq!(op_description("worker::nope"), "");
    assert_eq!(op_metadata("worker::add"), (600_000, true));
    assert_eq!(op_metadata("worker::start"), (60_000, false));
    assert_eq!(op_metadata("worker::stop"), (30_000, false));
    assert_eq!(schema_entries(None).len(), 9);
    let one = schema_entries(Some("worker::list"));
    assert_eq!(one.len(), 1);
    assert_eq!(one[0].description, "List installed workers");
    assert_eq!((one[0].default_timeout_ms, one[0].idempotent), (10_000, true));
    assert!(schema_entries(Some("worker::nope")).is_empty());
}

#[test]
fn daemon_project_and_reaping() {
    let s = |t: &str| Some(t.to_string());
    assert_eq!(project_root(s("a"), s("b"), s("c")), "a");
    assert_eq!(project_root(None, s("b"), s("c")), "b");
    assert_eq!(project_root(None, None, s("c")), "c");
    assert_eq!(project_root(None, None, None), ".");
    assert!(reaps_workers(ExitReason::EngineGone));
    assert!(!reaps_workers(ExitReason::Sigterm));
    assert_eq!(reap_report(Some(0)), ReapReport::Reaped);
    assert_eq!(reap_report(Some(3)), ReapReport::Failed(3));
    assert_eq!(reap_report(None), ReapReport::TimedOut);
}

#[test]
fn host_paths_keep_their_bytes() {
    let odd = HostPath::from_bytes(b"/h\xff".to_vec());
    assert_eq!(odd.join("a").as_bytes(), b"/h\xff/a");
    assert_eq!(odd.to_string_lossy(), "/h\u{fffd}");
    let home = Some(odd);
    assert_eq!(managed_path_in(&home).as_bytes(), b"/h\xff/.iii/managed");
    assert_eq!(worker_path_in(&home, "w").as_bytes(), b"/h\xff/.iii/managed/w");
    assert_eq!(image_path_in(&home, "k").as_bytes(), b"/h\xff/.iii/cache/k");
    assert_eq!(worker_path_in(&None, "w").as_bytes(), b"/tmp/.iii/managed/w");
    for base in ["", "/", "/a", "/a/", "b", "/\u{e9}", "/\u{1f980}/"] {
        for rel in ["", "x", "/x", "x/y", "\u{e9}"] {
            let path = HostPath::from_text(base).join(rel);
            assert_eq!(path.to_string_lossy(), join_path(base, rel));
            let std = std::path::Path::new(base).join(rel).into_os_string();
            assert_eq!(path.as_bytes(), std.into_encoded_bytes());
        }
    }
}

#[test]
fn only_the_owner_is_served() {
    let line = |t: &str| LineRead::Line(t.as_bytes().to_vec());
    let served = serve_client(Some(7), 7, line("q\n"), true, line("a\n"));
    assert_eq!(served, proxy_one_round_trip(line("q\n"), true, line("a\n")));
    assert_eq!(served.forwarded, Some(b"q\n".to_vec()));
    for peer in [Some(8), None] {
        let refused = serve_client(peer, 7, line("q\n"), false, LineRead::Failed);
        assert_eq!((refused.forwarded, refused.replied), (None, None));
        assert!(refused.keep_listening);
        assert_eq!(meet_client(peer, 7), (ProxyState::Idle, ProxyAction::NextClient));
    }
    assert_eq!(meet_client(Some(7), 7), (ProxyState::AwaitRequest, ProxyAction::ReadRequest));
}

#[test]
fn the_home_is_what_was_found() {
    assert_eq!(home_of(None), None);
    assert_eq!(home_of(Some(b"/h\xff".to_vec())), Some(HostPath::from_bytes(b"/h\xff".to_vec())));
    let found = dirs::home_dir().map(|p| p.into_os_string().into_encoded_bytes());
    assert_eq!(host_home(), home_of(found));
}
