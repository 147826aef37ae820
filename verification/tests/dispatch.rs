//! The command line's decisions.

use iii_worker::cli::dispatch::{
    add_options, add_progress, batch_exit_code, batch_step, begin_batch, clear_options,
    clear_prompt, confirms, consent, error_line, is_sandbox_invocation, list_row,
    parse_source_for_cli, refusal_message, reinstall_options, remove_options, remove_prompt,
    start_options, update_names, BatchStep, Consent, WorkerSource,
};

fn strings(items: &[&str]) -> Vec<String> {
    items.iter().map(|s| s.to_string()).collect()
}

#[test]
fn sandbox_invocations_are_told_by_the_first_command() {
    assert!(is_sandbox_invocation(&strings(&["iii-worker", "sandbox", "list"])));
    assert!(is_sandbox_invocation(&strings(&["iii-worker", "-v", "--x", "sandbox"])));
    assert!(!is_sandbox_invocation(&strings(&["sandbox", "add", "sandbox"])));
    assert!(!is_sandbox_invocation(&strings(&["iii-worker"])));
    assert!(!is_sandbox_invocation(&[]));
    assert!(!is_sandbox_invocation(&strings(&["iii-worker", "", "sandbox"])));
}

fn registry(name: &str, version: Option<&str>) -> WorkerSource {
    WorkerSource::Registry { name: name.to_string(), version: version.map(String::from) }
}

fn oci(reference: &str) -> WorkerSource {
    WorkerSource::Oci { reference: reference.to_string() }
}

#[test]
fn worker_sources_are_told_apart() {
    assert_eq!(
        parse_source_for_cli("./w", true),
        WorkerSource::Local { path: "./w".to_string() }
    );
    assert_eq!(parse_source_for_cli("ghcr.io/a/b:1", false), oci("ghcr.io/a/b:1"));
    assert_eq!(parse_source_for_cli("img:tag", false), oci("img:tag"));
    assert_eq!(parse_source_for_cli("name", false), registry("name", None));
    assert_eq!(parse_source_for_cli("name@1.2", false), registry("name", Some("1.2")));
    assert_eq!(parse_source_for_cli("n@a:b@c", false), registry("n", Some("a:b@c")));
}

#[test]
fn options_of_add_and_reinstall() {
    let add = add_options("w", false, true, false, true);
    assert_eq!(add.source, registry("w", None));
    assert!(add.force && !add.reset_config && !add.wait);
    let again = reinstall_options("w", true, true);
    assert_eq!(again.source, WorkerSource::Local { path: "w".to_string() });
    assert!(again.force && again.reset_config && !again.wait);
}

#[test]
fn progress_and_exit_codes() {
    assert_eq!(add_progress(0, 1, "w"), None);
    assert_eq!(add_progress(1, 3, "w"), Some("  [2/3] Adding w...".to_string()));
    assert_eq!(batch_exit_code(0), 0);
    assert_eq!(batch_exit_code(5), 1);
}

#[test]
fn consent_is_asked_only_at_a_terminal() {
    assert_eq!(consent(true, false), Consent::Given);
    assert_eq!(consent(false, true), Consent::Ask);
    assert_eq!(consent(false, false), Consent::Refused);
}

#[test]
fn answers_are_read_without_case() {
    for yes in ["y", "Y\n", " yes ", "YES\r\n", "yEs"] {
        assert!(confirms(yes), "{yes:?}");
    }
    for no in ["", "n", "yeah", "y e s", "yy"] {
        assert!(!confirms(no), "{no:?}");
    }
}

#[test]
fn no_other_letter_lowers_to_a_yes() {
    for code in 0..=0x10ffffu32 {
        if let Some(c) = char::from_u32(code) {
            let lowered = c.to_lowercase().collect::<String>();
            for line in [c.to_string(), format!("ye{c}"), format!("y{c}s")] {
                let std = line.trim().to_lowercase();
                if lowered.contains(['y', 'e', 's']) || c.is_whitespace() {
                    assert_eq!(confirms(&line), std == "y" || std == "yes", "{code:x}");
                } else {
                    assert!(!(std == "y" || std == "yes"), "{code:x}");
                }
            }
        }
    }
}

#[test]
fn prompts_and_messages() {
    assert_eq!(remove_prompt(&strings(&["a", "b"])), "Remove worker(s) 'a, b'? [y/N] ");
    assert_eq!(clear_prompt(&clear_options(None)), "Clear all worker artifacts? [y/N] ");
    assert_eq!(
        clear_prompt(&clear_options(Some("a".to_string()))),
        "Clear artifacts for 'a'? [y/N] "
    );
    assert_eq!(
        refusal_message("remove"),
        "error: remove is destructive; pass -y/--yes for non-interactive use"
    );
    assert_eq!(error_line("W100", "boom"), "error: [W100] boom");
}

#[test]
fn selections() {
    let removal = remove_options(strings(&["a"]));
    assert_eq!(removal.names, strings(&["a"]));
    assert!(!removal.all && removal.yes);
    assert!(clear_options(None).all);
    assert!(update_names(None).is_empty());
    assert_eq!(update_names(Some("a".to_string())), strings(&["a"]));
    let start = start_options("w".to_string(), 3111, None, true);
    assert_eq!(start.port, Some(3111));
    assert!(!start.wait);
}

#[test]
fn list_rows_dash_what_is_unknown() {
    let row = list_row("w", None, None, false);
    assert_eq!((row.version.as_str(), row.pid.as_str(), row.status), ("-", "-", "stopped"));
    let row = list_row("w", Some("1.0".to_string()), Some(7), true);
    assert_eq!((row.version.as_str(), row.pid.as_str(), row.status), ("1.0", "7", "running"));
}

#[test]
fn a_batch_does_each_thing_once() {
    let run = |failed: &[bool]| {
        let mut done = vec![];
        let mut step = begin_batch(failed.len());
        loop {
            match step {
                BatchStep::Do { index, failures } => {
                    done.push(index);
                    step = batch_step(failed.len(), index, failures, failed[index]);
                }
                BatchStep::Exit(code) => return (done, code),
            }
        }
    };
    assert_eq!(run(&[]), (vec![], 0));
    assert_eq!(run(&[false, false]), (vec![0, 1], 0));
    assert_eq!(run(&[true, false, true]), (vec![0, 1, 2], 1));
    assert_eq!(run(&[false, true]), (vec![0, 1], 1));
}
