use runc_shim::invoke::{
    decoded, list_payload, listed, parse_pids, parse_state, require_stats, respond, written,
};
use runc_shim::text::{decimal_string, is_space, same_text, trim};
use runc_shim::{
    CreateOpts, DeleteOpts, Error, ExecOpts, ExitStatus, KillOpts, LogFormat, Outcome, RuncClient,
    RuncConfig,
};

fn strings(items: &[&str]) -> Vec<String> {
    items.iter().map(|s| s.to_string()).collect()
}

fn plain_client() -> RuncClient {
    RuncConfig::new().build().unwrap()
}

fn full_client() -> RuncClient {
    RuncConfig::new()
        .command("/usr/bin/runtime")
        .root("/run/state")
        .debug(true)
        .log("/var/log/runtime.json")
        .log_format(LogFormat::Json)
        .systemd_cgroup(true)
        .rootless(true)
        .set_pgid(true)
        .timeout(250)
        .build()
        .unwrap()
}

const GLOBAL: [&str; 9] = [
    "--root",
    "/run/state",
    "--debug",
    "--log",
    "/var/log/runtime.json",
    "--log-format",
    "json",
    "--systemd-cgroup",
    "--rootless=true",
];

#[test]
fn defaults_of_a_built_configuration() {
    let client = plain_client();
    assert_eq!(client.settings().command(), "runc");
    assert_eq!(client.settings().timeout(), 5000);
    assert!(!client.settings().set_pgid());
    assert_eq!(client.settings().args(), strings(&["--log-format", "text"]));
}

#[test]
fn global_flags_come_in_their_order() {
    let client = full_client();
    assert_eq!(client.settings().command(), "/usr/bin/runtime");
    assert_eq!(client.settings().timeout(), 250);
    assert!(client.settings().set_pgid());
    assert_eq!(client.settings().args(), strings(&GLOBAL));
}

#[test]
fn rootless_is_passed_only_when_fixed() {
    let fixed = RuncConfig::new().rootless(false).build().unwrap();
    assert_eq!(
        fixed.settings().args(),
        strings(&["--log-format", "text", "--rootless=false"])
    );
    let auto = RuncConfig::new()
        .rootless(true)
        .rootless_auto()
        .build()
        .unwrap();
    assert_eq!(auto.settings().args(), strings(&["--log-format", "text"]));
}

#[test]
fn log_format_setters_choose_the_token() {
    let json = RuncConfig::new().log_format_json().build().unwrap();
    assert_eq!(json.settings().args(), strings(&["--log-format", "json"]));
    let text = RuncConfig::new()
        .log_format_json()
        .log_format_text()
        .build()
        .unwrap();
    assert_eq!(text.settings().args(), strings(&["--log-format", "text"]));
    assert_eq!(LogFormat::Json.to_string(), "json");
    assert_eq!(LogFormat::Text.as_str(), "text");
}

#[test]
fn from_config_builds_the_same_client() {
    let config = RuncConfig::new().command("/bin/true").debug(true);
    let built = config.clone().build().unwrap();
    let client = RuncClient::from_config(config).unwrap();
    assert_eq!(client.settings().command(), built.settings().command());
    assert_eq!(client.settings().args(), built.settings().args());
}

#[test]
fn build_args_puts_global_flags_verb_flags_and_id_in_order() {
    let client = full_client();
    let args = client
        .settings()
        .build_args("verb", &strings(&["--flag", "value"]), "the-id");
    let mut expected = strings(&GLOBAL);
    expected.extend(strings(&["verb", "--flag", "value", "the-id"]));
    assert_eq!(args, expected);
    let again = client
        .settings()
        .build_args("verb", &strings(&["--flag", "value"]), "the-id");
    assert_eq!(args, again);
}

#[test]
fn command_prepends_the_global_flags() {
    let client = full_client();
    let invocation = client.command(&strings(&["state", "x"]), false);
    let mut expected = strings(&GLOBAL);
    expected.extend(strings(&["state", "x"]));
    assert_eq!(invocation.program, "/usr/bin/runtime");
    assert_eq!(invocation.args, expected);
    assert!(!invocation.combined_output);
    assert_eq!(invocation.timeout, None);
}

#[test]
fn command_raw_leaves_the_global_flags_out() {
    let client = full_client();
    let invocation = client.command_raw(&strings(&["state", "x"]), true);
    assert_eq!(invocation.args, strings(&["state", "x"]));
    assert!(invocation.combined_output);
}

#[test]
fn create_arguments() {
    let opts = CreateOpts::new()
        .pid_file("/run/pid")
        .console_socket("/run/console.sock")
        .no_pivot(true)
        .no_new_keyring(true)
        .detach(true);
    let invocation = plain_client().create("c1", "/bundles/c1", Some(&opts));
    assert_eq!(
        invocation.args,
        strings(&[
            "--log-format",
            "text",
            "create",
            "--bundle",
            "/bundles/c1",
            "--pid-file",
            "/run/pid",
            "--console-socket",
            "/run/console.sock",
            "--no-pivot",
            "--no-new-keyring",
            "--detach",
            "c1",
        ])
    );
    assert!(invocation.combined_output);
    let bare = plain_client().create("c1", "/bundles/c1", None);
    assert_eq!(
        bare.args,
        strings(&["--log-format", "text", "create", "--bundle", "/bundles/c1", "c1"])
    );
}

#[test]
fn run_arguments() {
    let opts = CreateOpts::new().detach(true);
    let invocation = plain_client().run("c1", "/bundles/c1", Some(&opts));
    assert_eq!(
        invocation.args,
        strings(&[
            "--log-format",
            "text",
            "run",
            "--bundle",
            "/bundles/c1",
            "--detach",
            "c1",
        ])
    );
}

#[test]
fn exec_arguments() {
    let opts = ExecOpts::new()
        .pid_file("/run/pid")
        .console_socket("/run/console.sock")
        .detach(true);
    let invocation = plain_client().exec("c1", "/tmp/process.json", Some(&opts));
    assert_eq!(
        invocation.args,
        strings(&[
            "--log-format",
            "text",
            "exec",
            "--process",
            "/tmp/process.json",
            "--console-socket",
            "/run/console.sock",
            "--detach",
            "--pid-file",
            "/run/pid",
            "c1",
        ])
    );
}

#[test]
fn delete_and_kill_arguments() {
    let client = plain_client();
    let force = DeleteOpts::new().force(true);
    assert_eq!(
        client.delete("c1", Some(&force)).args,
        strings(&["--log-format", "text", "delete", "--force", "c1"])
    );
    assert_eq!(
        client.delete("c1", Some(&DeleteOpts::new())).args,
        strings(&["--log-format", "text", "delete", "c1"])
    );
    let all = KillOpts::new().all(true);
    assert_eq!(
        client.kill("c1", 9, Some(&all)).args,
        strings(&["--log-format", "text", "kill", "--all", "c1", "9"])
    );
    assert_eq!(
        client.kill("c1", 15, None).args,
        strings(&["--log-format", "text", "kill", "c1", "15"])
    );
}

#[test]
fn query_arguments() {
    let client = plain_client();
    let list = client.list();
    assert_eq!(
        list.args,
        strings(&["--log-format", "text", "list", "--format-json"])
    );
    assert!(!list.combined_output);
    let ps = client.ps("c1");
    assert_eq!(
        ps.args,
        strings(&["--log-format", "text", "ps", "--format-json", "c1"])
    );
    assert!(!ps.combined_output);
    assert_eq!(
        client.state("c1").args,
        strings(&["--log-format", "text", "state", "c1"])
    );
    assert_eq!(
        client.stats("c1").args,
        strings(&["--log-format", "text", "events", "--stats", "c1"])
    );
}

#[test]
fn lifecycle_arguments() {
    let client = plain_client();
    assert_eq!(
        client.start("c1").args,
        strings(&["--log-format", "text", "start", "c1"])
    );
    assert_eq!(
        client.pause("c1").args,
        strings(&["--log-format", "text", "pause", "c1"])
    );
    assert_eq!(
        client.resume("c1").args,
        strings(&["--log-format", "text", "resume", "c1"])
    );
    assert_ne!(client.resume("c1").args, client.pause("c1").args);
    assert_eq!(
        client.update("c1", "/tmp/resources.json").args,
        strings(&[
            "--log-format",
            "text",
            "update",
            "--resources",
            "/tmp/resources.json",
            "c1",
        ])
    );
}

#[test]
fn the_waiting_client_plans_the_same_arguments_under_its_timeout() {
    let config = RuncConfig::new().command("/bin/true").timeout(1234);
    let blocking = config.clone().build().unwrap();
    let waiting = config.build_async().unwrap();
    let opts = CreateOpts::new().detach(true);
    let a = blocking.create("c1", "/b", Some(&opts));
    let b = waiting.create("c1", "/b", Some(&opts));
    assert_eq!(a.program, b.program);
    assert_eq!(a.args, b.args);
    assert_eq!(a.combined_output, b.combined_output);
    assert_eq!(a.timeout, None);
    assert_eq!(b.timeout, Some(1234));
    assert_eq!(waiting.kill("c1", 2, None).args, blocking.kill("c1", 2, None).args);
    assert_eq!(waiting.list().args, blocking.list().args);
    assert_eq!(waiting.ps("c1").args, blocking.ps("c1").args);
    assert_eq!(
        waiting.resume("c1").args,
        strings(&["--log-format", "text", "resume", "c1"])
    );
    assert_eq!(
        waiting.exec("c1", "/tmp/p.json", None).args,
        strings(&["--log-format", "text", "exec", "--process", "/tmp/p.json", "c1"])
    );
    assert_eq!(
        waiting.run("c1", "/b", Some(&opts)).args,
        strings(&["--log-format", "text", "run", "--bundle", "/b", "--detach", "c1"])
    );
}

#[test]
fn verbs_without_an_implementation_say_so() {
    let client = plain_client();
    for (result, verb) in [
        (client.checkpoint(), "checkpoint"),
        (client.restore(), "restore"),
        (client.events("c1", &std::time::Duration::from_secs(1)), "events"),
    ] {
        match result {
            Err(Error::UnimplementedError(name)) => assert_eq!(name, verb),
            other => panic!("unexpected result: {:?}", other),
        }
    }
    let waiting = RuncConfig::new().build_async().unwrap();
    for (result, verb) in [
        (waiting.checkpoint(), "checkpoint"),
        (waiting.restore(), "restore"),
        (waiting.events("c1", &std::time::Duration::from_secs(1)), "events"),
    ] {
        match result {
            Err(Error::UnimplementedError(name)) => assert_eq!(name, verb),
            other => panic!("unexpected result: {:?}", other),
        }
    }
}

#[test]
fn decimal_numerals() {
    assert_eq!(decimal_string(0), "0");
    assert_eq!(decimal_string(7), "7");
    assert_eq!(decimal_string(10), "10");
    assert_eq!(decimal_string(15), "15");
    assert_eq!(decimal_string(1209), "1209");
    assert_eq!(decimal_string(u32::MAX), "4294967295");
}

#[test]
fn trimming_removes_white_space_at_both_ends_only() {
    assert_eq!(trim("  a b \n"), "a b");
    assert_eq!(trim("a"), "a");
    assert_eq!(trim(""), "");
    assert_eq!(trim(" \t\r\n"), "");
    assert_eq!(trim("\u{2003}\u{e9}t\u{e9} \u{3000}"), "\u{e9}t\u{e9}");
    for text in ["", " ", "x", " x", "x ", " x y ", "\n\nnull\n", "\u{200b} x \u{200b}"] {
        assert_eq!(trim(text), text.trim());
    }
}

#[test]
fn white_space_is_what_the_standard_library_takes_for_it() {
    for code in 0..0x3100u32 {
        if let Some(c) = char::from_u32(code) {
            assert_eq!(is_space(c), c.is_whitespace(), "U+{:04X}", code);
        }
    }
    assert!(!is_space('\u{feff}'));
    assert!(!is_space('\u{10ffff}'));
}

#[test]
fn texts_are_the_same_when_their_characters_are() {
    assert!(same_text("", ""));
    assert!(same_text("null", "null"));
    assert!(!same_text("null", "nul"));
    assert!(!same_text("null", "Null"));
    assert!(!same_text("a", ""));
}

#[test]
fn exit_status_accessors() {
    assert!(ExitStatus::Exited(0).success());
    assert!(!ExitStatus::Exited(1).success());
    assert!(!ExitStatus::Signaled(9).success());
    assert_eq!(ExitStatus::Exited(3).code(), Some(3));
    assert_eq!(ExitStatus::Exited(3).signal(), None);
    assert_eq!(ExitStatus::Signaled(9).code(), None);
    assert_eq!(ExitStatus::Signaled(9).signal(), Some(9));
}

fn exited(code: i32, stdout: &str, stderr: &str) -> Outcome {
    Outcome::Exited {
        pid: 42,
        status: ExitStatus::Exited(code),
        stdout: stdout.to_string(),
        stderr: stderr.to_string(),
    }
}

#[test]
fn success_reports_stdout_or_both_streams() {
    let plain = respond(exited(0, "out", "err"), false).unwrap();
    assert_eq!(plain.pid, 42);
    assert_eq!(plain.status, ExitStatus::Exited(0));
    assert_eq!(plain.output, "out");
    let combined = respond(exited(0, "out", "err"), true).unwrap();
    assert_eq!(combined.output, "outerr");
}

#[test]
fn failure_carries_code_and_both_streams_apart() {
    for combined in [false, true] {
        match respond(exited(2, "out", "err"), combined) {
            Err(Error::CommandFaliedError {
                status,
                stdout,
                stderr,
            }) => {
                assert_eq!(status, ExitStatus::Exited(2));
                assert_eq!(stdout, "out");
                assert_eq!(stderr, "err");
            }
            other => panic!("unexpected result: {:?}", other),
        }
    }
    match respond(
        Outcome::Exited {
            pid: 1,
            status: ExitStatus::Signaled(9),
            stdout: String::new(),
            stderr: "killed".to_string(),
        },
        true,
    ) {
        Err(Error::CommandFaliedError { status, stderr, .. }) => {
            assert_eq!(status.signal(), Some(9));
            assert_eq!(stderr, "killed");
        }
        other => panic!("unexpected result: {:?}", other),
    }
}

#[test]
fn outcomes_without_an_exit_map_to_their_errors() {
    let not_found = || std::io::Error::from(std::io::ErrorKind::NotFound);
    match respond(Outcome::SpawnFailed(not_found()), true) {
        Err(Error::ProcessSpawnError(e)) => assert_eq!(e.kind(), std::io::ErrorKind::NotFound),
        other => panic!("unexpected result: {:?}", other),
    }
    match respond(Outcome::WaitFailed(not_found()), true) {
        Err(Error::CommandError(e)) => assert_eq!(e.kind(), std::io::ErrorKind::NotFound),
        other => panic!("unexpected result: {:?}", other),
    }
    match respond(Outcome::TimedOut, true) {
        Err(Error::CommandTimeoutError) => {}
        other => panic!("unexpected result: {:?}", other),
    }
}

#[test]
fn output_is_the_response_without_pid_and_status() {
    let invocation = plain_client().ps("c1");
    assert_eq!(invocation.output(exited(0, "[1]", "warn")).unwrap(), "[1]");
    let invocation = plain_client().start("c1");
    assert_eq!(invocation.output(exited(0, "a", "b")).unwrap(), "ab");
    match invocation.output(exited(1, "a", "b")) {
        Err(Error::CommandFaliedError { stdout, stderr, .. }) => {
            assert_eq!(stdout, "a");
            assert_eq!(stderr, "b");
        }
        other => panic!("unexpected result: {:?}", other),
    }
}

#[test]
fn null_stands_for_no_process() {
    assert_eq!(parse_pids("null").unwrap(), Vec::<usize>::new());
    assert_eq!(parse_pids("  null\n").unwrap(), Vec::<usize>::new());
    assert_eq!(parse_pids("\u{a0}null\u{3000}\t").unwrap(), Vec::<usize>::new());
}

#[test]
fn pids_are_decoded() {
    assert_eq!(parse_pids("[1, 22, 333]\n").unwrap(), vec![1, 22, 333]);
    assert_eq!(parse_pids("[]").unwrap(), Vec::<usize>::new());
    match parse_pids("not json") {
        Err(Error::JsonDeserializationError(message)) => assert!(!message.is_empty()),
        other => panic!("unexpected result: {:?}", other),
    }
    match parse_pids("[1, -2]") {
        Err(Error::JsonDeserializationError(_)) => {}
        other => panic!("unexpected result: {:?}", other),
    }
    match parse_pids("nul l") {
        Err(Error::JsonDeserializationError(_)) => {}
        other => panic!("unexpected result: {:?}", other),
    }
}

#[test]
fn state_output_is_decoded_as_it_is() {
    assert_eq!(parse_state("[4, 5]").unwrap(), vec![4, 5]);
    match parse_state("null") {
        Err(Error::JsonDeserializationError(_)) => {}
        other => panic!("unexpected result: {:?}", other),
    }
}

#[test]
fn list_payload_is_trimmed_and_absent_for_null() {
    assert_eq!(list_payload(" null \n"), None);
    assert_eq!(list_payload("null"), None);
    assert_eq!(list_payload(" [] \n"), Some("[]"));
    assert_eq!(list_payload("[{\"id\":\"a\"}]\n"), Some("[{\"id\":\"a\"}]"));
    assert_eq!(list_payload(""), Some(""));
}

#[test]
fn only_white_space_is_trimmed() {
    // a zero width space is no white space
    assert_eq!(list_payload("\u{200b}null"), Some("\u{200b}null"));
    assert_eq!(list_payload("\u{180e}[]\u{feff}"), Some("\u{180e}[]\u{feff}"));
    for space in [
        '\t', '\n', '\u{b}', '\u{c}', '\r', ' ', '\u{85}', '\u{a0}', '\u{1680}', '\u{2000}',
        '\u{2005}', '\u{200a}', '\u{2028}', '\u{2029}', '\u{202f}', '\u{205f}', '\u{3000}',
    ] {
        let text = format!("{}[7]{}", space, space);
        assert_eq!(list_payload(&text), Some("[7]"));
        assert_eq!(parse_pids(&text).unwrap(), vec![7]);
    }
    for other in ['\u{8}', '\u{e}', '\u{1f}', '\u{84}', '\u{86}', '\u{200b}', '\u{2060}'] {
        let text = format!("{}null", other);
        assert_eq!(list_payload(&text), Some(text.as_str()));
    }
}

#[test]
fn a_listing_without_payload_is_empty() {
    assert_eq!(listed::<u8>(None).unwrap(), Vec::<u8>::new());
    assert_eq!(listed(Some(Ok(vec![1u8, 2]))).unwrap(), vec![1u8, 2]);
    match listed::<u8>(Some(Err("bad".to_string()))) {
        Err(Error::JsonDeserializationError(message)) => assert_eq!(message, "bad"),
        other => panic!("unexpected result: {:?}", other),
    }
    assert_eq!(decoded(Ok::<u8, String>(3)).unwrap(), 3);
    match decoded::<u8>(Err("worse".to_string())) {
        Err(Error::JsonDeserializationError(message)) => assert_eq!(message, "worse"),
        other => panic!("unexpected result: {:?}", other),
    }
}

#[test]
fn a_document_that_could_not_be_written_fails_the_call() {
    assert_eq!(written(Ok::<&str, std::io::Error>("/tmp/doc")).unwrap(), "/tmp/doc");
    let denied = std::io::Error::from(std::io::ErrorKind::PermissionDenied);
    match written::<String>(Err(denied)) {
        Err(Error::SpecFileCreationError(e)) => {
            assert_eq!(e.kind(), std::io::ErrorKind::PermissionDenied)
        }
        other => panic!("unexpected result: {:?}", other),
    }
}

#[test]
fn statistics_must_be_there() {
    assert_eq!(require_stats(Some(7)).unwrap(), 7);
    match require_stats::<u8>(None) {
        Err(Error::MissingContainerStatsError) => {}
        other => panic!("unexpected result: {:?}", other),
    }
}
