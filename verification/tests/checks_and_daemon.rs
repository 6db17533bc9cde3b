use spellbook::checks::{find_version_release, find_version_sha, version_output_text, version_program, version_scan_fails, version_warning};
use spellbook::config::{Config, ModelConfig, ModelDefaults, ModelSource, NamedModel, Tools, UserConfig};
use spellbook::daemon::{
    parse_pid_file, parse_request, pid_file_contents, start_decision, status_report, stop_poll, stop_request,
    switch_request, DaemonAction, DaemonRequest, DaemonState, StartDecision, StopPoll,
};

fn config(names: &[&str]) -> Config {
    Config::new(
        UserConfig { models_directory: "~models".to_string(), tools: Tools::default() },
        ModelDefaults::default(),
        names
            .iter()
            .map(|n| NamedModel {
                name: n.to_string(),
                model: ModelConfig {
                    source: ModelSource { repo: "r".to_string(), file: "f.gguf".to_string() },
                    context: 1,
                    gpu_layers: 0,
                    temp: "0.7".to_string(),
                    top_p: "0.8".to_string(),
                    top_k: 20,
                    repeat_penalty: "1.05".to_string(),
                    min_p: "0".to_string(),
                    port: 7777,
                    host: "127.0.0.1".to_string(),
                    mlock: false,
                    flash_attn: false,
                    chat_template_kwargs: None,
                },
            })
            .collect(),
    )
}

#[test]
fn version_hash_from_output() {
    assert_eq!(find_version_sha("version: 113 (05fa625e)\nbuilt with cc"), Some("05fa625e".to_string()));
    assert_eq!(
        find_version_sha("load_backend: x\nversion: 6000 (ABCDEF12)\n"),
        Some("ABCDEF12".to_string())
    );
    assert_eq!(find_version_sha("1.2.3\n"), None);
    assert_eq!(find_version_sha("(zzzzzzzz)"), None);
    assert_eq!(find_version_sha("(05fa625)"), None);
    assert_eq!(find_version_sha("(05fa625e1)"), None);
    assert_eq!(find_version_sha("a (b) (05fa625e)"), None);
    assert_eq!(find_version_sha("x (05fa625e)\r\n"), Some("05fa625e".to_string()));
    assert_eq!(find_version_sha(""), None);
}

#[test]
fn version_scan_failure_where_parentheses_are_out_of_order() {
    assert!(version_scan_fails("a) (b"));
    assert!(version_scan_fails("nothing\n)(\n(05fa625e)"));
    assert!(!version_scan_fails("(05fa625e)\n)("));
    assert!(!version_scan_fails("plain text"));
    assert!(!version_scan_fails("()"));
}

#[test]
fn version_output_choice() {
    assert_eq!(version_output_text(b"out".to_vec(), b"err".to_vec()), Some("out".to_string()));
    assert_eq!(version_output_text(Vec::new(), b"err".to_vec()), Some("err".to_string()));
    assert_eq!(version_output_text(vec![0xff, 0xfe], b"err".to_vec()), None);
    assert_eq!(version_output_text(Vec::new(), Vec::new()), Some(String::new()));
}

#[test]
fn version_programs() {
    assert_eq!(version_program("opencode"), Some("opencode"));
    assert_eq!(version_program("llama-server"), Some("llama-server"));
    assert_eq!(version_program("hf"), None);
}

#[test]
fn version_warnings() {
    assert_eq!(version_warning("llama-server", "", Some("8077"), Some("05fa625e")), None);
    assert_eq!(version_warning("llama-server", "", None, None), None);
    assert_eq!(version_warning("llama-server", "05fa625e", Some("8077"), Some("05fa625e")), None);
    assert_eq!(version_warning("llama-server", "b8077", Some("8077"), Some("a1b2c3d4")), None);
    assert_eq!(version_warning("llama-server", "8077", Some("8077"), None), None);
    assert_eq!(version_warning("opencode", "1.2.3", Some("1.2.3"), None), None);
    assert_eq!(
        version_warning("llama-server", "b8077", Some("8100"), Some("05fa625e")),
        Some("Warning: llama-server version mismatch. Expected: b8077, Found: 05fa625e".to_string())
    );
    assert_eq!(
        version_warning("llama-server", "b8077", None, Some("05fa625e")),
        Some("Warning: llama-server version mismatch. Expected: b8077, Found: 05fa625e".to_string())
    );
    assert_eq!(
        version_warning("opencode", "1.2.3", Some("1.2.4"), None),
        Some("Warning: Could not determine opencode version".to_string())
    );
    assert_eq!(
        version_warning("opencode", "1.2.3", None, None),
        Some("Warning: Could not determine opencode version".to_string())
    );
}

#[test]
fn readme_build_tag_pin_matches_installed_build() {
    let output = "version: 8077 (a1b2c3d4)\nbuilt with cc for x86_64-linux-gnu\n";
    let release = find_version_release(output);
    let sha = find_version_sha(output);
    assert_eq!(release.as_deref(), Some("8077"));
    assert_eq!(sha.as_deref(), Some("a1b2c3d4"));
    assert_eq!(version_warning("llama-server", "b8077", release.as_deref(), sha.as_deref()), None);
}

#[test]
fn version_release_from_output() {
    assert_eq!(find_version_release("load: x\n  version:  6000 (ABCDEF12)\n"), Some("6000".to_string()));
    assert_eq!(find_version_release("version:8077(a1b2c3d4)"), Some("8077".to_string()));
    assert_eq!(find_version_release("1.2.3\n"), Some("1.2.3".to_string()));
    assert_eq!(find_version_release("opencode 1.2.3"), None);
    assert_eq!(find_version_release("version: \n1.2.3"), None);
    assert_eq!(find_version_release(""), None);
    assert_eq!(find_version_release("Version: 1"), None);
}

#[test]
fn requests_as_sent_and_read() {
    assert_eq!(stop_request(), "stop");
    assert_eq!(switch_request("qwen3-4b"), "switch qwen3-4b");
    assert!(matches!(parse_request(stop_request().as_bytes()), DaemonRequest::Stop));
    match parse_request(switch_request("qwen3-4b").as_bytes()) {
        DaemonRequest::Switch(name) => assert_eq!(name, "qwen3-4b"),
        _ => panic!("switch request not understood"),
    }
    match parse_request(b"  switch llama-3.2-3b\r\n") {
        DaemonRequest::Switch(name) => assert_eq!(name, "llama-3.2-3b"),
        _ => panic!("switch request not understood"),
    }
    assert!(matches!(parse_request(b"stop\n"), DaemonRequest::Stop));
    assert!(matches!(parse_request(b"switch "), DaemonRequest::Unknown));
    assert!(matches!(parse_request(b"STOP"), DaemonRequest::Unknown));
    assert!(matches!(parse_request(&[0xff, b's']), DaemonRequest::Unknown));
    match parse_request(&[b's', b'w', b'i', b't', b'c', b'h', b' ', b'a', 0xff]) {
        DaemonRequest::Switch(name) => assert_eq!(name, "a\u{fffd}"),
        _ => panic!("lossy switch request not understood"),
    }
}

#[test]
fn daemon_handles_requests() {
    let c = config(&["llama-3.2-3b", "qwen3-4b"]);
    let mut state = DaemonState { current_model: "llama-3.2-3b".to_string() };
    assert!(matches!(state.handle(&c, b""), DaemonAction::Ignore));
    match state.handle(&c, b"switch qwen3-4b") {
        DaemonAction::Switch { model, reply } => {
            assert_eq!(model, "qwen3-4b");
            assert_eq!(reply, "Switching to qwen3-4b, loading...\n");
        }
        _ => panic!("expected a switch"),
    }
    assert_eq!(state.current_model, "qwen3-4b");
    match state.handle(&c, b"switch mistral") {
        DaemonAction::Reply(reply) => assert_eq!(reply, "Error: model 'mistral' not found\n"),
        _ => panic!("expected a refusal"),
    }
    assert_eq!(state.current_model, "qwen3-4b");
    match state.handle(&c, b"status") {
        DaemonAction::Reply(reply) => assert_eq!(reply, "Unknown command\n"),
        _ => panic!("expected an unknown command"),
    }
    match state.handle(&c, b"stop") {
        DaemonAction::Shutdown { reply } => assert_eq!(reply, "Stopping daemon...\n"),
        _ => panic!("expected a shutdown"),
    }
    assert_eq!(state.current_model, "qwen3-4b");
}

#[test]
fn daemon_start_decisions() {
    let c = config(&["a"]);
    assert!(matches!(start_decision(true, &c, "a"), StartDecision::AlreadyRunning));
    assert!(matches!(start_decision(false, &c, "b"), StartDecision::UnknownModel));
    match start_decision(false, &c, "a") {
        StartDecision::Start(s) => assert_eq!(s.current_model, "a"),
        _ => panic!("expected a start"),
    }
}

#[test]
fn pid_file_round_trip() {
    for pid in [1, 42, 31337, i32::MAX, 0, -1, i32::MIN] {
        let contents = pid_file_contents(pid);
        assert_eq!(contents, pid.to_string());
        assert_eq!(parse_pid_file(&contents), Some(pid));
    }
    assert_eq!(parse_pid_file("  1234\n"), Some(1234));
    assert_eq!(parse_pid_file("12 34"), None);
    assert_eq!(parse_pid_file(""), None);
}

#[test]
fn status_reports() {
    assert_eq!(status_report(None, false, None), vec!["Daemon Status: not running"]);
    assert_eq!(status_report(Some(12), false, Some("x")), vec!["Daemon Status: not running"]);
    assert_eq!(
        status_report(Some(12), true, Some("qwen3-4b\n")),
        vec!["Daemon Status: running", "PID: 12", "Current Model: qwen3-4b"]
    );
    assert_eq!(
        status_report(Some(12), true, None),
        vec!["Daemon Status: running", "PID: 12", "Current Model: unknown"]
    );
}

#[test]
fn stop_polling() {
    assert_eq!(stop_poll(0, false), StopPoll::Stopped);
    assert_eq!(stop_poll(0, true), StopPoll::WaitAndCheck);
    assert_eq!(stop_poll(8, true), StopPoll::WaitAndCheck);
    assert_eq!(stop_poll(9, true), StopPoll::WaitAndKill);
    assert_eq!(stop_poll(9, false), StopPoll::Stopped);
}
