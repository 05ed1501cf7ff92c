use zeroclaw::agent::worker::{
    file_window, invalid_params, local_tool, local_tools, numbered_lines, shell_output,
    truncate_output, unknown_local_tool, written_message, LocalTool,
};
use zeroclaw::agent::worker_cli::{
    classify_input, cli_banner, handle_cli_command, parse_u64, worker_mode, CliInput,
    WorkerConfig, WorkerMode,
};

fn config() -> WorkerConfig {
    WorkerConfig::from_values(None, None, None, None, None, "box".to_string()).unwrap()
}

#[test]
fn local_tool_catalogue() {
    let names: Vec<&str> = local_tools().iter().map(|t| t.0).collect();
    assert_eq!(names, vec!["shell", "file_read", "file_write"]);
    assert_eq!(local_tool("shell"), Some(LocalTool::Shell));
    assert_eq!(local_tool("file_read"), Some(LocalTool::FileRead));
    assert_eq!(local_tool("file_write"), Some(LocalTool::FileWrite));
    assert_eq!(local_tool("web_search"), None);
    assert_eq!(unknown_local_tool("x"), "Unknown local tool: x");
    assert_eq!(invalid_params("bad"), "Invalid params: bad");
}

#[test]
fn shell_output_assembly() {
    assert_eq!(shell_output("out", "err", Some(1)), "out\nstderr: err");
    assert_eq!(shell_output("out", "", Some(0)), "out");
    assert_eq!(shell_output("", "err", Some(1)), "stderr: err");
    assert_eq!(shell_output("", "", Some(2)), "Exit code: 2");
    assert_eq!(shell_output("", "", Some(-3)), "Exit code: -3");
    assert_eq!(shell_output("", "", None), "Exit code: -1");
}

#[test]
fn long_output_is_truncated() {
    let long = "y".repeat(9000);
    let r = truncate_output(&long);
    assert_eq!(r.len(), 8000 + "\n... (truncated)".len());
    assert!(r.ends_with("\n... (truncated)"));
    assert_eq!(truncate_output("fine"), "fine");
}

#[test]
fn lines_of_a_file() {
    assert_eq!(file_window("a\nb\r\nc\n", 0, 2000), Some("   1 a\n   2 b\n   3 c".to_string()));
    assert_eq!(file_window("a\nb\nc", 1, 1), Some("   2 b".to_string()));
    assert_eq!(file_window("", 0, 10), Some(String::new()));
    assert_eq!(file_window("a\nb", 5, usize::MAX - 2), Some(String::new()));
    assert_eq!(file_window("a\nb", 0, usize::MAX), Some("   1 a\n   2 b".to_string()));
    assert_eq!(file_window("a\nb", 1, usize::MAX), None);
}

#[test]
fn numbered_window_of_lines() {
    let lines = vec!["x".to_string(), "y".to_string(), "z".to_string()];
    assert_eq!(numbered_lines(&lines, 0, 2000), "   1 x\n   2 y\n   3 z");
    assert_eq!(numbered_lines(&lines, 1, 1), "   2 y");
    assert_eq!(numbered_lines(&lines, 5, 10), "");
    let many: Vec<String> = (0..10000).map(|i| format!("l{}", i)).collect();
    assert_eq!(numbered_lines(&many, 9999, 5), "10000 l9999");
}

#[test]
fn write_report() {
    assert_eq!(written_message("hello", "/tmp/a.txt"), "Written 5 bytes to /tmp/a.txt");
    assert_eq!(written_message("é", "f"), "Written 2 bytes to f");
}

#[test]
fn parsing_numbers() {
    assert_eq!(parse_u64("42"), Some(42));
    assert_eq!(parse_u64("+7"), Some(7));
    assert_eq!(parse_u64("0"), Some(0));
    assert_eq!(parse_u64(""), None);
    assert_eq!(parse_u64("+"), None);
    assert_eq!(parse_u64("-1"), None);
    assert_eq!(parse_u64("4a"), None);
    assert_eq!(parse_u64("18446744073709551615"), Some(u64::MAX));
    assert_eq!(parse_u64("18446744073709551616"), None);
}

#[test]
fn configuration_defaults_and_overrides() {
    let c = config();
    assert_eq!(c.spacetime_uri, "ws://localhost:3000");
    assert_eq!(c.module_name, "zeroclaw");
    assert_eq!(c.agent_id, 1);
    assert_eq!(c.mode, "cli");
    assert_eq!(c.worker_name, "box");
    let d = WorkerConfig::from_values(
        Some("ws://db:3000".to_string()),
        Some("brain".to_string()),
        Some("12".to_string()),
        Some("daemon".to_string()),
        Some("w1".to_string()),
        "box".to_string(),
    )
    .unwrap();
    assert_eq!((d.spacetime_uri.as_str(), d.module_name.as_str()), ("ws://db:3000", "brain"));
    assert_eq!((d.agent_id, d.mode.as_str(), d.worker_name.as_str()), (12, "daemon", "w1"));
    let e = WorkerConfig::from_values(None, None, Some("one".to_string()), None, None, String::new());
    assert_eq!(e.unwrap_err(), "ZEROCLAW_AGENT_ID must be a number");
}

#[test]
fn worker_modes() {
    assert_eq!(worker_mode("cli"), Ok(WorkerMode::Cli));
    assert_eq!(worker_mode("daemon"), Ok(WorkerMode::Daemon));
    assert_eq!(worker_mode("batch"), Err("Unknown mode: batch. Use 'cli' or 'daemon'.".to_string()));
}

#[test]
fn cli_input_classes() {
    assert_eq!(classify_input(""), CliInput::Empty);
    assert_eq!(classify_input("/quit"), CliInput::Quit);
    assert_eq!(classify_input("/exit"), CliInput::Quit);
    assert_eq!(classify_input("/help"), CliInput::Command);
    assert_eq!(classify_input("hello"), CliInput::Message);
}

#[test]
fn cli_commands() {
    let c = config();
    assert_eq!(handle_cli_command("/help", &c).len(), 6);
    assert_eq!(handle_cli_command("/help", &c)[0], "Commands:");
    assert_eq!(
        handle_cli_command("/status", &c),
        vec!["SpacetimeDB: ws://localhost:3000/zeroclaw", "Agent ID: 1", "Worker: box"]
    );
    assert_eq!(handle_cli_command("/tools", &c), vec!["[Would query SpacetimeDB tables]"]);
    assert_eq!(handle_cli_command("/foo", &c), vec!["Unknown command: /foo"]);
    assert_eq!(
        cli_banner(&c),
        vec![
            "ZeroClaw CLI (SpacetimeDB: ws://localhost:3000/zeroclaw)",
            "Agent ID: 1",
            "Type your message, or /quit to exit.\n",
        ]
    );
}

#[test]
fn file_lines_agree_with_std_lines() {
    let texts = ["foo\nbar\n\r\nbaz\r", "a\r\nb\r\n", "\n\n", "x\ry\n", "", "only", "é\r\nü"];
    for text in texts {
        let expected: Vec<String> =
            text.lines().enumerate().map(|(i, l)| format!("{:>4} {}", i + 1, l)).collect();
        assert_eq!(file_window(text, 0, 2000), Some(expected.join("\n")), "text {:?}", text);
    }
}
