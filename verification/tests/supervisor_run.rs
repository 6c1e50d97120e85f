use mcp_binary::BinaryVersion;
use mcp_binary::McpServerBinary;
use mcp_binary::McpServerLog;
use mcp_binary::McpServerOpts;
use mcp_binary::MonitorAction;
use mcp_binary::MonitorEvent;
use mcp_binary::MonitorState;
use mcp_binary::MutationMode;
use mcp_binary::RunMcpServerBinary;
use mcp_binary::RunMcpServerBinaryError;
use mcp_binary::StdioMode;
use mcp_binary::StreamForwarder;
use mcp_binary::StreamKind;
use mcp_binary::supervisor::LaunchOutcome;
use mcp_binary::supervisor::launch_outcome_events;
use mcp_binary::supervisor::missing_stream_error;
use mcp_binary::monitor::monitor_step;
use mcp_binary::ExitInfo;

fn opts() -> McpServerOpts {
    McpServerOpts {
        port: 9000,
        address: "0.0.0.0".to_string(),
        directory: None,
        collection: None,
        allow_mutations: MutationMode::All,
        introspection: true,
        operations: vec![],
        headers: vec![],
        manifest: None,
        uplink_manifest: false,
        uplink: false,
        custom_scalars_config: None,
        disable_type_description: false,
        disable_schema_description: false,
        explorer: false,
    }
}

fn run() -> RunMcpServerBinary {
    let binary = McpServerBinary::new(
        "/opt/mcp/apollo-mcp-server".to_string(),
        BinaryVersion { major: 1, minor: 2, patch: 3 },
    );
    RunMcpServerBinary::new(
        binary,
        "supergraph.graphql".to_string(),
        "http://127.0.0.1:4000".to_string(),
        opts(),
        vec![("APOLLO_KEY".to_string(), "redacted".to_string())],
    )
}

#[test]
fn binary_holds_path_and_version() {
    let binary = McpServerBinary::new(
        "/bin/server".to_string(),
        BinaryVersion { major: 0, minor: 9, patch: 1 },
    );
    assert_eq!(binary.exe().as_str(), "/bin/server");
    assert_eq!(binary.version(), BinaryVersion { major: 0, minor: 9, patch: 1 });
}

#[test]
fn launch_plan_wires_streams_and_keeps_env() {
    let plan = run().into_launch_plan();
    assert_eq!(plan.exe, "/opt/mcp/apollo-mcp-server");
    assert_eq!(plan.stdin_mode, StdioMode::Discard);
    assert_eq!(plan.stdout_mode, StdioMode::Capture);
    assert_eq!(plan.stderr_mode, StdioMode::Capture);
    assert_eq!(
        plan.env,
        vec![("APOLLO_KEY".to_string(), "redacted".to_string())]
    );
    let head: Vec<&str> = plan.args[..8].iter().map(|s| s.as_str()).collect();
    assert_eq!(
        head,
        vec![
            "--schema",
            "supergraph.graphql",
            "--endpoint",
            "http://127.0.0.1:4000",
            "--http-port",
            "9000",
            "--http-address",
            "0.0.0.0",
        ]
    );
    assert!(plan.args.contains(&"--introspection".to_string()));
}

#[test]
fn failed_launch_yields_exactly_one_spawn_error() {
    let evs = launch_outcome_events(LaunchOutcome::Failed("no such binary".to_string()));
    assert_eq!(evs.len(), 1);
    match &evs[0] {
        Err(RunMcpServerBinaryError::Spawn { err }) => assert_eq!(err.as_str(), "no such binary"),
        _ => panic!("expected a Spawn error"),
    }
}

#[test]
fn fully_captured_launch_yields_no_events() {
    let evs = launch_outcome_events(LaunchOutcome::Started {
        stdout_captured: true,
        stderr_captured: true,
    });
    assert!(evs.is_empty());
}

#[test]
fn each_missing_stream_is_reported_by_its_own_name() {
    let evs = launch_outcome_events(LaunchOutcome::Started {
        stdout_captured: false,
        stderr_captured: false,
    });
    assert_eq!(evs.len(), 2);
    match &evs[0] {
        Err(RunMcpServerBinaryError::OutputCapture { descriptor }) => {
            assert_eq!(descriptor.as_str(), "stdout")
        }
        _ => panic!("expected an OutputCapture error"),
    }
    match &evs[1] {
        Err(RunMcpServerBinaryError::OutputCapture { descriptor }) => {
            assert_eq!(descriptor.as_str(), "stderr")
        }
        _ => panic!("expected an OutputCapture error"),
    }
}

#[test]
fn missing_stderr_alone_is_reported_as_stderr() {
    let evs = launch_outcome_events(LaunchOutcome::Started {
        stdout_captured: true,
        stderr_captured: false,
    });
    assert_eq!(evs.len(), 1);
    match &evs[0] {
        Err(RunMcpServerBinaryError::OutputCapture { descriptor }) => {
            assert_eq!(descriptor.as_str(), "stderr")
        }
        _ => panic!("expected an OutputCapture error"),
    }
}

#[test]
fn missing_stream_error_names_the_stream() {
    match missing_stream_error(StreamKind::Stdout) {
        RunMcpServerBinaryError::OutputCapture { descriptor } => assert_eq!(descriptor.as_str(), "stdout"),
        _ => panic!("expected an OutputCapture error"),
    }
}

/// A whole scripted run, as the host runtime would drive it: stdout says
/// "a" then "b", stderr says "x", then the process exits with code 1.
#[test]
fn scripted_run_forwards_lines_then_reports_exit() {
    let evs = launch_outcome_events(LaunchOutcome::Started {
        stdout_captured: true,
        stderr_captured: true,
    });
    assert!(evs.is_empty());

    let mut channel: Vec<Result<McpServerLog, RunMcpServerBinaryError>> = Vec::new();

    let mut out = StreamForwarder::new(StreamKind::Stdout);
    let (events, ok) = out.push_chunk(b"a\nb\n");
    assert!(ok);
    channel.extend(events.into_iter().map(Ok));

    let mut err = StreamForwarder::new(StreamKind::Stderr);
    let (events, ok) = err.push_chunk(b"x\n");
    assert!(ok);
    channel.extend(events.into_iter().map(Ok));

    let exit = ExitInfo { code: Some(1) };
    let (state, action) = monitor_step(
        MonitorState::Running,
        MonitorEvent::ProcessExited(Ok(exit)),
    );
    assert_eq!(state, MonitorState::Terminated);
    match action {
        MonitorAction::EmitExited(res) => {
            channel.push(Err(RunMcpServerBinaryError::BinaryExited(res)))
        }
        _ => panic!("expected EmitExited"),
    }

    let stdout_lines: Vec<String> = channel
        .iter()
        .filter_map(|ev| match ev {
            Ok(log) if !log.is_stderr() => Some(log.line().clone()),
            _ => None,
        })
        .collect();
    let stderr_lines: Vec<String> = channel
        .iter()
        .filter_map(|ev| match ev {
            Ok(log) if log.is_stderr() => Some(log.line().clone()),
            _ => None,
        })
        .collect();
    // "a" before "b"; no ordering constraint couples the two streams.
    assert_eq!(stdout_lines, vec!["a".to_string(), "b".to_string()]);
    assert_eq!(stderr_lines, vec!["x".to_string()]);
    match channel.last().unwrap() {
        Err(RunMcpServerBinaryError::BinaryExited(Ok(info))) => {
            assert_eq!(info.code, Some(1));
            assert!(!info.success());
        }
        _ => panic!("expected a BinaryExited error"),
    }
}
