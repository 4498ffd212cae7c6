use nextctl::args::{parse_invocation, Invocation};
use nextctl::protocol::{encode_command, CommandResponse, ControlServiceProxy, WireRequest};
use nextctl::registry::{BindError, Global, GlobalRegistry};
use nextctl::report::{fatal_report_for, report_for};
use nextctl::text::{
    compositor_error_line, connect_error_line, dispatch_error_line, str_eq, usage_lines,
    usage_sentinel, version_line,
};

fn strings(v: &[&str]) -> Vec<String> {
    v.iter().map(|s| s.to_string()).collect()
}

#[test]
fn parse_plain_arguments_run_verbatim() {
    match parse_invocation(strings(&["status"])) {
        Invocation::Run(p) => assert_eq!(p, strings(&["status"])),
        _ => panic!("expected a run"),
    }
}

#[test]
fn parse_empty_argument_list_runs_empty_payload() {
    match parse_invocation(Vec::new()) {
        Invocation::Run(p) => assert!(p.is_empty()),
        _ => panic!("expected a run"),
    }
}

#[test]
fn parse_help_flags() {
    assert!(matches!(parse_invocation(strings(&["-h"])), Invocation::Help));
    assert!(matches!(parse_invocation(strings(&["--help"])), Invocation::Help));
}

#[test]
fn parse_version_flags() {
    assert!(matches!(parse_invocation(strings(&["-v"])), Invocation::Version));
    assert!(matches!(parse_invocation(strings(&["--version"])), Invocation::Version));
}

#[test]
fn parse_flag_anywhere_in_the_list_wins() {
    assert!(matches!(parse_invocation(strings(&["status", "-h"])), Invocation::Help));
    assert!(matches!(parse_invocation(strings(&["status", "--version"])), Invocation::Version));
}

#[test]
fn parse_first_flag_decides() {
    assert!(matches!(parse_invocation(strings(&["-v", "-h"])), Invocation::Version));
    assert!(matches!(parse_invocation(strings(&["-h", "-v"])), Invocation::Help));
}

#[test]
fn parse_unrecognized_dashed_argument_is_payload() {
    match parse_invocation(strings(&["--bogus"])) {
        Invocation::Run(p) => assert_eq!(p, strings(&["--bogus"])),
        _ => panic!("expected a run"),
    }
}

fn control_registry(id: u32, version: u32) -> GlobalRegistry {
    GlobalRegistry::new(vec![
        Global { id: 1, interface: "wl_compositor".to_string(), version: 4 },
        Global { id, interface: "next_control_v1".to_string(), version },
        Global { id: 9, interface: "wl_seat".to_string(), version: 7 },
    ])
}

#[test]
fn bind_exact_finds_the_interface() {
    let reg = control_registry(5, 1);
    assert_eq!(reg.bind_exact("next_control_v1", 1), Ok(5));
}

#[test]
fn bind_exact_is_idempotent() {
    let reg = control_registry(5, 1);
    let first = reg.bind_exact("next_control_v1", 1);
    let second = reg.bind_exact("next_control_v1", 1);
    assert_eq!(first, Ok(5));
    assert_eq!(first, second);
}

#[test]
fn bind_exact_rejects_a_different_version() {
    let reg = control_registry(5, 2);
    assert_eq!(reg.bind_exact("next_control_v1", 1), Err(BindError::VersionMismatch));
}

#[test]
fn bind_exact_rejects_an_absent_interface() {
    let reg = GlobalRegistry::new(vec![Global {
        id: 1,
        interface: "wl_compositor".to_string(),
        version: 4,
    }]);
    assert_eq!(reg.bind_exact("next_control_v1", 1), Err(BindError::InterfaceNotFound));
}

#[test]
fn bind_exact_on_an_empty_registry_finds_nothing() {
    let reg = GlobalRegistry::new(Vec::new());
    assert_eq!(reg.bind_exact("next_control_v1", 1), Err(BindError::InterfaceNotFound));
}

#[test]
fn proxy_queues_arguments_then_run() {
    let mut proxy = ControlServiceProxy::bind();
    proxy.add_argument("set".to_string());
    proxy.add_argument("border-width".to_string());
    proxy.run_command();
    let q = proxy.into_requests();
    assert_eq!(q.len(), 3);
    assert!(matches!(&q[0], WireRequest::AddArgument(s) if s.as_str() == "set"));
    assert!(matches!(&q[1], WireRequest::AddArgument(s) if s.as_str() == "border-width"));
    assert!(matches!(&q[2], WireRequest::RunCommand));
}

#[test]
fn encode_command_appends_in_order_then_runs() {
    let q = encode_command(&strings(&["a", "b", "c"]));
    assert_eq!(q.len(), 4);
    assert!(matches!(&q[0], WireRequest::AddArgument(s) if s.as_str() == "a"));
    assert!(matches!(&q[1], WireRequest::AddArgument(s) if s.as_str() == "b"));
    assert!(matches!(&q[2], WireRequest::AddArgument(s) if s.as_str() == "c"));
    assert!(matches!(&q[3], WireRequest::RunCommand));
}

#[test]
fn encode_command_of_empty_payload_is_just_run() {
    let q = encode_command(&Vec::new());
    assert_eq!(q.len(), 1);
    assert!(matches!(&q[0], WireRequest::RunCommand));
}

#[test]
fn success_report_prints_output_verbatim() {
    let r = report_for(&CommandResponse::Success { output: "RUNNING\n".to_string() });
    assert_eq!(r.stdout_text.as_deref(), Some("RUNNING\n"));
    assert_eq!(r.stderr_text, None);
    assert!(!r.show_usage);
    assert_eq!(r.exit_code, 0);
}

#[test]
fn failure_report_prefixes_message_and_exits_nonzero() {
    let r = report_for(&CommandResponse::Failure {
        failure_message: "something broke\n".to_string(),
    });
    assert_eq!(r.stdout_text, None);
    assert_eq!(r.stderr_text.as_deref(), Some("ERROR: something broke\n"));
    assert!(!r.show_usage);
    assert_eq!(r.exit_code, 1);
}

#[test]
fn failure_report_no_command_provided_shows_usage() {
    let r = report_for(&CommandResponse::Failure {
        failure_message: "No command provided\n".to_string(),
    });
    assert_eq!(r.stderr_text.as_deref(), Some("ERROR: No command provided\n"));
    assert!(r.show_usage);
    assert_eq!(r.exit_code, 1);
}

#[test]
fn failure_report_unknown_command_shows_usage() {
    let r = report_for(&CommandResponse::Failure {
        failure_message: "Unknown command\n".to_string(),
    });
    assert_eq!(r.stderr_text.as_deref(), Some("ERROR: Unknown command\n"));
    assert!(r.show_usage);
    assert_eq!(r.exit_code, 1);
}

#[test]
fn fatal_report_carries_the_diagnostic() {
    let r = fatal_report_for(connect_error_line());
    assert_eq!(r.stdout_text, None);
    assert_eq!(r.stderr_text.as_deref(), Some("ERROR: Cannot connect to wayland display."));
    assert!(!r.show_usage);
    assert_eq!(r.exit_code, 1);
}

#[test]
fn usage_sentinels_are_exactly_the_two_messages() {
    assert!(usage_sentinel(&"Unknown command\n".to_string()));
    assert!(usage_sentinel(&"No command provided\n".to_string()));
    assert!(!usage_sentinel(&"Unknown command".to_string()));
    assert!(!usage_sentinel(&"RUNNING\n".to_string()));
}

#[test]
fn str_eq_compares_contents() {
    assert!(str_eq("next_control_v1", "next_control_v1"));
    assert!(!str_eq("next_control_v1", "next_control_v2"));
    assert!(!str_eq("a", "ab"));
    assert!(str_eq("", ""));
}

#[test]
fn usage_text_is_the_seven_known_lines() {
    let lines = usage_lines();
    assert_eq!(
        lines,
        vec![
            "Usage: nextctl <command>",
            "  -h, --help      Print this help message and exit.",
            "",
            "  -v, --version   Print the version number and exit.",
            "",
            "Complete documentation for recognized commands can be found in",
            "the nextctl(1) man page.",
        ]
    );
}

#[test]
fn diagnostic_lines_name_their_stage() {
    assert_eq!(connect_error_line(), "ERROR: Cannot connect to wayland display.");
    assert_eq!(dispatch_error_line(), "ERROR: wayland dispatch failed.");
    assert_eq!(compositor_error_line(), "ERROR: Compositor doesn't implement NextControlV1.");
}

#[test]
fn version_line_is_the_crate_version() {
    assert_eq!(version_line(), "0.1.0");
}
