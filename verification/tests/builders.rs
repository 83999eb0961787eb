use tenx_hooks::hooks::Decision;
use tenx_hooks::hooks::Notification;
use tenx_hooks::hooks::NotificationOutput;
use tenx_hooks::hooks::PostToolUse;
use tenx_hooks::hooks::PostToolUseOutput;
use tenx_hooks::hooks::PreToolUse;
use tenx_hooks::hooks::PreToolUseOutput;
use tenx_hooks::hooks::Stop;
use tenx_hooks::hooks::StopOutput;
use tenx_hooks::hooks::SubagentStop;
use tenx_hooks::rust_files::is_rust_file;

#[test]
fn test_pre_tool_use_output_approve() {
    let output = PreToolUseOutput::approve("Test approval");
    assert!(matches!(output.decision, Some(Decision::Approve)));
    assert_eq!(output.reason, Some("Test approval".to_string()));
}

#[test]
fn test_pre_tool_use_output_block() {
    let output = PreToolUseOutput::block("Test block");
    assert!(matches!(output.decision, Some(Decision::Block)));
    assert_eq!(output.reason, Some("Test block".to_string()));
}

#[test]
fn test_post_tool_use_output_block() {
    let output = PostToolUseOutput::block("Test block");
    assert!(matches!(output.decision, Some(Decision::Block)));
    assert_eq!(output.reason, Some("Test block".to_string()));
}

#[test]
fn test_stop_output_block() {
    let output = StopOutput::block("Must continue");
    assert!(matches!(output.decision, Some(Decision::Block)));
    assert_eq!(output.reason, Some("Must continue".to_string()));
}

#[test]
fn test_notification_output_builder() {
    let output = NotificationOutput::default()
        .stop("error occurred")
        .suppress_output(true);

    assert_eq!(output.continue_, Some(false));
    assert_eq!(output.stop_reason, Some("error occurred".to_string()));
    assert_eq!(output.suppress_output, Some(true));
}

#[test]
fn test_post_tool_use_builder() {
    let output = PostToolUseOutput::default()
        .stop("tests failed")
        .suppress_output(false);

    assert_eq!(output.decision, None);
    assert_eq!(output.continue_, Some(false));
    assert_eq!(output.stop_reason, Some("tests failed".to_string()));
    assert_eq!(output.suppress_output, Some(false));
}

#[test]
fn test_stop_output_builder() {
    let output = StopOutput::default()
        .stop("must exit")
        .suppress_output(true);

    assert_eq!(output.decision, None);
    assert_eq!(output.continue_, Some(false));
    assert_eq!(output.stop_reason, Some("must exit".to_string()));
    assert_eq!(output.suppress_output, Some(true));
}

#[test]
fn test_rust_file_check() {
    assert!(is_rust_file("test.rs"));
    assert!(is_rust_file("/path/to/file.rs"));
    assert!(!is_rust_file("test.py"));
    assert!(!is_rust_file("test.txt"));
    assert!(!is_rust_file("test"));
}

#[test]
fn test_pre_tool_use_roundtrip() {
    let pre_tool_use = PreToolUse {
        session_id: "test-session".to_string(),
        transcript_path: "/path/to/transcript".to_string(),
        tool_name: "Bash".to_string(),
        tool_input: Vec::new(),
    };

    let approve_output = pre_tool_use.approve("Approved for testing");
    assert!(matches!(approve_output.decision, Some(Decision::Approve)));
    assert_eq!(approve_output.reason, Some("Approved for testing".to_string()));
}

#[test]
fn test_post_tool_use_roundtrip() {
    let post_tool_use = PostToolUse {
        session_id: "test-session".to_string(),
        transcript_path: "/path/to/transcript".to_string(),
        tool_name: "Bash".to_string(),
        tool_input: Vec::new(),
        tool_response: Vec::new(),
    };

    let block_output = post_tool_use.block("Found sensitive data");
    assert!(matches!(block_output.decision, Some(Decision::Block)));
    assert_eq!(block_output.reason, Some("Found sensitive data".to_string()));
}

#[test]
fn test_stop_roundtrip() {
    let stop = Stop {
        session_id: "test-session".to_string(),
        transcript_path: "/path/to/transcript".to_string(),
        stop_hook_active: false,
    };

    let block_output = stop.block("Need to process more");
    assert!(matches!(block_output.decision, Some(Decision::Block)));
    assert_eq!(block_output.reason, Some("Need to process more".to_string()));

    let allow_output = stop.allow();
    assert_eq!(allow_output.decision, None);
    assert_eq!(allow_output.continue_, None);

    let stop_output = stop.stop("Task completed");
    assert_eq!(stop_output.continue_, Some(false));
    assert_eq!(stop_output.stop_reason, Some("Task completed".to_string()));
}

#[test]
fn test_subagent_stop_roundtrip() {
    let subagent_stop = SubagentStop {
        session_id: "test-session".to_string(),
        transcript_path: "/path/to/transcript".to_string(),
        stop_hook_active: false,
    };

    let block_output = subagent_stop.block("Need to process more");
    assert!(matches!(block_output.decision, Some(Decision::Block)));
    assert_eq!(block_output.reason, Some("Need to process more".to_string()));

    let allow_output = subagent_stop.allow();
    assert_eq!(allow_output.decision, None);
    assert_eq!(allow_output.continue_, None);

    let stop_output = subagent_stop.stop("Task completed");
    assert_eq!(stop_output.continue_, Some(false));
    assert_eq!(stop_output.stop_reason, Some("Task completed".to_string()));
}

#[test]
fn test_notification_roundtrip() {
    let notification = Notification {
        session_id: "test-session".to_string(),
        transcript_path: "/path/to/transcript".to_string(),
        message: "The agent needs permission to run a command".to_string(),
        hook_event_name: "Agent".to_string(),
    };

    let passthrough_output = Notification::passthrough();
    assert_eq!(passthrough_output.continue_, None);
    assert_eq!(passthrough_output.stop_reason, None);

    let stop_output = notification.stop("User intervention required");
    assert_eq!(stop_output.continue_, Some(false));
    assert_eq!(
        stop_output.stop_reason,
        Some("User intervention required".to_string())
    );
}
