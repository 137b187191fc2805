use cliverge::coordinator::{
    add_notification, apply_install_progress, apply_progress, begin_event,
    collect_terminal_events, initial_progress, terminal_event, InstallOperation, InstallProgress,
    Notification, NotificationLevel, ProgressStatus, StatusCheckProgress,
};
use cliverge::coordinator::{format_help_text, install_command_display, uninstall_command_display};
use cliverge::error::ToolError;
use cliverge::platform::Platform;
use cliverge::tool::{ToolInfo, ToolStatus};

fn tool_info(id: &str, name: &str) -> ToolInfo {
    let text = format!(
        r#"{{
            "id": "{id}",
            "name": "{name}",
            "description": "d",
            "website": "https://x",
            "command": "{id}",
            "version_check": ["--version"],
            "install": {{}}
        }}"#
    );
    ToolInfo {
        config: cliverge::jsonio::parse_tool_config(&text).unwrap(),
        status: ToolStatus::Unknown,
        version_info: None,
    }
}

#[test]
fn refresh_yields_exactly_one_terminal_event_per_tool() {
    let results: Vec<(String, Result<ToolStatus, ToolError>)> = vec![
        ("a".to_string(), Ok(ToolStatus::Installed { version: "1.0.0".into() })),
        ("b".to_string(), Err(ToolError::NotSupported("platform".into()))),
        ("c".to_string(), Ok(ToolStatus::NotInstalled)),
    ];
    let events = collect_terminal_events(&results, 99);
    assert_eq!(events.len(), 3);
    assert_eq!(events[0].tool_id, "a");
    assert_eq!(events[0].status, ProgressStatus::Completed);
    assert_eq!(events[1].tool_id, "b");
    assert_eq!(events[1].status, ProgressStatus::Failed);
    assert_eq!(events[2].tool_id, "c");
    assert_eq!(events[2].status, ProgressStatus::Completed);
    for e in &events {
        assert!(matches!(e.status, ProgressStatus::Completed | ProgressStatus::Failed));
    }
}

#[test]
fn per_tool_events_carry_id_and_phase() {
    let begin = begin_event("alpha", 5);
    assert_eq!(begin.tool_id, "alpha");
    assert_eq!(begin.status, ProgressStatus::InProgress);
    assert_eq!(begin.message, "Checking status...");

    let done = terminal_event("alpha", &Ok(ToolStatus::NotInstalled), 6);
    assert_eq!(done.status, ProgressStatus::Completed);
    assert_eq!(done.message, "Status check completed");

    let failed = terminal_event("alpha", &Err(ToolError::NotFound("alpha".into())), 7);
    assert_eq!(failed.status, ProgressStatus::Failed);
    assert_eq!(failed.message, "Failed: Tool not found: alpha");
}

#[test]
fn refresh_seeds_one_pending_entry_per_tool() {
    let tools = vec![tool_info("a", "Tool A"), tool_info("b", "Tool B")];
    let seeded = initial_progress(&tools, 1);
    assert_eq!(seeded.len(), 2);
    assert_eq!(seeded[0].tool_id, "a");
    assert_eq!(seeded[0].tool_name, "Tool A");
    assert_eq!(seeded[0].status, ProgressStatus::Pending);
    assert_eq!(seeded[0].message, "Waiting to start...");
}

#[test]
fn later_status_events_replace_earlier_ones_per_tool() {
    let mut list: Vec<StatusCheckProgress> = Vec::new();
    apply_progress(&mut list, begin_event("a", 1));
    apply_progress(&mut list, begin_event("b", 2));
    assert_eq!(list.len(), 2);
    apply_progress(&mut list, terminal_event("a", &Ok(ToolStatus::NotInstalled), 3));
    assert_eq!(list.len(), 2);
    assert_eq!(list[0].tool_id, "a");
    assert_eq!(list[0].status, ProgressStatus::Completed);
    assert_eq!(list[1].status, ProgressStatus::InProgress);
}

#[test]
fn install_events_coalesce_by_tool_and_operation() {
    fn ev(id: &str, op: InstallOperation, status: ProgressStatus) -> InstallProgress {
        InstallProgress {
            tool_id: id.to_string(),
            tool_name: id.to_string(),
            operation: op,
            status,
            message: String::new(),
            command: None,
            timestamp: 0,
        }
    }
    let mut list: Vec<InstallProgress> = Vec::new();
    apply_install_progress(&mut list, ev("a", InstallOperation::Install, ProgressStatus::InProgress));
    apply_install_progress(&mut list, ev("a", InstallOperation::Uninstall, ProgressStatus::InProgress));
    assert_eq!(list.len(), 2);
    apply_install_progress(&mut list, ev("a", InstallOperation::Install, ProgressStatus::Completed));
    assert_eq!(list.len(), 2);
    assert_eq!(list[0].status, ProgressStatus::Completed);
    assert_eq!(list[1].status, ProgressStatus::InProgress);
}

#[test]
fn notifications_keep_only_the_latest_ten() {
    let mut list: Vec<Notification> = Vec::new();
    for i in 0..12 {
        add_notification(&mut list, format!("note {i}"), NotificationLevel::Info, i as i64);
    }
    assert_eq!(list.len(), 10);
    assert_eq!(list[0].message, "note 2");
    assert_eq!(list[9].message, "note 11");
}

#[test]
fn help_text_is_reflowed_line_by_line() {
    let raw = "  Usage: alpha\r\n\n   -v  verbose   \n  -h\nplain  ";
    assert_eq!(format_help_text(raw), "Usage: alpha\n\n  -v  verbose\n-h\nplain");
    assert_eq!(format_help_text(""), "");
    assert_eq!(format_help_text("one\n"), "one");
}

#[test]
fn install_progress_previews_the_command() {
    let text = r#"{
        "id": "alpha",
        "name": "Alpha",
        "description": "d",
        "website": "https://alpha",
        "command": "alpha",
        "version_check": ["--version"],
        "install": {
            "linux": {"method": "npm", "package_name": "alpha-cli"},
            "macos": {"method": "brew", "command": ["brew", "install", "alpha"]},
            "windows": {"method": "scoop", "package_name": "alpha"}
        }
    }"#;
    let config = cliverge::jsonio::parse_tool_config(text).unwrap();
    assert_eq!(
        install_command_display(&config, Platform::Linux, "alpha"),
        Some("npm install -g alpha-cli".to_string())
    );
    assert_eq!(
        install_command_display(&config, Platform::Macos, "alpha"),
        Some("brew install alpha".to_string())
    );
    assert_eq!(
        uninstall_command_display(&config, Platform::Linux),
        Some("npm uninstall -g alpha-cli".to_string())
    );
    // a preview exists only for the managers the front end knows to render
    assert_eq!(uninstall_command_display(&config, Platform::Windows), None);
}
