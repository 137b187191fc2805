use cliverge::adapters::get_builtin_tools;
use cliverge::jsonio::brew_latest_from_output;
use cliverge::platform::Platform;
use cliverge::sdk::{which_invocation, CommandOutput, InstallConfig, ToolStatus as SdkStatus};
use cliverge::settings::{should_auto_check, theme_from_name, Theme};
use cliverge::terminal::{
    error_line, prompt_line, shell_invocation, terminal_program_for, Terminal,
};

#[test]
fn builtin_catalog_lists_the_six_known_tools() {
    let tools = get_builtin_tools();
    assert_eq!(tools.len(), 6);
    let ids: Vec<&str> = tools.iter().map(|t| t.id.as_str()).collect();
    assert_eq!(
        ids,
        vec!["pilot-code", "gemini-cli", "qwen-code-cli", "openai-codex", "opencode", "iflow"]
    );
    assert_eq!(tools[0].name, "Pilot Code CLI");
    assert!(tools.iter().all(|t| t.version == "1.0.0"));
}

#[test]
fn terminal_buffers_output_and_tracks_running_state() {
    let mut term = Terminal::new();
    assert!(!term.is_running());
    assert!(term.output.is_empty());
    term.set_running(true);
    term.add_output(prompt_line("pilot-code", "--help"));
    term.add_output(error_line("boom"));
    assert_eq!(term.output, vec!["> pilot-code --help", "[ERROR] boom"]);
    term.set_running(false);
    term.clear();
    assert!(term.output.is_empty());
    assert!(!term.is_running());
}

#[test]
fn terminal_maps_known_tools_to_programs() {
    assert_eq!(terminal_program_for("pilot-code"), Some("pilot"));
    assert_eq!(terminal_program_for("gemini-cli"), Some("gemini"));
    assert_eq!(terminal_program_for("qwen-code-cli"), Some("qwen"));
    assert_eq!(terminal_program_for("openai-codex"), Some("openai"));
    assert_eq!(terminal_program_for("opencode"), Some("opencode"));
    assert_eq!(terminal_program_for("iflow"), Some("iflow"));
    assert_eq!(terminal_program_for("mystery"), None);
}

#[test]
fn shell_invocations_follow_the_platform() {
    let (sh, args) = shell_invocation(Platform::Linux, "pilot", "--help");
    assert_eq!(sh, "sh");
    assert_eq!(args, vec!["-c".to_string(), "pilot --help".to_string()]);
    let (sh, args) = shell_invocation(Platform::Windows, "pilot", "--help");
    assert_eq!(sh, "cmd");
    assert_eq!(args, vec!["/C".to_string(), "pilot --help".to_string()]);
}

#[test]
fn which_invocations_follow_the_platform() {
    let (p, args) = which_invocation(Platform::Macos, "pilot");
    assert_eq!(p, "which");
    assert_eq!(args, vec!["pilot".to_string()]);
    let (p, args) = which_invocation(Platform::Windows, "pilot");
    assert_eq!(p, "cmd");
    assert_eq!(args, vec!["/c".to_string(), "where".to_string(), "pilot".to_string()]);
}

#[test]
fn sdk_defaults_and_messages() {
    let c = InstallConfig::default();
    assert!(c.sources.is_empty());
    assert_eq!(c.verify, Some(true));
    assert!(c.post_install.is_none());
    assert!(matches!(SdkStatus::default(), SdkStatus::Loading));
    let out = CommandOutput { stdout: "s".into(), stderr: "e".into(), exit_code: 3 };
    assert_eq!(out.clone(), out);
    assert_eq!(
        cliverge::sdk::ToolError::Other("x".to_string()).message(),
        "Other error: x"
    );
}

#[test]
fn themes_resolve_with_dark_fallback() {
    assert_eq!(theme_from_name("light"), Theme::Light);
    assert_eq!(theme_from_name("dark"), Theme::Dark);
    assert_eq!(theme_from_name("auto"), Theme::Dark);
    assert_eq!(Theme::default(), Theme::Dark);
}

#[test]
fn auto_check_timer_rules() {
    // never checked: due immediately
    assert!(should_auto_check(true, None, 1000, 30, false));
    // interval not yet over
    assert!(!should_auto_check(true, Some(1000), 1000 + 29 * 60, 30, false));
    // interval over
    assert!(should_auto_check(true, Some(1000), 1000 + 30 * 60, 30, false));
    // disabled, or already refreshing
    assert!(!should_auto_check(false, None, 1000, 30, false));
    assert!(!should_auto_check(true, None, 1000, 30, true));
}

#[test]
fn brew_metadata_navigation_finds_the_stable_version() {
    let json = r#"[{"name": "jq", "versions": {"stable": "1.7.1", "head": "HEAD"}}]"#;
    assert_eq!(brew_latest_from_output(true, json), Some("1.7.1".to_string()));
    assert_eq!(brew_latest_from_output(false, json), None);
    assert_eq!(brew_latest_from_output(true, "[]"), None);
    assert_eq!(brew_latest_from_output(true, "not json"), None);
}
