use cliverge::config::{
    BehaviorSettings, ConfigManager, InstallMethod, PathSettings, ToolConfig, ToolsConfig,
};
use cliverge::error::ToolError;
use cliverge::platform::{Platform, PlatformMap};
use cliverge::tool::{
    apply_update_args, construct_install_command, construct_uninstall_command,
    construct_update_command, help_invocations, hidden_invocation, plan_execute, plan_install,
    plan_uninstall, plan_update, select_help, status_from_probe, OperationPlan, ToolManager,
    ToolStatus,
};

fn npm_method(pkg: &str) -> InstallMethod {
    InstallMethod {
        method: "npm".to_string(),
        command: None,
        url: None,
        package_name: Some(pkg.to_string()),
    }
}

fn sample_tool() -> ToolConfig {
    ToolConfig {
        id: "alpha".to_string(),
        name: "Alpha".to_string(),
        description: "d".to_string(),
        website: "https://alpha".to_string(),
        command: "alpha".to_string(),
        version_check: PlatformMap {
            windows: None,
            macos: Some(vec!["--version".to_string()]),
            linux: Some(vec!["--version".to_string()]),
        },
        update_check: Some(PlatformMap {
            windows: None,
            macos: None,
            linux: Some(vec!["update".to_string(), "--check-only".to_string()]),
        }),
        install: PlatformMap {
            windows: None,
            macos: Some(npm_method("alpha-cli")),
            linux: Some(npm_method("alpha-cli")),
        },
        uninstall: None,
        update: None,
    }
}

#[test]
fn install_command_synthesis_covers_each_manager() {
    let cases = [
        ("npm", vec!["npm", "install", "-g", "pkg"]),
        ("brew", vec!["brew", "install", "pkg"]),
        ("pip", vec!["pip", "install", "pkg"]),
        ("apt", vec!["sudo", "apt", "install", "-y", "pkg"]),
        ("yum", vec!["sudo", "yum", "install", "-y", "pkg"]),
        ("dnf", vec!["sudo", "dnf", "install", "-y", "pkg"]),
        ("pacman", vec!["sudo", "pacman", "-S", "--noconfirm", "pkg"]),
        (
            "winget",
            vec!["winget", "install", "pkg", "--accept-source-agreements",
                "--accept-package-agreements"],
        ),
        ("choco", vec!["choco", "install", "pkg", "-y"]),
        ("scoop", vec!["scoop", "install", "pkg"]),
        ("cargo", vec!["cargo", "install", "pkg"]),
        ("go", vec!["go", "install", "pkg"]),
    ];
    for (method, expected) in cases {
        let ic = InstallMethod {
            method: method.to_string(),
            command: None,
            url: None,
            package_name: Some("pkg".to_string()),
        };
        let cmd = construct_install_command(&ic).expect(method);
        let expected: Vec<String> = expected.iter().map(|s| s.to_string()).collect();
        assert_eq!(cmd, expected, "install template for {}", method);
    }
}

#[test]
fn unknown_method_and_missing_package_fail_loudly() {
    let unknown = InstallMethod {
        method: "frobnicate".to_string(),
        command: None,
        url: None,
        package_name: Some("pkg".to_string()),
    };
    assert!(matches!(
        construct_install_command(&unknown),
        Err(ToolError::NotSupported(_))
    ));
    let nameless = InstallMethod {
        method: "npm".to_string(),
        command: None,
        url: None,
        package_name: None,
    };
    assert!(matches!(
        construct_install_command(&nameless),
        Err(ToolError::ConfigError(_))
    ));
}

#[test]
fn uninstall_command_synthesis_mirrors_install() {
    let ic = npm_method("alpha-cli");
    assert_eq!(
        construct_uninstall_command(&ic).unwrap(),
        vec!["npm", "uninstall", "-g", "alpha-cli"]
            .iter()
            .map(|s| s.to_string())
            .collect::<Vec<_>>()
    );
    let pacman = InstallMethod {
        method: "pacman".to_string(),
        command: None,
        url: None,
        package_name: Some("pkg".to_string()),
    };
    assert_eq!(
        construct_uninstall_command(&pacman).unwrap(),
        vec!["sudo", "pacman", "-R", "--noconfirm", "pkg"]
            .iter()
            .map(|s| s.to_string())
            .collect::<Vec<_>>()
    );
    let go = InstallMethod {
        method: "go".to_string(),
        command: None,
        url: None,
        package_name: Some("pkg".to_string()),
    };
    assert!(matches!(
        construct_uninstall_command(&go),
        Err(ToolError::NotSupported(_))
    ));
}

#[test]
fn update_command_synthesis_supports_three_managers() {
    assert_eq!(
        construct_update_command(&npm_method("p")).unwrap(),
        vec!["npm", "update", "-g", "p"].iter().map(|s| s.to_string()).collect::<Vec<_>>()
    );
    let brew = InstallMethod {
        method: "brew".to_string(),
        command: None,
        url: None,
        package_name: Some("p".to_string()),
    };
    assert_eq!(
        construct_update_command(&brew).unwrap(),
        vec!["brew", "upgrade", "p"].iter().map(|s| s.to_string()).collect::<Vec<_>>()
    );
    let apt = InstallMethod {
        method: "apt".to_string(),
        command: None,
        url: None,
        package_name: Some("p".to_string()),
    };
    assert!(matches!(
        construct_update_command(&apt),
        Err(ToolError::NotSupported(_))
    ));
}

#[test]
fn install_is_idempotent_once_detected_installed() {
    let tool = sample_tool();
    // first call: not yet installed, so the install command runs
    let first = plan_install(&tool, Platform::Linux, false).unwrap();
    assert_eq!(
        first,
        OperationPlan::Run(
            vec!["npm", "install", "-g", "alpha-cli"].iter().map(|s| s.to_string()).collect()
        )
    );
    // the install succeeded and the following status check sees the tool
    let status = status_from_probe(true, true, "alpha 1.2.3");
    assert_eq!(status, ToolStatus::Installed { version: "1.2.3".to_string() });
    let installed = matches!(status, ToolStatus::Installed { .. });
    // second call: a no-op success, not a second invocation
    let second = plan_install(&tool, Platform::Linux, installed).unwrap();
    assert_eq!(second, OperationPlan::NoOp);
}

#[test]
fn explicit_install_command_wins_over_synthesis() {
    let mut tool = sample_tool();
    tool.install.linux = Some(InstallMethod {
        method: "script".to_string(),
        command: Some(vec!["sh".to_string(), "-c".to_string(), "install.sh".to_string()]),
        url: None,
        package_name: None,
    });
    let plan = plan_install(&tool, Platform::Linux, false).unwrap();
    assert_eq!(
        plan,
        OperationPlan::Run(vec!["sh".to_string(), "-c".to_string(), "install.sh".to_string()])
    );
}

#[test]
fn unsupported_platform_is_not_supported_never_silent() {
    let tool = sample_tool();
    assert!(matches!(
        plan_install(&tool, Platform::Windows, false),
        Err(ToolError::NotSupported(_))
    ));
    // even a tool already detected installed reports the unsupported platform
    assert!(matches!(
        plan_install(&tool, Platform::Windows, true),
        Err(ToolError::NotSupported(_))
    ));

    let mut mgr = ToolManager::new(ConfigManager::new_with_settings(
        BehaviorSettings::default(),
        PathSettings::default(),
    ));
    let mut tools = ToolsConfig::default();
    tools.tools.push(sample_tool());
    mgr.config.set_tools_config(tools);
    assert!(matches!(
        mgr.version_probe("alpha", Platform::Windows),
        Err(ToolError::NotSupported(_))
    ));
    assert!(matches!(
        mgr.version_probe("missing", Platform::Linux),
        Err(ToolError::NotFound(_))
    ));
    let (cmd, args) = mgr.version_probe("alpha", Platform::Linux).unwrap();
    assert_eq!(cmd, "alpha");
    assert_eq!(args, vec!["--version".to_string()]);
}

#[test]
fn uninstall_prefers_dedicated_method_and_noops_when_absent() {
    let mut tool = sample_tool();
    tool.uninstall = Some(PlatformMap {
        windows: None,
        macos: None,
        linux: Some(InstallMethod {
            method: "npm".to_string(),
            command: Some(vec!["npm".to_string(), "rm".to_string(), "-g".to_string(),
                "alpha-cli".to_string()]),
            url: None,
            package_name: None,
        }),
    });
    let plan = plan_uninstall(&tool, Platform::Linux, true).unwrap();
    assert_eq!(
        plan,
        OperationPlan::Run(vec!["npm".to_string(), "rm".to_string(), "-g".to_string(),
            "alpha-cli".to_string()])
    );
    // without a dedicated method the install method's uninstall form is used
    let tool = sample_tool();
    let plan = plan_uninstall(&tool, Platform::Linux, true).unwrap();
    assert_eq!(
        plan,
        OperationPlan::Run(
            vec!["npm", "uninstall", "-g", "alpha-cli"].iter().map(|s| s.to_string()).collect()
        )
    );
    // not installed: a no-op success
    let plan = plan_uninstall(&tool, Platform::Linux, false).unwrap();
    assert_eq!(plan, OperationPlan::NoOp);
}

#[test]
fn update_plan_substitutes_the_apply_flag_and_keeps_a_fallback() {
    let tool = sample_tool();
    let plan = plan_update(&tool, Platform::Linux, true).unwrap();
    assert_eq!(
        plan.self_update,
        Some(vec!["update".to_string(), "--update".to_string()])
    );
    assert_eq!(
        plan.fallback.unwrap(),
        vec!["npm", "update", "-g", "alpha-cli"].iter().map(|s| s.to_string()).collect::<Vec<_>>()
    );
    // a tool that is not installed cannot be updated
    assert!(matches!(
        plan_update(&tool, Platform::Linux, false),
        Err(ToolError::NotFound(_))
    ));
    assert_eq!(
        apply_update_args(&vec!["--check-only".to_string(), "-q".to_string()]),
        vec!["--update".to_string(), "-q".to_string()]
    );
}

#[test]
fn execution_requires_a_detected_install() {
    let tool = sample_tool();
    assert_eq!(plan_execute(&tool, true).unwrap(), "alpha");
    assert!(matches!(plan_execute(&tool, false), Err(ToolError::NotFound(_))));
}

#[test]
fn probe_failures_read_as_not_installed() {
    assert_eq!(status_from_probe(false, false, ""), ToolStatus::NotInstalled);
    assert_eq!(status_from_probe(true, false, "boom"), ToolStatus::NotInstalled);
    assert_eq!(
        status_from_probe(true, true, "no digits at all"),
        ToolStatus::Installed { version: "unknown".to_string() }
    );
}

#[test]
fn help_selection_takes_the_first_non_empty_success() {
    let invocations = help_invocations();
    assert_eq!(
        invocations,
        vec![
            vec!["--help".to_string()],
            vec!["help".to_string()],
            vec!["-h".to_string()],
        ]
    );
    let outs = vec![
        (false, "ignored".to_string()),
        (true, "   \n".to_string()),
        (true, "usage: alpha".to_string()),
    ];
    assert_eq!(select_help(&outs, "alpha").unwrap(), "usage: alpha");
    let outs = vec![(false, String::new()), (false, String::new()), (false, String::new())];
    assert!(matches!(
        select_help(&outs, "alpha"),
        Err(ToolError::ExecutionFailed(_))
    ));
}

#[test]
fn hidden_invocation_changes_shape_only_on_windows() {
    let args = vec!["--version".to_string(), "-q".to_string()];
    let (prog, argv) = hidden_invocation(Platform::Linux, "alpha", &args);
    assert_eq!(prog, "alpha");
    assert_eq!(argv, args);
    let (prog, argv) = hidden_invocation(Platform::Windows, "alpha", &args);
    assert_eq!(prog, "powershell.exe");
    assert_eq!(
        argv,
        vec![
            "-NoProfile".to_string(),
            "-WindowStyle".to_string(),
            "Hidden".to_string(),
            "-Command".to_string(),
            "alpha --version -q".to_string(),
        ]
    );
    let (_, argv) = hidden_invocation(Platform::Windows, "alpha", &Vec::new());
    assert_eq!(argv[4], "alpha");
}

#[test]
fn manager_session_cache_is_explicit_not_timed() {
    let mut mgr = ToolManager::new(ConfigManager::new_with_settings(
        BehaviorSettings::default(),
        PathSettings::default(),
    ));
    let mut tools = ToolsConfig::default();
    tools.tools.push(sample_tool());
    mgr.config.set_tools_config(tools);

    assert_eq!(mgr.get_cached_status("alpha"), None);
    mgr.update_cached_status("alpha", ToolStatus::Installed { version: "1.0.0".into() });
    assert_eq!(
        mgr.get_cached_status("alpha"),
        Some(ToolStatus::Installed { version: "1.0.0".into() })
    );
    let info = mgr.get_tool("alpha").unwrap();
    assert_eq!(info.config.id, "alpha");
    assert_eq!(info.status, ToolStatus::Installed { version: "1.0.0".into() });
    mgr.invalidate_cached_status("alpha");
    assert_eq!(mgr.get_cached_status("alpha"), None);

    let infos = mgr.get_all_tools_configs();
    assert_eq!(infos.len(), 1);
    assert_eq!(infos[0].status, ToolStatus::Unknown);
    assert!(infos[0].version_info.is_none());

    assert!(matches!(mgr.get_tool("missing"), Err(ToolError::NotFound(_))));
}

#[test]
fn error_messages_name_their_cause() {
    assert_eq!(
        ToolError::NotFound("x".to_string()).message(),
        "Tool not found: x"
    );
    assert_eq!(
        ToolError::InstallationFailed("x".to_string()).message(),
        "Tool installation failed: x"
    );
    assert_eq!(ToolError::UpdateFailed("x".to_string()).message(), "Tool update failed: x");
    assert_eq!(
        ToolError::ExecutionFailed("x".to_string()).message(),
        "Tool execution failed: x"
    );
    assert_eq!(ToolError::ConfigError("x".to_string()).message(), "Configuration error: x");
    assert_eq!(ToolError::ParseError("x".to_string()).message(), "Parse error: x");
    assert_eq!(
        ToolError::NotSupported("x".to_string()).message(),
        "Feature not supported: x"
    );
    assert_eq!(ToolError::Io("x".to_string()).message(), "IO error: x");
}
