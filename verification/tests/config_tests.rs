use cliverge::config::{BehaviorSettings, ConfigManager, PathSettings, ToolsConfig};
use cliverge::error::ConfigError;
use cliverge::jsonio::{parse_tool_config, parse_tools_config};
use cliverge::platform::Platform;

#[test]
fn test_backward_compatibility_version_check() {
    let old_format = r#"{
        "id": "test",
        "name": "Test Tool",
        "description": "Test",
        "website": "https://test.com",
        "command": "test",
        "version_check": ["--version"],
        "install": {}
    }"#;

    let config = parse_tool_config(old_format).expect("Should parse old format");

    let filled = [Platform::Windows, Platform::Macos, Platform::Linux]
        .iter()
        .filter(|p| config.version_check.get(**p).is_some())
        .count();
    assert_eq!(filled, 3);
    assert_eq!(
        config.version_check.get(Platform::Windows),
        &Some(vec!["--version".to_string()])
    );
    assert_eq!(
        config.version_check.get(Platform::Macos),
        &Some(vec!["--version".to_string()])
    );
    assert_eq!(
        config.version_check.get(Platform::Linux),
        &Some(vec!["--version".to_string()])
    );
}

#[test]
fn test_backward_compatibility_update_check() {
    let old_format = r#"{
        "id": "test",
        "name": "Test Tool",
        "description": "Test",
        "website": "https://test.com",
        "command": "test",
        "version_check": ["--version"],
        "update_check": ["update", "--check"],
        "install": {}
    }"#;

    let config = parse_tool_config(old_format).expect("Should parse old format");

    assert!(config.update_check.is_some());
    let update_check = config.update_check.unwrap();
    let filled = [Platform::Windows, Platform::Macos, Platform::Linux]
        .iter()
        .filter(|p| update_check.get(**p).is_some())
        .count();
    assert_eq!(filled, 3);
    assert_eq!(
        update_check.get(Platform::Windows),
        &Some(vec!["update".to_string(), "--check".to_string()])
    );
}

#[test]
fn test_new_format_compatibility() {
    let new_format = r#"{
        "id": "test",
        "name": "Test Tool",
        "description": "Test",
        "website": "https://test.com",
        "command": "test",
        "version_check": {
            "windows": ["--version"],
            "linux": ["-V"]
        },
        "update_check": {
            "windows": ["update", "--check"],
            "linux": ["upgrade"]
        },
        "install": {}
    }"#;

    let config = parse_tool_config(new_format).expect("Should parse new format");

    assert_eq!(
        config.version_check.get(Platform::Windows),
        &Some(vec!["--version".to_string()])
    );
    assert_eq!(
        config.version_check.get(Platform::Linux),
        &Some(vec!["-V".to_string()])
    );

    let update_check = config.update_check.unwrap();
    assert_eq!(
        update_check.get(Platform::Windows),
        &Some(vec!["update".to_string(), "--check".to_string()])
    );
    assert_eq!(
        update_check.get(Platform::Linux),
        &Some(vec!["upgrade".to_string()])
    );
}

#[test]
fn absent_update_check_means_no_self_update() {
    let text = r#"{
        "id": "t",
        "name": "T",
        "description": "d",
        "website": "https://t",
        "command": "t",
        "version_check": ["--version"],
        "install": {}
    }"#;
    let config = parse_tool_config(text).expect("absent update_check must parse");
    assert!(config.update_check.is_none());
}

#[test]
fn null_update_check_means_no_self_update() {
    let text = r#"{
        "id": "t",
        "name": "T",
        "description": "d",
        "website": "https://t",
        "command": "t",
        "version_check": ["--version"],
        "update_check": null,
        "install": {}
    }"#;
    let config = parse_tool_config(text).expect("null update_check must parse");
    assert!(config.update_check.is_none());
}

#[test]
fn empty_legacy_update_check_means_no_self_update() {
    let text = r#"{
        "id": "t",
        "name": "T",
        "description": "d",
        "website": "https://t",
        "command": "t",
        "version_check": ["--version"],
        "update_check": [],
        "install": {}
    }"#;
    let config = parse_tool_config(text).expect("empty update_check must parse");
    assert!(config.update_check.is_none());
}

#[test]
fn missing_required_field_names_the_field() {
    let text = r#"{
        "id": "t",
        "description": "d",
        "website": "https://t",
        "command": "t",
        "version_check": ["--version"],
        "install": {}
    }"#;
    match parse_tool_config(text) {
        Err(ConfigError::Invalid(field)) => assert_eq!(field, "name"),
        other => panic!("expected Invalid(name), got {:?}", other),
    }
}

#[test]
fn malformed_json_is_a_parse_error() {
    match parse_tool_config("{ not json") {
        Err(ConfigError::Json(_)) => {}
        other => panic!("expected Json error, got {:?}", other),
    }
}

#[test]
fn unknown_fields_are_ignored() {
    let text = r#"{
        "id": "t",
        "name": "T",
        "description": "d",
        "website": "https://t",
        "command": "t",
        "version_check": ["--version"],
        "install": {},
        "config_schema": {"api_key": {"field_type": "string", "description": "x"}},
        "someday": 42
    }"#;
    let config = parse_tool_config(text).expect("unknown fields must be ignored");
    assert_eq!(config.id, "t");
}

#[test]
fn tools_document_round_trip_of_registry_ops() {
    let text = r#"{
        "version": "1.0",
        "tools": [
            {
                "id": "a",
                "name": "A",
                "description": "d",
                "website": "https://a",
                "command": "a",
                "version_check": ["--version"],
                "install": {"linux": {"method": "npm", "package_name": "a-pkg"}}
            },
            {
                "id": "b",
                "name": "B",
                "description": "d",
                "website": "https://b",
                "command": "b",
                "version_check": ["--version"],
                "install": {}
            }
        ]
    }"#;
    let doc = parse_tools_config(text).expect("registry must parse");
    assert_eq!(doc.version, "1.0");
    assert_eq!(doc.tools.len(), 2);

    let mut mgr =
        ConfigManager::new_with_settings(BehaviorSettings::default(), PathSettings::default());
    mgr.set_tools_config(doc);
    assert!(mgr.get_tool_config("a").is_some());
    assert!(mgr.get_tool_config("missing").is_none());
    mgr.remove_tool("a");
    assert!(mgr.get_tool_config("a").is_none());
    assert!(mgr.get_tool_config("b").is_some());
}

#[test]
fn defaults_match_the_documented_settings() {
    let b = BehaviorSettings::default();
    assert!(b.auto_check_updates);
    assert_eq!(b.check_interval_minutes, 30);
    assert!(b.show_notifications);
    assert!(b.auto_refresh_on_startup);
    let p = PathSettings::default();
    assert_eq!(p.tools_config_path, "tools.json");
    assert_eq!(p.data_directory, "~/.cliverge");
    let t = ToolsConfig::default();
    assert_eq!(t.version, "1.0");
    assert!(t.tools.is_empty());
}
