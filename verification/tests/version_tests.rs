use cliverge::version::{
    fallback_chain, is_version_newer, npm_latest_from_output, package_query_argv,
    parse_latest_version_from_output, parse_pip_version_output, parse_version_string,
    update_available, VersionCheckStrategy, VersionDatabase, ToolVersionInfo, VersionChecker,
    local_database_info, package_manager_info, self_check_info,
};

#[test]
fn test_version_parsing() {
    assert_eq!(parse_version_string("v1.2.3"), "1.2.3");
    assert_eq!(parse_version_string("version 2.1.0"), "2.1.0");
    assert_eq!(parse_version_string("foo 1.0.0-beta"), "1.0.0");
    assert_eq!(parse_version_string("no version here"), "unknown");
}

#[test]
fn test_version_comparison() {
    assert!(is_version_newer("1.2.3", "1.2.2"));
    assert!(is_version_newer("1.3.0", "1.2.9"));
    assert!(is_version_newer("2.0.0", "1.9.9"));
    assert!(!is_version_newer("1.2.2", "1.2.3"));
    assert!(!is_version_newer("1.2.3", "1.2.3"));
}

#[test]
fn version_comparison_pads_missing_components_with_zero() {
    assert!(!is_version_newer("1.2.0", "1.2"));
    assert!(!is_version_newer("1.2", "1.2.0"));
    assert!(is_version_newer("1.2.1", "1.2"));
    // non-numeric components are ignored, best effort
    assert!(is_version_newer("v1.3.0", "1.2.x"));
}

#[test]
fn version_parsing_prefers_the_version_word() {
    assert_eq!(parse_version_string("tool 9.9.9 version 4.5.6"), "4.5.6");
    assert_eq!(parse_version_string("mytool version v10.2.30 ok"), "10.2.30");
    assert_eq!(parse_version_string("build 1.2.3.4"), "1.2.3.4");
}

#[test]
fn latest_version_phrases_take_priority() {
    assert_eq!(parse_latest_version_from_output("everything up to date"), "current");
    assert_eq!(parse_latest_version_from_output("already latest release"), "current");
    assert_eq!(
        parse_latest_version_from_output("update is available: v2.4.6"),
        "2.4.6"
    );
    assert_eq!(
        parse_latest_version_from_output("a new shiny version 3.0.1 exists"),
        "3.0.1"
    );
    assert_eq!(parse_latest_version_from_output("latest is v7.8.9"), "7.8.9");
    assert_eq!(parse_latest_version_from_output("tool 5.5.5 ready"), "5.5.5");
    assert_eq!(parse_latest_version_from_output("nothing to see"), "unknown");
}

#[test]
fn pip_output_yields_first_numeric_line_token() {
    let out = "pkg (1.9.2)\nAvailable versions: listed below\n  1.9.2, 1.9.1\nWARNING: done";
    assert_eq!(parse_pip_version_output(out), Some("1.9.2,".to_string()));
    assert_eq!(parse_pip_version_output("no marker 1.2.3"), None);
}

#[test]
fn npm_output_is_trimmed() {
    assert_eq!(npm_latest_from_output(true, "  1.4.2\n"), Some("1.4.2".to_string()));
    assert_eq!(npm_latest_from_output(false, "1.4.2"), None);
}

#[test]
fn update_availability_follows_the_comparison() {
    let cur = Some("1.2.3".to_string());
    assert!(update_available(&cur, &Some("1.3.0".to_string())));
    assert!(!update_available(&cur, &Some("1.2.3".to_string())));
    assert!(!update_available(&cur, &Some("current".to_string())));
    assert!(!update_available(&cur, &None));
    assert!(!update_available(&None, &Some("9.9.9".to_string())));
}

#[test]
fn auto_strategy_falls_back_to_the_local_database() {
    let with_self = fallback_chain(VersionCheckStrategy::Auto, true);
    assert_eq!(
        with_self,
        vec![
            VersionCheckStrategy::SelfCheck,
            VersionCheckStrategy::PackageManager,
            VersionCheckStrategy::LocalDatabase,
        ]
    );
    let without_self = fallback_chain(VersionCheckStrategy::Auto, false);
    assert_eq!(
        without_self,
        vec![VersionCheckStrategy::PackageManager, VersionCheckStrategy::LocalDatabase]
    );
    assert_eq!(
        fallback_chain(VersionCheckStrategy::SelfCheck, true),
        vec![VersionCheckStrategy::SelfCheck]
    );
}

#[test]
fn local_database_answers_even_when_everything_else_failed() {
    let mut db = VersionDatabase::new_at(1000);
    db.update_tool_version_at(
        "mytool".to_string(),
        ToolVersionInfo {
            latest_version: "2.0.0".to_string(),
            release_date: 900,
            download_url: None,
            changelog_url: None,
        },
        1000,
    );
    let checker = VersionChecker::with_database(db);
    let info = checker.check_via_local_database_at("mytool", Some("1.0.0".to_string()), 2000);
    assert_eq!(info.latest, Some("2.0.0".to_string()));
    assert!(info.update_available);
    assert_eq!(info.check_method, "local-database");

    // a clean miss, not a hang or a panic, when the table has no entry
    let info = checker.check_via_local_database_at("other", None, 2000);
    assert_eq!(info.latest, None);
    assert!(!info.update_available);
}

#[test]
fn version_info_builders_stamp_method_and_time() {
    let info = self_check_info(
        Some("1.0.0".to_string()),
        Some("update available 1.2.0".to_string()),
        42,
    );
    assert_eq!(info.check_method, "self-check");
    assert_eq!(info.latest, Some("1.2.0".to_string()));
    assert!(info.update_available);
    assert_eq!(info.last_checked, 42);

    let info = self_check_info(Some("1.0.0".to_string()), None, 7);
    assert_eq!(info.latest, None);
    assert!(!info.update_available);

    let info = package_manager_info(Some("1.0.0".to_string()), "npm", Some("1.0.1".to_string()), 9);
    assert_eq!(info.check_method, "package-manager-npm");
    assert!(info.update_available);

    let info = local_database_info(None, None, 3);
    assert_eq!(info.check_method, "local-database");
    assert!(!info.update_available);
}

#[test]
fn package_queries_match_each_manager() {
    assert_eq!(
        package_query_argv("npm", "left-pad"),
        Some(vec![
            "npm".to_string(),
            "view".to_string(),
            "left-pad".to_string(),
            "version".to_string(),
        ])
    );
    assert_eq!(
        package_query_argv("brew", "jq"),
        Some(vec![
            "brew".to_string(),
            "info".to_string(),
            "jq".to_string(),
            "--json=v1".to_string(),
        ])
    );
    assert_eq!(
        package_query_argv("pip", "httpie"),
        Some(vec![
            "pip".to_string(),
            "index".to_string(),
            "versions".to_string(),
            "httpie".to_string(),
        ])
    );
    assert_eq!(package_query_argv("apt", "jq"), None);
}

#[test]
fn version_database_staleness_counts_whole_days() {
    let db = VersionDatabase::new_at(0);
    assert!(!db.is_stale_at(3, 3 * 86400));
    assert!(db.is_stale_at(3, 4 * 86400));
    assert!(!db.is_stale_at(3, -86400));
}

#[test]
fn extraction_edge_cases() {
    assert_eq!(parse_version_string(""), "unknown");
    assert_eq!(parse_version_string("1.2"), "unknown");
    assert_eq!(parse_version_string("..."), "unknown");
    assert_eq!(parse_version_string("vv1.2.3"), "1.2.3");
    assert_eq!(parse_version_string("10.20.30"), "10.20.30");
}

#[test]
fn oversized_components_are_ignored_best_effort() {
    // a component that cannot fit 32 bits is dropped, as an unparsable one is
    assert!(is_version_newer("99999999999.1.1", "1.0.0"));
    assert!(!is_version_newer("", ""));
    assert!(is_version_newer("0.0.1", ""));
}
