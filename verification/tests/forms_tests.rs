use cliverge::forms::{
    form_from_tool_config, form_to_tool_config, validate_tool_form, InstallMethodForm,
    ToolFormState,
};
use cliverge::platform::Platform;

fn filled_form() -> ToolFormState {
    let mut form = ToolFormState::default();
    form.id = "mytool".to_string();
    form.name = "My Tool".to_string();
    form.description = "does things".to_string();
    form.website = "https://mytool.example".to_string();
    form.command = "mytool".to_string();
    form.install_methods.linux = Some(InstallMethodForm {
        method: "npm".to_string(),
        command_args: String::new(),
        url: String::new(),
        package_name: "mytool-cli".to_string(),
    });
    form
}

#[test]
fn a_complete_form_validates() {
    let mut form = filled_form();
    validate_tool_form(&mut form, &Vec::new(), true);
    assert!(form.is_valid, "errors: {:?}", form.errors);
    assert!(form.errors.is_empty());
}

#[test]
fn each_missing_field_reports_its_rule() {
    let mut form = filled_form();
    form.name = "   ".to_string();
    form.command = String::new();
    validate_tool_form(&mut form, &Vec::new(), true);
    assert!(!form.is_valid);
    assert_eq!(
        form.errors,
        vec!["Tool name is required".to_string(), "Command is required".to_string()]
    );

    let mut form = filled_form();
    form.website = "ftp://mytool.example".to_string();
    validate_tool_form(&mut form, &Vec::new(), true);
    assert_eq!(form.errors, vec!["Website must be a valid HTTP/HTTPS URL".to_string()]);

    let mut form = filled_form();
    form.version_check_methods.windows = Some("  ".to_string());
    form.version_check_methods.macos = None;
    form.version_check_methods.linux = Some(String::new());
    validate_tool_form(&mut form, &Vec::new(), true);
    assert_eq!(
        form.errors,
        vec!["At least one platform must have version check arguments".to_string()]
    );

    let mut form = filled_form();
    form.install_methods.windows = None;
    form.install_methods.macos = None;
    form.install_methods.linux = Some(InstallMethodForm::default());
    validate_tool_form(&mut form, &Vec::new(), true);
    assert_eq!(
        form.errors,
        vec!["At least one platform install method must be configured".to_string()]
    );
}

#[test]
fn duplicate_names_are_rejected_case_insensitively_for_new_tools() {
    let existing = vec!["other".to_string(), "MY tool".to_string()];
    let mut form = filled_form();
    validate_tool_form(&mut form, &existing, true);
    assert_eq!(form.errors, vec!["A tool with this name already exists".to_string()]);
    // editing an existing tool skips the duplicate rule
    let mut form = filled_form();
    validate_tool_form(&mut form, &existing, false);
    assert!(form.is_valid);
}

#[test]
fn form_conversion_splits_arguments_and_drops_blanks() {
    let mut form = filled_form();
    form.version_check_methods.windows = Some("  ".to_string());
    form.version_check_methods.macos = Some("--version".to_string());
    form.version_check_methods.linux = Some("version   --short".to_string());
    form.update_check_methods = cliverge::platform::PlatformMap {
        windows: Some(String::new()),
        macos: Some(String::new()),
        linux: Some(String::new()),
    };
    form.install_methods.windows = None;
    form.install_methods.macos = None;
    let config = form_to_tool_config(&form);
    assert_eq!(config.id, "mytool");
    assert_eq!(config.version_check.get(Platform::Windows), &None);
    assert_eq!(
        config.version_check.get(Platform::Macos),
        &Some(vec!["--version".to_string()])
    );
    assert_eq!(
        config.version_check.get(Platform::Linux),
        &Some(vec!["version".to_string(), "--short".to_string()])
    );
    // all update-check fields blank: no self-update support
    assert!(config.update_check.is_none());
    let linux_install = config.install.get(Platform::Linux).as_ref().unwrap();
    assert_eq!(linux_install.method, "npm");
    assert_eq!(linux_install.package_name, Some("mytool-cli".to_string()));
    assert_eq!(linux_install.command, None);
    assert_eq!(linux_install.url, None);
}

#[test]
fn populating_a_form_joins_argument_lists() {
    let form = filled_form();
    let config = form_to_tool_config(&form);
    let repopulated = form_from_tool_config(&config);
    assert_eq!(repopulated.id, "mytool");
    assert_eq!(repopulated.name, "My Tool");
    assert_eq!(
        repopulated.version_check_methods.get(Platform::Linux),
        &Some("--version".to_string())
    );
}
