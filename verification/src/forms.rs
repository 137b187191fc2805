//! The tool-editor form: its state, the validation rules that gate saving,
//! and the conversions between a form and a tool configuration.

use vstd::prelude::*;
use vstd::string::StringExecFns;
use crate::config::{InstallMethod, ToolConfig};
use crate::platform::{Platform, PlatformMap};
use crate::strutil::{occurs_at, split_ws_from, trimmed, trim_str, split_whitespace_x, occurs_at_x,
    chars_vec};
use crate::tool::join_args;

verus! {

/// One platform's install settings as typed into the editor: a symbolic
/// method name, space-separated command arguments, a script URL and a
/// package name.
#[derive(Debug)]
pub struct InstallMethodForm {
    pub method: String,
    pub command_args: String,
    pub url: String,
    pub package_name: String,
}

impl Clone for InstallMethodForm {
    fn clone(&self) -> (r: Self)
        ensures
            r == *self,
    {
        InstallMethodForm {
            method: self.method.clone(),
            command_args: self.command_args.clone(),
            url: self.url.clone(),
            package_name: self.package_name.clone(),
        }
    }
}

impl Default for InstallMethodForm {
    fn default() -> (r: Self)
        ensures
            r.method@ == "npm"@,
            r.command_args@ == Seq::<char>::empty(),
            r.url@ == Seq::<char>::empty(),
            r.package_name@ == Seq::<char>::empty(),
    {
        InstallMethodForm {
            method: String::from_str("npm"),
            command_args: String::new(),
            url: String::new(),
            package_name: String::new(),
        }
    }
}

/// The whole editor form for adding or changing one tool.
#[derive(Debug)]
pub struct ToolFormState {
    pub id: String,
    pub name: String,
    pub description: String,
    pub website: String,
    pub command: String,
    pub version_check_methods: PlatformMap<String>,
    pub update_check_methods: PlatformMap<String>,
    pub install_methods: PlatformMap<InstallMethodForm>,
    pub uninstall_methods: PlatformMap<InstallMethodForm>,
    pub update_methods: PlatformMap<InstallMethodForm>,
    pub errors: Vec<String>,
    pub is_valid: bool,
}

impl Default for ToolFormState {
    fn default() -> (r: Self)
        ensures
            r.id@ == Seq::<char>::empty(),
            r.name@ == Seq::<char>::empty(),
            forall|p: Platform| (#[trigger] r.version_check_methods.spec_get(p)) is Some
                && r.version_check_methods.spec_get(p)->0@ == "--version"@,
            forall|p: Platform| (#[trigger] r.update_check_methods.spec_get(p)) is Some
                && r.update_check_methods.spec_get(p)->0@ == Seq::<char>::empty(),
            forall|p: Platform| (#[trigger] r.install_methods.spec_get(p)) is Some,
            forall|p: Platform| (#[trigger] r.uninstall_methods.spec_get(p)) is Some,
            forall|p: Platform| (#[trigger] r.update_methods.spec_get(p)) is Some,
            r.errors@ == Seq::<String>::empty(),
            r.is_valid == false,
    {
        ToolFormState {
            id: String::new(),
            name: String::new(),
            description: String::new(),
            website: String::new(),
            command: String::new(),
            version_check_methods: PlatformMap {
                windows: Some(String::from_str("--version")),
                macos: Some(String::from_str("--version")),
                linux: Some(String::from_str("--version")),
            },
            update_check_methods: PlatformMap {
                windows: Some(String::new()),
                macos: Some(String::new()),
                linux: Some(String::new()),
            },
            install_methods: PlatformMap {
                windows: Some(InstallMethodForm::default()),
                macos: Some(InstallMethodForm::default()),
                linux: Some(InstallMethodForm::default()),
            },
            uninstall_methods: PlatformMap {
                windows: Some(InstallMethodForm::default()),
                macos: Some(InstallMethodForm::default()),
                linux: Some(InstallMethodForm::default()),
            },
            update_methods: PlatformMap {
                windows: Some(InstallMethodForm::default()),
                macos: Some(InstallMethodForm::default()),
                linux: Some(InstallMethodForm::default()),
            },
            errors: Vec::new(),
            is_valid: false,
        }
    }
}

/// What `str::to_lowercase` returns for a given string; the result depends
/// on the characters alone.
pub uninterp spec fn lower_of(s: Seq<char>) -> Seq<char>;

/// Relies on str::to_lowercase: Unicode lowercasing, a function of the
/// characters alone.
#[verifier::external_body]
fn lowercase(s: &str) -> (r: String)
    ensures
        r@ == lower_of(s@),
{
    s.to_lowercase()
}

/// A form field counts as filled when it holds more than whitespace.
pub open spec fn field_filled(s: Seq<char>) -> bool {
    trimmed(s).len() > 0
}

/// Some platform's version-check entry is filled.
pub open spec fn has_version_check(m: PlatformMap<String>) -> bool {
    exists|p: Platform| (#[trigger] m.spec_get(p)) is Some && field_filled(m.spec_get(p)->0@)
}

/// An install method form counts as configured when it names a method and
/// fills at least one of its argument, package or URL fields.
pub open spec fn method_form_configured(f: InstallMethodForm) -> bool {
    f.method@.len() > 0
        && (f.command_args@.len() > 0 || f.package_name@.len() > 0 || f.url@.len() > 0)
}

/// Some platform's install method is configured.
pub open spec fn has_install_method(m: PlatformMap<InstallMethodForm>) -> bool {
    exists|p: Platform| (#[trigger] m.spec_get(p)) is Some
        && method_form_configured(m.spec_get(p)->0)
}

/// A website is well-formed when it begins with an HTTP or HTTPS scheme.
pub open spec fn website_well_formed(s: Seq<char>) -> bool {
    occurs_at(s, 0, "http://"@) || occurs_at(s, 0, "https://"@)
}

/// The form name collides with an existing tool name, compared
/// case-insensitively.
pub open spec fn name_collides(name: Seq<char>, existing: Seq<Seq<char>>) -> bool {
    exists|j: int| 0 <= j < existing.len() && lower_of(#[trigger] existing[j]) == lower_of(name)
}

/// The validation errors of a form, in the order the editor reports them.
pub open spec fn spec_form_errors(
    form: ToolFormState,
    existing: Seq<Seq<char>>,
    is_new_tool: bool,
) -> Seq<Seq<char>> {
    let e1: Seq<Seq<char>> = if !field_filled(form.name@) {
        seq!["Tool name is required"@]
    } else {
        Seq::empty()
    };
    let e2: Seq<Seq<char>> = if !field_filled(form.command@) {
        seq!["Command is required"@]
    } else {
        Seq::empty()
    };
    let e3: Seq<Seq<char>> = if !field_filled(form.description@) {
        seq!["Description is required"@]
    } else {
        Seq::empty()
    };
    let e4: Seq<Seq<char>> = if !field_filled(form.website@) {
        seq!["Website URL is required"@]
    } else if !website_well_formed(form.website@) {
        seq!["Website must be a valid HTTP/HTTPS URL"@]
    } else {
        Seq::empty()
    };
    let e5: Seq<Seq<char>> = if !has_version_check(form.version_check_methods) {
        seq!["At least one platform must have version check arguments"@]
    } else {
        Seq::empty()
    };
    let e6: Seq<Seq<char>> = if is_new_tool && name_collides(form.name@, existing) {
        seq!["A tool with this name already exists"@]
    } else {
        Seq::empty()
    };
    let e7: Seq<Seq<char>> = if !has_install_method(form.install_methods) {
        seq!["At least one platform install method must be configured"@]
    } else {
        Seq::empty()
    };
    e1 + e2 + e3 + e4 + e5 + e6 + e7
}

/// Whether a platform slot of a string map is filled.
fn slot_filled(m: &PlatformMap<String>, p: Platform) -> (r: bool)
    ensures
        r == (m.spec_get(p) is Some && field_filled(m.spec_get(p)->0@)),
{
    match m.get(p) {
        Some(s) => {
            let t = trim_str(s.as_str());
            t.as_str().unicode_len() > 0
        },
        None => false,
    }
}

/// Whether a platform slot of a method map is configured.
fn slot_configured(m: &PlatformMap<InstallMethodForm>, p: Platform) -> (r: bool)
    ensures
        r == (m.spec_get(p) is Some && method_form_configured(m.spec_get(p)->0)),
{
    match m.get(p) {
        Some(f) => {
            f.method.as_str().unicode_len() > 0
                && (f.command_args.as_str().unicode_len() > 0
                    || f.package_name.as_str().unicode_len() > 0
                    || f.url.as_str().unicode_len() > 0)
        },
        None => false,
    }
}

/// Validate the form against the rules the editor enforces, writing the
/// error list and the validity flag back into the form. `existing_names`
/// are the names already in the registry; the duplicate-name rule applies
/// only to a new tool, not to one being edited.
#[verifier::rlimit(100)]
pub fn validate_tool_form(
    form: &mut ToolFormState,
    existing_names: &Vec<String>,
    is_new_tool: bool,
)
    ensures
        final(form).errors.deep_view()
            == spec_form_errors(*old(form), existing_names.deep_view(), is_new_tool),
        final(form).is_valid == (spec_form_errors(*old(form), existing_names.deep_view(),
            is_new_tool).len() == 0),
        final(form).id == old(form).id,
        final(form).name == old(form).name,
        final(form).description == old(form).description,
        final(form).website == old(form).website,
        final(form).command == old(form).command,
        final(form).version_check_methods == old(form).version_check_methods,
        final(form).update_check_methods == old(form).update_check_methods,
        final(form).install_methods == old(form).install_methods,
        final(form).uninstall_methods == old(form).uninstall_methods,
        final(form).update_methods == old(form).update_methods,
{
    let ghost spec_errs = spec_form_errors(*form, existing_names.deep_view(), is_new_tool);
    let ghost e1: Seq<Seq<char>> = if !field_filled(form.name@) {
        seq!["Tool name is required"@]
    } else { Seq::empty() };
    let ghost e2: Seq<Seq<char>> = if !field_filled(form.command@) {
        seq!["Command is required"@]
    } else { Seq::empty() };
    let ghost e3: Seq<Seq<char>> = if !field_filled(form.description@) {
        seq!["Description is required"@]
    } else { Seq::empty() };
    let ghost e4: Seq<Seq<char>> = if !field_filled(form.website@) {
        seq!["Website URL is required"@]
    } else if !website_well_formed(form.website@) {
        seq!["Website must be a valid HTTP/HTTPS URL"@]
    } else { Seq::empty() };
    let ghost e5: Seq<Seq<char>> = if !has_version_check(form.version_check_methods) {
        seq!["At least one platform must have version check arguments"@]
    } else { Seq::empty() };
    let ghost e6: Seq<Seq<char>> = if is_new_tool && name_collides(form.name@,
        existing_names.deep_view()) {
        seq!["A tool with this name already exists"@]
    } else { Seq::empty() };
    let ghost e7: Seq<Seq<char>> = if !has_install_method(form.install_methods) {
        seq!["At least one platform install method must be configured"@]
    } else { Seq::empty() };
    proof {
        assert(spec_errs == e1 + e2 + e3 + e4 + e5 + e6 + e7);
    }
    let mut errors: Vec<String> = Vec::new();

    let name_filled = {
        let t = trim_str(form.name.as_str());
        t.as_str().unicode_len() > 0
    };
    if !name_filled {
        errors.push(String::from_str("Tool name is required"));
    }
    proof {
        assert(errors.deep_view() =~= e1);
    }

    let command_filled = {
        let t = trim_str(form.command.as_str());
        t.as_str().unicode_len() > 0
    };
    if !command_filled {
        errors.push(String::from_str("Command is required"));
    }
    proof {
        assert(errors.deep_view() =~= e1 + e2);
    }

    let description_filled = {
        let t = trim_str(form.description.as_str());
        t.as_str().unicode_len() > 0
    };
    if !description_filled {
        errors.push(String::from_str("Description is required"));
    }
    proof {
        assert(errors.deep_view() =~= e1 + e2 + e3);
    }

    let website_filled = {
        let t = trim_str(form.website.as_str());
        t.as_str().unicode_len() > 0
    };
    if !website_filled {
        errors.push(String::from_str("Website URL is required"));
    } else {
        let site = chars_vec(form.website.as_str());
        let http = chars_vec("http://");
        let https = chars_vec("https://");
        if !occurs_at_x(&site, 0, &http) && !occurs_at_x(&site, 0, &https) {
            errors.push(String::from_str("Website must be a valid HTTP/HTTPS URL"));
        }
    }
    proof {
        assert(errors.deep_view() =~= e1 + e2 + e3 + e4);
    }

    let has_vc = slot_filled(&form.version_check_methods, Platform::Windows)
        || slot_filled(&form.version_check_methods, Platform::Macos)
        || slot_filled(&form.version_check_methods, Platform::Linux);
    proof {
        if !has_vc {
            assert forall|p: Platform| !((#[trigger] form.version_check_methods.spec_get(p))
                is Some && field_filled(form.version_check_methods.spec_get(p)->0@)) by {
                match p {
                    Platform::Windows => {},
                    Platform::Macos => {},
                    Platform::Linux => {},
                }
            }
        }
    }
    if !has_vc {
        errors.push(String::from_str("At least one platform must have version check arguments"));
    }
    proof {
        assert(errors.deep_view() =~= e1 + e2 + e3 + e4 + e5);
    }

    let mut collides = false;
    if is_new_tool {
        let form_lower = lowercase(form.name.as_str());
        let n = existing_names.len();
        let mut i: usize = 0;
        while i < n
            invariant
                i <= n,
                n == existing_names@.len(),
                form_lower@ == lower_of(form.name@),
                collides == (exists|j: int| 0 <= j < i
                    && lower_of(#[trigger] existing_names.deep_view()[j])
                        == lower_of(form.name@)),
            decreases n - i,
        {
            let other_lower = lowercase(existing_names[i].as_str());
            if crate::strutil::str_eq(other_lower.as_str(), form_lower.as_str()) {
                proof {
                    assert(lower_of(existing_names.deep_view()[i as int])
                        == lower_of(form.name@));
                }
                collides = true;
            }
            i += 1;
        }
    }
    if collides {
        errors.push(String::from_str("A tool with this name already exists"));
    }
    proof {
        assert(errors.deep_view() =~= e1 + e2 + e3 + e4 + e5 + e6);
    }

    let has_install = slot_configured(&form.install_methods, Platform::Windows)
        || slot_configured(&form.install_methods, Platform::Macos)
        || slot_configured(&form.install_methods, Platform::Linux);
    proof {
        if !has_install {
            assert forall|p: Platform| !((#[trigger] form.install_methods.spec_get(p)) is Some
                && method_form_configured(form.install_methods.spec_get(p)->0)) by {
                match p {
                    Platform::Windows => {},
                    Platform::Macos => {},
                    Platform::Linux => {},
                }
            }
        }
    }
    if !has_install {
        errors.push(String::from_str("At least one platform install method must be configured"));
    }

    proof {
        assert(errors.deep_view() =~= e1 + e2 + e3 + e4 + e5 + e6 + e7);
    }
    let valid = errors.len() == 0;
    form.errors = errors;
    form.is_valid = valid;
}

/// The argument list a filled form field denotes: its whitespace-separated
/// words when the field is filled, nothing otherwise.
pub open spec fn spec_field_args(s: Seq<char>) -> Option<Seq<Seq<char>>> {
    if field_filled(s) {
        Some(split_ws_from(s, 0))
    } else {
        None
    }
}

/// Split one command field into arguments, treating a blank field as
/// absent.
fn field_args(s: &String) -> (r: Option<Vec<String>>)
    ensures
        match r {
            Some(args) => spec_field_args(s@) == Some(args.deep_view()),
            None => spec_field_args(s@) is None,
        },
{
    let t = trim_str(s.as_str());
    if t.as_str().unicode_len() == 0 {
        None
    } else {
        Some(split_whitespace_x(s.as_str()))
    }
}

/// One converted command slot is right: a produced argument list is the
/// split of a filled source field, and an empty slot means the source slot
/// was absent or blank.
pub open spec fn command_slot_converted(
    src: PlatformMap<String>,
    dst: Option<Vec<String>>,
    p: Platform,
) -> bool {
    match dst {
        Some(args) => src.spec_get(p) is Some
            && spec_field_args(src.spec_get(p)->0@) == Some(args.deep_view()),
        None => src.spec_get(p) is None || spec_field_args(src.spec_get(p)->0@) is None,
    }
}

/// An install method built from one configured method form: the method name
/// carries over, the command field splits, and blank URL and package fields
/// become absent.
pub open spec fn converted_method(f: InstallMethodForm, im: InstallMethod) -> bool {
    &&& im.method == f.method
    &&& match im.command {
        Some(args) => spec_field_args(f.command_args@) == Some(args.deep_view()),
        None => spec_field_args(f.command_args@) is None,
    }
    &&& im.url == (if field_filled(f.url@) { Some(f.url) } else { None::<String> })
    &&& im.package_name == (if field_filled(f.package_name@) {
        Some(f.package_name)
    } else {
        None::<String>
    })
}

/// One converted method slot is right: a produced method comes from a
/// configured form slot, and an empty slot means the source was absent or
/// unconfigured.
pub open spec fn method_slot_converted(
    src: PlatformMap<InstallMethodForm>,
    dst: Option<InstallMethod>,
    p: Platform,
) -> bool {
    match dst {
        Some(im) => src.spec_get(p) is Some && method_form_configured(src.spec_get(p)->0)
            && converted_method(src.spec_get(p)->0, im),
        None => src.spec_get(p) is None || !method_form_configured(src.spec_get(p)->0),
    }
}

/// Convert one platform's command field of the form.
fn convert_command_slot(m: &PlatformMap<String>, p: Platform) -> (r: Option<Vec<String>>)
    ensures
        command_slot_converted(*m, r, p),
{
    match m.get(p) {
        Some(s) => field_args(s),
        None => None,
    }
}

/// Convert one platform's install-method form, dropping unconfigured ones.
fn convert_method_slot(m: &PlatformMap<InstallMethodForm>, p: Platform)
    -> (r: Option<InstallMethod>)
    ensures
        method_slot_converted(*m, r, p),
{
    let f = match m.get(p) {
        Some(f) => f,
        None => {
            return None;
        },
    };
    let configured = f.method.as_str().unicode_len() > 0
        && (f.command_args.as_str().unicode_len() > 0
            || f.package_name.as_str().unicode_len() > 0
            || f.url.as_str().unicode_len() > 0);
    if !configured {
        return None;
    }
    let url = {
        let t = trim_str(f.url.as_str());
        if t.as_str().unicode_len() == 0 {
            None
        } else {
            Some(f.url.clone())
        }
    };
    let package_name = {
        let t = trim_str(f.package_name.as_str());
        if t.as_str().unicode_len() == 0 {
            None
        } else {
            Some(f.package_name.clone())
        }
    };
    Some(InstallMethod {
        method: f.method.clone(),
        command: field_args(&f.command_args),
        url,
        package_name,
    })
}

/// Build the tool configuration a form denotes: blank per-platform fields
/// are dropped, filled command fields are split on whitespace, and an
/// update-check map with no entries means no self-update support.
pub fn form_to_tool_config(form: &ToolFormState) -> (r: ToolConfig)
    ensures
        r.id == form.id,
        r.name == form.name,
        r.description == form.description,
        r.website == form.website,
        r.command == form.command,
        forall|p: Platform| command_slot_converted(form.version_check_methods,
            #[trigger] r.version_check.spec_get(p), p),
        match r.update_check {
            Some(m) => !m.spec_is_empty()
                && forall|p: Platform| command_slot_converted(form.update_check_methods,
                    #[trigger] m.spec_get(p), p),
            None => forall|p: Platform| command_slot_converted(form.update_check_methods,
                None::<Vec<String>>, p),
        },
        forall|p: Platform| method_slot_converted(form.install_methods,
            #[trigger] r.install.spec_get(p), p),
        r.uninstall is None,
        r.update is None,
{
    let version_check = PlatformMap {
        windows: convert_command_slot(&form.version_check_methods, Platform::Windows),
        macos: convert_command_slot(&form.version_check_methods, Platform::Macos),
        linux: convert_command_slot(&form.version_check_methods, Platform::Linux),
    };
    let update_map = PlatformMap {
        windows: convert_command_slot(&form.update_check_methods, Platform::Windows),
        macos: convert_command_slot(&form.update_check_methods, Platform::Macos),
        linux: convert_command_slot(&form.update_check_methods, Platform::Linux),
    };
    let update_check = if update_map.is_empty() {
        None
    } else {
        Some(update_map)
    };
    let install = PlatformMap {
        windows: convert_method_slot(&form.install_methods, Platform::Windows),
        macos: convert_method_slot(&form.install_methods, Platform::Macos),
        linux: convert_method_slot(&form.install_methods, Platform::Linux),
    };
    let r = ToolConfig {
        id: form.id.clone(),
        name: form.name.clone(),
        description: form.description.clone(),
        website: form.website.clone(),
        command: form.command.clone(),
        version_check,
        update_check,
        install,
        uninstall: None,
        update: None,
    };
    proof {
        assert forall|p: Platform| command_slot_converted(form.version_check_methods,
            #[trigger] r.version_check.spec_get(p), p) by {
            match p {
                Platform::Windows => {},
                Platform::Macos => {},
                Platform::Linux => {},
            }
        }
        assert forall|p: Platform| method_slot_converted(form.install_methods,
            #[trigger] r.install.spec_get(p), p) by {
            match p {
                Platform::Windows => {},
                Platform::Macos => {},
                Platform::Linux => {},
            }
        }
        let ghost uc = r.update_check;
        match uc {
            Some(m) => {
                assert forall|p: Platform| command_slot_converted(form.update_check_methods,
                    #[trigger] m.spec_get(p), p) by {
                    match p {
                        Platform::Windows => {},
                        Platform::Macos => {},
                        Platform::Linux => {},
                    }
                }
            },
            None => {
                assert forall|p: Platform| command_slot_converted(form.update_check_methods,
                    None::<Vec<String>>, p) by {
                    match p {
                        Platform::Windows => {},
                        Platform::Macos => {},
                        Platform::Linux => {},
                    }
                }
            },
        }
    }
    r
}

/// One rendered command slot is right: a configured argument list shows as
/// its space-joined text, an absent one as a blank field — never as a
/// missing slot.
pub open spec fn command_slot_rendered(src: Option<Vec<String>>, dst: Option<String>) -> bool {
    match dst {
        Some(text) => match src {
            Some(args) => text@ == crate::tool::join_spaces(args.deep_view()),
            None => text@ == Seq::<char>::empty(),
        },
        None => false,
    }
}

/// Populate an editor form from an existing configuration: argument lists
/// are rendered space-joined, absent per-platform entries stay blank.
pub fn form_from_tool_config(config: &ToolConfig) -> (r: ToolFormState)
    ensures
        r.id == config.id,
        r.name == config.name,
        r.description == config.description,
        r.website == config.website,
        r.command == config.command,
        forall|p: Platform| command_slot_rendered(config.version_check.spec_get(p),
            #[trigger] r.version_check_methods.spec_get(p)),
        match config.update_check {
            Some(m) => forall|p: Platform| command_slot_rendered(m.spec_get(p),
                #[trigger] r.update_check_methods.spec_get(p)),
            None => forall|p: Platform| command_slot_rendered(None::<Vec<String>>,
                #[trigger] r.update_check_methods.spec_get(p)),
        },
        r.errors@ == Seq::<String>::empty(),
{
    let mut form = ToolFormState::default();
    form.id = config.id.clone();
    form.name = config.name.clone();
    form.description = config.description.clone();
    form.website = config.website.clone();
    form.command = config.command.clone();
    let version_check_methods = PlatformMap {
        windows: match &config.version_check.windows {
            Some(args) => Some(join_args(args)),
            None => Some(String::new()),
        },
        macos: match &config.version_check.macos {
            Some(args) => Some(join_args(args)),
            None => Some(String::new()),
        },
        linux: match &config.version_check.linux {
            Some(args) => Some(join_args(args)),
            None => Some(String::new()),
        },
    };
    form.version_check_methods = version_check_methods;
    if let Some(update_check) = &config.update_check {
        form.update_check_methods = PlatformMap {
            windows: match &update_check.windows {
                Some(args) => Some(join_args(args)),
                None => Some(String::new()),
            },
            macos: match &update_check.macos {
                Some(args) => Some(join_args(args)),
                None => Some(String::new()),
            },
            linux: match &update_check.linux {
                Some(args) => Some(join_args(args)),
                None => Some(String::new()),
            },
        };
    }
    proof {
        assert forall|p: Platform| command_slot_rendered(config.version_check.spec_get(p),
            #[trigger] form.version_check_methods.spec_get(p)) by {
            match p {
                Platform::Windows => {},
                Platform::Macos => {},
                Platform::Linux => {},
            }
        }
        let ghost cuc = config.update_check;
        match cuc {
            Some(m) => {
                assert forall|p: Platform| command_slot_rendered(m.spec_get(p),
                    #[trigger] form.update_check_methods.spec_get(p)) by {
                    match p {
                        Platform::Windows => {},
                        Platform::Macos => {},
                        Platform::Linux => {},
                    }
                }
            },
            None => {
                // the defaults leave every update-check slot a blank field
                assert forall|p: Platform| command_slot_rendered(None::<Vec<String>>,
                    #[trigger] form.update_check_methods.spec_get(p)) by {
                    match p {
                        Platform::Windows => {},
                        Platform::Macos => {},
                        Platform::Linux => {},
                    }
                }
            },
        }
    }
    form
}

} // verus!
