//! Tool lifecycle: status, per-method command synthesis and operation
//! planning.
//!
//! Every operation here is a decision, not an action: the planners turn a
//! tool's configuration and the observed state of the system into the exact
//! argv a front end must run (or into the error the operation fails with),
//! and the probe interpreters turn a finished subprocess back into status.

use vstd::prelude::*;
use vstd::string::StrSliceExecFns;
use vstd::string::StringExecFns;
use crate::config::{ConfigManager, InstallMethod, ToolConfig, find_tool, tool_config_like};
use crate::error::ToolError;
use crate::platform::Platform;
use crate::strmap::StringMap;
use crate::strutil::{str_eq, trimmed};
use crate::version::{VersionChecker, VersionInfo, extracted_version, parse_version_string};

verus! {

/// The detection state of a tool. It starts `Unknown` and moves only when a
/// status check runs.
#[derive(Debug, PartialEq, Eq)]
pub enum ToolStatus {
    Unknown,
    NotInstalled,
    Installed { version: String },
    Error(String),
}

impl Clone for ToolStatus {
    fn clone(&self) -> (r: Self)
        ensures
            r == *self,
    {
        match self {
            ToolStatus::Unknown => ToolStatus::Unknown,
            ToolStatus::NotInstalled => ToolStatus::NotInstalled,
            ToolStatus::Installed { version } => ToolStatus::Installed {
                version: version.clone(),
            },
            ToolStatus::Error(m) => ToolStatus::Error(m.clone()),
        }
    }
}

impl Default for ToolStatus {
    fn default() -> (r: Self)
        ensures
            r == ToolStatus::Unknown,
    {
        ToolStatus::Unknown
    }
}

/// The status a finished version-check probe denotes: a zero exit reports
/// the tool installed, with its version extracted from the output; a failed
/// spawn or a non-zero exit reports it not installed — failure to run the
/// probe is evidence of absence, not an error.
pub fn status_from_probe(spawned: bool, exit_success: bool, stdout: &str) -> (r: ToolStatus)
    ensures
        match r {
            ToolStatus::Installed { version } => spawned && exit_success
                && version@ == extracted_version(stdout@),
            ToolStatus::NotInstalled => !spawned || !exit_success,
            _ => false,
        },
{
    if spawned && exit_success {
        ToolStatus::Installed { version: parse_version_string(stdout) }
    } else {
        ToolStatus::NotInstalled
    }
}

/// The install methods whose command can be synthesised from a package name.
pub open spec fn known_install_method(m: Seq<char>) -> bool {
    m == "npm"@ || m == "brew"@ || m == "pip"@ || m == "apt"@ || m == "yum"@ || m == "dnf"@
        || m == "pacman"@ || m == "winget"@ || m == "choco"@ || m == "scoop"@ || m == "cargo"@
        || m == "go"@
}

/// The install argv synthesised for a known method and package name.
pub open spec fn install_template(m: Seq<char>, pkg: Seq<char>) -> Seq<Seq<char>> {
    if m == "npm"@ {
        seq!["npm"@, "install"@, "-g"@, pkg]
    } else if m == "brew"@ {
        seq!["brew"@, "install"@, pkg]
    } else if m == "pip"@ {
        seq!["pip"@, "install"@, pkg]
    } else if m == "apt"@ {
        seq!["sudo"@, "apt"@, "install"@, "-y"@, pkg]
    } else if m == "yum"@ {
        seq!["sudo"@, "yum"@, "install"@, "-y"@, pkg]
    } else if m == "dnf"@ {
        seq!["sudo"@, "dnf"@, "install"@, "-y"@, pkg]
    } else if m == "pacman"@ {
        seq!["sudo"@, "pacman"@, "-S"@, "--noconfirm"@, pkg]
    } else if m == "winget"@ {
        seq!["winget"@, "install"@, pkg, "--accept-source-agreements"@,
            "--accept-package-agreements"@]
    } else if m == "choco"@ {
        seq!["choco"@, "install"@, pkg, "-y"@]
    } else if m == "scoop"@ {
        seq!["scoop"@, "install"@, pkg]
    } else if m == "cargo"@ {
        seq!["cargo"@, "install"@, pkg]
    } else if m == "go"@ {
        seq!["go"@, "install"@, pkg]
    } else {
        Seq::empty()
    }
}

/// The uninstall methods whose command can be synthesised from a package
/// name: every install method except `go`, which offers no uninstall.
pub open spec fn known_uninstall_method(m: Seq<char>) -> bool {
    m == "npm"@ || m == "brew"@ || m == "pip"@ || m == "apt"@ || m == "yum"@ || m == "dnf"@
        || m == "pacman"@ || m == "winget"@ || m == "choco"@ || m == "scoop"@ || m == "cargo"@
}

/// The uninstall argv synthesised for a known method and package name.
pub open spec fn uninstall_template(m: Seq<char>, pkg: Seq<char>) -> Seq<Seq<char>> {
    if m == "npm"@ {
        seq!["npm"@, "uninstall"@, "-g"@, pkg]
    } else if m == "brew"@ {
        seq!["brew"@, "uninstall"@, pkg]
    } else if m == "pip"@ {
        seq!["pip"@, "uninstall"@, "-y"@, pkg]
    } else if m == "apt"@ {
        seq!["sudo"@, "apt"@, "remove"@, "-y"@, pkg]
    } else if m == "yum"@ {
        seq!["sudo"@, "yum"@, "remove"@, "-y"@, pkg]
    } else if m == "dnf"@ {
        seq!["sudo"@, "dnf"@, "remove"@, "-y"@, pkg]
    } else if m == "pacman"@ {
        seq!["sudo"@, "pacman"@, "-R"@, "--noconfirm"@, pkg]
    } else if m == "winget"@ {
        seq!["winget"@, "uninstall"@, pkg]
    } else if m == "choco"@ {
        seq!["choco"@, "uninstall"@, pkg, "-y"@]
    } else if m == "scoop"@ {
        seq!["scoop"@, "uninstall"@, pkg]
    } else if m == "cargo"@ {
        seq!["cargo"@, "uninstall"@, pkg]
    } else {
        Seq::empty()
    }
}

/// The package-manager update methods the engine can synthesise.
pub open spec fn known_update_method(m: Seq<char>) -> bool {
    m == "npm"@ || m == "brew"@ || m == "pip"@
}

/// The update argv synthesised for a known method and package name.
pub open spec fn update_template(m: Seq<char>, pkg: Seq<char>) -> Seq<Seq<char>> {
    if m == "npm"@ {
        seq!["npm"@, "update"@, "-g"@, pkg]
    } else if m == "brew"@ {
        seq!["brew"@, "upgrade"@, pkg]
    } else if m == "pip"@ {
        seq!["pip"@, "install"@, "--upgrade"@, pkg]
    } else {
        Seq::empty()
    }
}

/// Synthesise the install command of an install method from its symbolic
/// method name and package name.
pub fn construct_install_command(ic: &InstallMethod) -> (r: Result<Vec<String>, ToolError>)
    ensures
        match r {
            Ok(cmd) => known_install_method(ic.method@) && ic.package_name is Some
                && cmd.deep_view() == install_template(ic.method@, ic.package_name->0@),
            Err(e) => match e {
                ToolError::ConfigError(_) => known_install_method(ic.method@)
                    && ic.package_name is None,
                ToolError::NotSupported(_) => !known_install_method(ic.method@),
                _ => false,
            },
        },
{
    let m = ic.method.as_str();
    if str_eq(m, "npm") {
        match &ic.package_name {
            Some(p) => {
                let cmd = vec![
                    String::from_str("npm"),
                    String::from_str("install"),
                    String::from_str("-g"),
                    p.clone(),
                ];
                proof {
                    assert(cmd.deep_view() =~= install_template(ic.method@, ic.package_name->0@));
                }
                Ok(cmd)
            },
            None => Err(ToolError::ConfigError(
                String::from_str("npm install requires package_name"),
            )),
        }
    } else if str_eq(m, "brew") {
        match &ic.package_name {
            Some(p) => {
                let cmd = vec![
                    String::from_str("brew"),
                    String::from_str("install"),
                    p.clone(),
                ];
                proof {
                    assert(cmd.deep_view() =~= install_template(ic.method@, ic.package_name->0@));
                }
                Ok(cmd)
            },
            None => Err(ToolError::ConfigError(
                String::from_str("brew install requires package_name"),
            )),
        }
    } else if str_eq(m, "pip") {
        match &ic.package_name {
            Some(p) => {
                let cmd = vec![
                    String::from_str("pip"),
                    String::from_str("install"),
                    p.clone(),
                ];
                proof {
                    assert(cmd.deep_view() =~= install_template(ic.method@, ic.package_name->0@));
                }
                Ok(cmd)
            },
            None => Err(ToolError::ConfigError(
                String::from_str("pip install requires package_name"),
            )),
        }
    } else if str_eq(m, "apt") {
        match &ic.package_name {
            Some(p) => {
                let cmd = vec![
                    String::from_str("sudo"),
                    String::from_str("apt"),
                    String::from_str("install"),
                    String::from_str("-y"),
                    p.clone(),
                ];
                proof {
                    assert(cmd.deep_view() =~= install_template(ic.method@, ic.package_name->0@));
                }
                Ok(cmd)
            },
            None => Err(ToolError::ConfigError(
                String::from_str("apt install requires package_name"),
            )),
        }
    } else if str_eq(m, "yum") {
        match &ic.package_name {
            Some(p) => {
                let cmd = vec![
                    String::from_str("sudo"),
                    String::from_str("yum"),
                    String::from_str("install"),
                    String::from_str("-y"),
                    p.clone(),
                ];
                proof {
                    assert(cmd.deep_view() =~= install_template(ic.method@, ic.package_name->0@));
                }
                Ok(cmd)
            },
            None => Err(ToolError::ConfigError(
                String::from_str("yum install requires package_name"),
            )),
        }
    } else if str_eq(m, "dnf") {
        match &ic.package_name {
            Some(p) => {
                let cmd = vec![
                    String::from_str("sudo"),
                    String::from_str("dnf"),
                    String::from_str("install"),
                    String::from_str("-y"),
                    p.clone(),
                ];
                proof {
                    assert(cmd.deep_view() =~= install_template(ic.method@, ic.package_name->0@));
                }
                Ok(cmd)
            },
            None => Err(ToolError::ConfigError(
                String::from_str("dnf install requires package_name"),
            )),
        }
    } else if str_eq(m, "pacman") {
        match &ic.package_name {
            Some(p) => {
                let cmd = vec![
                    String::from_str("sudo"),
                    String::from_str("pacman"),
                    String::from_str("-S"),
                    String::from_str("--noconfirm"),
                    p.clone(),
                ];
                proof {
                    assert(cmd.deep_view() =~= install_template(ic.method@, ic.package_name->0@));
                }
                Ok(cmd)
            },
            None => Err(ToolError::ConfigError(
                String::from_str("pacman install requires package_name"),
            )),
        }
    } else if str_eq(m, "winget") {
        match &ic.package_name {
            Some(p) => {
                let cmd = vec![
                    String::from_str("winget"),
                    String::from_str("install"),
                    p.clone(),
                    String::from_str("--accept-source-agreements"),
                    String::from_str("--accept-package-agreements"),
                ];
                proof {
                    assert(cmd.deep_view() =~= install_template(ic.method@, ic.package_name->0@));
                }
                Ok(cmd)
            },
            None => Err(ToolError::ConfigError(
                String::from_str("winget install requires package_name"),
            )),
        }
    } else if str_eq(m, "choco") {
        match &ic.package_name {
            Some(p) => {
                let cmd = vec![
                    String::from_str("choco"),
                    String::from_str("install"),
                    p.clone(),
                    String::from_str("-y"),
                ];
                proof {
                    assert(cmd.deep_view() =~= install_template(ic.method@, ic.package_name->0@));
                }
                Ok(cmd)
            },
            None => Err(ToolError::ConfigError(
                String::from_str("choco install requires package_name"),
            )),
        }
    } else if str_eq(m, "scoop") {
        match &ic.package_name {
            Some(p) => {
                let cmd = vec![
                    String::from_str("scoop"),
                    String::from_str("install"),
                    p.clone(),
                ];
                proof {
                    assert(cmd.deep_view() =~= install_template(ic.method@, ic.package_name->0@));
                }
                Ok(cmd)
            },
            None => Err(ToolError::ConfigError(
                String::from_str("scoop install requires package_name"),
            )),
        }
    } else if str_eq(m, "cargo") {
        match &ic.package_name {
            Some(p) => {
                let cmd = vec![
                    String::from_str("cargo"),
                    String::from_str("install"),
                    p.clone(),
                ];
                proof {
                    assert(cmd.deep_view() =~= install_template(ic.method@, ic.package_name->0@));
                }
                Ok(cmd)
            },
            None => Err(ToolError::ConfigError(
                String::from_str("cargo install requires package_name"),
            )),
        }
    } else if str_eq(m, "go") {
        match &ic.package_name {
            Some(p) => {
                let cmd = vec![
                    String::from_str("go"),
                    String::from_str("install"),
                    p.clone(),
                ];
                proof {
                    assert(cmd.deep_view() =~= install_template(ic.method@, ic.package_name->0@));
                }
                Ok(cmd)
            },
            None => Err(ToolError::ConfigError(
                String::from_str("go install requires package_name"),
            )),
        }
    } else {
        let mut msg = String::from_str("Install method '");
        msg.append(m);
        msg.append("' not supported");
        Err(ToolError::NotSupported(msg))
    }
}

/// Synthesise the uninstall command of an install method from its symbolic
/// method name and package name.
pub fn construct_uninstall_command(ic: &InstallMethod) -> (r: Result<Vec<String>, ToolError>)
    ensures
        match r {
            Ok(cmd) => known_uninstall_method(ic.method@) && ic.package_name is Some
                && cmd.deep_view() == uninstall_template(ic.method@, ic.package_name->0@),
            Err(e) => match e {
                ToolError::ConfigError(_) => known_uninstall_method(ic.method@)
                    && ic.package_name is None,
                ToolError::NotSupported(_) => !known_uninstall_method(ic.method@),
                _ => false,
            },
        },
{
    let m = ic.method.as_str();
    if str_eq(m, "npm") {
        match &ic.package_name {
            Some(p) => {
                let cmd = vec![
                    String::from_str("npm"),
                    String::from_str("uninstall"),
                    String::from_str("-g"),
                    p.clone(),
                ];
                proof {
                    assert(cmd.deep_view() =~= uninstall_template(ic.method@, ic.package_name->0@));
                }
                Ok(cmd)
            },
            None => Err(ToolError::ConfigError(
                String::from_str("npm uninstall requires package_name"),
            )),
        }
    } else if str_eq(m, "brew") {
        match &ic.package_name {
            Some(p) => {
                let cmd = vec![
                    String::from_str("brew"),
                    String::from_str("uninstall"),
                    p.clone(),
                ];
                proof {
                    assert(cmd.deep_view() =~= uninstall_template(ic.method@, ic.package_name->0@));
                }
                Ok(cmd)
            },
            None => Err(ToolError::ConfigError(
                String::from_str("brew uninstall requires package_name"),
            )),
        }
    } else if str_eq(m, "pip") {
        match &ic.package_name {
            Some(p) => {
                let cmd = vec![
                    String::from_str("pip"),
                    String::from_str("uninstall"),
                    String::from_str("-y"),
                    p.clone(),
                ];
                proof {
                    assert(cmd.deep_view() =~= uninstall_template(ic.method@, ic.package_name->0@));
                }
                Ok(cmd)
            },
            None => Err(ToolError::ConfigError(
                String::from_str("pip uninstall requires package_name"),
            )),
        }
    } else if str_eq(m, "apt") {
        match &ic.package_name {
            Some(p) => {
                let cmd = vec![
                    String::from_str("sudo"),
                    String::from_str("apt"),
                    String::from_str("remove"),
                    String::from_str("-y"),
                    p.clone(),
                ];
                proof {
                    assert(cmd.deep_view() =~= uninstall_template(ic.method@, ic.package_name->0@));
                }
                Ok(cmd)
            },
            None => Err(ToolError::ConfigError(
                String::from_str("apt remove requires package_name"),
            )),
        }
    } else if str_eq(m, "yum") {
        match &ic.package_name {
            Some(p) => {
                let cmd = vec![
                    String::from_str("sudo"),
                    String::from_str("yum"),
                    String::from_str("remove"),
                    String::from_str("-y"),
                    p.clone(),
                ];
                proof {
                    assert(cmd.deep_view() =~= uninstall_template(ic.method@, ic.package_name->0@));
                }
                Ok(cmd)
            },
            None => Err(ToolError::ConfigError(
                String::from_str("yum remove requires package_name"),
            )),
        }
    } else if str_eq(m, "dnf") {
        match &ic.package_name {
            Some(p) => {
                let cmd = vec![
                    String::from_str("sudo"),
                    String::from_str("dnf"),
                    String::from_str("remove"),
                    String::from_str("-y"),
                    p.clone(),
                ];
                proof {
                    assert(cmd.deep_view() =~= uninstall_template(ic.method@, ic.package_name->0@));
                }
                Ok(cmd)
            },
            None => Err(ToolError::ConfigError(
                String::from_str("dnf remove requires package_name"),
            )),
        }
    } else if str_eq(m, "pacman") {
        match &ic.package_name {
            Some(p) => {
                let cmd = vec![
                    String::from_str("sudo"),
                    String::from_str("pacman"),
                    String::from_str("-R"),
                    String::from_str("--noconfirm"),
                    p.clone(),
                ];
                proof {
                    assert(cmd.deep_view() =~= uninstall_template(ic.method@, ic.package_name->0@));
                }
                Ok(cmd)
            },
            None => Err(ToolError::ConfigError(
                String::from_str("pacman remove requires package_name"),
            )),
        }
    } else if str_eq(m, "winget") {
        match &ic.package_name {
            Some(p) => {
                let cmd = vec![
                    String::from_str("winget"),
                    String::from_str("uninstall"),
                    p.clone(),
                ];
                proof {
                    assert(cmd.deep_view() =~= uninstall_template(ic.method@, ic.package_name->0@));
                }
                Ok(cmd)
            },
            None => Err(ToolError::ConfigError(
                String::from_str("winget uninstall requires package_name"),
            )),
        }
    } else if str_eq(m, "choco") {
        match &ic.package_name {
            Some(p) => {
                let cmd = vec![
                    String::from_str("choco"),
                    String::from_str("uninstall"),
                    p.clone(),
                    String::from_str("-y"),
                ];
                proof {
                    assert(cmd.deep_view() =~= uninstall_template(ic.method@, ic.package_name->0@));
                }
                Ok(cmd)
            },
            None => Err(ToolError::ConfigError(
                String::from_str("choco uninstall requires package_name"),
            )),
        }
    } else if str_eq(m, "scoop") {
        match &ic.package_name {
            Some(p) => {
                let cmd = vec![
                    String::from_str("scoop"),
                    String::from_str("uninstall"),
                    p.clone(),
                ];
                proof {
                    assert(cmd.deep_view() =~= uninstall_template(ic.method@, ic.package_name->0@));
                }
                Ok(cmd)
            },
            None => Err(ToolError::ConfigError(
                String::from_str("scoop uninstall requires package_name"),
            )),
        }
    } else if str_eq(m, "cargo") {
        match &ic.package_name {
            Some(p) => {
                let cmd = vec![
                    String::from_str("cargo"),
                    String::from_str("uninstall"),
                    p.clone(),
                ];
                proof {
                    assert(cmd.deep_view() =~= uninstall_template(ic.method@, ic.package_name->0@));
                }
                Ok(cmd)
            },
            None => Err(ToolError::ConfigError(
                String::from_str("cargo uninstall requires package_name"),
            )),
        }
    } else {
        let mut msg = String::from_str("Uninstall method '");
        msg.append(m);
        msg.append("' not supported");
        Err(ToolError::NotSupported(msg))
    }
}

/// Synthesise the package-manager update command of an install method.
pub fn construct_update_command(ic: &InstallMethod) -> (r: Result<Vec<String>, ToolError>)
    ensures
        match r {
            Ok(cmd) => known_update_method(ic.method@) && ic.package_name is Some
                && cmd.deep_view() == update_template(ic.method@, ic.package_name->0@),
            Err(e) => match e {
                ToolError::ConfigError(_) => known_update_method(ic.method@)
                    && ic.package_name is None,
                ToolError::NotSupported(_) => !known_update_method(ic.method@),
                _ => false,
            },
        },
{
    let m = ic.method.as_str();
    if str_eq(m, "npm") {
        match &ic.package_name {
            Some(p) => {
                let cmd = vec![
                    String::from_str("npm"),
                    String::from_str("update"),
                    String::from_str("-g"),
                    p.clone(),
                ];
                proof {
                    assert(cmd.deep_view() =~= update_template(ic.method@, ic.package_name->0@));
                }
                Ok(cmd)
            },
            None => Err(ToolError::ConfigError(
                String::from_str("NPM package name not specified"),
            )),
        }
    } else if str_eq(m, "brew") {
        match &ic.package_name {
            Some(p) => {
                let cmd = vec![
                    String::from_str("brew"),
                    String::from_str("upgrade"),
                    p.clone(),
                ];
                proof {
                    assert(cmd.deep_view() =~= update_template(ic.method@, ic.package_name->0@));
                }
                Ok(cmd)
            },
            None => Err(ToolError::ConfigError(
                String::from_str("Brew formula name not specified"),
            )),
        }
    } else if str_eq(m, "pip") {
        match &ic.package_name {
            Some(p) => {
                let cmd = vec![
                    String::from_str("pip"),
                    String::from_str("install"),
                    String::from_str("--upgrade"),
                    p.clone(),
                ];
                proof {
                    assert(cmd.deep_view() =~= update_template(ic.method@, ic.package_name->0@));
                }
                Ok(cmd)
            },
            None => Err(ToolError::ConfigError(
                String::from_str("Pip package name not specified"),
            )),
        }
    } else {
        let mut msg = String::from_str("Update method ");
        msg.append(m);
        msg.append(" not supported");
        Err(ToolError::NotSupported(msg))
    }
}

/// What a planner tells the front end to do.
#[derive(Debug, PartialEq, Eq)]
pub enum OperationPlan {
    /// The operation is already satisfied; run nothing and report success.
    NoOp,
    /// Run this argv and report its outcome.
    Run(Vec<String>),
}

/// Plan an installation. A platform with no install method is unsupported
/// whatever else holds; a tool already detected installed makes the second
/// install a no-op success rather than a duplicate invocation; otherwise an
/// explicit command wins over synthesis.
pub fn plan_install(config: &ToolConfig, platform: Platform, already_installed: bool)
    -> (r: Result<OperationPlan, ToolError>)
    ensures
        config.install.spec_get(platform) is None
            ==> (r is Err && r->Err_0 matches ToolError::NotSupported(_)),
        config.install.spec_get(platform) is Some && already_installed
            ==> r == Ok::<OperationPlan, ToolError>(OperationPlan::NoOp),
        match r {
            Ok(p) => config.install.spec_get(platform) is Some && (match p {
                OperationPlan::NoOp => already_installed,
                OperationPlan::Run(cmd) => {
                    let m = config.install.spec_get(platform)->Some_0;
                    &&& !already_installed
                    &&& match m.command {
                        Some(c) => cmd.deep_view() == c.deep_view(),
                        None => known_install_method(m.method@) && m.package_name is Some
                            && cmd.deep_view()
                                == install_template(m.method@, m.package_name->0@),
                    }
                },
            }),
            Err(e) => match e {
                ToolError::NotSupported(_) => config.install.spec_get(platform) is None
                    || (!already_installed
                        && config.install.spec_get(platform)->Some_0.command is None
                        && !known_install_method(
                            config.install.spec_get(platform)->Some_0.method@)),
                ToolError::ConfigError(_) => {
                    let m = config.install.spec_get(platform)->Some_0;
                    &&& config.install.spec_get(platform) is Some
                    &&& !already_installed
                    &&& m.command is None
                    &&& known_install_method(m.method@)
                    &&& m.package_name is None
                },
                _ => false,
            },
        },
{
    let ic = match config.install.get(platform) {
        Some(m) => m,
        None => {
            let mut msg = String::from_str("Platform ");
            msg.append(platform.key());
            msg.append(" not supported for ");
            msg.append(config.id.as_str());
            return Err(ToolError::NotSupported(msg));
        },
    };
    if already_installed {
        return Ok(OperationPlan::NoOp);
    }
    match &ic.command {
        Some(c) => {
            let cmd = crate::config::clone_args(c);
            Ok(OperationPlan::Run(cmd))
        },
        None => match construct_install_command(ic) {
            Ok(cmd) => Ok(OperationPlan::Run(cmd)),
            Err(e) => Err(e),
        },
    }
}

/// Plan an uninstallation: a dedicated uninstall method wins, else the
/// install method's uninstall form; a tool not currently installed makes
/// the operation a no-op success.
pub fn plan_uninstall(config: &ToolConfig, platform: Platform, currently_installed: bool)
    -> (r: Result<OperationPlan, ToolError>)
    ensures
        ({
            // the method set the plan resolves against
            let chosen = if config.uninstall is Some
                && config.uninstall->0.spec_get(platform) is Some {
                Some(config.uninstall->0.spec_get(platform)->Some_0)
            } else {
                config.install.spec_get(platform)
            };
            match r {
                Ok(p) => chosen is Some && (match p {
                    OperationPlan::NoOp => !currently_installed,
                    OperationPlan::Run(cmd) => {
                        let m = chosen->Some_0;
                        &&& currently_installed
                        &&& match m.command {
                            Some(c) => cmd.deep_view() == c.deep_view(),
                            None => known_uninstall_method(m.method@) && m.package_name is Some
                                && cmd.deep_view()
                                    == uninstall_template(m.method@, m.package_name->0@),
                        }
                    },
                }),
                Err(e) => match e {
                    ToolError::NotSupported(_) => chosen is None
                        || (currently_installed && chosen->Some_0.command is None
                            && !known_uninstall_method(chosen->Some_0.method@)),
                    ToolError::ConfigError(_) => {
                        let m = chosen->Some_0;
                        &&& chosen is Some
                        &&& currently_installed
                        &&& m.command is None
                        &&& known_uninstall_method(m.method@)
                        &&& m.package_name is None
                    },
                    _ => false,
                },
            }
        }),
{
    let dedicated: Option<&InstallMethod> = match &config.uninstall {
        Some(map) => match map.get(platform) {
            Some(m) => Some(m),
            None => None,
        },
        None => None,
    };
    let ic = match dedicated {
        Some(m) => m,
        None => match config.install.get(platform) {
            Some(m) => m,
            None => {
                let mut msg = String::from_str("Platform ");
                msg.append(platform.key());
                msg.append(" not supported for ");
                msg.append(config.id.as_str());
                return Err(ToolError::NotSupported(msg));
            },
        },
    };
    if !currently_installed {
        return Ok(OperationPlan::NoOp);
    }
    match &ic.command {
        Some(c) => {
            let cmd = crate::config::clone_args(c);
            Ok(OperationPlan::Run(cmd))
        },
        None => match construct_uninstall_command(ic) {
            Ok(cmd) => Ok(OperationPlan::Run(cmd)),
            Err(e) => Err(e),
        },
    }
}

/// Replace the check-only flag of a self-update probe with its apply flag.
pub open spec fn spec_apply_update_args(args: Seq<Seq<char>>) -> Seq<Seq<char>> {
    Seq::new(args.len(), |i: int| if args[i] == "--check-only"@ { "--update"@ } else { args[i] })
}

/// Turn a check-only self-update argv into one that applies the update.
pub fn apply_update_args(args: &Vec<String>) -> (r: Vec<String>)
    ensures
        r.deep_view() == spec_apply_update_args(args.deep_view()),
{
    let mut out: Vec<String> = Vec::new();
    let n = args.len();
    let mut i: usize = 0;
    while i < n
        invariant
            i <= n,
            n == args@.len(),
            out@.len() == i,
            forall|j: int| 0 <= j < i ==> #[trigger] out.deep_view()[j]
                == (if args.deep_view()[j] == "--check-only"@ { "--update"@ }
                    else { args.deep_view()[j] }),
        decreases n - i,
    {
        let ghost pre = out.deep_view();
        if str_eq(args[i].as_str(), "--check-only") {
            out.push(String::from_str("--update"));
            proof {
                assert(out.deep_view() =~= pre.push("--update"@));
            }
        } else {
            out.push(args[i].clone());
            proof {
                assert(out.deep_view() =~= pre.push(args.deep_view()[i as int]));
            }
        }
        i += 1;
    }
    proof {
        assert(out.deep_view() =~= spec_apply_update_args(args.deep_view()));
    }
    out
}

/// How a front end performs an update: the self-update command first, if
/// the tool has one; when it fails or is absent, the package-manager
/// fallback — or the error synthesising it would raise.
#[derive(Debug)]
pub struct UpdatePlan {
    pub self_update: Option<Vec<String>>,
    pub fallback: Result<Vec<String>, ToolError>,
}

/// Plan an update. A platform with no install method is unsupported; a tool
/// not detected installed cannot be updated.
pub fn plan_update(config: &ToolConfig, platform: Platform, installed: bool)
    -> (r: Result<UpdatePlan, ToolError>)
    ensures
        match r {
            Ok(plan) => {
                let m = config.install.spec_get(platform)->Some_0;
                &&& config.install.spec_get(platform) is Some
                &&& installed
                &&& match plan.self_update {
                    Some(cmd) => config.update_check is Some
                        && config.update_check->0.spec_get(platform) is Some
                        && cmd.deep_view() == spec_apply_update_args(
                            config.update_check->0.spec_get(platform)->Some_0.deep_view()),
                    None => config.update_check is None
                        || config.update_check->0.spec_get(platform) is None,
                }
                &&& match plan.fallback {
                    Ok(cmd) => known_update_method(m.method@) && m.package_name is Some
                        && cmd.deep_view() == update_template(m.method@, m.package_name->0@),
                    Err(e) => match e {
                        ToolError::ConfigError(_) => known_update_method(m.method@)
                            && m.package_name is None,
                        ToolError::NotSupported(_) => !known_update_method(m.method@),
                        _ => false,
                    },
                }
            },
            Err(e) => match e {
                ToolError::NotSupported(_) => config.install.spec_get(platform) is None,
                ToolError::NotFound(_) => config.install.spec_get(platform) is Some
                    && !installed,
                _ => false,
            },
        },
{
    let ic = match config.install.get(platform) {
        Some(m) => m,
        None => {
            let mut msg = String::from_str("Platform ");
            msg.append(platform.key());
            msg.append(" not supported for ");
            msg.append(config.id.as_str());
            return Err(ToolError::NotSupported(msg));
        },
    };
    if !installed {
        let mut msg = String::from_str("Tool ");
        msg.append(config.id.as_str());
        msg.append(" is not installed");
        return Err(ToolError::NotFound(msg));
    }
    let self_update: Option<Vec<String>> = match &config.update_check {
        Some(map) => match map.get(platform) {
            Some(args) => Some(apply_update_args(args)),
            None => None,
        },
        None => None,
    };
    let fallback = construct_update_command(ic);
    Ok(UpdatePlan { self_update, fallback })
}

/// Plan a pass-through execution: the tool must be detected installed, and
/// then its own command runs with the caller's arguments verbatim.
pub fn plan_execute(config: &ToolConfig, installed: bool) -> (r: Result<String, ToolError>)
    ensures
        match r {
            Ok(cmd) => installed && cmd == config.command,
            Err(e) => !installed && e matches ToolError::NotFound(_),
        },
{
    if !installed {
        let mut msg = String::from_str("Tool ");
        msg.append(config.id.as_str());
        msg.append(" is not installed");
        return Err(ToolError::NotFound(msg));
    }
    Ok(config.command.clone())
}

/// The fixed, ordered help invocations a front end tries.
pub fn help_invocations() -> (r: Vec<Vec<String>>)
    ensures
        r.deep_view() =~= seq![seq!["--help"@], seq!["help"@], seq!["-h"@]],
{
    let r = vec![
        vec![String::from_str("--help")],
        vec![String::from_str("help")],
        vec![String::from_str("-h")],
    ];
    proof {
        assert(r.deep_view()[0] =~= seq!["--help"@]);
        assert(r.deep_view()[1] =~= seq!["help"@]);
        assert(r.deep_view()[2] =~= seq!["-h"@]);
        assert(r.deep_view() =~= seq![seq!["--help"@], seq!["help"@], seq!["-h"@]]);
    }
    r
}

/// A help attempt counts when the command succeeded and printed something
/// besides whitespace.
pub open spec fn help_attempt_good(success: bool, stdout: Seq<char>) -> bool {
    success && trimmed(stdout).len() > 0
}

/// The index of the first good help attempt at or after `i`.
pub open spec fn first_good_help(outs: Seq<(bool, String)>, i: int) -> Option<int>
    decreases outs.len() - i,
{
    if i < 0 || i >= outs.len() {
        None
    } else if help_attempt_good(outs[i].0, outs[i].1@) {
        Some(i)
    } else {
        first_good_help(outs, i + 1)
    }
}

/// Select the help text among the attempts' outcomes: the first non-empty
/// successful standard output, or an execution failure when none qualifies.
pub fn select_help(outs: &Vec<(bool, String)>, tool_id: &str)
    -> (r: Result<String, ToolError>)
    ensures
        match r {
            Ok(h) => first_good_help(outs@, 0) is Some
                && h == outs@[first_good_help(outs@, 0)->Some_0].1,
            Err(e) => first_good_help(outs@, 0) is None
                && e matches ToolError::ExecutionFailed(_),
        },
{
    let n = outs.len();
    let mut i: usize = 0;
    while i < n
        invariant
            i <= n,
            n == outs@.len(),
            first_good_help(outs@, 0) == first_good_help(outs@, i as int),
        decreases n - i,
    {
        if outs[i].0 {
            let t = crate::strutil::trim_str(outs[i].1.as_str());
            if t.as_str().unicode_len() > 0 {
                return Ok(outs[i].1.clone());
            }
        }
        i += 1;
    }
    let mut msg = String::from_str("Could not get help information for ");
    msg.append(tool_id);
    Err(ToolError::ExecutionFailed(msg))
}

/// The argument list of a space-joined rendering, as one character sequence.
pub open spec fn join_spaces(parts: Seq<Seq<char>>) -> Seq<char>
    decreases parts.len(),
{
    if parts.len() == 0 {
        Seq::empty()
    } else if parts.len() == 1 {
        parts[0]
    } else {
        join_spaces(parts.drop_last()) + " "@ + parts.last()
    }
}

/// Join argument strings with single spaces.
pub fn join_args(args: &Vec<String>) -> (r: String)
    ensures
        r@ == join_spaces(args.deep_view()),
{
    let mut out = String::new();
    let n = args.len();
    let mut i: usize = 0;
    while i < n
        invariant
            i <= n,
            n == args@.len(),
            out@ == join_spaces(args.deep_view().subrange(0, i as int)),
        decreases n - i,
    {
        if i > 0 {
            out.append(" ");
        }
        out.append(args[i].as_str());
        proof {
            let parts = args.deep_view().subrange(0, i + 1);
            assert(parts.drop_last() =~= args.deep_view().subrange(0, i as int));
            assert(parts.last() == args.deep_view()[i as int]);
            if i == 0 {
                assert(out@ =~= parts[0]);
            }
        }
        i += 1;
    }
    proof {
        assert(args.deep_view().subrange(0, n as int) =~= args.deep_view());
    }
    out
}

/// The program and argv a front end actually spawns for `command args`. On
/// the platform that pops a console window for child processes, everything
/// is routed through a hidden shell invocation; elsewhere the command runs
/// as itself. Output capture and exit codes are unchanged either way.
pub fn hidden_invocation(platform: Platform, command: &str, args: &Vec<String>)
    -> (r: (String, Vec<String>))
    ensures
        platform == Platform::Windows ==> {
            &&& r.0@ == "powershell.exe"@
            &&& r.1.deep_view() =~= seq!["-NoProfile"@, "-WindowStyle"@, "Hidden"@, "-Command"@,
                if args.deep_view().len() == 0 { command@ } else {
                    command@ + " "@ + join_spaces(args.deep_view())
                }]
        },
        platform != Platform::Windows ==> r.0@ == command@
            && r.1.deep_view() == args.deep_view(),
{
    match platform {
        Platform::Windows => {
            let full_command: String;
            if args.len() == 0 {
                full_command = command.to_owned();
            } else {
                let mut s = command.to_owned();
                s.append(" ");
                s.append(join_args(args).as_str());
                full_command = s;
            }
            let argv = vec![
                String::from_str("-NoProfile"),
                String::from_str("-WindowStyle"),
                String::from_str("Hidden"),
                String::from_str("-Command"),
                full_command,
            ];
            (String::from_str("powershell.exe"), argv)
        },
        _ => {
            let argv = crate::config::clone_args(args);
            let ghost a = argv.deep_view();
            proof {
                assert(a =~= args.deep_view());
            }
            (command.to_owned(), argv)
        },
    }
}

/// One tool as a front end lists it: its configuration, its last detected
/// status and, when resolved, its version facts.
#[derive(Debug)]
pub struct ToolInfo {
    pub config: ToolConfig,
    pub status: ToolStatus,
    pub version_info: Option<VersionInfo>,
}

/// The central coordinator of per-tool operations: it owns the registry,
/// the strategy engine and the in-session status cache (cleared explicitly,
/// never by time), and plans every subprocess a front end runs.
pub struct ToolManager {
    pub config: ConfigManager,
    pub version_checker: VersionChecker,
    pub status_cache: StringMap<ToolStatus>,
}

impl ToolManager {
    /// A manager over the given registry, with an empty status cache.
    pub fn new(config: ConfigManager) -> (r: Self)
        ensures
            r.config == config,
            r.status_cache@ == Map::<Seq<char>, ToolStatus>::empty(),
            r.version_checker.local_db is None,
    {
        ToolManager {
            config,
            version_checker: VersionChecker::new(),
            status_cache: StringMap::new(),
        }
    }

    /// Every configured tool, status not yet checked.
    pub fn get_all_tools_configs(&self) -> (r: Vec<ToolInfo>)
        ensures
            r@.len() == self.config.spec_tools().len(),
            forall|i: int| 0 <= i < r@.len() ==> {
                &&& tool_config_like((#[trigger] r@[i]).config, self.config.spec_tools()[i])
                &&& r@[i].status == ToolStatus::Unknown
                &&& r@[i].version_info is None
            },
    {
        let tools = self.config.get_tools_config();
        let n = tools.tools.len();
        let mut out: Vec<ToolInfo> = Vec::new();
        let mut i: usize = 0;
        while i < n
            invariant
                i <= n,
                n == self.config.spec_tools().len(),
                tools.tools@ == self.config.spec_tools(),
                out@.len() == i,
                forall|j: int| 0 <= j < i ==> {
                    &&& tool_config_like((#[trigger] out@[j]).config, self.config.spec_tools()[j])
                    &&& out@[j].status == ToolStatus::Unknown
                    &&& out@[j].version_info is None
                },
            decreases n - i,
        {
            out.push(ToolInfo {
                config: tools.tools[i].clone(),
                status: ToolStatus::Unknown,
                version_info: None,
            });
            i += 1;
        }
        out
    }

    /// One tool by identifier, carrying its cached status if any.
    pub fn get_tool(&self, tool_id: &str) -> (r: Result<ToolInfo, ToolError>)
        ensures
            match r {
                Ok(info) => {
                    &&& find_tool(self.config.spec_tools(), tool_id@) is Some
                    &&& tool_config_like(info.config,
                        find_tool(self.config.spec_tools(), tool_id@)->Some_0)
                    &&& info.status == (if self.status_cache@.contains_key(tool_id@) {
                        self.status_cache@[tool_id@]
                    } else {
                        ToolStatus::Unknown
                    })
                    &&& info.version_info is None
                },
                Err(e) => find_tool(self.config.spec_tools(), tool_id@) is None
                    && e matches ToolError::NotFound(_),
            },
    {
        let config = match self.config.get_tool_config(tool_id) {
            Some(c) => c.clone(),
            None => {
                let mut msg = String::from_str("Tool ");
                msg.append(tool_id);
                msg.append(" not found");
                return Err(ToolError::NotFound(msg));
            },
        };
        let status = match self.status_cache.get(tool_id) {
            Some(s) => s.clone(),
            None => ToolStatus::Unknown,
        };
        Ok(ToolInfo { config, status, version_info: None })
    }

    /// The version-check argv of a tool on a platform: the command to spawn
    /// and its arguments. A tool without an entry for the platform is
    /// unsupported there, never silently "not installed".
    pub fn version_probe(&self, tool_id: &str, platform: Platform)
        -> (r: Result<(String, Vec<String>), ToolError>)
        ensures
            match r {
                Ok((cmd, args)) => {
                    let t = find_tool(self.config.spec_tools(), tool_id@)->Some_0;
                    &&& find_tool(self.config.spec_tools(), tool_id@) is Some
                    &&& t.version_check.spec_get(platform) is Some
                    &&& cmd == t.command
                    &&& args.deep_view()
                        == t.version_check.spec_get(platform)->Some_0.deep_view()
                },
                Err(e) => match e {
                    ToolError::NotFound(_) =>
                        find_tool(self.config.spec_tools(), tool_id@) is None,
                    ToolError::NotSupported(_) => {
                        let t = find_tool(self.config.spec_tools(), tool_id@)->Some_0;
                        find_tool(self.config.spec_tools(), tool_id@) is Some
                            && t.version_check.spec_get(platform) is None
                    },
                    _ => false,
                },
            },
    {
        let config = match self.config.get_tool_config(tool_id) {
            Some(c) => c,
            None => {
                let mut msg = String::from_str("Tool ");
                msg.append(tool_id);
                msg.append(" not found");
                return Err(ToolError::NotFound(msg));
            },
        };
        match config.version_check.get(platform) {
            Some(args) => {
                let cloned = crate::config::clone_args(args);
                Ok((config.command.clone(), cloned))
            },
            None => {
                let mut msg = String::from_str("platform not supported");
                Err(ToolError::NotSupported(msg))
            },
        }
    }

    /// Record a freshly computed status in the in-session cache.
    pub fn update_cached_status(&mut self, tool_id: &str, status: ToolStatus)
        ensures
            final(self).status_cache@ == old(self).status_cache@.insert(tool_id@, status),
            final(self).config == old(self).config,
            final(self).version_checker == old(self).version_checker,
    {
        self.status_cache.insert(tool_id.to_owned(), status);
    }

    /// Read the in-session cache without running anything.
    pub fn get_cached_status(&self, tool_id: &str) -> (r: Option<ToolStatus>)
        ensures
            match r {
                Some(s) => self.status_cache@.contains_key(tool_id@)
                    && s == self.status_cache@[tool_id@],
                None => !self.status_cache@.contains_key(tool_id@),
            },
    {
        match self.status_cache.get(tool_id) {
            Some(s) => Some(s.clone()),
            None => None,
        }
    }

    /// Drop a tool's in-session status so the next check re-probes; done
    /// after installs, uninstalls and updates, whose success never implies a
    /// particular resulting status.
    pub fn invalidate_cached_status(&mut self, tool_id: &str)
        ensures
            final(self).status_cache@ == old(self).status_cache@.remove(tool_id@),
            final(self).config == old(self).config,
            final(self).version_checker == old(self).version_checker,
    {
        self.status_cache.remove(tool_id);
    }
}

} // verus!