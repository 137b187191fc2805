//! The data types of the plug-in surface: what an adapter reports about a
//! tool and what it receives to install one.

use vstd::prelude::*;
use vstd::string::StringExecFns;
use crate::platform::Platform;

verus! {

/// Errors an adapter can report.
#[derive(Debug, Clone, PartialEq, Eq)]
pub enum ToolError {
    NotFound(String),
    InstallationFailed(String),
    UpdateFailed(String),
    ExecutionFailed(String),
    Io(String),
    Other(String),
}

/// The message an adapter error renders to, as a character sequence.
pub open spec fn spec_sdk_error_message(e: ToolError) -> Seq<char> {
    match e {
        ToolError::NotFound(s) => "Tool not found: "@ + s@,
        ToolError::InstallationFailed(s) => "Installation failed: "@ + s@,
        ToolError::UpdateFailed(s) => "Update failed: "@ + s@,
        ToolError::ExecutionFailed(s) => "Execution failed: "@ + s@,
        ToolError::Io(s) => "IO error: "@ + s@,
        ToolError::Other(s) => "Other error: "@ + s@,
    }
}

impl ToolError {
    /// Render the error as a human-readable message.
    pub fn message(&self) -> (r: String)
        ensures
            r@ == spec_sdk_error_message(*self),
    {
        let mut out: String;
        match self {
            ToolError::NotFound(s) => {
                out = String::from_str("Tool not found: ");
                out.append(s.as_str());
            },
            ToolError::InstallationFailed(s) => {
                out = String::from_str("Installation failed: ");
                out.append(s.as_str());
            },
            ToolError::UpdateFailed(s) => {
                out = String::from_str("Update failed: ");
                out.append(s.as_str());
            },
            ToolError::ExecutionFailed(s) => {
                out = String::from_str("Execution failed: ");
                out.append(s.as_str());
            },
            ToolError::Io(s) => {
                out = String::from_str("IO error: ");
                out.append(s.as_str());
            },
            ToolError::Other(s) => {
                out = String::from_str("Other error: ");
                out.append(s.as_str());
            },
        }
        out
    }
}

/// Everything a finished command reports back.
#[derive(Debug, PartialEq, Eq)]
pub struct CommandOutput {
    pub stdout: String,
    pub stderr: String,
    pub exit_code: i32,
}

impl Clone for CommandOutput {
    fn clone(&self) -> (r: Self)
        ensures
            r == *self,
    {
        CommandOutput {
            stdout: self.stdout.clone(),
            stderr: self.stderr.clone(),
            exit_code: self.exit_code,
        }
    }
}

/// What an adapter receives to install its tool.
#[derive(Debug)]
pub struct InstallConfig {
    pub sources: Vec<String>,
    pub verify: Option<bool>,
    pub post_install: Option<Vec<String>>,
}

impl Default for InstallConfig {
    fn default() -> (r: Self)
        ensures
            r.sources@ == Seq::<String>::empty(),
            r.verify == Some(true),
            r.post_install is None,
    {
        InstallConfig { sources: Vec::new(), verify: Some(true), post_install: None }
    }
}

/// The status an adapter reports: it starts `Loading` until the first probe
/// answers.
#[derive(Debug, PartialEq, Eq)]
pub enum ToolStatus {
    Loading,
    NotInstalled,
    Installed { version: String },
    Error(String),
}

impl Clone for ToolStatus {
    fn clone(&self) -> (r: Self)
        ensures
            r == *self,
    {
        match self {
            ToolStatus::Loading => ToolStatus::Loading,
            ToolStatus::NotInstalled => ToolStatus::NotInstalled,
            ToolStatus::Installed { version } => ToolStatus::Installed {
                version: version.clone(),
            },
            ToolStatus::Error(m) => ToolStatus::Error(m.clone()),
        }
    }
}

impl Default for ToolStatus {
    fn default() -> (r: Self)
        ensures
            r == ToolStatus::Loading,
    {
        ToolStatus::Loading
    }
}

/// The invocation that tests whether a command exists on the search path:
/// `where` through the shell on the platform that has it, `which` elsewhere.
pub fn which_invocation(platform: Platform, command: &str) -> (r: (String, Vec<String>))
    ensures
        platform == Platform::Windows ==> r.0@ == "cmd"@
            && r.1.deep_view() =~= seq!["/c"@, "where"@, command@],
        platform != Platform::Windows ==> r.0@ == "which"@
            && r.1.deep_view() =~= seq![command@],
{
    match platform {
        Platform::Windows => {
            let argv = vec![
                String::from_str("/c"),
                String::from_str("where"),
                command.to_owned(),
            ];
            (String::from_str("cmd"), argv)
        },
        _ => {
            let argv = vec![command.to_owned()];
            (String::from_str("which"), argv)
        },
    }
}

} // verus!
