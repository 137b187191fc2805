//! Error taxonomy of the engine.

use vstd::prelude::*;
use vstd::string::StringExecFns;

verus! {

/// Everything that can go wrong while managing a tool.
#[derive(Debug, Clone, PartialEq, Eq)]
pub enum ToolError {
    /// No tool with the given identifier is configured.
    NotFound(String),
    /// An install command failed.
    InstallationFailed(String),
    /// An update command failed.
    UpdateFailed(String),
    /// A subprocess could not be spawned or exited with failure where
    /// success was required.
    ExecutionFailed(String),
    /// The tool's configuration is malformed or incomplete.
    ConfigError(String),
    /// Version or metadata output could not be parsed.
    ParseError(String),
    /// The platform or install method is not supported for this tool.
    NotSupported(String),
    /// A filesystem operation failed.
    Io(String),
}

/// The message a `ToolError` renders to, as a character sequence.
pub open spec fn spec_tool_error_message(e: ToolError) -> Seq<char> {
    match e {
        ToolError::NotFound(s) => "Tool not found: "@ + s@,
        ToolError::InstallationFailed(s) => "Tool installation failed: "@ + s@,
        ToolError::UpdateFailed(s) => "Tool update failed: "@ + s@,
        ToolError::ExecutionFailed(s) => "Tool execution failed: "@ + s@,
        ToolError::ConfigError(s) => "Configuration error: "@ + s@,
        ToolError::ParseError(s) => "Parse error: "@ + s@,
        ToolError::NotSupported(s) => "Feature not supported: "@ + s@,
        ToolError::Io(s) => "IO error: "@ + s@,
    }
}

impl ToolError {
    /// Render the error as a human-readable message.
    pub fn message(&self) -> (r: String)
        ensures
            r@ == spec_tool_error_message(*self),
    {
        let mut out: String;
        match self {
            ToolError::NotFound(s) => {
                out = String::from_str("Tool not found: ");
                out.append(s.as_str());
            },
            ToolError::InstallationFailed(s) => {
                out = String::from_str("Tool installation failed: ");
                out.append(s.as_str());
            },
            ToolError::UpdateFailed(s) => {
                out = String::from_str("Tool update failed: ");
                out.append(s.as_str());
            },
            ToolError::ExecutionFailed(s) => {
                out = String::from_str("Tool execution failed: ");
                out.append(s.as_str());
            },
            ToolError::ConfigError(s) => {
                out = String::from_str("Configuration error: ");
                out.append(s.as_str());
            },
            ToolError::ParseError(s) => {
                out = String::from_str("Parse error: ");
                out.append(s.as_str());
            },
            ToolError::NotSupported(s) => {
                out = String::from_str("Feature not supported: ");
                out.append(s.as_str());
            },
            ToolError::Io(s) => {
                out = String::from_str("IO error: ");
                out.append(s.as_str());
            },
        }
        out
    }
}

/// Everything that can go wrong while loading or storing configuration.
#[derive(Debug, Clone, PartialEq, Eq)]
pub enum ConfigError {
    /// A filesystem operation failed.
    Io(String),
    /// A JSON document could not be parsed or written.
    Json(String),
    /// A configuration document is missing.
    NotFound(String),
    /// A configuration document has the wrong shape; the payload names the
    /// offending field.
    Invalid(String),
}

/// The message a `ConfigError` renders to, as a character sequence.
pub open spec fn spec_config_error_message(e: ConfigError) -> Seq<char> {
    match e {
        ConfigError::Io(s) => "IO error: "@ + s@,
        ConfigError::Json(s) => "JSON serialization error: "@ + s@,
        ConfigError::NotFound(s) => "Configuration not found: "@ + s@,
        ConfigError::Invalid(s) => "Invalid configuration: "@ + s@,
    }
}

impl ConfigError {
    /// Render the error as a human-readable message.
    pub fn message(&self) -> (r: String)
        ensures
            r@ == spec_config_error_message(*self),
    {
        let mut out: String;
        match self {
            ConfigError::Io(s) => {
                out = String::from_str("IO error: ");
                out.append(s.as_str());
            },
            ConfigError::Json(s) => {
                out = String::from_str("JSON serialization error: ");
                out.append(s.as_str());
            },
            ConfigError::NotFound(s) => {
                out = String::from_str("Configuration not found: ");
                out.append(s.as_str());
            },
            ConfigError::Invalid(s) => {
                out = String::from_str("Invalid configuration: ");
                out.append(s.as_str());
            },
        }
        out
    }
}

} // verus!
