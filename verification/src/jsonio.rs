//! Decoding the registry's JSON documents.
//!
//! Parsing the raw text is delegated to serde_json behind the trusted
//! items below; everything that interprets the parsed value — the tolerant
//! per-platform normalisation, required-field checking, the navigation of
//! package-manager metadata — is verified code in this module.
//!
//! The `version_check` / `update_check` fields accept two historical
//! shapes: a flat argument list (legacy) is broadcast to all three
//! platforms by `broadcast_commands`, and a map from platform to argument
//! list is taken as is. Unknown fields are ignored for forward
//! compatibility; a missing required field is an error naming the field.

use vstd::prelude::*;
use vstd::string::StringExecFns;
use crate::config::{InstallMethod, ToolConfig, ToolsConfig, broadcast_commands};
use crate::error::ConfigError;
use crate::platform::{Platform, PlatformMap};

verus! {

#[verifier::external_type_specification]
#[verifier::external_body]
pub struct ExValue(serde_json::Value);

/// Relies on serde_json::from_str: parses JSON text into a tree value, or
/// reports the parser's message.
#[verifier::external_body]
pub fn parse_json(s: &str) -> Result<serde_json::Value, String> {
    serde_json::from_str::<serde_json::Value>(s).map_err(|e| e.to_string())
}

/// Relies on serde_json::Value::get: the member of a JSON object under the
/// given key, if the value is an object with that member.
#[verifier::external_body]
pub fn value_get<'a>(v: &'a serde_json::Value, key: &str) -> Option<&'a serde_json::Value> {
    v.get(key)
}

/// Relies on serde_json::Value::as_str: the contents of a JSON string,
/// owned; nothing for any other kind of value.
#[verifier::external_body]
pub fn value_as_string(v: &serde_json::Value) -> Option<String> {
    v.as_str().map(|s| s.to_string())
}

/// Relies on serde_json::Value::as_array: the elements of a JSON array;
/// nothing for any other kind of value.
#[verifier::external_body]
pub fn value_as_array(v: &serde_json::Value) -> Option<&Vec<serde_json::Value>> {
    v.as_array()
}

/// Relies on serde_json::Value::is_array.
#[verifier::external_body]
pub fn value_is_array(v: &serde_json::Value) -> bool {
    v.is_array()
}

/// Relies on serde_json::Value::is_object.
#[verifier::external_body]
pub fn value_is_object(v: &serde_json::Value) -> bool {
    v.is_object()
}

/// Relies on serde_json::Value::is_null.
#[verifier::external_body]
pub fn value_is_null(v: &serde_json::Value) -> bool {
    v.is_null()
}

/// A JSON array of strings, as owned strings; nothing when the value is not
/// an array or an element is not a string.
pub fn parse_string_array(v: &serde_json::Value) -> Option<Vec<String>> {
    let arr = match value_as_array(v) {
        Some(a) => a,
        None => {
            return None;
        },
    };
    let n = arr.len();
    let mut out: Vec<String> = Vec::new();
    let mut i: usize = 0;
    while i < n
        invariant
            i <= n,
            n == arr@.len(),
        decreases n - i,
    {
        match value_as_string(&arr[i]) {
            Some(s) => out.push(s),
            None => {
                return None;
            },
        }
        i += 1;
    }
    Some(out)
}

/// An `Invalid` configuration error naming the field that failed.
fn invalid_field(field: &str) -> (r: ConfigError)
    ensures
        r == ConfigError::Invalid(r->Invalid_0),
        r->Invalid_0@ == field@,
{
    ConfigError::Invalid(field.to_owned())
}

/// Decode a per-platform command map written as a map from platform key to
/// argument list; keys outside the platform enumeration are ignored.
fn decode_platform_commands(v: &serde_json::Value, field: &str)
    -> Result<PlatformMap<Vec<String>>, ConfigError> {
    let mut map: PlatformMap<Vec<String>> = PlatformMap::empty();
    let mut i: usize = 0;
    let platforms = vec![Platform::Windows, Platform::Macos, Platform::Linux];
    while i < platforms.len()
        invariant
            i <= platforms@.len(),
        decreases platforms@.len() - i,
    {
        let p = platforms[i];
        match value_get(v, p.key()) {
            Some(entry) => match parse_string_array(entry) {
                Some(args) => {
                    map.set(p, args);
                },
                None => {
                    return Err(invalid_field(field));
                },
            },
            None => {},
        }
        i += 1;
    }
    Ok(map)
}

/// Decode a `version_check` field: a legacy flat list is broadcast to every
/// platform, a map is taken per platform. This conversion is total on list
/// input — it never fails on a well-formed array of strings.
pub fn decode_version_check(v: &serde_json::Value)
    -> Result<PlatformMap<Vec<String>>, ConfigError> {
    if value_is_array(v) {
        match parse_string_array(v) {
            Some(args) => Ok(broadcast_commands(args)),
            None => Err(invalid_field("version_check")),
        }
    } else if value_is_object(v) {
        decode_platform_commands(v, "version_check")
    } else {
        Err(invalid_field("version_check"))
    }
}

/// Decode an `update_check` field: absent or null means no self-update
/// support, never an error; an empty legacy list likewise; a non-empty
/// legacy list is broadcast; a map is taken per platform.
pub fn decode_update_check(v: Option<&serde_json::Value>)
    -> (r: Result<Option<PlatformMap<Vec<String>>>, ConfigError>)
    ensures
        v is None ==> r == Ok::<Option<PlatformMap<Vec<String>>>, ConfigError>(None),
{
    let v = match v {
        Some(v) => v,
        None => {
            return Ok(None);
        },
    };
    if value_is_null(v) {
        return Ok(None);
    }
    if value_is_array(v) {
        match parse_string_array(v) {
            Some(args) => {
                if args.len() == 0 {
                    Ok(None)
                } else {
                    Ok(Some(broadcast_commands(args)))
                }
            },
            None => Err(invalid_field("update_check")),
        }
    } else if value_is_object(v) {
        match decode_platform_commands(v, "update_check") {
            Ok(map) => Ok(Some(map)),
            Err(e) => Err(e),
        }
    } else {
        Err(invalid_field("update_check"))
    }
}

/// Decode one install method: a symbolic `method` name is required; the
/// explicit command, script URL and package name are optional.
pub fn decode_install_method(v: &serde_json::Value)
    -> Result<InstallMethod, ConfigError> {
    let method = match value_get(v, "method") {
        Some(m) => match value_as_string(m) {
            Some(s) => s,
            None => {
                return Err(invalid_field("method"));
            },
        },
        None => {
            return Err(invalid_field("method"));
        },
    };
    let command = match value_get(v, "command") {
        Some(c) => {
            if value_is_null(c) {
                None
            } else {
                match parse_string_array(c) {
                    Some(args) => Some(args),
                    None => {
                        return Err(invalid_field("command"));
                    },
                }
            }
        },
        None => None,
    };
    let url = match value_get(v, "url") {
        Some(u) => {
            if value_is_null(u) {
                None
            } else {
                match value_as_string(u) {
                    Some(s) => Some(s),
                    None => {
                        return Err(invalid_field("url"));
                    },
                }
            }
        },
        None => None,
    };
    let package_name = match value_get(v, "package_name") {
        Some(p) => {
            if value_is_null(p) {
                None
            } else {
                match value_as_string(p) {
                    Some(s) => Some(s),
                    None => {
                        return Err(invalid_field("package_name"));
                    },
                }
            }
        },
        None => None,
    };
    Ok(InstallMethod { method, command, url, package_name })
}

/// Decode a map from platform key to install method.
fn decode_method_map(v: &serde_json::Value, field: &str)
    -> Result<PlatformMap<InstallMethod>, ConfigError> {
    if !value_is_object(v) {
        return Err(invalid_field(field));
    }
    let mut map: PlatformMap<InstallMethod> = PlatformMap::empty();
    let mut i: usize = 0;
    let platforms = vec![Platform::Windows, Platform::Macos, Platform::Linux];
    while i < platforms.len()
        invariant
            i <= platforms@.len(),
        decreases platforms@.len() - i,
    {
        let p = platforms[i];
        match value_get(v, p.key()) {
            Some(entry) => match decode_install_method(entry) {
                Ok(m) => {
                    map.set(p, m);
                },
                Err(e) => {
                    return Err(e);
                },
            },
            None => {},
        }
        i += 1;
    }
    Ok(map)
}

/// A required string member of a tool object, or the error naming it.
fn required_string(v: &serde_json::Value, field: &str) -> Result<String, ConfigError> {
    match value_get(v, field) {
        Some(s) => match value_as_string(s) {
            Some(owned) => Ok(owned),
            None => Err(invalid_field(field)),
        },
        None => Err(invalid_field(field)),
    }
}

/// Decode one tool's configuration object. Unknown members are ignored;
/// missing required members fail naming the field.
pub fn decode_tool_config(v: &serde_json::Value) -> Result<ToolConfig, ConfigError> {
    let id = required_string(v, "id")?;
    let name = required_string(v, "name")?;
    let description = required_string(v, "description")?;
    let website = required_string(v, "website")?;
    let command = required_string(v, "command")?;
    let version_check = match value_get(v, "version_check") {
        Some(vc) => decode_version_check(vc)?,
        None => {
            return Err(invalid_field("version_check"));
        },
    };
    let update_check = decode_update_check(value_get(v, "update_check"))?;
    let install = match value_get(v, "install") {
        Some(inst) => decode_method_map(inst, "install")?,
        None => {
            return Err(invalid_field("install"));
        },
    };
    let uninstall = match value_get(v, "uninstall") {
        Some(u) => {
            if value_is_null(u) {
                None
            } else {
                Some(decode_method_map(u, "uninstall")?)
            }
        },
        None => None,
    };
    let update = match value_get(v, "update") {
        Some(u) => {
            if value_is_null(u) {
                None
            } else {
                Some(decode_method_map(u, "update")?)
            }
        },
        None => None,
    };
    Ok(ToolConfig {
        id,
        name,
        description,
        website,
        command,
        version_check,
        update_check,
        install,
        uninstall,
        update,
    })
}

/// Parse one tool's configuration from JSON text.
pub fn parse_tool_config(text: &str) -> Result<ToolConfig, ConfigError> {
    match parse_json(text) {
        Ok(v) => decode_tool_config(&v),
        Err(msg) => Err(ConfigError::Json(msg)),
    }
}

/// Decode the whole registry document: a schema version and a tool list.
pub fn decode_tools_config(v: &serde_json::Value) -> Result<ToolsConfig, ConfigError> {
    let version = required_string(v, "version")?;
    let tools_v = match value_get(v, "tools") {
        Some(t) => t,
        None => {
            return Err(invalid_field("tools"));
        },
    };
    let arr = match value_as_array(tools_v) {
        Some(a) => a,
        None => {
            return Err(invalid_field("tools"));
        },
    };
    let n = arr.len();
    let mut tools: Vec<ToolConfig> = Vec::new();
    let mut i: usize = 0;
    while i < n
        invariant
            i <= n,
            n == arr@.len(),
        decreases n - i,
    {
        match decode_tool_config(&arr[i]) {
            Ok(t) => tools.push(t),
            Err(e) => {
                return Err(e);
            },
        }
        i += 1;
    }
    Ok(ToolsConfig { version, tools })
}

/// Parse the registry document from JSON text.
pub fn parse_tools_config(text: &str) -> Result<ToolsConfig, ConfigError> {
    match parse_json(text) {
        Ok(v) => decode_tools_config(&v),
        Err(msg) => Err(ConfigError::Json(msg)),
    }
}

/// Navigate Homebrew's formula metadata: the stable version of the first
/// formula in the array the `info --json=v1` query prints.
pub fn brew_latest_from_json(v: &serde_json::Value) -> Option<String> {
    let arr = value_as_array(v)?;
    if arr.len() == 0 {
        return None;
    }
    let versions = value_get(&arr[0], "versions")?;
    let stable = value_get(versions, "stable")?;
    value_as_string(stable)
}

/// Parse Homebrew's formula metadata from the query's standard output; a
/// failed query yields nothing.
pub fn brew_latest_from_output(success: bool, stdout: &str) -> (r: Option<String>)
    ensures
        !success ==> r is None,
{
    if !success {
        return None;
    }
    match parse_json(stdout) {
        Ok(v) => brew_latest_from_json(&v),
        Err(_) => None,
    }
}

} // verus!
