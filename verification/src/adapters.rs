//! The fixed catalog of built-in tool adapters, as configuration data: each
//! adapter carries its stable identifier, display name and adapter version.

use vstd::prelude::*;
use vstd::string::StringExecFns;

verus! {

/// An adapter's identity, as the catalog lists it.
#[derive(Debug, PartialEq, Eq)]
pub struct AdapterInfo {
    pub id: String,
    pub name: String,
    pub version: String,
}

impl Clone for AdapterInfo {
    fn clone(&self) -> (r: Self)
        ensures
            r == *self,
    {
        AdapterInfo {
            id: self.id.clone(),
            name: self.name.clone(),
            version: self.version.clone(),
        }
    }
}

/// The built-in adapter for the Pilot Code command-line tool.
#[derive(Debug)]
pub struct PilotCodeTool {
    pub name: String,
    pub version: String,
}

impl PilotCodeTool {
    /// A fresh adapter value.
    pub fn new() -> (r: Self)
        ensures
            r.name@ == "Pilot Code CLI"@,
            r.version@ == "1.0.0"@,
    {
        PilotCodeTool {
            name: String::from_str("Pilot Code CLI"),
            version: String::from_str("1.0.0"),
        }
    }

    /// The adapter's stable identifier.
    pub fn id(&self) -> (r: &'static str)
        ensures
            r@ == "pilot-code"@,
    {
        "pilot-code"
    }
}

/// The built-in adapter for the Gemini command-line tool.
#[derive(Debug)]
pub struct GeminiCliTool {
    pub name: String,
    pub version: String,
}

impl GeminiCliTool {
    /// A fresh adapter value.
    pub fn new() -> (r: Self)
        ensures
            r.name@ == "Gemini CLI"@,
            r.version@ == "1.0.0"@,
    {
        GeminiCliTool {
            name: String::from_str("Gemini CLI"),
            version: String::from_str("1.0.0"),
        }
    }

    /// The adapter's stable identifier.
    pub fn id(&self) -> (r: &'static str)
        ensures
            r@ == "gemini-cli"@,
    {
        "gemini-cli"
    }
}

/// The built-in adapter for the Qwen Code command-line tool.
#[derive(Debug)]
pub struct QwenCodeTool {
    pub name: String,
    pub version: String,
}

impl QwenCodeTool {
    /// A fresh adapter value.
    pub fn new() -> (r: Self)
        ensures
            r.name@ == "Qwen Code CLI"@,
            r.version@ == "1.0.0"@,
    {
        QwenCodeTool {
            name: String::from_str("Qwen Code CLI"),
            version: String::from_str("1.0.0"),
        }
    }

    /// The adapter's stable identifier.
    pub fn id(&self) -> (r: &'static str)
        ensures
            r@ == "qwen-code-cli"@,
    {
        "qwen-code-cli"
    }
}

/// The built-in adapter for the OpenAI Codex command-line tool.
#[derive(Debug)]
pub struct OpenAiCodexTool {
    pub name: String,
    pub version: String,
}

impl OpenAiCodexTool {
    /// A fresh adapter value.
    pub fn new() -> (r: Self)
        ensures
            r.name@ == "OpenAI CodeX CLI"@,
            r.version@ == "1.0.0"@,
    {
        OpenAiCodexTool {
            name: String::from_str("OpenAI CodeX CLI"),
            version: String::from_str("1.0.0"),
        }
    }

    /// The adapter's stable identifier.
    pub fn id(&self) -> (r: &'static str)
        ensures
            r@ == "openai-codex"@,
    {
        "openai-codex"
    }
}

/// The built-in adapter for the OpenCode command-line tool.
#[derive(Debug)]
pub struct OpenCodeTool {
    pub name: String,
    pub version: String,
}

impl OpenCodeTool {
    /// A fresh adapter value.
    pub fn new() -> (r: Self)
        ensures
            r.name@ == "OpenCode CLI"@,
            r.version@ == "1.0.0"@,
    {
        OpenCodeTool {
            name: String::from_str("OpenCode CLI"),
            version: String::from_str("1.0.0"),
        }
    }

    /// The adapter's stable identifier.
    pub fn id(&self) -> (r: &'static str)
        ensures
            r@ == "opencode"@,
    {
        "opencode"
    }
}

/// The built-in adapter for the iFlow command-line tool.
#[derive(Debug)]
pub struct IFlowTool {
    pub name: String,
    pub version: String,
}

impl IFlowTool {
    /// A fresh adapter value.
    pub fn new() -> (r: Self)
        ensures
            r.name@ == "iFlow CLI"@,
            r.version@ == "1.0.0"@,
    {
        IFlowTool {
            name: String::from_str("iFlow CLI"),
            version: String::from_str("1.0.0"),
        }
    }

    /// The adapter's stable identifier.
    pub fn id(&self) -> (r: &'static str)
        ensures
            r@ == "iflow"@,
    {
        "iflow"
    }
}

/// The whole built-in catalog, in its fixed order.
pub fn get_builtin_tools() -> (r: Vec<AdapterInfo>)
    ensures
        r@.len() == 6,
        r@[0].id@ == "pilot-code"@ && r@[0].name@ == "Pilot Code CLI"@,
        r@[1].id@ == "gemini-cli"@ && r@[1].name@ == "Gemini CLI"@,
        r@[2].id@ == "qwen-code-cli"@ && r@[2].name@ == "Qwen Code CLI"@,
        r@[3].id@ == "openai-codex"@ && r@[3].name@ == "OpenAI CodeX CLI"@,
        r@[4].id@ == "opencode"@ && r@[4].name@ == "OpenCode CLI"@,
        r@[5].id@ == "iflow"@ && r@[5].name@ == "iFlow CLI"@,
        forall|i: int| 0 <= i < 6 ==> (#[trigger] r@[i]).version@ == "1.0.0"@,
{
    let pilot = PilotCodeTool::new();
    let gemini = GeminiCliTool::new();
    let qwen = QwenCodeTool::new();
    let codex = OpenAiCodexTool::new();
    let opencode = OpenCodeTool::new();
    let iflow = IFlowTool::new();
    let r = vec![
        AdapterInfo { id: pilot.id().to_owned(), name: pilot.name, version: pilot.version },
        AdapterInfo { id: gemini.id().to_owned(), name: gemini.name, version: gemini.version },
        AdapterInfo { id: qwen.id().to_owned(), name: qwen.name, version: qwen.version },
        AdapterInfo { id: codex.id().to_owned(), name: codex.name, version: codex.version },
        AdapterInfo {
            id: opencode.id().to_owned(),
            name: opencode.name,
            version: opencode.version,
        },
        AdapterInfo { id: iflow.id().to_owned(), name: iflow.name, version: iflow.version },
    ];
    r
}

} // verus!
