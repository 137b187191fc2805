//! The pass-through terminal a front end embeds: an output buffer, the
//! pending input line, a running flag, and the mapping from tool identifier
//! to the program its commands run through.

use vstd::prelude::*;
use vstd::string::StringExecFns;
use crate::platform::Platform;
use crate::strutil::str_eq;

verus! {

/// A terminal session: everything printed so far, the input being typed,
/// and whether a command is currently running.
#[derive(Debug)]
pub struct Terminal {
    pub output: Vec<String>,
    pub input: String,
    pub running: bool,
}

impl Default for Terminal {
    fn default() -> (r: Self)
        ensures
            r.output@ == Seq::<String>::empty(),
            r.input@ == Seq::<char>::empty(),
            r.running == false,
    {
        Terminal { output: Vec::new(), input: String::new(), running: false }
    }
}

impl Terminal {
    /// A fresh, idle terminal with no output.
    pub fn new() -> (r: Self)
        ensures
            r.output@ == Seq::<String>::empty(),
            r.input@ == Seq::<char>::empty(),
            r.running == false,
    {
        Terminal::default()
    }

    /// Drop everything printed so far.
    pub fn clear(&mut self)
        ensures
            final(self).output@ == Seq::<String>::empty(),
            final(self).input == old(self).input,
            final(self).running == old(self).running,
    {
        self.output = Vec::new();
    }

    /// Append one line to the output.
    pub fn add_output(&mut self, line: String)
        ensures
            final(self).output@ == old(self).output@.push(line),
            final(self).input == old(self).input,
            final(self).running == old(self).running,
    {
        self.output.push(line);
    }

    /// Whether a command is currently running.
    pub fn is_running(&self) -> (r: bool)
        ensures
            r == self.running,
    {
        self.running
    }

    /// Mark a command as started or finished.
    pub fn set_running(&mut self, running: bool)
        ensures
            final(self).running == running,
            final(self).output == old(self).output,
            final(self).input == old(self).input,
    {
        self.running = running;
    }
}

/// The program a terminal tool identifier runs, for the fixed catalog of
/// known tools; an unknown identifier runs nothing.
pub open spec fn spec_terminal_program(tool_id: Seq<char>) -> Option<Seq<char>> {
    if tool_id == "pilot-code"@ {
        Some("pilot"@)
    } else if tool_id == "gemini-cli"@ {
        Some("gemini"@)
    } else if tool_id == "qwen-code-cli"@ {
        Some("qwen"@)
    } else if tool_id == "openai-codex"@ {
        Some("openai"@)
    } else if tool_id == "opencode"@ {
        Some("opencode"@)
    } else if tool_id == "iflow"@ {
        Some("iflow"@)
    } else {
        None
    }
}

/// Map a terminal tool identifier to the program it runs.
pub fn terminal_program_for(tool_id: &str) -> (r: Option<&'static str>)
    ensures
        match r {
            Some(p) => spec_terminal_program(tool_id@) == Some(p@),
            None => spec_terminal_program(tool_id@) is None,
        },
{
    if str_eq(tool_id, "pilot-code") {
        Some("pilot")
    } else if str_eq(tool_id, "gemini-cli") {
        Some("gemini")
    } else if str_eq(tool_id, "qwen-code-cli") {
        Some("qwen")
    } else if str_eq(tool_id, "openai-codex") {
        Some("openai")
    } else if str_eq(tool_id, "opencode") {
        Some("opencode")
    } else if str_eq(tool_id, "iflow") {
        Some("iflow")
    } else {
        None
    }
}

/// The prompt line echoed before a command runs: `> tool args`.
pub fn prompt_line(tool_id: &str, args: &str) -> (r: String)
    ensures
        r@ == "> "@ + tool_id@ + " "@ + args@,
{
    let mut out = String::from_str("> ");
    out.append(tool_id);
    out.append(" ");
    out.append(args);
    out
}

/// The prefix put before every line a command printed to its error stream.
pub fn error_line(line: &str) -> (r: String)
    ensures
        r@ == "[ERROR] "@ + line@,
{
    let mut out = String::from_str("[ERROR] ");
    out.append(line);
    out
}

/// The shell invocation a terminal command runs through: the platform's
/// shell, handed the program and its raw argument text as one line.
pub fn shell_invocation(platform: Platform, program: &str, args: &str)
    -> (r: (String, Vec<String>))
    ensures
        platform == Platform::Windows ==> r.0@ == "cmd"@
            && r.1.deep_view() =~= seq!["/C"@, program@ + " "@ + args@],
        platform != Platform::Windows ==> r.0@ == "sh"@
            && r.1.deep_view() =~= seq!["-c"@, program@ + " "@ + args@],
{
    let mut line = program.to_owned();
    line.append(" ");
    line.append(args);
    match platform {
        Platform::Windows => {
            let argv = vec![String::from_str("/C"), line];
            (String::from_str("cmd"), argv)
        },
        _ => {
            let argv = vec![String::from_str("-c"), line];
            (String::from_str("sh"), argv)
        },
    }
}

} // verus!
