//! The background coordinator's event model.
//!
//! A bulk refresh fans one task out per tool; each task reports an
//! in-progress event, then exactly one terminal event — completed or failed
//! — tagged with its tool identifier. All events flow through one ordered
//! queue, and the receiving front end coalesces them: a later event for the
//! same tool (and, for install-type progress, the same operation) replaces
//! the earlier one instead of accumulating.

use vstd::prelude::*;
use vstd::string::StringExecFns;
use crate::error::{ToolError, spec_tool_error_message};
use crate::tool::{ToolInfo, ToolStatus};

verus! {

/// The top-level views a front end can show.
#[derive(Debug, Clone, Copy, PartialEq, Eq, Structural)]
pub enum AppView {
    Main,
    Settings,
    About,
}

/// Severity of a user-facing notification.
#[derive(Debug, Clone, Copy, PartialEq, Eq, Structural)]
pub enum NotificationLevel {
    Info,
    Success,
    Warning,
    Error,
}

/// A dismissible user-facing notification. Times are seconds since the Unix
/// epoch.
#[derive(Debug, PartialEq, Eq)]
pub struct Notification {
    pub message: String,
    pub level: NotificationLevel,
    pub timestamp: i64,
}

impl Clone for Notification {
    fn clone(&self) -> (r: Self)
        ensures
            r == *self,
    {
        Notification {
            message: self.message.clone(),
            level: self.level,
            timestamp: self.timestamp,
        }
    }
}

/// Where one task of a bulk operation stands.
#[derive(Debug, Clone, Copy, PartialEq, Eq, Structural)]
pub enum ProgressStatus {
    Pending,
    InProgress,
    Completed,
    Failed,
}

/// A status check or install task ends in exactly these states.
pub open spec fn is_terminal(s: ProgressStatus) -> bool {
    s == ProgressStatus::Completed || s == ProgressStatus::Failed
}

/// One progress event of a bulk status refresh.
#[derive(Debug, PartialEq, Eq)]
pub struct StatusCheckProgress {
    pub tool_id: String,
    pub tool_name: String,
    pub status: ProgressStatus,
    pub message: String,
    pub timestamp: i64,
}

impl Clone for StatusCheckProgress {
    fn clone(&self) -> (r: Self)
        ensures
            r == *self,
    {
        StatusCheckProgress {
            tool_id: self.tool_id.clone(),
            tool_name: self.tool_name.clone(),
            status: self.status,
            message: self.message.clone(),
            timestamp: self.timestamp,
        }
    }
}

/// The kinds of install-type operations a front end tracks.
#[derive(Debug, Clone, Copy, PartialEq, Eq, Structural)]
pub enum InstallOperation {
    Install,
    Uninstall,
    Update,
}

/// One progress event of an install-type operation, with the command shown
/// to the user when one is known.
#[derive(Debug, PartialEq, Eq)]
pub struct InstallProgress {
    pub tool_id: String,
    pub tool_name: String,
    pub operation: InstallOperation,
    pub status: ProgressStatus,
    pub message: String,
    pub command: Option<String>,
    pub timestamp: i64,
}

impl Clone for InstallProgress {
    fn clone(&self) -> (r: Self)
        ensures
            r == *self,
    {
        InstallProgress {
            tool_id: self.tool_id.clone(),
            tool_name: self.tool_name.clone(),
            operation: self.operation,
            status: self.status,
            message: self.message.clone(),
            command: match &self.command {
                Some(c) => Some(c.clone()),
                None => None,
            },
            timestamp: self.timestamp,
        }
    }
}

/// The pending entries a refresh seeds its progress list with: one per
/// configured tool, in registry order.
pub fn initial_progress(tools: &Vec<ToolInfo>, now: i64) -> (r: Vec<StatusCheckProgress>)
    ensures
        r@.len() == tools@.len(),
        forall|i: int| 0 <= i < r@.len() ==> {
            &&& (#[trigger] r@[i]).tool_id == tools@[i].config.id
            &&& r@[i].tool_name == tools@[i].config.name
            &&& r@[i].status == ProgressStatus::Pending
            &&& r@[i].message@ == "Waiting to start..."@
            &&& r@[i].timestamp == now
        },
{
    let n = tools.len();
    let mut out: Vec<StatusCheckProgress> = Vec::new();
    let mut i: usize = 0;
    while i < n
        invariant
            i <= n,
            n == tools@.len(),
            out@.len() == i,
            forall|j: int| 0 <= j < i ==> {
                &&& (#[trigger] out@[j]).tool_id == tools@[j].config.id
                &&& out@[j].tool_name == tools@[j].config.name
                &&& out@[j].status == ProgressStatus::Pending
                &&& out@[j].message@ == "Waiting to start..."@
                &&& out@[j].timestamp == now
            },
        decreases n - i,
    {
        out.push(StatusCheckProgress {
            tool_id: tools[i].config.id.clone(),
            tool_name: tools[i].config.name.clone(),
            status: ProgressStatus::Pending,
            message: String::from_str("Waiting to start..."),
            timestamp: now,
        });
        i += 1;
    }
    out
}

/// The in-progress event a per-tool task emits before its check runs.
pub fn begin_event(tool_id: &str, now: i64) -> (r: StatusCheckProgress)
    ensures
        r.tool_id@ == tool_id@,
        r.tool_name@ == tool_id@,
        r.status == ProgressStatus::InProgress,
        r.message@ == "Checking status..."@,
        r.timestamp == now,
{
    StatusCheckProgress {
        tool_id: tool_id.to_owned(),
        tool_name: tool_id.to_owned(),
        status: ProgressStatus::InProgress,
        message: String::from_str("Checking status..."),
        timestamp: now,
    }
}

/// The terminal event a per-tool task emits for the outcome of its check:
/// completed on success, failed with the error's message otherwise — always
/// exactly one, always tagged with the tool.
pub fn terminal_event(tool_id: &str, outcome: &Result<ToolStatus, ToolError>, now: i64)
    -> (r: StatusCheckProgress)
    ensures
        r.tool_id@ == tool_id@,
        r.tool_name@ == tool_id@,
        is_terminal(r.status),
        r.timestamp == now,
        match outcome {
            Ok(_) => r.status == ProgressStatus::Completed
                && r.message@ == "Status check completed"@,
            Err(e) => r.status == ProgressStatus::Failed
                && r.message@ == "Failed: "@ + spec_tool_error_message(*e),
        },
{
    match outcome {
        Ok(_) => StatusCheckProgress {
            tool_id: tool_id.to_owned(),
            tool_name: tool_id.to_owned(),
            status: ProgressStatus::Completed,
            message: String::from_str("Status check completed"),
            timestamp: now,
        },
        Err(e) => {
            let mut msg = String::from_str("Failed: ");
            msg.append(e.message().as_str());
            StatusCheckProgress {
                tool_id: tool_id.to_owned(),
                tool_name: tool_id.to_owned(),
                status: ProgressStatus::Failed,
                message: msg,
                timestamp: now,
            }
        },
    }
}

/// A refresh across N tools yields exactly N terminal events, one per tool
/// in the order the outcomes arrived, each tagged with its tool identifier
/// and completed or failed exactly as that tool's check ended — however the
/// subprocess latencies interleaved.
pub fn collect_terminal_events(results: &Vec<(String, Result<ToolStatus, ToolError>)>, now: i64)
    -> (r: Vec<StatusCheckProgress>)
    ensures
        r@.len() == results@.len(),
        forall|i: int| 0 <= i < r@.len() ==> {
            &&& (#[trigger] r@[i]).tool_id@ == results@[i].0@
            &&& is_terminal(r@[i].status)
            &&& (r@[i].status == ProgressStatus::Completed <==> results@[i].1 is Ok)
        },
{
    let n = results.len();
    let mut out: Vec<StatusCheckProgress> = Vec::new();
    let mut i: usize = 0;
    while i < n
        invariant
            i <= n,
            n == results@.len(),
            out@.len() == i,
            forall|j: int| 0 <= j < i ==> {
                &&& (#[trigger] out@[j]).tool_id@ == results@[j].0@
                &&& is_terminal(out@[j].status)
                &&& (out@[j].status == ProgressStatus::Completed <==> results@[j].1 is Ok)
            },
        decreases n - i,
    {
        let ev = terminal_event(results[i].0.as_str(), &results[i].1, now);
        out.push(ev);
        i += 1;
    }
    out
}

/// The first entry carrying the same tool identifier, if any.
pub open spec fn first_with_id(s: Seq<StatusCheckProgress>, id: Seq<char>, from: int)
    -> Option<int>
    decreases s.len() - from,
{
    if from < 0 || from >= s.len() {
        None
    } else if s[from].tool_id@ == id {
        Some(from)
    } else {
        first_with_id(s, id, from + 1)
    }
}

/// Coalesce a status event into a progress list: a later event for the same
/// tool replaces the earlier entry, a first event is appended.
pub fn apply_progress(list: &mut Vec<StatusCheckProgress>, ev: StatusCheckProgress)
    ensures
        match first_with_id(old(list)@, ev.tool_id@, 0) {
            Some(j) => final(list)@ == old(list)@.update(j, ev),
            None => final(list)@ == old(list)@.push(ev),
        },
{
    let n = list.len();
    let mut i: usize = 0;
    while i < n
        invariant
            i <= n,
            n == list@.len(),
            list@ == old(list)@,
            forall|j: int| 0 <= j < i ==> (#[trigger] list@[j]).tool_id@ != ev.tool_id@,
            first_with_id(old(list)@, ev.tool_id@, 0)
                == first_with_id(old(list)@, ev.tool_id@, i as int),
        decreases n - i,
    {
        if crate::strutil::str_eq(list[i].tool_id.as_str(), ev.tool_id.as_str()) {
            list[i] = ev;
            return;
        }
        i += 1;
    }
    list.push(ev);
}

/// The first entry carrying the same tool identifier and operation, if any.
pub open spec fn first_with_id_op(
    s: Seq<InstallProgress>,
    id: Seq<char>,
    op: InstallOperation,
    from: int,
) -> Option<int>
    decreases s.len() - from,
{
    if from < 0 || from >= s.len() {
        None
    } else if s[from].tool_id@ == id && s[from].operation == op {
        Some(from)
    } else {
        first_with_id_op(s, id, op, from + 1)
    }
}

/// Coalesce an install-type event: a later event for the same tool and the
/// same operation kind replaces the earlier entry, anything else appends.
pub fn apply_install_progress(list: &mut Vec<InstallProgress>, ev: InstallProgress)
    ensures
        match first_with_id_op(old(list)@, ev.tool_id@, ev.operation, 0) {
            Some(j) => final(list)@ == old(list)@.update(j, ev),
            None => final(list)@ == old(list)@.push(ev),
        },
{
    let n = list.len();
    let mut i: usize = 0;
    while i < n
        invariant
            i <= n,
            n == list@.len(),
            list@ == old(list)@,
            forall|j: int| 0 <= j < i ==> !((#[trigger] list@[j]).tool_id@ == ev.tool_id@
                && list@[j].operation == ev.operation),
            first_with_id_op(old(list)@, ev.tool_id@, ev.operation, 0)
                == first_with_id_op(old(list)@, ev.tool_id@, ev.operation, i as int),
        decreases n - i,
    {
        let same_id = crate::strutil::str_eq(list[i].tool_id.as_str(), ev.tool_id.as_str());
        let same_op = match (&list[i].operation, &ev.operation) {
            (InstallOperation::Install, InstallOperation::Install) => true,
            (InstallOperation::Uninstall, InstallOperation::Uninstall) => true,
            (InstallOperation::Update, InstallOperation::Update) => true,
            _ => false,
        };
        if same_id && same_op {
            list[i] = ev;
            return;
        }
        i += 1;
    }
    list.push(ev);
}

/// The command text an install progress entry shows: the explicit command
/// joined with spaces when one is configured, else a global-install preview
/// built from the method and the package name (or, failing that, the tool
/// identifier); nothing when the platform has no install method.
pub open spec fn spec_install_display(
    config: crate::config::ToolConfig,
    platform: crate::platform::Platform,
    tool_id: Seq<char>,
) -> Option<Seq<char>> {
    match config.install.spec_get(platform) {
        Some(m) => match m.command {
            Some(c) => Some(crate::tool::join_spaces(c.deep_view())),
            None => {
                let pkg = match m.package_name {
                    Some(p) => p@,
                    None => tool_id,
                };
                Some(m.method@ + " install -g "@ + pkg)
            },
        },
        None => None,
    }
}

/// Render the command an install progress entry displays.
pub fn install_command_display(
    config: &crate::config::ToolConfig,
    platform: crate::platform::Platform,
    tool_id: &str,
) -> (r: Option<String>)
    ensures
        match r {
            Some(s) => spec_install_display(*config, platform, tool_id@) == Some(s@),
            None => spec_install_display(*config, platform, tool_id@) is None,
        },
{
    let m = match config.install.get(platform) {
        Some(m) => m,
        None => {
            return None;
        },
    };
    match &m.command {
        Some(c) => Some(crate::tool::join_args(c)),
        None => {
            let mut out = m.method.clone();
            out.append(" install -g ");
            match &m.package_name {
                Some(p) => out.append(p.as_str()),
                None => out.append(tool_id),
            }
            Some(out)
        },
    }
}

/// The command text an uninstall progress entry shows, known only for the
/// three managers whose uninstall form the front end previews, and only
/// when the package name is configured.
pub open spec fn spec_uninstall_display(
    config: crate::config::ToolConfig,
    platform: crate::platform::Platform,
) -> Option<Seq<char>> {
    match config.install.spec_get(platform) {
        Some(m) => match m.package_name {
            Some(p) => if m.method@ == "npm"@ {
                Some("npm uninstall -g "@ + p@)
            } else if m.method@ == "brew"@ {
                Some("brew uninstall "@ + p@)
            } else if m.method@ == "pip"@ {
                Some("pip uninstall -y "@ + p@)
            } else {
                None
            },
            None => None,
        },
        None => None,
    }
}

/// Render the command an uninstall progress entry displays.
pub fn uninstall_command_display(
    config: &crate::config::ToolConfig,
    platform: crate::platform::Platform,
) -> (r: Option<String>)
    ensures
        match r {
            Some(s) => spec_uninstall_display(*config, platform) == Some(s@),
            None => spec_uninstall_display(*config, platform) is None,
        },
{
    let m = match config.install.get(platform) {
        Some(m) => m,
        None => {
            return None;
        },
    };
    let p = match &m.package_name {
        Some(p) => p,
        None => {
            return None;
        },
    };
    if crate::strutil::str_eq(m.method.as_str(), "npm") {
        let mut out = String::from_str("npm uninstall -g ");
        out.append(p.as_str());
        Some(out)
    } else if crate::strutil::str_eq(m.method.as_str(), "brew") {
        let mut out = String::from_str("brew uninstall ");
        out.append(p.as_str());
        Some(out)
    } else if crate::strutil::str_eq(m.method.as_str(), "pip") {
        let mut out = String::from_str("pip uninstall -y ");
        out.append(p.as_str());
        Some(out)
    } else {
        None
    }
}

/// One line of help text as the help panel shows it: whitespace-only lines
/// collapse to nothing, option lines (a dash followed by more than one
/// further character after trimming) keep a two-space indent, and every
/// other line is trimmed.
pub open spec fn help_line_formatted(line: Seq<char>) -> Seq<char> {
    let t = crate::strutil::trimmed(line);
    if t.len() == 0 {
        Seq::empty()
    } else if t[0] == '-' && t.len() > 2 {
        "  "@ + t
    } else {
        t
    }
}

/// Help text reflowed line by line from position `i` on, the lines joined
/// back with single newlines and no trailing newline.
pub open spec fn formatted_help(s: Seq<char>, i: int) -> Seq<char>
    decreases s.len() - i,
{
    if i < 0 || i >= s.len() {
        Seq::empty()
    } else {
        let e0 = crate::version::line_end(s, i);
        let e = if e0 < i { i } else { if e0 > s.len() { s.len() as int } else { e0 } };
        let piece = help_line_formatted(s.subrange(i, e));
        if e + 1 >= s.len() {
            piece
        } else {
            piece + seq!['\n'] + formatted_help(s, e + 1)
        }
    }
}

/// Reflow raw help output for display.
pub fn format_help_text(help_content: &str) -> (r: String)
    ensures
        r@ == formatted_help(help_content@, 0),
{
    let v = crate::strutil::chars_vec(help_content);
    let n = v.len();
    let mut out = String::new();
    let mut i: usize = 0;
    loop
        invariant_except_break
            i <= n,
            n == help_content@.len(),
            v@ == help_content@,
            out@ + formatted_help(help_content@, i as int) == formatted_help(help_content@, 0),
        ensures
            out@ == formatted_help(help_content@, 0),
        decreases n - i,
    {
        let ghost s = help_content@;
        if i >= n {
            proof {
                assert(out@ =~= out@ + formatted_help(s, i as int));
            }
            break;
        }
        let e = crate::version::line_end_x(&v, i);
        let line = help_content.substring_char(i, e);
        let t = crate::strutil::trim_str(line);
        let ghost piece = help_line_formatted(s.subrange(i as int, e as int));
        let ghost before = out@;
        let tn = t.as_str().unicode_len();
        if tn == 0 {
        } else if t.as_str().get_char(0) == '-' && tn > 2 {
            out.append("  ");
            out.append(t.as_str());
        } else {
            out.append(t.as_str());
        }
        proof {
            assert(out@ =~= before + piece);
            let e0 = crate::version::line_end(s, i as int);
            assert(e0 == e as int);
            assert(0 <= i < s.len());
            assert(formatted_help(s, i as int) == (if e0 + 1 >= s.len() {
                help_line_formatted(s.subrange(i as int, e0))
            } else {
                help_line_formatted(s.subrange(i as int, e0)) + seq!['\n']
                    + formatted_help(s, e0 + 1)
            }));
        }
        if n - e > 1 {
            out.append("\n");
            proof {
                reveal_strlit("\n");
                assert("\n"@ =~= seq!['\n']);
                assert(formatted_help(s, i as int)
                    =~= piece + seq!['\n'] + formatted_help(s, e + 1));
                assert(out@ + formatted_help(s, e + 1)
                    =~= before + formatted_help(s, i as int));
            }
            i = e + 1;
        } else {
            proof {
                assert(formatted_help(s, i as int) =~= piece);
                assert(formatted_help(s, n as int) =~= Seq::<char>::empty());
                assert(out@ + formatted_help(s, n as int) =~= before + formatted_help(s, i as int));
            }
            i = n;
        }
    }
    out
}

/// Append a notification, keeping only the ten most recent.
pub fn add_notification(
    list: &mut Vec<Notification>,
    message: String,
    level: NotificationLevel,
    now: i64,
)
    ensures
        ({
            let pushed = old(list)@.push(Notification { message, level, timestamp: now });
            if pushed.len() > 10 {
                final(list)@ == pushed.subrange(1, pushed.len() as int)
            } else {
                final(list)@ == pushed
            }
        }),
{
    let n = Notification { message, level, timestamp: now };
    let ghost note = n;
    list.push(n);
    if list.len() > 10 {
        let _dropped = list.remove(0);
        proof {
            assert(list@ =~= old(list)@.push(note).subrange(1, old(list)@.len() as int + 1));
        }
    }
}

} // verus!
