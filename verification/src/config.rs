//! The tool registry: declarative per-platform tool configuration, its
//! backward-compatible normal form, and the manager that owns it.
//!
//! A tool's `version_check` / `update_check` may be written either as a flat
//! argument list (the legacy, pre-multi-platform form) or as a map from
//! platform to argument list. The legacy form is broadcast to all three
//! platforms by `broadcast_commands`: a pure, total conversion.

use vstd::prelude::*;
use crate::platform::{Platform, PlatformMap};
use crate::strutil::str_eq;

verus! {

/// How a tool is installed on one platform: a symbolic package-manager
/// method, an optional explicit argv override, an optional script URL and an
/// optional package name.
#[derive(Debug)]
pub struct InstallMethod {
    pub method: String,
    pub command: Option<Vec<String>>,
    pub url: Option<String>,
    pub package_name: Option<String>,
}

/// One tool's declarative description.
#[derive(Debug)]
pub struct ToolConfig {
    pub id: String,
    pub name: String,
    pub description: String,
    pub website: String,
    pub command: String,
    pub version_check: PlatformMap<Vec<String>>,
    pub update_check: Option<PlatformMap<Vec<String>>>,
    pub install: PlatformMap<InstallMethod>,
    pub uninstall: Option<PlatformMap<InstallMethod>>,
    pub update: Option<PlatformMap<InstallMethod>>,
}

/// The registry document: a schema version and the configured tools.
#[derive(Debug)]
pub struct ToolsConfig {
    pub version: String,
    pub tools: Vec<ToolConfig>,
}

impl Default for ToolsConfig {
    fn default() -> (r: Self)
        ensures
            r.version@ == "1.0"@,
            r.tools@ == Seq::<ToolConfig>::empty(),
    {
        ToolsConfig { version: "1.0".to_owned(), tools: Vec::new() }
    }
}

/// Behaviour settings a front end persists alongside the registry.
#[derive(Debug, Clone, PartialEq, Eq)]
pub struct BehaviorSettings {
    pub auto_check_updates: bool,
    pub check_interval_minutes: u32,
    pub show_notifications: bool,
    pub auto_refresh_on_startup: bool,
}

impl Default for BehaviorSettings {
    fn default() -> (r: Self)
        ensures
            r.auto_check_updates == true,
            r.check_interval_minutes == 30,
            r.show_notifications == true,
            r.auto_refresh_on_startup == true,
    {
        BehaviorSettings {
            auto_check_updates: true,
            check_interval_minutes: 30,
            show_notifications: true,
            auto_refresh_on_startup: true,
        }
    }
}

/// Filesystem locations a front end persists alongside the registry.
#[derive(Debug, Clone, PartialEq, Eq)]
pub struct PathSettings {
    pub tools_config_path: String,
    pub data_directory: String,
}

impl Default for PathSettings {
    fn default() -> (r: Self)
        ensures
            r.tools_config_path@ == "tools.json"@,
            r.data_directory@ == "~/.cliverge"@,
    {
        PathSettings {
            tools_config_path: "tools.json".to_owned(),
            data_directory: "~/.cliverge".to_owned(),
        }
    }
}

/// Two optional argument lists hold the same arguments.
pub open spec fn opt_args_like(a: Option<Vec<String>>, b: Option<Vec<String>>) -> bool {
    match (a, b) {
        (Some(x), Some(y)) => x@ == y@,
        (None, None) => true,
        _ => false,
    }
}

/// Two install methods describe the same installation.
pub open spec fn method_like(a: InstallMethod, b: InstallMethod) -> bool {
    a.method == b.method && opt_args_like(a.command, b.command) && a.url == b.url
        && a.package_name == b.package_name
}

/// Likeness on optional install methods.
pub open spec fn opt_method_like(a: Option<InstallMethod>, b: Option<InstallMethod>) -> bool {
    match (a, b) {
        (Some(x), Some(y)) => method_like(x, y),
        (None, None) => true,
        _ => false,
    }
}

/// Two per-platform command maps hold the same argument lists.
pub open spec fn cmd_map_like(a: PlatformMap<Vec<String>>, b: PlatformMap<Vec<String>>) -> bool {
    forall|p: Platform| opt_args_like(#[trigger] a.spec_get(p), b.spec_get(p))
}

/// Likeness on optional per-platform command maps.
pub open spec fn opt_cmd_map_like(
    a: Option<PlatformMap<Vec<String>>>,
    b: Option<PlatformMap<Vec<String>>>,
) -> bool {
    match (a, b) {
        (Some(x), Some(y)) => cmd_map_like(x, y),
        (None, None) => true,
        _ => false,
    }
}

/// Two per-platform method maps describe the same installations.
pub open spec fn method_map_like(
    a: PlatformMap<InstallMethod>,
    b: PlatformMap<InstallMethod>,
) -> bool {
    forall|p: Platform| opt_method_like(#[trigger] a.spec_get(p), b.spec_get(p))
}

/// Likeness on optional per-platform method maps.
pub open spec fn opt_method_map_like(
    a: Option<PlatformMap<InstallMethod>>,
    b: Option<PlatformMap<InstallMethod>>,
) -> bool {
    match (a, b) {
        (Some(x), Some(y)) => method_map_like(x, y),
        (None, None) => true,
        _ => false,
    }
}

/// Two tool configurations describe the same tool.
pub open spec fn tool_config_like(a: ToolConfig, b: ToolConfig) -> bool {
    a.id == b.id && a.name == b.name && a.description == b.description && a.website == b.website
        && a.command == b.command
        && cmd_map_like(a.version_check, b.version_check)
        && opt_cmd_map_like(a.update_check, b.update_check)
        && method_map_like(a.install, b.install)
        && opt_method_map_like(a.uninstall, b.uninstall)
        && opt_method_map_like(a.update, b.update)
}

/// Clone an argument list, keeping the arguments.
pub fn clone_args(v: &Vec<String>) -> (r: Vec<String>)
    ensures
        r@ == v@,
        r.deep_view() == v.deep_view(),
{
    let c = v.clone();
    proof {
        assert forall|i: int| 0 <= i < v@.len() implies c@[i] == v@[i] by {
            assert(cloned::<String>(v[i], c[i]));
        }
        assert(c@ =~= v@);
        assert(c.deep_view() =~= v.deep_view());
    }
    c
}

/// Clone an optional argument list, keeping the arguments.
fn clone_opt_args(v: &Option<Vec<String>>) -> (r: Option<Vec<String>>)
    ensures
        opt_args_like(r, *v),
{
    match v {
        Some(args) => {
            let c = args.clone();
            proof {
                assert forall|i: int| 0 <= i < args@.len() implies c@[i] == args@[i] by {
                    assert(cloned::<String>(args[i], c[i]));
                }
                assert(c@ =~= args@);
            }
            Some(c)
        },
        None => None,
    }
}

/// Clone an optional string, keeping the value.
fn clone_opt_string(v: &Option<String>) -> (r: Option<String>)
    ensures
        r == *v,
{
    match v {
        Some(s) => Some(s.clone()),
        None => None,
    }
}

impl Clone for InstallMethod {
    fn clone(&self) -> (r: Self)
        ensures
            method_like(r, *self),
    {
        InstallMethod {
            method: self.method.clone(),
            command: clone_opt_args(&self.command),
            url: clone_opt_string(&self.url),
            package_name: clone_opt_string(&self.package_name),
        }
    }
}

impl Clone for PlatformMap<Vec<String>> {
    fn clone(&self) -> (r: Self)
        ensures
            cmd_map_like(r, *self),
    {
        let windows = clone_opt_args(&self.windows);
        let macos = clone_opt_args(&self.macos);
        let linux = clone_opt_args(&self.linux);
        PlatformMap { windows, macos, linux }
    }
}

impl Clone for PlatformMap<InstallMethod> {
    fn clone(&self) -> (r: Self)
        ensures
            method_map_like(r, *self),
    {
        let windows = match &self.windows {
            Some(m) => Some(m.clone()),
            None => None,
        };
        let macos = match &self.macos {
            Some(m) => Some(m.clone()),
            None => None,
        };
        let linux = match &self.linux {
            Some(m) => Some(m.clone()),
            None => None,
        };
        PlatformMap { windows, macos, linux }
    }
}

/// Clone an optional per-platform command map, keeping the value.
fn clone_opt_cmd_map(v: &Option<PlatformMap<Vec<String>>>) -> (r: Option<PlatformMap<Vec<String>>>)
    ensures
        opt_cmd_map_like(r, *v),
{
    match v {
        Some(m) => Some(m.clone()),
        None => None,
    }
}

/// Clone an optional per-platform method map, keeping the value.
fn clone_opt_method_map(
    v: &Option<PlatformMap<InstallMethod>>,
) -> (r: Option<PlatformMap<InstallMethod>>)
    ensures
        opt_method_map_like(r, *v),
{
    match v {
        Some(m) => Some(m.clone()),
        None => None,
    }
}

impl Clone for ToolConfig {
    fn clone(&self) -> (r: Self)
        ensures
            tool_config_like(r, *self),
    {
        ToolConfig {
            id: self.id.clone(),
            name: self.name.clone(),
            description: self.description.clone(),
            website: self.website.clone(),
            command: self.command.clone(),
            version_check: self.version_check.clone(),
            update_check: clone_opt_cmd_map(&self.update_check),
            install: self.install.clone(),
            uninstall: clone_opt_method_map(&self.uninstall),
            update: clone_opt_method_map(&self.update),
        }
    }
}

impl Clone for ToolsConfig {
    fn clone(&self) -> (r: Self)
        ensures
            r.version == self.version,
            r.tools@.len() == self.tools@.len(),
            forall|i: int| 0 <= i < self.tools@.len()
                ==> tool_config_like(#[trigger] r.tools@[i], self.tools@[i]),
    {
        let mut tools: Vec<ToolConfig> = Vec::new();
        let n = self.tools.len();
        let mut i: usize = 0;
        while i < n
            invariant
                i <= n,
                n == self.tools@.len(),
                tools@.len() == i,
                forall|j: int| 0 <= j < i
                    ==> tool_config_like(#[trigger] tools@[j], self.tools@[j]),
            decreases n - i,
        {
            tools.push(self.tools[i].clone());
            i += 1;
        }
        ToolsConfig { version: self.version.clone(), tools }
    }
}

/// Broadcast a legacy flat argument list to every platform: each of the
/// three slots holds the identical list.
pub fn broadcast_commands(args: Vec<String>) -> (r: PlatformMap<Vec<String>>)
    ensures
        forall|p: Platform| #[trigger] r.spec_get(p) is Some
            && r.spec_get(p)->Some_0.deep_view() == args.deep_view(),
{
    let w = args.clone();
    let m = args.clone();
    PlatformMap { windows: Some(w), macos: Some(m), linux: Some(args) }
}

/// The first tool with the given identifier, scanning front to back.
pub open spec fn find_tool(tools: Seq<ToolConfig>, id: Seq<char>) -> Option<ToolConfig>
    decreases tools.len(),
{
    if tools.len() == 0 {
        None
    } else if tools[0].id@ == id {
        Some(tools[0])
    } else {
        find_tool(tools.drop_first(), id)
    }
}

proof fn lemma_find_tool_at(tools: Seq<ToolConfig>, id: Seq<char>, i: int)
    requires
        0 <= i < tools.len(),
        tools[i].id@ == id,
        forall|j: int| 0 <= j < i ==> tools[j].id@ != id,
    ensures
        find_tool(tools, id) == Some(tools[i]),
    decreases i,
{
    if i > 0 {
        lemma_find_tool_at(tools.drop_first(), id, i - 1);
    }
}

proof fn lemma_find_tool_none(tools: Seq<ToolConfig>, id: Seq<char>)
    requires
        forall|j: int| 0 <= j < tools.len() ==> tools[j].id@ != id,
    ensures
        find_tool(tools, id) is None,
    decreases tools.len(),
{
    if tools.len() > 0 {
        lemma_find_tool_none(tools.drop_first(), id);
    }
}

/// The index of the first tool with the given identifier, if any.
pub open spec fn find_tool_index(tools: Seq<ToolConfig>, id: Seq<char>, from: int) -> Option<int>
    decreases tools.len() - from,
{
    if from < 0 || from >= tools.len() {
        None
    } else if tools[from].id@ == id {
        Some(from)
    } else {
        find_tool_index(tools, id, from + 1)
    }
}

/// Owner of the registry and of the persisted front-end settings. Loading
/// and saving the documents is the front end's job; this value is the truth
/// between those moments.
pub struct ConfigManager {
    behavior: BehaviorSettings,
    paths: PathSettings,
    tools_config: ToolsConfig,
}

impl ConfigManager {
    /// The registry's tools.
    pub closed spec fn spec_tools(self) -> Seq<ToolConfig> {
        self.tools_config.tools@
    }

    /// The whole registry document.
    pub closed spec fn spec_tools_config(self) -> ToolsConfig {
        self.tools_config
    }

    /// The behaviour settings.
    pub closed spec fn spec_behavior(self) -> BehaviorSettings {
        self.behavior
    }

    /// The path settings.
    pub closed spec fn spec_paths(self) -> PathSettings {
        self.paths
    }

    /// A manager holding the given settings and an empty registry.
    pub fn new_with_settings(behavior: BehaviorSettings, paths: PathSettings) -> (r: Self)
        ensures
            r.spec_behavior() == behavior,
            r.spec_paths() == paths,
            r.spec_tools() == Seq::<ToolConfig>::empty(),
    {
        ConfigManager { behavior, paths, tools_config: ToolsConfig::default() }
    }

    /// Borrow the behaviour settings.
    pub fn get_behavior_settings(&self) -> (r: &BehaviorSettings)
        ensures
            *r == self.spec_behavior(),
    {
        &self.behavior
    }

    /// Borrow the path settings.
    pub fn get_path_settings(&self) -> (r: &PathSettings)
        ensures
            *r == self.spec_paths(),
    {
        &self.paths
    }

    /// Replace the behaviour settings.
    pub fn update_behavior_settings(&mut self, settings: BehaviorSettings)
        ensures
            final(self).spec_behavior() == settings,
            final(self).spec_paths() == old(self).spec_paths(),
            final(self).spec_tools_config() == old(self).spec_tools_config(),
    {
        self.behavior = settings;
    }

    /// Borrow the registry document.
    pub fn get_tools_config(&self) -> (r: &ToolsConfig)
        ensures
            *r == self.spec_tools_config(),
            r.tools@ == self.spec_tools(),
    {
        &self.tools_config
    }

    /// Replace the registry document.
    pub fn set_tools_config(&mut self, tools_config: ToolsConfig)
        ensures
            final(self).spec_tools_config() == tools_config,
            final(self).spec_behavior() == old(self).spec_behavior(),
            final(self).spec_paths() == old(self).spec_paths(),
    {
        self.tools_config = tools_config;
    }

    /// The first configured tool with this identifier.
    pub fn get_tool_config(&self, id: &str) -> (r: Option<&ToolConfig>)
        ensures
            match r {
                Some(t) => find_tool(self.spec_tools(), id@) == Some(*t),
                None => find_tool(self.spec_tools(), id@) is None,
            },
    {
        let n = self.tools_config.tools.len();
        let mut i: usize = 0;
        while i < n
            invariant
                i <= n,
                n == self.spec_tools().len(),
                forall|j: int| 0 <= j < i ==> (#[trigger] self.spec_tools()[j]).id@ != id@,
            decreases n - i,
        {
            if str_eq(self.tools_config.tools[i].id.as_str(), id) {
                proof {
                    lemma_find_tool_at(self.spec_tools(), id@, i as int);
                }
                return Some(&self.tools_config.tools[i]);
            }
            i += 1;
        }
        proof {
            lemma_find_tool_none(self.spec_tools(), id@);
        }
        None
    }

    /// Replace the first tool with the given identifier; a registry without
    /// one is left unchanged.
    pub fn update_tool_config(&mut self, id: &str, config: ToolConfig)
        ensures
            match find_tool_index(old(self).spec_tools(), id@, 0) {
                Some(i) => final(self).spec_tools() == old(self).spec_tools().update(i, config),
                None => final(self).spec_tools() == old(self).spec_tools(),
            },
            final(self).spec_behavior() == old(self).spec_behavior(),
            final(self).spec_paths() == old(self).spec_paths(),
            final(self).spec_tools_config().version == old(self).spec_tools_config().version,
    {
        let n = self.tools_config.tools.len();
        let mut i: usize = 0;
        while i < n
            invariant
                i <= n,
                n == self.spec_tools().len(),
                self.tools_config == old(self).spec_tools_config(),
                self.behavior == old(self).spec_behavior(),
                self.paths == old(self).spec_paths(),
                forall|j: int| 0 <= j < i ==> (#[trigger] self.spec_tools()[j]).id@ != id@,
                find_tool_index(old(self).spec_tools(), id@, 0)
                    == find_tool_index(old(self).spec_tools(), id@, i as int),
            decreases n - i,
        {
            if str_eq(self.tools_config.tools[i].id.as_str(), id) {
                self.tools_config.tools[i] = config;
                return;
            }
            i += 1;
        }
    }

    /// Append a tool to the registry. The caller keeps identifiers unique;
    /// this mirrors the registry's stated invariant, which the front ends
    /// enforce at the editing boundary.
    pub fn add_tool(&mut self, tool: ToolConfig)
        ensures
            final(self).spec_tools() == old(self).spec_tools().push(tool),
            final(self).spec_behavior() == old(self).spec_behavior(),
            final(self).spec_paths() == old(self).spec_paths(),
            final(self).spec_tools_config().version == old(self).spec_tools_config().version,
    {
        self.tools_config.tools.push(tool);
    }

    /// Remove every tool with the given identifier.
    pub fn remove_tool(&mut self, id: &str)
        ensures
            final(self).spec_tools()
                == old(self).spec_tools().filter(|t: ToolConfig| t.id@ != id@),
            final(self).spec_behavior() == old(self).spec_behavior(),
            final(self).spec_paths() == old(self).spec_paths(),
            final(self).spec_tools_config().version == old(self).spec_tools_config().version,
    {
        let ghost pre = self.tools_config.tools@;
        let mut out: Vec<ToolConfig> = Vec::new();
        let ghost mut done: int = 0;
        while self.tools_config.tools.len() > 0
            invariant
                0 <= done <= pre.len(),
                self.tools_config.tools@ == pre.subrange(done, pre.len() as int),
                self.behavior == old(self).spec_behavior(),
                self.paths == old(self).spec_paths(),
                self.tools_config.version == old(self).spec_tools_config().version,
                out@ == pre.subrange(0, done).filter(|t: ToolConfig| t.id@ != id@),
            decreases pre.len() - done,
        {
            let t = self.tools_config.tools.remove(0);
            proof {
                assert(t == pre[done]);
                assert(self.tools_config.tools@ =~= pre.subrange(done + 1, pre.len() as int));
                reveal(Seq::filter);
                let prefix = pre.subrange(0, done);
                assert(pre.subrange(0, done + 1).drop_last() =~= prefix);
                assert(pre.subrange(0, done + 1).last() == pre[done]);
            }
            let keep = !str_eq(t.id.as_str(), id);
            if keep {
                out.push(t);
            }
            proof {
                done = done + 1;
            }
        }
        proof {
            assert(pre.subrange(0, pre.len() as int) =~= pre);
        }
        self.tools_config.tools = out;
    }
}

} // verus!
