//! Prompt preset configuration: agents, modules, entries, and their views.
use vstd::prelude::*;

use crate::text::{concat_text, str_chars};

verus! {

/// The agents whose prompts a preset configures.
#[derive(Debug, Clone, Copy, PartialEq, Eq, Structural, Hash)]
pub enum PromptAgentKind {
    Planner,
    Architect,
    Director,
    Actor,
    Narrator,
    Keeper,
    Replyer,
}

/// The three prompt shapes of the architect agent.
#[derive(Debug, Clone, Copy, PartialEq, Eq, Structural, Hash)]
pub enum ArchitectPromptMode {
    Graph,
    DraftInit,
    DraftContinue,
}

/// Which message of a preview is shown.
#[derive(Debug, Clone, Copy, PartialEq, Eq, Structural)]
pub enum PromptPreviewMessageRole {
    System,
    User,
    Full,
}

/// Whether a previewed entry comes from the preset or was injected.
#[derive(Debug, Clone, Copy, PartialEq, Eq, Structural)]
pub enum PromptPreviewEntrySource {
    Preset,
    Synthetic,
}

/// Actor purpose chosen for a runtime preview.
#[derive(Debug, Clone, Copy, PartialEq, Eq, Structural, Hash)]
pub enum PromptPreviewActorPurpose {
    AdvanceGoal,
    ReactToPlayer,
    CommentOnScene,
}

/// Narrator purpose chosen for a runtime preview.
#[derive(Debug, Clone, Copy, PartialEq, Eq, Structural, Hash)]
pub enum PromptPreviewNarratorPurpose {
    DescribeTransition,
    DescribeScene,
    DescribeResult,
}

/// Keeper phase chosen for a runtime preview.
#[derive(Debug, Clone, Copy, PartialEq, Eq, Structural, Hash)]
pub enum PromptPreviewKeeperPhase {
    AfterPlayerInput,
    AfterTurnOutputs,
}

/// Options of a runtime prompt preview.
#[derive(Debug, Default)]
pub struct RuntimePromptPreviewOptions {
    pub character_id: Option<String>,
    pub actor_purpose: Option<PromptPreviewActorPurpose>,
    pub narrator_purpose: Option<PromptPreviewNarratorPurpose>,
    pub keeper_phase: Option<PromptPreviewKeeperPhase>,
    pub previous_node_id: Option<String>,
    pub player_input: Option<String>,
    pub reply_limit: Option<usize>,
}

/// How a preset entry produces text.
#[derive(Debug, Clone, Copy, PartialEq, Eq, Structural, Hash)]
pub enum PromptEntryKind {
    BuiltInText,
    BuiltInContextRef,
    CustomText,
}

/// The chat role a prompt module is sent as.
#[derive(Debug, Clone, Copy, PartialEq, Eq, Structural, Hash)]
pub enum PromptMessageRole {
    System,
    User,
}

/// Identifier of a prompt module: one of the built-in modules or a custom name.
#[derive(Debug)]
pub enum PromptModuleId {
    Role,
    Task,
    StaticContext,
    DynamicContext,
    Output,
    Custom(String),
}

/// The value of a module identifier.
pub enum ModuleKey {
    Role,
    Task,
    StaticContext,
    DynamicContext,
    Output,
    Custom(Seq<char>),
}

impl View for PromptModuleId {
    type V = ModuleKey;

    open spec fn view(&self) -> ModuleKey {
        match self {
            PromptModuleId::Role => ModuleKey::Role,
            PromptModuleId::Task => ModuleKey::Task,
            PromptModuleId::StaticContext => ModuleKey::StaticContext,
            PromptModuleId::DynamicContext => ModuleKey::DynamicContext,
            PromptModuleId::Output => ModuleKey::Output,
            PromptModuleId::Custom(s) => ModuleKey::Custom(s@),
        }
    }
}

/// The textual name of a module identifier.
pub open spec fn module_key_str(k: ModuleKey) -> Seq<char> {
    match k {
        ModuleKey::Role => "role"@,
        ModuleKey::Task => "task"@,
        ModuleKey::StaticContext => "static_context"@,
        ModuleKey::DynamicContext => "dynamic_context"@,
        ModuleKey::Output => "output"@,
        ModuleKey::Custom(s) => s,
    }
}

/// The identifier a raw module name stands for: a built-in module when the name
/// is one of theirs, a custom module otherwise.
pub open spec fn module_key_from_raw(s: Seq<char>) -> ModuleKey {
    if s == "role"@ {
        ModuleKey::Role
    } else if s == "task"@ {
        ModuleKey::Task
    } else if s == "static_context"@ {
        ModuleKey::StaticContext
    } else if s == "dynamic_context"@ {
        ModuleKey::DynamicContext
    } else if s == "output"@ {
        ModuleKey::Output
    } else {
        ModuleKey::Custom(s)
    }
}

/// Whether a module identifier names one of the built-in modules.
pub open spec fn is_builtin_key(k: ModuleKey) -> bool {
    !(k is Custom)
}

impl PromptModuleId {
    /// The module's textual name.
    pub fn as_str(&self) -> (s: &str)
        ensures
            s@ == module_key_str(self@),
    {
        match self {
            PromptModuleId::Role => "role",
            PromptModuleId::Task => "task",
            PromptModuleId::StaticContext => "static_context",
            PromptModuleId::DynamicContext => "dynamic_context",
            PromptModuleId::Output => "output",
            PromptModuleId::Custom(s) => s.as_str(),
        }
    }

    /// The identifier for a raw module name.
    pub fn from_raw(raw: String) -> (id: PromptModuleId)
        ensures
            id@ == module_key_from_raw(raw@),
    {
        if str_eq(raw.as_str(), "role") {
            PromptModuleId::Role
        } else if str_eq(raw.as_str(), "task") {
            PromptModuleId::Task
        } else if str_eq(raw.as_str(), "static_context") {
            PromptModuleId::StaticContext
        } else if str_eq(raw.as_str(), "dynamic_context") {
            PromptModuleId::DynamicContext
        } else if str_eq(raw.as_str(), "output") {
            PromptModuleId::Output
        } else {
            PromptModuleId::Custom(raw)
        }
    }

    /// A copy of the identifier.
    pub fn duplicate(&self) -> (r: PromptModuleId)
        ensures
            r@ == self@,
    {
        match self {
            PromptModuleId::Role => PromptModuleId::Role,
            PromptModuleId::Task => PromptModuleId::Task,
            PromptModuleId::StaticContext => PromptModuleId::StaticContext,
            PromptModuleId::DynamicContext => PromptModuleId::DynamicContext,
            PromptModuleId::Output => PromptModuleId::Output,
            PromptModuleId::Custom(s) => PromptModuleId::Custom(s.clone()),
        }
    }

    /// Whether two identifiers are the same.
    pub fn same(&self, other: &PromptModuleId) -> (b: bool)
        ensures
            b == (self@ == other@),
    {
        match (self, other) {
            (PromptModuleId::Role, PromptModuleId::Role) => true,
            (PromptModuleId::Task, PromptModuleId::Task) => true,
            (PromptModuleId::StaticContext, PromptModuleId::StaticContext) => true,
            (PromptModuleId::DynamicContext, PromptModuleId::DynamicContext) => true,
            (PromptModuleId::Output, PromptModuleId::Output) => true,
            (PromptModuleId::Custom(a), PromptModuleId::Custom(b)) => str_eq(a.as_str(), b.as_str()),
            _ => false,
        }
    }
}

/// Compares two strings character by character.
pub fn str_eq(a: &str, b: &str) -> (r: bool)
    ensures
        r == (a@ == b@),
{
    let x = str_chars(a);
    let y = str_chars(b);
    if x.len() != y.len() {
        return false;
    }
    let mut i: usize = 0;
    while i < x.len()
        invariant
            x@ == a@,
            y@ == b@,
            x@.len() == y@.len(),
            i <= x@.len(),
            forall|k: int| 0 <= k < i ==> x@[k] == y@[k],
        decreases x.len() - i,
    {
        if x[i] != y[i] {
            return false;
        }
        i = i + 1;
    }
    assert(x@ =~= y@);
    true
}

/// Copies an optional string.
pub fn clone_opt_string(s: &Option<String>) -> (r: Option<String>)
    ensures
        opt_view(r) == opt_view(*s),
{
    match s {
        Some(v) => Some(v.clone()),
        None => None,
    }
}

/// The view of an optional string.
pub open spec fn opt_view(s: Option<String>) -> Option<Seq<char>> {
    match s {
        Some(v) => Some(v@),
        None => None,
    }
}

/// One entry of a prompt module.
#[derive(Debug)]
pub struct AgentPromptModuleEntryConfig {
    pub entry_id: String,
    pub display_name: String,
    pub kind: PromptEntryKind,
    pub enabled: bool,
    pub order: i32,
    pub required: bool,
    pub text: Option<String>,
    pub context_key: Option<String>,
}

/// The value of a prompt module entry.
pub struct EntryView {
    pub entry_id: Seq<char>,
    pub display_name: Seq<char>,
    pub kind: PromptEntryKind,
    pub enabled: bool,
    pub order: i32,
    pub required: bool,
    pub text: Option<Seq<char>>,
    pub context_key: Option<Seq<char>>,
}

impl View for AgentPromptModuleEntryConfig {
    type V = EntryView;

    open spec fn view(&self) -> EntryView {
        EntryView {
            entry_id: self.entry_id@,
            display_name: self.display_name@,
            kind: self.kind,
            enabled: self.enabled,
            order: self.order,
            required: self.required,
            text: opt_view(self.text),
            context_key: opt_view(self.context_key),
        }
    }
}

impl AgentPromptModuleEntryConfig {
    /// A copy of the entry.
    pub fn duplicate(&self) -> (r: AgentPromptModuleEntryConfig)
        ensures
            r@ == self@,
    {
        AgentPromptModuleEntryConfig {
            entry_id: self.entry_id.clone(),
            display_name: self.display_name.clone(),
            kind: self.kind,
            enabled: self.enabled,
            order: self.order,
            required: self.required,
            text: clone_opt_string(&self.text),
            context_key: clone_opt_string(&self.context_key),
        }
    }
}

/// One module of a preset: metadata and its entries.
#[derive(Debug)]
pub struct AgentPromptModuleConfig {
    pub module_id: PromptModuleId,
    pub display_name: String,
    pub message_role: PromptMessageRole,
    pub order: i32,
    pub entries: Vec<AgentPromptModuleEntryConfig>,
}

/// The value of a prompt module.
pub struct ModuleView {
    pub module_id: ModuleKey,
    pub display_name: Seq<char>,
    pub message_role: PromptMessageRole,
    pub order: i32,
    pub entries: Seq<EntryView>,
}

/// The views of a sequence of entries.
pub open spec fn entry_views(es: Seq<AgentPromptModuleEntryConfig>) -> Seq<EntryView> {
    es.map_values(|e: AgentPromptModuleEntryConfig| e@)
}

impl View for AgentPromptModuleConfig {
    type V = ModuleView;

    open spec fn view(&self) -> ModuleView {
        ModuleView {
            module_id: self.module_id@,
            display_name: self.display_name@,
            message_role: self.message_role,
            order: self.order,
            entries: entry_views(self.entries@),
        }
    }
}

/// Copies a list of entries.
pub fn clone_entries(es: &Vec<AgentPromptModuleEntryConfig>) -> (r: Vec<AgentPromptModuleEntryConfig>)
    ensures
        entry_views(r@) == entry_views(es@),
{
    let mut out: Vec<AgentPromptModuleEntryConfig> = Vec::new();
    let mut i: usize = 0;
    while i < es.len()
        invariant
            i <= es@.len(),
            entry_views(out@) =~= entry_views(es@.subrange(0, i as int)),
        decreases es.len() - i,
    {
        let ghost old_out = out@;
        out.push(es[i].duplicate());
        proof {
            assert(entry_views(es@.subrange(0, i + 1)) =~= entry_views(es@.subrange(0, i as int)).push(
                es@[i as int].view(),
            ));
            assert(entry_views(out@) =~= entry_views(old_out).push(es@[i as int].view())) by {
                assert(out@ =~= old_out.push(out@[i as int]));
            }
        }
        i = i + 1;
    }
    assert(es@.subrange(0, es@.len() as int) =~= es@);
    out
}

impl AgentPromptModuleConfig {
    /// A copy of the module.
    pub fn duplicate(&self) -> (r: AgentPromptModuleConfig)
        ensures
            r@ == self@,
    {
        AgentPromptModuleConfig {
            module_id: self.module_id.duplicate(),
            display_name: self.display_name.clone(),
            message_role: self.message_role,
            order: self.order,
            entries: clone_entries(&self.entries),
        }
    }
}

/// A preset's configuration of one agent.
///
/// `temperature_bits` holds the bit pattern of the sampling temperature
/// (`f32::to_bits`), and `extra_json` holds extra model options as JSON text;
/// neither is interpreted here.
#[derive(Debug)]
pub struct AgentPresetConfig {
    pub temperature_bits: Option<u32>,
    pub max_tokens: Option<u32>,
    pub director_shared_history_limit: Option<usize>,
    pub actor_shared_history_limit: Option<usize>,
    pub actor_private_memory_limit: Option<usize>,
    pub narrator_shared_history_limit: Option<usize>,
    pub replyer_session_history_limit: Option<usize>,
    pub extra_json: Option<String>,
    pub modules: Vec<AgentPromptModuleConfig>,
}

/// The value of an agent preset configuration.
pub struct PresetView {
    pub temperature_bits: Option<u32>,
    pub max_tokens: Option<u32>,
    pub director_shared_history_limit: Option<usize>,
    pub actor_shared_history_limit: Option<usize>,
    pub actor_private_memory_limit: Option<usize>,
    pub narrator_shared_history_limit: Option<usize>,
    pub replyer_session_history_limit: Option<usize>,
    pub extra_json: Option<Seq<char>>,
    pub modules: Seq<ModuleView>,
}

/// The views of a sequence of modules.
pub open spec fn module_views(ms: Seq<AgentPromptModuleConfig>) -> Seq<ModuleView> {
    ms.map_values(|m: AgentPromptModuleConfig| m@)
}

impl View for AgentPresetConfig {
    type V = PresetView;

    open spec fn view(&self) -> PresetView {
        PresetView {
            temperature_bits: self.temperature_bits,
            max_tokens: self.max_tokens,
            director_shared_history_limit: self.director_shared_history_limit,
            actor_shared_history_limit: self.actor_shared_history_limit,
            actor_private_memory_limit: self.actor_private_memory_limit,
            narrator_shared_history_limit: self.narrator_shared_history_limit,
            replyer_session_history_limit: self.replyer_session_history_limit,
            extra_json: opt_view(self.extra_json),
            modules: module_views(self.modules@),
        }
    }
}

/// Copies a list of modules.
pub fn clone_modules(ms: &Vec<AgentPromptModuleConfig>) -> (r: Vec<AgentPromptModuleConfig>)
    ensures
        module_views(r@) == module_views(ms@),
{
    let mut out: Vec<AgentPromptModuleConfig> = Vec::new();
    let mut i: usize = 0;
    while i < ms.len()
        invariant
            i <= ms@.len(),
            module_views(out@) =~= module_views(ms@.subrange(0, i as int)),
        decreases ms.len() - i,
    {
        let ghost old_out = out@;
        out.push(ms[i].duplicate());
        proof {
            assert(module_views(ms@.subrange(0, i + 1)) =~= module_views(ms@.subrange(0, i as int)).push(
                ms@[i as int].view(),
            ));
            assert(module_views(out@) =~= module_views(old_out).push(ms@[i as int].view())) by {
                assert(out@ =~= old_out.push(out@[i as int]));
            }
        }
        i = i + 1;
    }
    assert(ms@.subrange(0, ms@.len() as int) =~= ms@);
    out
}

impl AgentPresetConfig {
    /// A copy of the configuration.
    pub fn duplicate(&self) -> (r: AgentPresetConfig)
        ensures
            r@ == self@,
    {
        AgentPresetConfig {
            temperature_bits: self.temperature_bits,
            max_tokens: self.max_tokens,
            director_shared_history_limit: self.director_shared_history_limit,
            actor_shared_history_limit: self.actor_shared_history_limit,
            actor_private_memory_limit: self.actor_private_memory_limit,
            narrator_shared_history_limit: self.narrator_shared_history_limit,
            replyer_session_history_limit: self.replyer_session_history_limit,
            extra_json: clone_opt_string(&self.extra_json),
            modules: clone_modules(&self.modules),
        }
    }
}

/// Why a preset configuration was refused.
#[derive(Debug)]
pub enum PromptConfigError {
    UnknownBuiltInEntry { agent: PromptAgentKind, module_id: PromptModuleId, entry_id: String },
    DuplicateEntryId { agent: PromptAgentKind, module_id: PromptModuleId, entry_id: String },
    DuplicateModuleId { agent: PromptAgentKind, module_id: PromptModuleId },
    EmptyModuleId,
    EmptyEntryId,
    EmptyCustomEntryText(String),
}

/// The value of a configuration error.
pub enum ConfigErrorView {
    UnknownBuiltInEntry { agent: PromptAgentKind, module_id: ModuleKey, entry_id: Seq<char> },
    DuplicateEntryId { agent: PromptAgentKind, module_id: ModuleKey, entry_id: Seq<char> },
    DuplicateModuleId { agent: PromptAgentKind, module_id: ModuleKey },
    EmptyModuleId,
    EmptyEntryId,
    EmptyCustomEntryText(Seq<char>),
}

impl View for PromptConfigError {
    type V = ConfigErrorView;

    open spec fn view(&self) -> ConfigErrorView {
        match self {
            PromptConfigError::UnknownBuiltInEntry { agent, module_id, entry_id } =>
                ConfigErrorView::UnknownBuiltInEntry {
                agent: *agent,
                module_id: module_id@,
                entry_id: entry_id@,
            },
            PromptConfigError::DuplicateEntryId { agent, module_id, entry_id } =>
                ConfigErrorView::DuplicateEntryId {
                agent: *agent,
                module_id: module_id@,
                entry_id: entry_id@,
            },
            PromptConfigError::DuplicateModuleId { agent, module_id } =>
                ConfigErrorView::DuplicateModuleId { agent: *agent, module_id: module_id@ },
            PromptConfigError::EmptyModuleId => ConfigErrorView::EmptyModuleId,
            PromptConfigError::EmptyEntryId => ConfigErrorView::EmptyEntryId,
            PromptConfigError::EmptyCustomEntryText(s) => ConfigErrorView::EmptyCustomEntryText(s@),
        }
    }
}

/// The readable text of a configuration error.
pub open spec fn config_error_text(e: ConfigErrorView) -> Seq<char> {
    match e {
        ConfigErrorView::UnknownBuiltInEntry { entry_id, module_id, .. } => "unknown built-in preset entry '"@
            + entry_id + "' in module '"@ + module_key_str(module_id) + "'"@,
        ConfigErrorView::DuplicateEntryId { entry_id, module_id, .. } => "duplicate preset entry '"@
            + entry_id + "' in module '"@ + module_key_str(module_id) + "'"@,
        ConfigErrorView::DuplicateModuleId { module_id, .. } => "duplicate preset module '"@
            + module_key_str(module_id) + "'"@,
        ConfigErrorView::EmptyModuleId => "preset module_id must not be empty"@,
        ConfigErrorView::EmptyEntryId => "preset entry_id must not be empty"@,
        ConfigErrorView::EmptyCustomEntryText(id) => "custom preset entry '"@ + id + "' must contain text"@,
    }
}

impl PromptConfigError {
    /// The error's message.
    pub fn message(&self) -> (s: String)
        ensures
            s@ == config_error_text(self@),
    {
        match self {
            PromptConfigError::UnknownBuiltInEntry { entry_id, module_id, .. } => {
                let a = concat_text("unknown built-in preset entry '", entry_id.as_str());
                let b = concat_text(a.as_str(), "' in module '");
                let c = concat_text(b.as_str(), module_id.as_str());
                concat_text(c.as_str(), "'")
            },
            PromptConfigError::DuplicateEntryId { entry_id, module_id, .. } => {
                let a = concat_text("duplicate preset entry '", entry_id.as_str());
                let b = concat_text(a.as_str(), "' in module '");
                let c = concat_text(b.as_str(), module_id.as_str());
                concat_text(c.as_str(), "'")
            },
            PromptConfigError::DuplicateModuleId { module_id, .. } => {
                let a = concat_text("duplicate preset module '", module_id.as_str());
                concat_text(a.as_str(), "'")
            },
            PromptConfigError::EmptyModuleId => String::from_str("preset module_id must not be empty"),
            PromptConfigError::EmptyEntryId => String::from_str("preset entry_id must not be empty"),
            PromptConfigError::EmptyCustomEntryText(id) => {
                let a = concat_text("custom preset entry '", id.as_str());
                concat_text(a.as_str(), "' must contain text")
            },
        }
    }
}

} // verus!
