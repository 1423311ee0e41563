//! Compilation of a normalized preset into the prompt profile an agent runs
//! with: enabled entries become text or context references, synthetic entries
//! are added to some modules, and static system modules are rendered to text.
use vstd::prelude::*;

use crate::prompt::defaults::{fallback_display_name, fallback_name};
use crate::prompt::normalize::{merged, normalize_agent_preset_config, normalized_result, NormState};
use crate::prompt::templates::{
    ARCHITECT_DRAFT_CONTINUE_OUTPUT_CONTRACT, ARCHITECT_DRAFT_INIT_OUTPUT_CONTRACT,
    ARCHITECT_GRAPH_OUTPUT_CONTRACT,
};
use crate::prompt::types::{
    entry_views, module_key_str, module_views, str_eq, AgentPresetConfig, AgentPromptModuleConfig,
    AgentPromptModuleEntryConfig, ArchitectPromptMode, ConfigErrorView, EntryView, ModuleKey,
    ModuleView, PresetView, PromptAgentKind, PromptConfigError, PromptEntryKind,
    PromptMessageRole, PromptModuleId,
};
use crate::text::{
    join_strings, joined, push_str, str_chars, string_of_chars, string_seq_views, trim_seq,
    trim_text, text_is_blank, is_blank,
};

verus! {

/// The views of static strings.
pub open spec fn str_views(v: Seq<&'static str>) -> Seq<Seq<char>> {
    v.map_values(|s: &'static str| s@)
}

/// The context keys the prompt may refer to (planner).
pub open spec fn planner_allowed_context_keys() -> Seq<Seq<char>> {
    seq!["story_concept"@, "lorebook_base"@, "available_characters"@, "lorebook_matched"@]
}

fn planner_allowed_context_keys_list() -> (v: Vec<&'static str>)
    ensures
        str_views(v@) == planner_allowed_context_keys(),
{
    let mut v: Vec<&'static str> = Vec::new();
    v.push("story_concept");
    v.push("lorebook_base");
    v.push("available_characters");
    v.push("lorebook_matched");
    assert(str_views(v@) =~= planner_allowed_context_keys());
    v
}

/// The context keys the prompt may refer to (director).
pub open spec fn director_allowed_context_keys() -> Seq<Seq<char>> {
    seq!["lorebook_base"@, "player"@, "current_cast"@, "current_node"@, "player_state_schema"@, "transitioned_this_turn"@, "lorebook_matched"@, "world_state"@, "shared_history"@]
}

fn director_allowed_context_keys_list() -> (v: Vec<&'static str>)
    ensures
        str_views(v@) == director_allowed_context_keys(),
{
    let mut v: Vec<&'static str> = Vec::new();
    v.push("lorebook_base");
    v.push("player");
    v.push("current_cast");
    v.push("current_node");
    v.push("player_state_schema");
    v.push("transitioned_this_turn");
    v.push("lorebook_matched");
    v.push("world_state");
    v.push("shared_history");
    assert(str_views(v@) =~= director_allowed_context_keys());
    v
}

/// The context keys the prompt may refer to (actor).
pub open spec fn actor_allowed_context_keys() -> Seq<Seq<char>> {
    seq!["lorebook_base"@, "player"@, "current_cast"@, "current_node"@, "lorebook_matched"@, "world_state"@, "shared_history"@, "private_memory"@, "actor_purpose"@]
}

fn actor_allowed_context_keys_list() -> (v: Vec<&'static str>)
    ensures
        str_views(v@) == actor_allowed_context_keys(),
{
    let mut v: Vec<&'static str> = Vec::new();
    v.push("lorebook_base");
    v.push("player");
    v.push("current_cast");
    v.push("current_node");
    v.push("lorebook_matched");
    v.push("world_state");
    v.push("shared_history");
    v.push("private_memory");
    v.push("actor_purpose");
    assert(str_views(v@) =~= actor_allowed_context_keys());
    v
}

/// The context keys the prompt may refer to (narrator).
pub open spec fn narrator_allowed_context_keys() -> Seq<Seq<char>> {
    seq!["lorebook_base"@, "player"@, "previous_node"@, "current_node"@, "previous_cast"@, "current_cast"@, "player_state_schema"@, "narrator_purpose"@, "lorebook_matched"@, "world_state"@, "shared_history"@]
}

fn narrator_allowed_context_keys_list() -> (v: Vec<&'static str>)
    ensures
        str_views(v@) == narrator_allowed_context_keys(),
{
    let mut v: Vec<&'static str> = Vec::new();
    v.push("lorebook_base");
    v.push("player");
    v.push("previous_node");
    v.push("current_node");
    v.push("previous_cast");
    v.push("current_cast");
    v.push("player_state_schema");
    v.push("narrator_purpose");
    v.push("lorebook_matched");
    v.push("world_state");
    v.push("shared_history");
    assert(str_views(v@) =~= narrator_allowed_context_keys());
    v
}

/// The context keys the prompt may refer to (keeper).
pub open spec fn keeper_allowed_context_keys() -> Seq<Seq<char>> {
    seq!["lorebook_base"@, "player"@, "previous_node"@, "current_node"@, "previous_cast"@, "current_cast"@, "player_state_schema"@, "keeper_phase"@, "node_change"@, "progression_hints"@, "lorebook_matched"@, "world_state"@, "player_input"@, "completed_beats"@]
}

fn keeper_allowed_context_keys_list() -> (v: Vec<&'static str>)
    ensures
        str_views(v@) == keeper_allowed_context_keys(),
{
    let mut v: Vec<&'static str> = Vec::new();
    v.push("lorebook_base");
    v.push("player");
    v.push("previous_node");
    v.push("current_node");
    v.push("previous_cast");
    v.push("current_cast");
    v.push("player_state_schema");
    v.push("keeper_phase");
    v.push("node_change");
    v.push("progression_hints");
    v.push("lorebook_matched");
    v.push("world_state");
    v.push("player_input");
    v.push("completed_beats");
    assert(str_views(v@) =~= keeper_allowed_context_keys());
    v
}

/// The context keys the prompt may refer to (replyer).
pub open spec fn replyer_allowed_context_keys() -> Seq<Seq<char>> {
    seq!["lorebook_base"@, "player"@, "reply_limit"@, "current_cast"@, "current_node"@, "player_state_schema"@, "world_state"@, "session_history"@, "lorebook_matched"@]
}

fn replyer_allowed_context_keys_list() -> (v: Vec<&'static str>)
    ensures
        str_views(v@) == replyer_allowed_context_keys(),
{
    let mut v: Vec<&'static str> = Vec::new();
    v.push("lorebook_base");
    v.push("player");
    v.push("reply_limit");
    v.push("current_cast");
    v.push("current_node");
    v.push("player_state_schema");
    v.push("world_state");
    v.push("session_history");
    v.push("lorebook_matched");
    assert(str_views(v@) =~= replyer_allowed_context_keys());
    v
}

/// The context keys the prompt may refer to (architect graph).
pub open spec fn architect_graph_allowed_context_keys() -> Seq<Seq<char>> {
    seq!["story_concept"@, "lorebook_base"@, "planned_story"@, "available_characters"@, "world_state_schema_seed"@, "player_state_schema_seed"@, "lorebook_matched"@]
}

fn architect_graph_allowed_context_keys_list() -> (v: Vec<&'static str>)
    ensures
        str_views(v@) == architect_graph_allowed_context_keys(),
{
    let mut v: Vec<&'static str> = Vec::new();
    v.push("story_concept");
    v.push("lorebook_base");
    v.push("planned_story");
    v.push("available_characters");
    v.push("world_state_schema_seed");
    v.push("player_state_schema_seed");
    v.push("lorebook_matched");
    assert(str_views(v@) =~= architect_graph_allowed_context_keys());
    v
}

/// The context keys the prompt may refer to (architect draft init).
pub open spec fn architect_draft_init_allowed_context_keys() -> Seq<Seq<char>> {
    seq!["story_concept"@, "lorebook_base"@, "planned_story"@, "available_characters"@, "world_state_schema_seed"@, "player_state_schema_seed"@, "current_section"@, "section_index"@, "total_sections"@, "target_node_count"@, "graph_summary"@, "recent_section_detail"@, "lorebook_matched"@]
}

fn architect_draft_init_allowed_context_keys_list() -> (v: Vec<&'static str>)
    ensures
        str_views(v@) == architect_draft_init_allowed_context_keys(),
{
    let mut v: Vec<&'static str> = Vec::new();
    v.push("story_concept");
    v.push("lorebook_base");
    v.push("planned_story");
    v.push("available_characters");
    v.push("world_state_schema_seed");
    v.push("player_state_schema_seed");
    v.push("current_section");
    v.push("section_index");
    v.push("total_sections");
    v.push("target_node_count");
    v.push("graph_summary");
    v.push("recent_section_detail");
    v.push("lorebook_matched");
    assert(str_views(v@) =~= architect_draft_init_allowed_context_keys());
    v
}

/// The context keys the prompt may refer to (architect draft continue).
pub open spec fn architect_draft_continue_allowed_context_keys() -> Seq<Seq<char>> {
    seq!["story_concept"@, "lorebook_base"@, "available_characters"@, "world_state_schema"@, "player_state_schema"@, "section_summaries"@, "current_section"@, "section_index"@, "total_sections"@, "target_node_count"@, "graph_summary"@, "recent_section_detail"@, "lorebook_matched"@]
}

fn architect_draft_continue_allowed_context_keys_list() -> (v: Vec<&'static str>)
    ensures
        str_views(v@) == architect_draft_continue_allowed_context_keys(),
{
    let mut v: Vec<&'static str> = Vec::new();
    v.push("story_concept");
    v.push("lorebook_base");
    v.push("available_characters");
    v.push("world_state_schema");
    v.push("player_state_schema");
    v.push("section_summaries");
    v.push("current_section");
    v.push("section_index");
    v.push("total_sections");
    v.push("target_node_count");
    v.push("graph_summary");
    v.push("recent_section_detail");
    v.push("lorebook_matched");
    assert(str_views(v@) =~= architect_draft_continue_allowed_context_keys());
    v
}

/// An entry that compilation adds to a module.
#[derive(Clone, Copy)]
pub struct SyntheticEntryTemplate {
    pub entry_id: &'static str,
    pub display_name: &'static str,
    pub text: &'static str,
}

/// The value of a synthetic entry.
pub struct SyntheticView {
    pub entry_id: Seq<char>,
    pub display_name: Seq<char>,
    pub text: Seq<char>,
}

impl View for SyntheticEntryTemplate {
    type V = SyntheticView;

    open spec fn view(&self) -> SyntheticView {
        SyntheticView { entry_id: self.entry_id@, display_name: self.display_name@, text: self.text@ }
    }
}

/// The views of synthetic entries.
pub open spec fn synthetic_views(v: Seq<SyntheticEntryTemplate>) -> Seq<SyntheticView> {
    v.map_values(|t: SyntheticEntryTemplate| t@)
}

/// The text of the architect's draft-init task entry.
pub const ARCHITECT_DRAFT_INIT_TASK: &'static str = "Generate only the first draft chunk for the current outline section.";

/// The text of the architect's draft-continue task entry.
pub const ARCHITECT_DRAFT_CONTINUE_TASK: &'static str = "Continue the draft for the current section without resetting earlier results.";

/// What compiling a profile adds and allows: synthetic entries for the role,
/// task and output modules, and the context keys entries may refer to.
pub struct ProfileCompilationSpec {
    pub extra_role_entries: Vec<SyntheticEntryTemplate>,
    pub extra_task_entries: Vec<SyntheticEntryTemplate>,
    pub extra_output_entries: Vec<SyntheticEntryTemplate>,
    pub allowed_context_keys: Vec<&'static str>,
}

/// The value of a compilation spec.
pub struct CompileSpecView {
    pub extra_role: Seq<SyntheticView>,
    pub extra_task: Seq<SyntheticView>,
    pub extra_output: Seq<SyntheticView>,
    pub allowed: Seq<Seq<char>>,
}

impl View for ProfileCompilationSpec {
    type V = CompileSpecView;

    open spec fn view(&self) -> CompileSpecView {
        CompileSpecView {
            extra_role: synthetic_views(self.extra_role_entries@),
            extra_task: synthetic_views(self.extra_task_entries@),
            extra_output: synthetic_views(self.extra_output_entries@),
            allowed: str_views(self.allowed_context_keys@),
        }
    }
}

/// A spec with no synthetic entries.
pub open spec fn plain_spec(allowed: Seq<Seq<char>>) -> CompileSpecView {
    CompileSpecView { extra_role: seq![], extra_task: seq![], extra_output: seq![], allowed }
}

/// The compilation spec of an architect prompt mode.
pub open spec fn architect_compile_spec(mode: ArchitectPromptMode) -> CompileSpecView {
    match mode {
        ArchitectPromptMode::Graph => CompileSpecView {
            extra_role: seq![],
            extra_task: seq![],
            extra_output: seq![SyntheticView {
                entry_id: "__injected_architect_graph_output_contract"@,
                display_name: "Architect Graph Output Contract"@,
                text: ARCHITECT_GRAPH_OUTPUT_CONTRACT@,
            }],
            allowed: architect_graph_allowed_context_keys(),
        },
        ArchitectPromptMode::DraftInit => CompileSpecView {
            extra_role: seq![],
            extra_task: seq![SyntheticView {
                entry_id: "__injected_architect_draft_init_task"@,
                display_name: "Architect Draft Init Task"@,
                text: ARCHITECT_DRAFT_INIT_TASK@,
            }],
            extra_output: seq![SyntheticView {
                entry_id: "__injected_architect_draft_init_output_contract"@,
                display_name: "Architect Draft Init Output Contract"@,
                text: ARCHITECT_DRAFT_INIT_OUTPUT_CONTRACT@,
            }],
            allowed: architect_draft_init_allowed_context_keys(),
        },
        ArchitectPromptMode::DraftContinue => CompileSpecView {
            extra_role: seq![],
            extra_task: seq![SyntheticView {
                entry_id: "__injected_architect_draft_continue_task"@,
                display_name: "Architect Draft Continue Task"@,
                text: ARCHITECT_DRAFT_CONTINUE_TASK@,
            }],
            extra_output: seq![SyntheticView {
                entry_id: "__injected_architect_draft_continue_output_contract"@,
                display_name: "Architect Draft Continue Output Contract"@,
                text: ARCHITECT_DRAFT_CONTINUE_OUTPUT_CONTRACT@,
            }],
            allowed: architect_draft_continue_allowed_context_keys(),
        },
    }
}

/// The compilation spec of an agent (the architect's is its graph mode).
pub open spec fn agent_compile_spec(agent: PromptAgentKind) -> CompileSpecView {
    match agent {
        PromptAgentKind::Planner => plain_spec(planner_allowed_context_keys()),
        PromptAgentKind::Director => plain_spec(director_allowed_context_keys()),
        PromptAgentKind::Actor => plain_spec(actor_allowed_context_keys()),
        PromptAgentKind::Narrator => plain_spec(narrator_allowed_context_keys()),
        PromptAgentKind::Keeper => plain_spec(keeper_allowed_context_keys()),
        PromptAgentKind::Replyer => plain_spec(replyer_allowed_context_keys()),
        PromptAgentKind::Architect => architect_compile_spec(ArchitectPromptMode::Graph),
    }
}

fn plain(allowed: Vec<&'static str>) -> (s: ProfileCompilationSpec)
    ensures
        s@ == plain_spec(str_views(allowed@)),
{
    let s = ProfileCompilationSpec {
        extra_role_entries: Vec::new(),
        extra_task_entries: Vec::new(),
        extra_output_entries: Vec::new(),
        allowed_context_keys: allowed,
    };
    assert(synthetic_views(s.extra_role_entries@) =~= Seq::<SyntheticView>::empty());
    assert(synthetic_views(s.extra_task_entries@) =~= Seq::<SyntheticView>::empty());
    assert(synthetic_views(s.extra_output_entries@) =~= Seq::<SyntheticView>::empty());
    s
}

fn one(t: SyntheticEntryTemplate) -> (v: Vec<SyntheticEntryTemplate>)
    ensures
        synthetic_views(v@) == seq![t@],
{
    let mut v: Vec<SyntheticEntryTemplate> = Vec::new();
    v.push(t);
    assert(synthetic_views(v@) =~= seq![t@]);
    v
}

/// The compilation spec of an architect prompt mode.
pub fn spec_for_architect_mode(mode: ArchitectPromptMode) -> (s: ProfileCompilationSpec)
    ensures
        s@ == architect_compile_spec(mode),
{
    let empty: Vec<SyntheticEntryTemplate> = Vec::new();
    assert(synthetic_views(empty@) =~= Seq::<SyntheticView>::empty());
    match mode {
        ArchitectPromptMode::Graph => ProfileCompilationSpec {
            extra_role_entries: Vec::new(),
            extra_task_entries: empty,
            extra_output_entries: one(
                SyntheticEntryTemplate {
                    entry_id: "__injected_architect_graph_output_contract",
                    display_name: "Architect Graph Output Contract",
                    text: ARCHITECT_GRAPH_OUTPUT_CONTRACT,
                },
            ),
            allowed_context_keys: architect_graph_allowed_context_keys_list(),
        },
        ArchitectPromptMode::DraftInit => ProfileCompilationSpec {
            extra_role_entries: empty,
            extra_task_entries: one(
                SyntheticEntryTemplate {
                    entry_id: "__injected_architect_draft_init_task",
                    display_name: "Architect Draft Init Task",
                    text: ARCHITECT_DRAFT_INIT_TASK,
                },
            ),
            extra_output_entries: one(
                SyntheticEntryTemplate {
                    entry_id: "__injected_architect_draft_init_output_contract",
                    display_name: "Architect Draft Init Output Contract",
                    text: ARCHITECT_DRAFT_INIT_OUTPUT_CONTRACT,
                },
            ),
            allowed_context_keys: architect_draft_init_allowed_context_keys_list(),
        },
        ArchitectPromptMode::DraftContinue => ProfileCompilationSpec {
            extra_role_entries: empty,
            extra_task_entries: one(
                SyntheticEntryTemplate {
                    entry_id: "__injected_architect_draft_continue_task",
                    display_name: "Architect Draft Continue Task",
                    text: ARCHITECT_DRAFT_CONTINUE_TASK,
                },
            ),
            extra_output_entries: one(
                SyntheticEntryTemplate {
                    entry_id: "__injected_architect_draft_continue_output_contract",
                    display_name: "Architect Draft Continue Output Contract",
                    text: ARCHITECT_DRAFT_CONTINUE_OUTPUT_CONTRACT,
                },
            ),
            allowed_context_keys: architect_draft_continue_allowed_context_keys_list(),
        },
    }
}

/// The compilation spec of an agent.
pub fn spec_for_agent(agent: PromptAgentKind) -> (s: ProfileCompilationSpec)
    ensures
        s@ == agent_compile_spec(agent),
{
    match agent {
        PromptAgentKind::Planner => plain(planner_allowed_context_keys_list()),
        PromptAgentKind::Director => plain(director_allowed_context_keys_list()),
        PromptAgentKind::Actor => plain(actor_allowed_context_keys_list()),
        PromptAgentKind::Narrator => plain(narrator_allowed_context_keys_list()),
        PromptAgentKind::Keeper => plain(keeper_allowed_context_keys_list()),
        PromptAgentKind::Replyer => plain(replyer_allowed_context_keys_list()),
        PromptAgentKind::Architect => spec_for_architect_mode(ArchitectPromptMode::Graph),
    }
}

/// One entry of a compiled prompt module.
#[derive(Debug)]
pub enum PromptModuleEntry {
    Text(String),
    ContextRef(String),
}

/// The value of a compiled entry.
pub enum CompiledEntryView {
    Text(Seq<char>),
    ContextRef(Seq<char>),
}

impl View for PromptModuleEntry {
    type V = CompiledEntryView;

    open spec fn view(&self) -> CompiledEntryView {
        match self {
            PromptModuleEntry::Text(s) => CompiledEntryView::Text(s@),
            PromptModuleEntry::ContextRef(s) => CompiledEntryView::ContextRef(s@),
        }
    }
}

/// A compiled prompt module: a title and its entries.
#[derive(Debug)]
pub struct PromptModule {
    pub title: String,
    pub entries: Vec<PromptModuleEntry>,
}

/// The value of a compiled module.
pub struct PromptModuleView {
    pub title: Seq<char>,
    pub entries: Seq<CompiledEntryView>,
}

/// The views of compiled entries.
pub open spec fn compiled_views(v: Seq<PromptModuleEntry>) -> Seq<CompiledEntryView> {
    v.map_values(|e: PromptModuleEntry| e@)
}

impl View for PromptModule {
    type V = PromptModuleView;

    open spec fn view(&self) -> PromptModuleView {
        PromptModuleView { title: self.title@, entries: compiled_views(self.entries@) }
    }
}

/// The views of compiled modules.
pub open spec fn prompt_module_views(v: Seq<PromptModule>) -> Seq<PromptModuleView> {
    v.map_values(|m: PromptModule| m@)
}

/// The prompt an agent runs with: a static system prompt, or system modules
/// when they refer to context, and the user modules.
#[derive(Debug)]
pub struct PromptProfile {
    pub system_prompt: String,
    pub system_modules: Vec<PromptModule>,
    pub user_modules: Vec<PromptModule>,
}

/// The value of a prompt profile.
pub struct ProfileView {
    pub system_prompt: Seq<char>,
    pub system_modules: Seq<PromptModuleView>,
    pub user_modules: Seq<PromptModuleView>,
}

impl View for PromptProfile {
    type V = ProfileView;

    open spec fn view(&self) -> ProfileView {
        ProfileView {
            system_prompt: self.system_prompt@,
            system_modules: prompt_module_views(self.system_modules@),
            user_modules: prompt_module_views(self.user_modules@),
        }
    }
}

/// The three prompt profiles of the architect and its repair prompt.
#[derive(Debug)]
pub struct ArchitectPromptProfiles {
    pub graph: PromptProfile,
    pub draft_init: PromptProfile,
    pub draft_continue: PromptProfile,
    pub repair_system_prompt: String,
}

/// What an enabled entry compiles to: its trimmed text when not blank, or its
/// context key when the profile allows it.
pub open spec fn compile_entry_spec(e: EntryView, allowed: Seq<Seq<char>>) -> Option<CompiledEntryView> {
    match e.kind {
        PromptEntryKind::BuiltInContextRef => match e.context_key {
            Some(k) => if allowed.contains(k) {
                Some(CompiledEntryView::ContextRef(k))
            } else {
                None
            },
            None => None,
        },
        _ => match e.text {
            Some(t) => if trim_seq(t).len() == 0 {
                None
            } else {
                Some(CompiledEntryView::Text(trim_seq(t)))
            },
            None => None,
        },
    }
}

/// The compiled enabled entries, in order.
pub open spec fn compiled_entries(es: Seq<EntryView>, allowed: Seq<Seq<char>>) -> Seq<CompiledEntryView>
    decreases es.len(),
{
    if es.len() == 0 {
        seq![]
    } else {
        let prev = compiled_entries(es.drop_last(), allowed);
        let e = es.last();
        if e.enabled {
            match compile_entry_spec(e, allowed) {
                Some(c) => prev.push(c),
                None => prev,
            }
        } else {
            prev
        }
    }
}

/// The synthetic entries with non-blank text, as trimmed text entries.
pub open spec fn extra_text_entries(extras: Seq<SyntheticView>) -> Seq<CompiledEntryView>
    decreases extras.len(),
{
    if extras.len() == 0 {
        seq![]
    } else {
        let prev = extra_text_entries(extras.drop_last());
        let t = trim_seq(extras.last().text);
        if t.len() == 0 {
            prev
        } else {
            prev.push(CompiledEntryView::Text(t))
        }
    }
}

/// The synthetic entries added to a module: role, task and output modules get
/// theirs, other modules none.
pub open spec fn extras_for(k: ModuleKey, spec: CompileSpecView) -> Seq<SyntheticView> {
    match k {
        ModuleKey::Role => spec.extra_role,
        ModuleKey::Task => spec.extra_task,
        ModuleKey::Output => spec.extra_output,
        _ => seq![],
    }
}

/// A compiled module, or nothing when it would have no entries.
pub open spec fn compile_module_spec(m: ModuleView, spec: CompileSpecView) -> Option<PromptModuleView> {
    let entries = compiled_entries(m.entries, spec.allowed) + extra_text_entries(
        extras_for(m.module_id, spec),
    );
    if entries.len() == 0 {
        None
    } else {
        Some(
            PromptModuleView {
                title: fallback_name(m.display_name, module_key_str(m.module_id)),
                entries,
            },
        )
    }
}

/// The compiled modules with the given role, in order.
pub open spec fn compiled_modules(ms: Seq<ModuleView>, spec: CompileSpecView, role: PromptMessageRole) -> Seq<PromptModuleView>
    decreases ms.len(),
{
    if ms.len() == 0 {
        seq![]
    } else {
        let prev = compiled_modules(ms.drop_last(), spec, role);
        if ms.last().message_role == role {
            match compile_module_spec(ms.last(), spec) {
                Some(c) => prev.push(c),
                None => prev,
            }
        } else {
            prev
        }
    }
}

/// Whether a compiled module refers to context.
pub open spec fn has_context_refs(m: PromptModuleView) -> bool {
    exists|i: int| 0 <= i < m.entries.len() && m.entries[i] is ContextRef
}

/// The texts of a compiled module's text entries, trimmed, without blanks.
pub open spec fn static_texts(es: Seq<CompiledEntryView>) -> Seq<Seq<char>>
    decreases es.len(),
{
    if es.len() == 0 {
        seq![]
    } else {
        let prev = static_texts(es.drop_last());
        match es.last() {
            CompiledEntryView::Text(t) => if trim_seq(t).len() == 0 {
                prev
            } else {
                prev.push(trim_seq(t))
            },
            CompiledEntryView::ContextRef(_) => prev,
        }
    }
}

/// A static module rendered as its title, a colon, and its texts separated by
/// blank lines; empty when it has no text.
pub open spec fn static_module_text(m: PromptModuleView) -> Seq<char> {
    let body = joined(static_texts(m.entries), "\n\n"@);
    if body.len() == 0 {
        seq![]
    } else {
        trim_seq(m.title) + ":\n"@ + body
    }
}

/// The non-empty static texts of modules.
pub open spec fn static_sections(ms: Seq<PromptModuleView>) -> Seq<Seq<char>>
    decreases ms.len(),
{
    if ms.len() == 0 {
        seq![]
    } else {
        let prev = static_sections(ms.drop_last());
        let t = static_module_text(ms.last());
        if t.len() == 0 {
            prev
        } else {
            prev.push(t)
        }
    }
}

/// The profile a normalized preset compiles to: when a system module refers to
/// context, the system modules are kept as modules; otherwise they are
/// rendered into the system prompt.
pub open spec fn compile_profile_spec(config: PresetView, spec: CompileSpecView) -> ProfileView {
    let system = compiled_modules(config.modules, spec, PromptMessageRole::System);
    let user = compiled_modules(config.modules, spec, PromptMessageRole::User);
    if exists|i: int| 0 <= i < system.len() && has_context_refs(#[trigger] system[i]) {
        ProfileView { system_prompt: seq![], system_modules: system, user_modules: user }
    } else {
        ProfileView {
            system_prompt: joined(static_sections(system), "\n\n"@),
            system_modules: seq![],
            user_modules: user,
        }
    }
}

proof fn lemma_take_last<A>(s: Seq<A>, j: int)
    requires
        0 <= j < s.len(),
    ensures
        s.take(j + 1).drop_last() == s.take(j),
        s.take(j + 1).last() == s[j],
{
    assert(s.take(j + 1).drop_last() =~= s.take(j));
}

/// Whether a key is among the allowed keys.
fn contains_key(allowed: &Vec<&'static str>, key: &str) -> (b: bool)
    ensures
        b == str_views(allowed@).contains(key@),
{
    let mut i: usize = 0;
    while i < allowed.len()
        invariant
            i <= allowed@.len(),
            forall|j: int| 0 <= j < i ==> str_views(allowed@)[j] != key@,
        decreases allowed.len() - i,
    {
        if str_eq(allowed[i], key) {
            assert(str_views(allowed@)[i as int] == key@);
            return true;
        }
        i = i + 1;
    }
    false
}

/// Compiles one entry.
pub fn compile_entry(entry: &AgentPromptModuleEntryConfig, allowed: &Vec<&'static str>) -> (r: Option<PromptModuleEntry>)
    ensures
        match r {
            Some(c) => compile_entry_spec(entry@, str_views(allowed@)) == Some(c@),
            None => compile_entry_spec(entry@, str_views(allowed@)) is None,
        },
{
    match entry.kind {
        PromptEntryKind::BuiltInContextRef => match &entry.context_key {
            Some(k) => {
                if contains_key(allowed, k.as_str()) {
                    Some(PromptModuleEntry::ContextRef(k.clone()))
                } else {
                    None
                }
            },
            None => None,
        },
        _ => match &entry.text {
            Some(t) => {
                let trimmed = trim_text(t.as_str());
                proof {
                    crate::text::lemma_trim_empty_iff_blank(t@);
                }
                if text_is_blank(t.as_str()) {
                    None
                } else {
                    Some(PromptModuleEntry::Text(trimmed))
                }
            },
            None => None,
        },
    }
}

/// The synthetic entries of a module.
pub fn extra_entries_for_module(module_id: &PromptModuleId, spec: &ProfileCompilationSpec) -> (v: Vec<SyntheticEntryTemplate>)
    ensures
        synthetic_views(v@) == extras_for(module_id@, spec@),
{
    let src: &Vec<SyntheticEntryTemplate> = match module_id {
        PromptModuleId::Role => &spec.extra_role_entries,
        PromptModuleId::Task => &spec.extra_task_entries,
        PromptModuleId::Output => &spec.extra_output_entries,
        _ => {
            let v: Vec<SyntheticEntryTemplate> = Vec::new();
            assert(synthetic_views(v@) =~= Seq::<SyntheticView>::empty());
            return v;
        },
    };
    let mut out: Vec<SyntheticEntryTemplate> = Vec::new();
    let mut i: usize = 0;
    while i < src.len()
        invariant
            i <= src@.len(),
            out@ =~= src@.take(i as int),
        decreases src.len() - i,
    {
        out.push(src[i]);
        i = i + 1;
    }
    assert(src@.take(src@.len() as int) =~= src@);
    out
}

/// Compiles a module; nothing when no entry is left.
pub fn compile_module(module: &AgentPromptModuleConfig, spec: &ProfileCompilationSpec) -> (r: Option<PromptModule>)
    ensures
        match r {
            Some(m) => compile_module_spec(module@, spec@) == Some(m@),
            None => compile_module_spec(module@, spec@) is None,
        },
{
    let ghost es = module@.entries;
    let mut entries: Vec<PromptModuleEntry> = Vec::new();
    let mut i: usize = 0;
    assert(es.take(0) =~= Seq::<EntryView>::empty());
    assert(compiled_views(entries@) =~= Seq::<CompiledEntryView>::empty());
    while i < module.entries.len()
        invariant
            es == entry_views(module.entries@),
            i <= module.entries@.len(),
            compiled_views(entries@) == compiled_entries(es.take(i as int), spec@.allowed),
        decreases module.entries.len() - i,
    {
        proof {
            lemma_take_last(es, i as int);
            assert(es[i as int] == module.entries@[i as int]@);
        }
        let entry = &module.entries[i];
        if entry.enabled {
            match compile_entry(entry, &spec.allowed_context_keys) {
                Some(c) => {
                    let ghost before = entries@;
                    entries.push(c);
                    proof {
                        assert(entries@ =~= before.push(entries@.last()));
                        assert(compiled_views(entries@) =~= compiled_views(before).push(entries@.last()@));
                    }
                },
                None => {},
            }
        }
        i = i + 1;
    }
    proof {
        assert(es.take(es.len() as int) =~= es);
    }
    let ghost base = compiled_views(entries@);
    let extras = extra_entries_for_module(&module.module_id, spec);
    let ghost xs = synthetic_views(extras@);
    let mut k: usize = 0;
    assert(xs.take(0) =~= Seq::<SyntheticView>::empty());
    assert(base + extra_text_entries(xs.take(0)) =~= base);
    while k < extras.len()
        invariant
            xs == synthetic_views(extras@),
            k <= extras@.len(),
            compiled_views(entries@) == base + extra_text_entries(xs.take(k as int)),
        decreases extras.len() - k,
    {
        proof {
            lemma_take_last(xs, k as int);
            assert(xs[k as int] == extras@[k as int]@);
        }
        let t = trim_text(extras[k].text);
        proof {
            crate::text::lemma_trim_empty_iff_blank(extras@[k as int].text@);
        }
        if !text_is_blank(extras[k].text) {
            let ghost before = entries@;
            entries.push(PromptModuleEntry::Text(t));
            proof {
                assert(entries@ =~= before.push(entries@.last()));
                assert(compiled_views(entries@) =~= compiled_views(before).push(entries@.last()@));
            }
        }
        k = k + 1;
    }
    proof {
        assert(xs.take(xs.len() as int) =~= xs);
    }
    if entries.len() == 0 {
        return None;
    }
    let title = fallback_display_name(module.display_name.as_str(), module.module_id.as_str());
    Some(PromptModule { title, entries })
}

/// Whether a compiled module refers to context.
pub fn module_has_context_refs(module: &PromptModule) -> (b: bool)
    ensures
        b == has_context_refs(module@),
{
    let mut i: usize = 0;
    while i < module.entries.len()
        invariant
            i <= module.entries@.len(),
            forall|j: int| 0 <= j < i ==> !(compiled_views(module.entries@)[j] is ContextRef),
        decreases module.entries.len() - i,
    {
        match &module.entries[i] {
            PromptModuleEntry::ContextRef(_) => {
                assert(compiled_views(module.entries@)[i as int] is ContextRef);
                return true;
            },
            _ => {},
        }
        i = i + 1;
    }
    false
}

/// Renders a static module as `title:` followed by its texts separated by blank
/// lines; empty when it has no text.
pub fn render_static_module(module: &PromptModule) -> (s: String)
    ensures
        s@ == static_module_text(module@),
{
    let ghost es = compiled_views(module.entries@);
    let mut parts: Vec<String> = Vec::new();
    let mut i: usize = 0;
    assert(es.take(0) =~= Seq::<CompiledEntryView>::empty());
    assert(string_seq_views(parts@) =~= Seq::<Seq<char>>::empty());
    while i < module.entries.len()
        invariant
            es == compiled_views(module.entries@),
            i <= module.entries@.len(),
            string_seq_views(parts@) == static_texts(es.take(i as int)),
        decreases module.entries.len() - i,
    {
        proof {
            lemma_take_last(es, i as int);
            assert(es[i as int] == module.entries@[i as int]@);
        }
        match &module.entries[i] {
            PromptModuleEntry::Text(t) => {
                let body = trim_text(t.as_str());
                proof {
                    crate::text::lemma_trim_empty_iff_blank(t@);
                }
                if !text_is_blank(t.as_str()) {
                    let ghost before = parts@;
                    parts.push(body);
                    proof {
                        assert(parts@ =~= before.push(parts@.last()));
                        assert(string_seq_views(parts@) =~= string_seq_views(before).push(parts@.last()@));
                    }
                }
            },
            PromptModuleEntry::ContextRef(_) => {},
        }
        i = i + 1;
    }
    proof {
        assert(es.take(es.len() as int) =~= es);
    }
    let body = join_strings(&parts, "\n\n");
    if body.as_str().is_empty() {
        return String::new();
    }
    let title = trim_text(module.title.as_str());
    let mut out = str_chars(title.as_str());
    push_str(&mut out, ":\n");
    push_str(&mut out, body.as_str());
    string_of_chars(out.as_slice())
}

/// Compiles a normalized preset into a prompt profile.
pub fn compile_profile(config: &AgentPresetConfig, spec: &ProfileCompilationSpec) -> (p: PromptProfile)
    ensures
        p@ == compile_profile_spec(config@, spec@),
{
    let ghost ms = config@.modules;
    let mut system_modules: Vec<PromptModule> = Vec::new();
    let mut user_modules: Vec<PromptModule> = Vec::new();
    let mut i: usize = 0;
    assert(ms.take(0) =~= Seq::<ModuleView>::empty());
    assert(prompt_module_views(system_modules@) =~= Seq::<PromptModuleView>::empty());
    assert(prompt_module_views(user_modules@) =~= Seq::<PromptModuleView>::empty());
    while i < config.modules.len()
        invariant
            ms == module_views(config.modules@),
            i <= config.modules@.len(),
            prompt_module_views(system_modules@) == compiled_modules(ms.take(i as int), spec@, PromptMessageRole::System),
            prompt_module_views(user_modules@) == compiled_modules(ms.take(i as int), spec@, PromptMessageRole::User),
        decreases config.modules.len() - i,
    {
        proof {
            lemma_take_last(ms, i as int);
            assert(ms[i as int] == config.modules@[i as int]@);
        }
        let module = &config.modules[i];
        match compile_module(module, spec) {
            Some(c) => {
                match module.message_role {
                    PromptMessageRole::System => {
                        let ghost before = system_modules@;
                        system_modules.push(c);
                        proof {
                            assert(system_modules@ =~= before.push(system_modules@.last()));
                            assert(prompt_module_views(system_modules@) =~= prompt_module_views(before).push(system_modules@.last()@));
                        }
                    },
                    PromptMessageRole::User => {
                        let ghost before = user_modules@;
                        user_modules.push(c);
                        proof {
                            assert(user_modules@ =~= before.push(user_modules@.last()));
                            assert(prompt_module_views(user_modules@) =~= prompt_module_views(before).push(user_modules@.last()@));
                        }
                    },
                }
            },
            None => {},
        }
        i = i + 1;
    }
    proof {
        assert(ms.take(ms.len() as int) =~= ms);
    }
    let ghost sys = prompt_module_views(system_modules@);
    let mut k: usize = 0;
    let mut any_refs = false;
    while k < system_modules.len()
        invariant
            sys == prompt_module_views(system_modules@),
            k <= system_modules@.len(),
            any_refs == (exists|j: int| 0 <= j < k && has_context_refs(#[trigger] sys[j])),
        decreases system_modules.len() - k,
    {
        proof {
            assert(sys[k as int] == system_modules@[k as int]@);
        }
        if module_has_context_refs(&system_modules[k]) {
            any_refs = true;
        }
        k = k + 1;
    }
    if any_refs {
        return PromptProfile { system_prompt: String::new(), system_modules, user_modules };
    }
    let mut sections: Vec<String> = Vec::new();
    let mut j: usize = 0;
    assert(sys.take(0) =~= Seq::<PromptModuleView>::empty());
    assert(string_seq_views(sections@) =~= Seq::<Seq<char>>::empty());
    while j < system_modules.len()
        invariant
            sys == prompt_module_views(system_modules@),
            j <= system_modules@.len(),
            string_seq_views(sections@) == static_sections(sys.take(j as int)),
        decreases system_modules.len() - j,
    {
        proof {
            lemma_take_last(sys, j as int);
            assert(sys[j as int] == system_modules@[j as int]@);
        }
        let t = render_static_module(&system_modules[j]);
        if !t.as_str().is_empty() {
            let ghost before = sections@;
            sections.push(t);
            proof {
                assert(sections@ =~= before.push(sections@.last()));
                assert(string_seq_views(sections@) =~= string_seq_views(before).push(sections@.last()@));
            }
        }
        j = j + 1;
    }
    proof {
        assert(sys.take(sys.len() as int) =~= sys);
    }
    let system_prompt = join_strings(&sections, "\n\n");
    let empty: Vec<PromptModule> = Vec::new();
    assert(prompt_module_views(empty@) =~= Seq::<PromptModuleView>::empty());
    PromptProfile { system_prompt, system_modules: empty, user_modules }
}

/// Normalizes an agent's preset and compiles it into the profile the agent
/// runs with.
pub fn compile_prompt_profile(agent: PromptAgentKind, config: &AgentPresetConfig) -> (r: Result<PromptProfile, PromptConfigError>)
    ensures
        match r {
            Ok(p) => exists|n: PresetView|
                #[trigger] normalized_result(agent, config@, n) && p@ == compile_profile_spec(n, agent_compile_spec(agent)),
            Err(e) => merged(agent, config@) == Err::<NormState, ConfigErrorView>(e@),
        },
{
    let normalized = match normalize_agent_preset_config(agent, config.duplicate()) {
        Ok(n) => n,
        Err(e) => {
            return Err(e);
        },
    };
    let spec = spec_for_agent(agent);
    let p = compile_profile(&normalized, &spec);
    assert(normalized_result(agent, config@, normalized@));
    Ok(p)
}

/// The system prompt of the architect's repair step.
pub const ARCHITECT_REPAIR_SYSTEM_PROMPT: &'static str = "ROLE:\nYou repair architect outputs that failed JSON decoding or validation.\n\nTASK:\nUse the raw failed output and the validation error to produce a corrected JSON payload that preserves as much intended content as possible.\nIf a schema field has enum_values, keep enum_values only for scalar types (bool, int, float, string).\nIf a schema field has enum_values, omit default or make default exactly match one enum_values item.\nUse only these StateOp type names: SetCurrentNode, SetActiveCharacters, AddActiveCharacter, RemoveActiveCharacter, SetState, RemoveState, SetPlayerState, RemovePlayerState, SetCharacterState, RemoveCharacterState.\nIf the raw output uses aliases such as SetGlobalState or SetWorldState, rewrite them to SetState.\nIf the raw output uses aliases such as RemoveGlobalState or RemoveWorldState, rewrite them to RemoveState.\nKeep every returned node id unique.\nFor draft_continue repairs, do not return any node whose id already exists in GRAPH_SUMMARY. Existing nodes may only be referenced in transition_patches or transition targets.\nFor draft_init repairs, transition and transition_patches targets must use returned node ids only.\nFor draft_continue repairs, transition and transition_patches targets must use GRAPH_SUMMARY node ids or returned node ids only.\nRemove links to future chunk nodes; later chunks can add them via transition_patches.\n\nOUTPUT:\nReturn valid JSON only. Do not wrap it in markdown.";

/// The system prompt of the architect's repair step.
pub fn architect_repair_system_prompt() -> (s: &'static str)
    ensures
        s@ == ARCHITECT_REPAIR_SYSTEM_PROMPT@,
{
    ARCHITECT_REPAIR_SYSTEM_PROMPT
}

/// Normalizes the architect's preset and compiles its three profiles.
pub fn compile_architect_prompt_profiles(config: &AgentPresetConfig) -> (r: Result<ArchitectPromptProfiles, PromptConfigError>)
    ensures
        match r {
            Ok(p) => exists|n: PresetView|
                #[trigger] normalized_result(PromptAgentKind::Architect, config@, n)
                    && p.graph@ == compile_profile_spec(n, architect_compile_spec(ArchitectPromptMode::Graph))
                    && p.draft_init@ == compile_profile_spec(n, architect_compile_spec(ArchitectPromptMode::DraftInit))
                    && p.draft_continue@ == compile_profile_spec(n, architect_compile_spec(ArchitectPromptMode::DraftContinue))
                    && p.repair_system_prompt@ == ARCHITECT_REPAIR_SYSTEM_PROMPT@,
            Err(e) => merged(PromptAgentKind::Architect, config@) == Err::<NormState, ConfigErrorView>(e@),
        },
{
    let normalized = match normalize_agent_preset_config(PromptAgentKind::Architect, config.duplicate()) {
        Ok(n) => n,
        Err(e) => {
            return Err(e);
        },
    };
    let graph = compile_profile(&normalized, &spec_for_architect_mode(ArchitectPromptMode::Graph));
    let draft_init = compile_profile(&normalized, &spec_for_architect_mode(ArchitectPromptMode::DraftInit));
    let draft_continue = compile_profile(&normalized, &spec_for_architect_mode(ArchitectPromptMode::DraftContinue));
    assert(normalized_result(PromptAgentKind::Architect, config@, normalized@));
    Ok(ArchitectPromptProfiles {
        graph,
        draft_init,
        draft_continue,
        repair_system_prompt: architect_repair_system_prompt().to_owned(),
    })
}

/// Whether an entry is enabled.
pub open spec fn entry_enabled() -> spec_fn(EntryView) -> bool {
    |e: EntryView| e.enabled
}

/// Disabled entries contribute nothing: a module's entries compile as its
/// enabled entries alone do.
pub proof fn lemma_disabled_entries_ignored(es: Seq<EntryView>, allowed: Seq<Seq<char>>)
    ensures
        compiled_entries(es, allowed) == compiled_entries(es.filter(entry_enabled()), allowed),
    decreases es.len(),
{
    if es.len() > 0 {
        let d = es.drop_last();
        let e = es.last();
        lemma_disabled_entries_ignored(d, allowed);
        assert(es =~= d.push(e));
        d.lemma_filter_push(e, entry_enabled());
        if e.enabled {
            let f = d.filter(entry_enabled());
            assert(f.push(e).drop_last() =~= f);
            assert(f.push(e).last() == e);
        }
    }
}

/// Every compiled entry comes from an enabled entry of the module: a
/// disabled entry never gives text or a context reference.
pub proof fn lemma_compiled_entry_source(es: Seq<EntryView>, allowed: Seq<Seq<char>>, i: int)
    requires
        0 <= i < compiled_entries(es, allowed).len(),
    ensures
        exists|j: int|
            0 <= j < es.len() && (#[trigger] es[j]).enabled && compile_entry_spec(es[j], allowed) == Some(
                compiled_entries(es, allowed)[i],
            ),
    decreases es.len(),
{
    let d = es.drop_last();
    let e = es.last();
    let prev = compiled_entries(d, allowed);
    if i < prev.len() {
        lemma_compiled_entry_source(d, allowed, i);
        let j = choose|j: int|
            0 <= j < d.len() && (#[trigger] d[j]).enabled && compile_entry_spec(d[j], allowed) == Some(prev[i]);
        assert(es[j] == d[j]);
        assert(compiled_entries(es, allowed)[i] == prev[i]);
    } else {
        assert(e.enabled);
        assert(es[es.len() - 1] == e);
    }
}

/// Removing a disabled entry from a module does not change what the module
/// compiles to.
pub proof fn lemma_disabled_entry_changes_nothing(m: ModuleView, spec: CompileSpecView, i: int)
    requires
        0 <= i < m.entries.len(),
        !m.entries[i].enabled,
    ensures
        compile_module_spec(m, spec) == compile_module_spec(ModuleView { entries: m.entries.remove(i), ..m }, spec),
{
    let es = m.entries;
    let p = entry_enabled();
    let head = es.take(i);
    let tail = es.skip(i + 1);
    assert(es =~= head + seq![es[i]] + tail);
    assert(es.remove(i) =~= head + tail);
    Seq::filter_distributes_over_add(head + seq![es[i]], tail, p);
    Seq::filter_distributes_over_add(head, seq![es[i]], p);
    Seq::filter_distributes_over_add(head, tail, p);
    assert(seq![es[i]] =~= Seq::<EntryView>::empty().push(es[i]));
    Seq::<EntryView>::empty().lemma_filter_push(es[i], p);
    assert(Seq::<EntryView>::empty().filter(p) =~= Seq::<EntryView>::empty()) by {
        reveal(Seq::filter);
    }
    assert(es.filter(p) =~= es.remove(i).filter(p));
    lemma_disabled_entries_ignored(es, spec.allowed);
    lemma_disabled_entries_ignored(es.remove(i), spec.allowed);
}

/// Every entry of a compiled module comes from an enabled entry of the
/// preset module or from one of the module's synthetic entries.
pub proof fn lemma_module_entry_source(m: ModuleView, spec: CompileSpecView, i: int)
    requires
        compile_module_spec(m, spec) is Some,
        0 <= i < compile_module_spec(m, spec)->0.entries.len(),
    ensures
        ({
            let c = compile_module_spec(m, spec)->0.entries[i];
            ||| exists|j: int|
                0 <= j < m.entries.len() && (#[trigger] m.entries[j]).enabled && compile_entry_spec(m.entries[j], spec.allowed)
                    == Some(c)
            ||| exists|j: int|
                0 <= j < extras_for(m.module_id, spec).len() && c == CompiledEntryView::Text(
                    trim_seq(#[trigger] extras_for(m.module_id, spec)[j].text),
                )
        }),
{
    let a = compiled_entries(m.entries, spec.allowed);
    let x = extra_text_entries(extras_for(m.module_id, spec));
    assert(compile_module_spec(m, spec)->0.entries == a + x);
    if i < a.len() {
        lemma_compiled_entry_source(m.entries, spec.allowed, i);
    } else {
        lemma_extra_entry_source(extras_for(m.module_id, spec), i - a.len());
    }
}

/// Every synthetic entry that is compiled is one of the synthetic texts,
/// trimmed.
proof fn lemma_extra_entry_source(extras: Seq<SyntheticView>, i: int)
    requires
        0 <= i < extra_text_entries(extras).len(),
    ensures
        exists|j: int|
            0 <= j < extras.len() && extra_text_entries(extras)[i] == CompiledEntryView::Text(
                trim_seq(#[trigger] extras[j].text),
            ),
    decreases extras.len(),
{
    let d = extras.drop_last();
    let prev = extra_text_entries(d);
    if i < prev.len() {
        lemma_extra_entry_source(d, i);
        let j = choose|j: int| 0 <= j < d.len() && prev[i] == CompiledEntryView::Text(trim_seq(#[trigger] d[j].text));
        assert(extras[j] == d[j]);
        assert(extra_text_entries(extras)[i] == prev[i]);
    } else {
        assert(extras[extras.len() - 1] == extras.last());
    }
}

/// An entry compiles to its trimmed text when that is not blank, or, for a
/// context reference, to its key only when the profile allows that key.
pub proof fn lemma_compiled_entry_shape(e: EntryView, allowed: Seq<Seq<char>>)
    ensures
        compile_entry_spec(e, allowed) matches Some(CompiledEntryView::ContextRef(k)) ==> e.kind
            == PromptEntryKind::BuiltInContextRef && e.context_key == Some(k) && allowed.contains(k),
        compile_entry_spec(e, allowed) matches Some(CompiledEntryView::Text(t)) ==> (e.kind
            != PromptEntryKind::BuiltInContextRef && e.text is Some && t == trim_seq(e.text->0) && t.len() > 0),
        e.kind != PromptEntryKind::BuiltInContextRef && (e.text matches Some(x) && trim_seq(x).len() > 0)
            ==> compile_entry_spec(e, allowed) == Some(CompiledEntryView::Text(trim_seq(e.text->0))),
{
}

/// Compiling the entries of two lists one after the other gives the entries
/// of the first followed by those of the second.
pub proof fn lemma_compiled_entries_concat(a: Seq<EntryView>, b: Seq<EntryView>, allowed: Seq<Seq<char>>)
    ensures
        compiled_entries(a + b, allowed) == compiled_entries(a, allowed) + compiled_entries(b, allowed),
    decreases b.len(),
{
    if b.len() == 0 {
        assert(a + b =~= a);
    } else {
        let bd = b.drop_last();
        lemma_compiled_entries_concat(a, bd, allowed);
        assert((a + b).drop_last() =~= a + bd);
        assert((a + b).last() == b.last());
    }
}

/// A single entry compiles to one entry when it is enabled and compiles, and
/// to none otherwise.
pub proof fn lemma_compiled_single_entry(e: EntryView, allowed: Seq<Seq<char>>)
    ensures
        compiled_entries(seq![e], allowed) == (if e.enabled && compile_entry_spec(e, allowed) is Some {
            seq![compile_entry_spec(e, allowed)->0]
        } else {
            Seq::<CompiledEntryView>::empty()
        }),
{
    assert(seq![e].drop_last() =~= Seq::<EntryView>::empty());
    assert(seq![e].last() == e);
    assert(compiled_entries(Seq::<EntryView>::empty(), allowed) =~= Seq::<CompiledEntryView>::empty());
    if e.enabled && compile_entry_spec(e, allowed) is Some {
        assert(Seq::<CompiledEntryView>::empty().push(compile_entry_spec(e, allowed)->0) =~= seq![
            compile_entry_spec(e, allowed)->0,
        ]);
    }
}

/// An enabled entry that compiles is kept: its module compiles, and holds
/// that entry after the compiled entries of the entries before it.
pub proof fn lemma_enabled_entry_kept(m: ModuleView, spec: CompileSpecView, j: int)
    requires
        0 <= j < m.entries.len(),
        m.entries[j].enabled,
        compile_entry_spec(m.entries[j], spec.allowed) is Some,
    ensures
        compile_module_spec(m, spec) is Some,
        ({
            let k = compiled_entries(m.entries.take(j), spec.allowed).len();
            &&& k < compile_module_spec(m, spec)->0.entries.len()
            &&& compile_module_spec(m, spec)->0.entries[k as int] == compile_entry_spec(m.entries[j], spec.allowed)->0
        }),
{
    let es = m.entries;
    let head = es.take(j);
    let tail = es.skip(j + 1);
    assert(es =~= head + (seq![es[j]] + tail));
    lemma_compiled_entries_concat(head, seq![es[j]] + tail, spec.allowed);
    lemma_compiled_entries_concat(seq![es[j]], tail, spec.allowed);
    lemma_compiled_single_entry(es[j], spec.allowed);
    let c = compile_entry_spec(es[j], spec.allowed)->0;
    let k = compiled_entries(head, spec.allowed).len();
    assert(compiled_entries(es, spec.allowed)[k as int] == c);
}

} // verus!
