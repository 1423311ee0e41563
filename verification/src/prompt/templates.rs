//! The built-in prompt entry templates of each agent, in the order the
//! default presets list them: by module, then order, then entry id.
use vstd::prelude::*;

use crate::prompt::types::{ModuleKey, PromptAgentKind, PromptEntryKind};

verus! {

pub const DIRECTOR_OUTPUT_CONTRACT: &'static str = r#"Return one JSON object only. No markdown. No commentary.

ResponsePlan schema:
{
  "role_actions": [SessionCharacterAction],
  "beats": [ResponseBeat]
}

SessionCharacterAction schema:
- {"type":"create_and_enter","session_character_id":"snake_case_id","display_name":"text","personality":"text","style":"text","system_prompt":"text"}
- {"type":"leave_scene","session_character_id":"session_character_id"}

ResponseBeat schema:
- {"type":"Narrator","purpose":"DescribeTransition"|"DescribeScene"|"DescribeResult"}
- {"type":"Actor","speaker_id":"character_id","purpose":"AdvanceGoal"|"ReactToPlayer"|"CommentOnScene"}

Always include "role_actions" and "beats". Use [] when empty. Every Actor beat speaker_id must be either a CURRENT_CAST id or an id created in this same response via create_and_enter. Never invent any other speaker_id."#;

pub const ACTOR_OUTPUT_CONTRACT: &'static str = r#"Return tagged performance segments only. Do not produce JSON, markdown, speaker labels, or text outside tags.

Allowed tags:
- <thought>...</thought>
- <action>...</action>
- <dialogue>...</dialogue>

Rules:
- Each segment body must be non-empty
- Do not nest tags
- You may emit any subset of the three tag types
- You may repeat tag types when needed
- Tags may appear in any order that fits the turn

Example:
<thought>I should test the courier first.</thought><action>Haru studies the sealed satchel.</action><dialogue>Tell me what you are carrying.</dialogue>"#;

pub const KEEPER_OUTPUT_CONTRACT: &'static str = r#"Return one JSON object only. No markdown. No commentary.

StateUpdate schema:
{
  "ops": [StateOp]
}

Allowed StateOp shapes:
- {"type":"SetState","key":"state_key","value":{}} - set one world/global state value
- {"type":"RemoveState","key":"state_key"} - remove one world/global state key
- {"type":"SetPlayerState","key":"player_state_key","value":{}} - set one player state value
- {"type":"RemovePlayerState","key":"player_state_key"} - remove one player state key
- {"type":"SetActiveCharacters","characters":["character_id"]} - replace the whole active cast list
- {"type":"AddActiveCharacter","character":"character_id"} - add one character to the active cast
- {"type":"RemoveActiveCharacter","character":"character_id"} - remove one character from the active cast
- {"type":"SetCharacterState","character":"character_id","key":"character_state_key","value":{}} - set one state value for a specific character
- {"type":"RemoveCharacterState","character":"character_id","key":"character_state_key"} - remove one state key from a specific character

Always include "ops". Use [] when empty. Do not output SetCurrentNode. Do not output any other StateOp type. Never introduce a brand-new character id in active-character ops; temporary characters must be created by Director via create_and_enter."#;

pub const REPLYER_OUTPUT_CONTRACT: &'static str = r#"Return one JSON object only. No markdown. No commentary.

Reply suggestion schema:
{
  "replies": [
    {
      "id": "reply_id",
      "text": "player reply"
    }
  ]
}

Always include "replies". Each item must include both "id" and "text"."#;

pub const ARCHITECT_OUTPUT_CORE: &'static str = r#"Return one JSON object only. No markdown. No commentary. No duplicate keys.

Common nested schemas:

SchemaField:
{
  "value_type": "bool"|"int"|"float"|"string"|"array"|"object"|"null",
  "default": {},
  "description": "text",
  "enum_values": [{}]
}

NarrativeNode:
{
  "id": "node_id",
  "title": "short title",
  "scene": "short scene description",
  "goal": "short narrative goal",
  "characters": ["character_id"],
  "transitions": [Transition],
  "on_enter_updates": [StateOp]
}

NodeTransitionPatch:
{
  "node_id": "existing_node_id",
  "add_transitions": [Transition]
}

Transition:
{
  "to": "target_node",
  "condition": {
    "scope": "global"|"player"|"character",
    "character": "character_id when scope is character",
    "key": "state_key",
    "op": "eq"|"ne"|"gt"|"gte"|"lt"|"lte"|"contains",
    "value": {}
  }
}

Allowed StateOp shapes:
- {"type":"SetState","key":"state_key","value":{}} - set one world/global state value
- {"type":"RemoveState","key":"state_key"} - remove one world/global state key
- {"type":"SetPlayerState","key":"player_state_key","value":{}} - set one player state value
- {"type":"RemovePlayerState","key":"player_state_key"} - remove one player state key
- {"type":"SetCharacterState","character":"character_id","key":"character_state_key","value":{}} - set one state value for a specific character
- {"type":"RemoveCharacterState","character":"character_id","key":"character_state_key"} - remove one state key from a specific character

Every schema field object must include "value_type".
"enum_values" is only valid for scalar value_type values: "bool", "int", "float", "string".
If "enum_values" is present, omit "default" or make "default" exactly equal to one item from "enum_values".
Use only the exact StateOp type names listed above.
Every returned NarrativeNode id must be unique within the current response.
Prefer stable snake_case node ids.
Use only AVAILABLE_CHARACTERS ids in NarrativeNode.characters and all character-scoped references. Do not introduce temporary runtime-only character ids into graph data.
Use [] for empty arrays and {"fields":{}} for empty schemas."#;

pub const ARCHITECT_GRAPH_OUTPUT_CONTRACT: &'static str = r#"Top-level output schema:
{
  "graph": {
    "start_node": "node_id",
    "nodes": [NarrativeNode]
  },
  "world_state_schema": {
    "fields": {
      "state_key": SchemaField
    }
  },
  "player_state_schema": {
    "fields": {
      "state_key": SchemaField
    }
  },
  "introduction": "short player-facing opening paragraph"
}

Always include "graph", "world_state_schema", "player_state_schema", and "introduction"."#;

pub const ARCHITECT_DRAFT_INIT_OUTPUT_CONTRACT: &'static str = r#"Top-level output schema:
{
  "nodes": [NarrativeNode],
  "transition_patches": [NodeTransitionPatch],
  "section_summary": "one short sentence",
  "start_node": "node_id",
  "world_state_schema": {
    "fields": {
      "state_key": SchemaField
    }
  },
  "player_state_schema": {
    "fields": {
      "state_key": SchemaField
    }
  },
  "introduction": "short player-facing opening paragraph"
}

Always include every top-level key above. "start_node" must match one of the returned node ids. Returned node ids must all be new and unique within this response. All transition and transition_patches targets must use returned node ids only: every transition.to and every transition_patches target must exactly match one id from this same returned nodes list. If a target node is not present in returned nodes, do not output that transition yet. Do not point to future chunk nodes; add those links later with transition_patches."#;

pub const ARCHITECT_DRAFT_CONTINUE_OUTPUT_CONTRACT: &'static str = r#"Top-level output schema:
{
  "nodes": [NarrativeNode],
  "transition_patches": [NodeTransitionPatch],
  "section_summary": "one short sentence"
}

Always include "nodes", "transition_patches", and "section_summary". Returned node ids must be unique within this response and must not reuse node ids that already exist in GRAPH_SUMMARY. If the next beat or scene already exists in GRAPH_SUMMARY, use that existing node id in transition targets or transition_patches instead of creating a duplicate node. Existing nodes may only be referenced in transition_patches or transition targets; never return an existing GRAPH_SUMMARY node as a new node. All transition and transition_patches targets must use either GRAPH_SUMMARY node ids or returned node ids: every transition.to and every transition_patches target must exactly match either an existing GRAPH_SUMMARY node id or one of the node ids returned in this same response. If a target node is missing from both sets, do not output that transition yet. Do not point to future chunk nodes; add those links later with transition_patches."#;

pub const PLANNER_ROLE_CORE: &'static str = "You are Planner. Turn the story concept into a concise planning brief for Architect.";

pub const PLANNER_TASK_CORE: &'static str = "Work only from the provided concept, lorebook, and available characters. Keep the plan coherent and specific.";

pub const PLANNER_OUTPUT_CORE: &'static str = "Return plain text only. Summarize the story goal, core conflict, key characters, tone, and likely progression.";

pub const ARCHITECT_ROLE_CORE: &'static str = "You are Architect. Build structured story graph data from the planning input.";

pub const ARCHITECT_TASK_CORE: &'static str = "Create compact, valid story structure. Reuse the provided cast and keep transitions and schema fields consistent. Use only AVAILABLE_CHARACTERS ids in graph data; temporary runtime characters belong to Director, not the graph.";

pub const DIRECTOR_ROLE_CORE: &'static str = "You are Director. Decide what should happen this turn and which beats should execute.";

pub const DIRECTOR_TASK_CORE: &'static str = "Plan a clear response for the current turn. Use only visible context and keep the response plan actionable. Actor beats may use only CURRENT_CAST ids or ids created in this same response via create_and_enter.";

pub const ACTOR_ROLE_CORE: &'static str = "You are Actor. Perform as the assigned character while staying grounded in the current scene.";

pub const ACTOR_TASK_CORE: &'static str = "Respond from the character's perspective and pursue the supplied purpose without using hidden information that the character cannot access.";

pub const NARRATOR_ROLE_CORE: &'static str = "You are Narrator. Describe scene changes, transitions, and outcomes that the audience can observe.";

pub const NARRATOR_TASK_CORE: &'static str = "Describe what changed in the scene and support the current beat purpose without using private memories.";

pub const NARRATOR_OUTPUT_CORE: &'static str = "Return plain narration text only.";

pub const KEEPER_ROLE_CORE: &'static str = "You are Keeper. Update system state, progression, and node transitions after each turn phase.";

pub const KEEPER_TASK_CORE: &'static str = "Reflect real progress in the state update. Use the current node, recent turn history, and completed beats to decide what changed. Do not introduce new character ids into active_characters; temporary characters must be created by Director.";

pub const REPLYER_ROLE_CORE: &'static str = "You are Replyer. Suggest several player reply options that fit the current state of the scene.";

pub const REPLYER_TASK_CORE: &'static str = "Offer concise, distinct reply options grounded in the visible conversation history and current world state.\nLet the options vary naturally in tone, intent, and commitment level when they fit the scene.";

/// The five built-in modules, in their default order.
#[derive(Debug, Clone, Copy, PartialEq, Eq, Structural)]
pub enum BuiltinModule {
    Role,
    Task,
    StaticContext,
    DynamicContext,
    Output,
}

/// The module identifier of a built-in module.
pub open spec fn builtin_key(m: BuiltinModule) -> ModuleKey {
    match m {
        BuiltinModule::Role => ModuleKey::Role,
        BuiltinModule::Task => ModuleKey::Task,
        BuiltinModule::StaticContext => ModuleKey::StaticContext,
        BuiltinModule::DynamicContext => ModuleKey::DynamicContext,
        BuiltinModule::Output => ModuleKey::Output,
    }
}

/// A built-in prompt entry of an agent.
pub struct BuiltInEntryTemplate {
    pub module: BuiltinModule,
    pub entry_id: &'static str,
    pub display_name: &'static str,
    pub kind: PromptEntryKind,
    pub required: bool,
    pub order: i32,
    pub text: Option<&'static str>,
    pub context_key: Option<&'static str>,
}

/// The value of a built-in entry template.
pub struct TemplateView {
    pub module: BuiltinModule,
    pub entry_id: Seq<char>,
    pub display_name: Seq<char>,
    pub kind: PromptEntryKind,
    pub required: bool,
    pub order: i32,
    pub text: Option<Seq<char>>,
    pub context_key: Option<Seq<char>>,
}

/// The view of an optional static string.
pub open spec fn opt_str_view(s: Option<&'static str>) -> Option<Seq<char>> {
    match s {
        Some(v) => Some(v@),
        None => None,
    }
}

impl View for BuiltInEntryTemplate {
    type V = TemplateView;

    open spec fn view(&self) -> TemplateView {
        TemplateView {
            module: self.module,
            entry_id: self.entry_id@,
            display_name: self.display_name@,
            kind: self.kind,
            required: self.required,
            order: self.order,
            text: opt_str_view(self.text),
            context_key: opt_str_view(self.context_key),
        }
    }
}

/// The views of a sequence of templates.
pub open spec fn template_views(ts: Seq<BuiltInEntryTemplate>) -> Seq<TemplateView> {
    ts.map_values(|t: BuiltInEntryTemplate| t@)
}

/// A template holding fixed text.
pub open spec fn text_tmpl(
    module: BuiltinModule,
    entry_id: Seq<char>,
    display_name: Seq<char>,
    order: i32,
    required: bool,
    text: Seq<char>,
) -> TemplateView {
    TemplateView {
        module,
        entry_id,
        display_name,
        kind: PromptEntryKind::BuiltInText,
        required,
        order,
        text: Some(text),
        context_key: None,
    }
}

/// A template that refers to a context value by key.
pub open spec fn context_tmpl(
    module: BuiltinModule,
    entry_id: Seq<char>,
    display_name: Seq<char>,
    order: i32,
    required: bool,
    context_key: Seq<char>,
) -> TemplateView {
    TemplateView {
        module,
        entry_id,
        display_name,
        kind: PromptEntryKind::BuiltInContextRef,
        required,
        order,
        text: None,
        context_key: Some(context_key),
    }
}

fn text_entry(
    module: BuiltinModule,
    entry_id: &'static str,
    display_name: &'static str,
    order: i32,
    required: bool,
    text: &'static str,
) -> (t: BuiltInEntryTemplate)
    ensures
        t@ == text_tmpl(module, entry_id@, display_name@, order, required, text@),
{
    BuiltInEntryTemplate {
        module,
        entry_id,
        display_name,
        kind: PromptEntryKind::BuiltInText,
        required,
        order,
        text: Some(text),
        context_key: None,
    }
}

fn context_entry(
    module: BuiltinModule,
    entry_id: &'static str,
    display_name: &'static str,
    order: i32,
    required: bool,
    context_key: &'static str,
) -> (t: BuiltInEntryTemplate)
    ensures
        t@ == context_tmpl(module, entry_id@, display_name@, order, required, context_key@),
{
    BuiltInEntryTemplate {
        module,
        entry_id,
        display_name,
        kind: PromptEntryKind::BuiltInContextRef,
        required,
        order,
        text: None,
        context_key: Some(context_key),
    }
}

/// The built-in entry templates of the Planner agent.
pub open spec fn planner_templates() -> Seq<TemplateView> {
    seq![
        text_tmpl(BuiltinModule::Role, "planner_role_core"@, "Core Role"@, 10, true, PLANNER_ROLE_CORE@),
        text_tmpl(BuiltinModule::Task, "planner_task_core"@, "Planning Task"@, 10, true, PLANNER_TASK_CORE@),
        context_tmpl(BuiltinModule::StaticContext, "planner_story_concept"@, "Story Concept"@, 10, true, "story_concept"@),
        context_tmpl(BuiltinModule::StaticContext, "planner_lorebook_base"@, "Lorebook Base"@, 20, false, "lorebook_base"@),
        context_tmpl(BuiltinModule::StaticContext, "planner_available_characters"@, "Available Characters"@, 30, true, "available_characters"@),
        context_tmpl(BuiltinModule::DynamicContext, "planner_lorebook_matched"@, "Lorebook Matched"@, 10, false, "lorebook_matched"@),
        text_tmpl(BuiltinModule::Output, "planner_output_core"@, "Output Contract"@, 10, true, PLANNER_OUTPUT_CORE@),
    ]
}

fn planner_template_list() -> (v: Vec<BuiltInEntryTemplate>)
    ensures
        template_views(v@) == planner_templates(),
{
    let mut v: Vec<BuiltInEntryTemplate> = Vec::new();
    v.push(text_entry(BuiltinModule::Role, "planner_role_core", "Core Role", 10, true, PLANNER_ROLE_CORE));
    v.push(text_entry(BuiltinModule::Task, "planner_task_core", "Planning Task", 10, true, PLANNER_TASK_CORE));
    v.push(context_entry(BuiltinModule::StaticContext, "planner_story_concept", "Story Concept", 10, true, "story_concept"));
    v.push(context_entry(BuiltinModule::StaticContext, "planner_lorebook_base", "Lorebook Base", 20, false, "lorebook_base"));
    v.push(context_entry(BuiltinModule::StaticContext, "planner_available_characters", "Available Characters", 30, true, "available_characters"));
    v.push(context_entry(BuiltinModule::DynamicContext, "planner_lorebook_matched", "Lorebook Matched", 10, false, "lorebook_matched"));
    v.push(text_entry(BuiltinModule::Output, "planner_output_core", "Output Contract", 10, true, PLANNER_OUTPUT_CORE));
    assert(template_views(v@) =~= planner_templates());
    v
}

/// The built-in entry templates of the Architect agent.
pub open spec fn architect_templates() -> Seq<TemplateView> {
    seq![
        text_tmpl(BuiltinModule::Role, "architect_role_core"@, "Core Role"@, 10, true, ARCHITECT_ROLE_CORE@),
        text_tmpl(BuiltinModule::Task, "architect_task_core"@, "Architecture Task"@, 10, true, ARCHITECT_TASK_CORE@),
        context_tmpl(BuiltinModule::StaticContext, "architect_story_concept"@, "Story Concept"@, 10, true, "story_concept"@),
        context_tmpl(BuiltinModule::StaticContext, "architect_lorebook_base"@, "Lorebook Base"@, 20, false, "lorebook_base"@),
        context_tmpl(BuiltinModule::StaticContext, "architect_planned_story"@, "Planned Story"@, 30, false, "planned_story"@),
        context_tmpl(BuiltinModule::StaticContext, "architect_available_characters"@, "Available Characters"@, 40, true, "available_characters"@),
        context_tmpl(BuiltinModule::StaticContext, "architect_world_state_schema_seed"@, "World State Schema Seed"@, 50, false, "world_state_schema_seed"@),
        context_tmpl(BuiltinModule::StaticContext, "architect_player_state_schema_seed"@, "Player State Schema Seed"@, 60, false, "player_state_schema_seed"@),
        context_tmpl(BuiltinModule::StaticContext, "architect_world_state_schema"@, "World State Schema"@, 70, false, "world_state_schema"@),
        context_tmpl(BuiltinModule::StaticContext, "architect_player_state_schema"@, "Player State Schema"@, 80, false, "player_state_schema"@),
        context_tmpl(BuiltinModule::StaticContext, "architect_section_summaries"@, "Section Summaries"@, 90, false, "section_summaries"@),
        context_tmpl(BuiltinModule::DynamicContext, "architect_current_section"@, "Current Section"@, 10, false, "current_section"@),
        context_tmpl(BuiltinModule::DynamicContext, "architect_section_index"@, "Section Index"@, 20, false, "section_index"@),
        context_tmpl(BuiltinModule::DynamicContext, "architect_total_sections"@, "Total Sections"@, 30, false, "total_sections"@),
        context_tmpl(BuiltinModule::DynamicContext, "architect_target_node_count"@, "Target Node Count"@, 40, false, "target_node_count"@),
        context_tmpl(BuiltinModule::DynamicContext, "architect_graph_summary"@, "Graph Summary"@, 50, false, "graph_summary"@),
        context_tmpl(BuiltinModule::DynamicContext, "architect_recent_section_detail"@, "Recent Section Detail"@, 60, false, "recent_section_detail"@),
        context_tmpl(BuiltinModule::DynamicContext, "architect_lorebook_matched"@, "Lorebook Matched"@, 70, false, "lorebook_matched"@),
        text_tmpl(BuiltinModule::Output, "architect_output_core"@, "Output Contract"@, 10, true, ARCHITECT_OUTPUT_CORE@),
    ]
}

fn architect_template_list() -> (v: Vec<BuiltInEntryTemplate>)
    ensures
        template_views(v@) == architect_templates(),
{
    let mut v: Vec<BuiltInEntryTemplate> = Vec::new();
    v.push(text_entry(BuiltinModule::Role, "architect_role_core", "Core Role", 10, true, ARCHITECT_ROLE_CORE));
    v.push(text_entry(BuiltinModule::Task, "architect_task_core", "Architecture Task", 10, true, ARCHITECT_TASK_CORE));
    v.push(context_entry(BuiltinModule::StaticContext, "architect_story_concept", "Story Concept", 10, true, "story_concept"));
    v.push(context_entry(BuiltinModule::StaticContext, "architect_lorebook_base", "Lorebook Base", 20, false, "lorebook_base"));
    v.push(context_entry(BuiltinModule::StaticContext, "architect_planned_story", "Planned Story", 30, false, "planned_story"));
    v.push(context_entry(BuiltinModule::StaticContext, "architect_available_characters", "Available Characters", 40, true, "available_characters"));
    v.push(context_entry(BuiltinModule::StaticContext, "architect_world_state_schema_seed", "World State Schema Seed", 50, false, "world_state_schema_seed"));
    v.push(context_entry(BuiltinModule::StaticContext, "architect_player_state_schema_seed", "Player State Schema Seed", 60, false, "player_state_schema_seed"));
    v.push(context_entry(BuiltinModule::StaticContext, "architect_world_state_schema", "World State Schema", 70, false, "world_state_schema"));
    v.push(context_entry(BuiltinModule::StaticContext, "architect_player_state_schema", "Player State Schema", 80, false, "player_state_schema"));
    v.push(context_entry(BuiltinModule::StaticContext, "architect_section_summaries", "Section Summaries", 90, false, "section_summaries"));
    v.push(context_entry(BuiltinModule::DynamicContext, "architect_current_section", "Current Section", 10, false, "current_section"));
    v.push(context_entry(BuiltinModule::DynamicContext, "architect_section_index", "Section Index", 20, false, "section_index"));
    v.push(context_entry(BuiltinModule::DynamicContext, "architect_total_sections", "Total Sections", 30, false, "total_sections"));
    v.push(context_entry(BuiltinModule::DynamicContext, "architect_target_node_count", "Target Node Count", 40, false, "target_node_count"));
    v.push(context_entry(BuiltinModule::DynamicContext, "architect_graph_summary", "Graph Summary", 50, false, "graph_summary"));
    v.push(context_entry(BuiltinModule::DynamicContext, "architect_recent_section_detail", "Recent Section Detail", 60, false, "recent_section_detail"));
    v.push(context_entry(BuiltinModule::DynamicContext, "architect_lorebook_matched", "Lorebook Matched", 70, false, "lorebook_matched"));
    v.push(text_entry(BuiltinModule::Output, "architect_output_core", "Output Contract", 10, true, ARCHITECT_OUTPUT_CORE));
    assert(template_views(v@) =~= architect_templates());
    v
}

/// The built-in entry templates of the Director agent.
pub open spec fn director_templates() -> Seq<TemplateView> {
    seq![
        text_tmpl(BuiltinModule::Role, "director_role_core"@, "Core Role"@, 10, true, DIRECTOR_ROLE_CORE@),
        text_tmpl(BuiltinModule::Task, "director_task_core"@, "Turn Task"@, 10, true, DIRECTOR_TASK_CORE@),
        context_tmpl(BuiltinModule::StaticContext, "director_lorebook_base"@, "Lorebook Base"@, 10, false, "lorebook_base"@),
        context_tmpl(BuiltinModule::StaticContext, "director_player"@, "Player"@, 20, true, "player"@),
        context_tmpl(BuiltinModule::StaticContext, "director_current_cast"@, "Current Cast"@, 30, true, "current_cast"@),
        context_tmpl(BuiltinModule::StaticContext, "director_current_node"@, "Current Node"@, 40, true, "current_node"@),
        context_tmpl(BuiltinModule::StaticContext, "director_player_state_schema"@, "Player State Schema"@, 50, false, "player_state_schema"@),
        context_tmpl(BuiltinModule::DynamicContext, "director_lorebook_matched"@, "Lorebook Matched"@, 10, false, "lorebook_matched"@),
        context_tmpl(BuiltinModule::DynamicContext, "director_world_state"@, "World State"@, 20, true, "world_state"@),
        context_tmpl(BuiltinModule::DynamicContext, "director_shared_history"@, "Shared History"@, 30, true, "shared_history"@),
        text_tmpl(BuiltinModule::Output, "director_output_core"@, "Output Contract"@, 10, true, DIRECTOR_OUTPUT_CONTRACT@),
    ]
}

fn director_template_list() -> (v: Vec<BuiltInEntryTemplate>)
    ensures
        template_views(v@) == director_templates(),
{
    let mut v: Vec<BuiltInEntryTemplate> = Vec::new();
    v.push(text_entry(BuiltinModule::Role, "director_role_core", "Core Role", 10, true, DIRECTOR_ROLE_CORE));
    v.push(text_entry(BuiltinModule::Task, "director_task_core", "Turn Task", 10, true, DIRECTOR_TASK_CORE));
    v.push(context_entry(BuiltinModule::StaticContext, "director_lorebook_base", "Lorebook Base", 10, false, "lorebook_base"));
    v.push(context_entry(BuiltinModule::StaticContext, "director_player", "Player", 20, true, "player"));
    v.push(context_entry(BuiltinModule::StaticContext, "director_current_cast", "Current Cast", 30, true, "current_cast"));
    v.push(context_entry(BuiltinModule::StaticContext, "director_current_node", "Current Node", 40, true, "current_node"));
    v.push(context_entry(BuiltinModule::StaticContext, "director_player_state_schema", "Player State Schema", 50, false, "player_state_schema"));
    v.push(context_entry(BuiltinModule::DynamicContext, "director_lorebook_matched", "Lorebook Matched", 10, false, "lorebook_matched"));
    v.push(context_entry(BuiltinModule::DynamicContext, "director_world_state", "World State", 20, true, "world_state"));
    v.push(context_entry(BuiltinModule::DynamicContext, "director_shared_history", "Shared History", 30, true, "shared_history"));
    v.push(text_entry(BuiltinModule::Output, "director_output_core", "Output Contract", 10, true, DIRECTOR_OUTPUT_CONTRACT));
    assert(template_views(v@) =~= director_templates());
    v
}

/// The built-in entry templates of the Actor agent.
pub open spec fn actor_templates() -> Seq<TemplateView> {
    seq![
        text_tmpl(BuiltinModule::Role, "actor_role_core"@, "Core Role"@, 10, true, ACTOR_ROLE_CORE@),
        text_tmpl(BuiltinModule::Task, "actor_task_core"@, "Performance Task"@, 10, true, ACTOR_TASK_CORE@),
        context_tmpl(BuiltinModule::StaticContext, "actor_lorebook_base"@, "Lorebook Base"@, 10, false, "lorebook_base"@),
        context_tmpl(BuiltinModule::StaticContext, "actor_player"@, "Player"@, 20, true, "player"@),
        context_tmpl(BuiltinModule::StaticContext, "actor_current_cast"@, "Current Cast"@, 30, true, "current_cast"@),
        context_tmpl(BuiltinModule::StaticContext, "actor_current_node"@, "Current Node"@, 40, true, "current_node"@),
        context_tmpl(BuiltinModule::DynamicContext, "actor_lorebook_matched"@, "Lorebook Matched"@, 10, false, "lorebook_matched"@),
        context_tmpl(BuiltinModule::DynamicContext, "actor_world_state"@, "World State"@, 20, true, "world_state"@),
        context_tmpl(BuiltinModule::DynamicContext, "actor_shared_history"@, "Shared History"@, 30, true, "shared_history"@),
        context_tmpl(BuiltinModule::DynamicContext, "actor_private_memory"@, "Private Memory"@, 40, false, "private_memory"@),
        context_tmpl(BuiltinModule::DynamicContext, "actor_purpose"@, "Actor Purpose"@, 50, true, "actor_purpose"@),
        text_tmpl(BuiltinModule::Output, "actor_output_core"@, "Output Contract"@, 10, true, ACTOR_OUTPUT_CONTRACT@),
    ]
}

fn actor_template_list() -> (v: Vec<BuiltInEntryTemplate>)
    ensures
        template_views(v@) == actor_templates(),
{
    let mut v: Vec<BuiltInEntryTemplate> = Vec::new();
    v.push(text_entry(BuiltinModule::Role, "actor_role_core", "Core Role", 10, true, ACTOR_ROLE_CORE));
    v.push(text_entry(BuiltinModule::Task, "actor_task_core", "Performance Task", 10, true, ACTOR_TASK_CORE));
    v.push(context_entry(BuiltinModule::StaticContext, "actor_lorebook_base", "Lorebook Base", 10, false, "lorebook_base"));
    v.push(context_entry(BuiltinModule::StaticContext, "actor_player", "Player", 20, true, "player"));
    v.push(context_entry(BuiltinModule::StaticContext, "actor_current_cast", "Current Cast", 30, true, "current_cast"));
    v.push(context_entry(BuiltinModule::StaticContext, "actor_current_node", "Current Node", 40, true, "current_node"));
    v.push(context_entry(BuiltinModule::DynamicContext, "actor_lorebook_matched", "Lorebook Matched", 10, false, "lorebook_matched"));
    v.push(context_entry(BuiltinModule::DynamicContext, "actor_world_state", "World State", 20, true, "world_state"));
    v.push(context_entry(BuiltinModule::DynamicContext, "actor_shared_history", "Shared History", 30, true, "shared_history"));
    v.push(context_entry(BuiltinModule::DynamicContext, "actor_private_memory", "Private Memory", 40, false, "private_memory"));
    v.push(context_entry(BuiltinModule::DynamicContext, "actor_purpose", "Actor Purpose", 50, true, "actor_purpose"));
    v.push(text_entry(BuiltinModule::Output, "actor_output_core", "Output Contract", 10, true, ACTOR_OUTPUT_CONTRACT));
    assert(template_views(v@) =~= actor_templates());
    v
}

/// The built-in entry templates of the Narrator agent.
pub open spec fn narrator_templates() -> Seq<TemplateView> {
    seq![
        text_tmpl(BuiltinModule::Role, "narrator_role_core"@, "Core Role"@, 10, true, NARRATOR_ROLE_CORE@),
        text_tmpl(BuiltinModule::Task, "narrator_task_core"@, "Narration Task"@, 10, true, NARRATOR_TASK_CORE@),
        context_tmpl(BuiltinModule::StaticContext, "narrator_lorebook_base"@, "Lorebook Base"@, 10, false, "lorebook_base"@),
        context_tmpl(BuiltinModule::StaticContext, "narrator_player"@, "Player"@, 20, true, "player"@),
        context_tmpl(BuiltinModule::StaticContext, "narrator_previous_node"@, "Previous Node"@, 30, false, "previous_node"@),
        context_tmpl(BuiltinModule::StaticContext, "narrator_current_node"@, "Current Node"@, 40, true, "current_node"@),
        context_tmpl(BuiltinModule::StaticContext, "narrator_previous_cast"@, "Previous Cast"@, 50, false, "previous_cast"@),
        context_tmpl(BuiltinModule::StaticContext, "narrator_current_cast"@, "Current Cast"@, 60, true, "current_cast"@),
        context_tmpl(BuiltinModule::StaticContext, "narrator_player_state_schema"@, "Player State Schema"@, 70, false, "player_state_schema"@),
        context_tmpl(BuiltinModule::StaticContext, "narrator_purpose"@, "Narrator Purpose"@, 80, true, "narrator_purpose"@),
        context_tmpl(BuiltinModule::DynamicContext, "narrator_lorebook_matched"@, "Lorebook Matched"@, 10, false, "lorebook_matched"@),
        context_tmpl(BuiltinModule::DynamicContext, "narrator_world_state"@, "World State"@, 20, true, "world_state"@),
        context_tmpl(BuiltinModule::DynamicContext, "narrator_shared_history"@, "Shared History"@, 30, true, "shared_history"@),
        text_tmpl(BuiltinModule::Output, "narrator_output_core"@, "Output Contract"@, 10, true, NARRATOR_OUTPUT_CORE@),
    ]
}

fn narrator_template_list() -> (v: Vec<BuiltInEntryTemplate>)
    ensures
        template_views(v@) == narrator_templates(),
{
    let mut v: Vec<BuiltInEntryTemplate> = Vec::new();
    v.push(text_entry(BuiltinModule::Role, "narrator_role_core", "Core Role", 10, true, NARRATOR_ROLE_CORE));
    v.push(text_entry(BuiltinModule::Task, "narrator_task_core", "Narration Task", 10, true, NARRATOR_TASK_CORE));
    v.push(context_entry(BuiltinModule::StaticContext, "narrator_lorebook_base", "Lorebook Base", 10, false, "lorebook_base"));
    v.push(context_entry(BuiltinModule::StaticContext, "narrator_player", "Player", 20, true, "player"));
    v.push(context_entry(BuiltinModule::StaticContext, "narrator_previous_node", "Previous Node", 30, false, "previous_node"));
    v.push(context_entry(BuiltinModule::StaticContext, "narrator_current_node", "Current Node", 40, true, "current_node"));
    v.push(context_entry(BuiltinModule::StaticContext, "narrator_previous_cast", "Previous Cast", 50, false, "previous_cast"));
    v.push(context_entry(BuiltinModule::StaticContext, "narrator_current_cast", "Current Cast", 60, true, "current_cast"));
    v.push(context_entry(BuiltinModule::StaticContext, "narrator_player_state_schema", "Player State Schema", 70, false, "player_state_schema"));
    v.push(context_entry(BuiltinModule::StaticContext, "narrator_purpose", "Narrator Purpose", 80, true, "narrator_purpose"));
    v.push(context_entry(BuiltinModule::DynamicContext, "narrator_lorebook_matched", "Lorebook Matched", 10, false, "lorebook_matched"));
    v.push(context_entry(BuiltinModule::DynamicContext, "narrator_world_state", "World State", 20, true, "world_state"));
    v.push(context_entry(BuiltinModule::DynamicContext, "narrator_shared_history", "Shared History", 30, true, "shared_history"));
    v.push(text_entry(BuiltinModule::Output, "narrator_output_core", "Output Contract", 10, true, NARRATOR_OUTPUT_CORE));
    assert(template_views(v@) =~= narrator_templates());
    v
}

/// The built-in entry templates of the Keeper agent.
pub open spec fn keeper_templates() -> Seq<TemplateView> {
    seq![
        text_tmpl(BuiltinModule::Role, "keeper_role_core"@, "Core Role"@, 10, true, KEEPER_ROLE_CORE@),
        text_tmpl(BuiltinModule::Task, "keeper_task_core"@, "State Task"@, 10, true, KEEPER_TASK_CORE@),
        context_tmpl(BuiltinModule::StaticContext, "keeper_lorebook_base"@, "Lorebook Base"@, 10, false, "lorebook_base"@),
        context_tmpl(BuiltinModule::StaticContext, "keeper_player"@, "Player"@, 20, true, "player"@),
        context_tmpl(BuiltinModule::StaticContext, "keeper_previous_node"@, "Previous Node"@, 30, false, "previous_node"@),
        context_tmpl(BuiltinModule::StaticContext, "keeper_current_node"@, "Current Node"@, 40, true, "current_node"@),
        context_tmpl(BuiltinModule::StaticContext, "keeper_previous_cast"@, "Previous Cast"@, 50, false, "previous_cast"@),
        context_tmpl(BuiltinModule::StaticContext, "keeper_current_cast"@, "Current Cast"@, 60, true, "current_cast"@),
        context_tmpl(BuiltinModule::StaticContext, "keeper_player_state_schema"@, "Player State Schema"@, 70, false, "player_state_schema"@),
        context_tmpl(BuiltinModule::StaticContext, "keeper_phase"@, "Keeper Phase"@, 80, true, "keeper_phase"@),
        context_tmpl(BuiltinModule::StaticContext, "keeper_node_change"@, "Node Change"@, 90, false, "node_change"@),
        context_tmpl(BuiltinModule::StaticContext, "keeper_progression_hints"@, "Progression Hints"@, 100, false, "progression_hints"@),
        context_tmpl(BuiltinModule::DynamicContext, "keeper_lorebook_matched"@, "Lorebook Matched"@, 10, false, "lorebook_matched"@),
        context_tmpl(BuiltinModule::DynamicContext, "keeper_world_state"@, "World State"@, 20, true, "world_state"@),
        context_tmpl(BuiltinModule::DynamicContext, "keeper_player_input"@, "Player Input"@, 40, true, "player_input"@),
        context_tmpl(BuiltinModule::DynamicContext, "keeper_completed_beats"@, "Completed Beats"@, 50, false, "completed_beats"@),
        text_tmpl(BuiltinModule::Output, "keeper_output_core"@, "Output Contract"@, 10, true, KEEPER_OUTPUT_CONTRACT@),
    ]
}

fn keeper_template_list() -> (v: Vec<BuiltInEntryTemplate>)
    ensures
        template_views(v@) == keeper_templates(),
{
    let mut v: Vec<BuiltInEntryTemplate> = Vec::new();
    v.push(text_entry(BuiltinModule::Role, "keeper_role_core", "Core Role", 10, true, KEEPER_ROLE_CORE));
    v.push(text_entry(BuiltinModule::Task, "keeper_task_core", "State Task", 10, true, KEEPER_TASK_CORE));
    v.push(context_entry(BuiltinModule::StaticContext, "keeper_lorebook_base", "Lorebook Base", 10, false, "lorebook_base"));
    v.push(context_entry(BuiltinModule::StaticContext, "keeper_player", "Player", 20, true, "player"));
    v.push(context_entry(BuiltinModule::StaticContext, "keeper_previous_node", "Previous Node", 30, false, "previous_node"));
    v.push(context_entry(BuiltinModule::StaticContext, "keeper_current_node", "Current Node", 40, true, "current_node"));
    v.push(context_entry(BuiltinModule::StaticContext, "keeper_previous_cast", "Previous Cast", 50, false, "previous_cast"));
    v.push(context_entry(BuiltinModule::StaticContext, "keeper_current_cast", "Current Cast", 60, true, "current_cast"));
    v.push(context_entry(BuiltinModule::StaticContext, "keeper_player_state_schema", "Player State Schema", 70, false, "player_state_schema"));
    v.push(context_entry(BuiltinModule::StaticContext, "keeper_phase", "Keeper Phase", 80, true, "keeper_phase"));
    v.push(context_entry(BuiltinModule::StaticContext, "keeper_node_change", "Node Change", 90, false, "node_change"));
    v.push(context_entry(BuiltinModule::StaticContext, "keeper_progression_hints", "Progression Hints", 100, false, "progression_hints"));
    v.push(context_entry(BuiltinModule::DynamicContext, "keeper_lorebook_matched", "Lorebook Matched", 10, false, "lorebook_matched"));
    v.push(context_entry(BuiltinModule::DynamicContext, "keeper_world_state", "World State", 20, true, "world_state"));
    v.push(context_entry(BuiltinModule::DynamicContext, "keeper_player_input", "Player Input", 40, true, "player_input"));
    v.push(context_entry(BuiltinModule::DynamicContext, "keeper_completed_beats", "Completed Beats", 50, false, "completed_beats"));
    v.push(text_entry(BuiltinModule::Output, "keeper_output_core", "Output Contract", 10, true, KEEPER_OUTPUT_CONTRACT));
    assert(template_views(v@) =~= keeper_templates());
    v
}

/// The built-in entry templates of the Replyer agent.
pub open spec fn replyer_templates() -> Seq<TemplateView> {
    seq![
        text_tmpl(BuiltinModule::Role, "replyer_role_core"@, "Core Role"@, 10, true, REPLYER_ROLE_CORE@),
        text_tmpl(BuiltinModule::Task, "replyer_task_core"@, "Reply Task"@, 10, true, REPLYER_TASK_CORE@),
        context_tmpl(BuiltinModule::StaticContext, "replyer_lorebook_base"@, "Lorebook Base"@, 10, false, "lorebook_base"@),
        context_tmpl(BuiltinModule::StaticContext, "replyer_player"@, "Player"@, 20, true, "player"@),
        context_tmpl(BuiltinModule::StaticContext, "replyer_limit"@, "Reply Limit"@, 30, true, "reply_limit"@),
        context_tmpl(BuiltinModule::StaticContext, "replyer_current_cast"@, "Current Cast"@, 40, true, "current_cast"@),
        context_tmpl(BuiltinModule::StaticContext, "replyer_current_node"@, "Current Node"@, 50, true, "current_node"@),
        context_tmpl(BuiltinModule::StaticContext, "replyer_player_state_schema"@, "Player State Schema"@, 60, false, "player_state_schema"@),
        context_tmpl(BuiltinModule::DynamicContext, "replyer_world_state"@, "World State"@, 10, true, "world_state"@),
        context_tmpl(BuiltinModule::DynamicContext, "replyer_session_history"@, "Session History"@, 20, true, "session_history"@),
        context_tmpl(BuiltinModule::DynamicContext, "replyer_lorebook_matched"@, "Lorebook Matched"@, 30, false, "lorebook_matched"@),
        text_tmpl(BuiltinModule::Output, "replyer_output_core"@, "Output Contract"@, 10, true, REPLYER_OUTPUT_CONTRACT@),
    ]
}

fn replyer_template_list() -> (v: Vec<BuiltInEntryTemplate>)
    ensures
        template_views(v@) == replyer_templates(),
{
    let mut v: Vec<BuiltInEntryTemplate> = Vec::new();
    v.push(text_entry(BuiltinModule::Role, "replyer_role_core", "Core Role", 10, true, REPLYER_ROLE_CORE));
    v.push(text_entry(BuiltinModule::Task, "replyer_task_core", "Reply Task", 10, true, REPLYER_TASK_CORE));
    v.push(context_entry(BuiltinModule::StaticContext, "replyer_lorebook_base", "Lorebook Base", 10, false, "lorebook_base"));
    v.push(context_entry(BuiltinModule::StaticContext, "replyer_player", "Player", 20, true, "player"));
    v.push(context_entry(BuiltinModule::StaticContext, "replyer_limit", "Reply Limit", 30, true, "reply_limit"));
    v.push(context_entry(BuiltinModule::StaticContext, "replyer_current_cast", "Current Cast", 40, true, "current_cast"));
    v.push(context_entry(BuiltinModule::StaticContext, "replyer_current_node", "Current Node", 50, true, "current_node"));
    v.push(context_entry(BuiltinModule::StaticContext, "replyer_player_state_schema", "Player State Schema", 60, false, "player_state_schema"));
    v.push(context_entry(BuiltinModule::DynamicContext, "replyer_world_state", "World State", 10, true, "world_state"));
    v.push(context_entry(BuiltinModule::DynamicContext, "replyer_session_history", "Session History", 20, true, "session_history"));
    v.push(context_entry(BuiltinModule::DynamicContext, "replyer_lorebook_matched", "Lorebook Matched", 30, false, "lorebook_matched"));
    v.push(text_entry(BuiltinModule::Output, "replyer_output_core", "Output Contract", 10, true, REPLYER_OUTPUT_CONTRACT));
    assert(template_views(v@) =~= replyer_templates());
    v
}

/// The built-in entry templates of an agent, ordered by module, then order,
/// then entry id.
pub open spec fn agent_templates(agent: PromptAgentKind) -> Seq<TemplateView> {
    match agent {
        PromptAgentKind::Planner => planner_templates(),
        PromptAgentKind::Architect => architect_templates(),
        PromptAgentKind::Director => director_templates(),
        PromptAgentKind::Actor => actor_templates(),
        PromptAgentKind::Narrator => narrator_templates(),
        PromptAgentKind::Keeper => keeper_templates(),
        PromptAgentKind::Replyer => replyer_templates(),
    }
}

/// The built-in entry templates of an agent.
pub fn templates_for_agent(agent: PromptAgentKind) -> (v: Vec<BuiltInEntryTemplate>)
    ensures
        template_views(v@) == agent_templates(agent),
{
    match agent {
        PromptAgentKind::Planner => planner_template_list(),
        PromptAgentKind::Architect => architect_template_list(),
        PromptAgentKind::Director => director_template_list(),
        PromptAgentKind::Actor => actor_template_list(),
        PromptAgentKind::Narrator => narrator_template_list(),
        PromptAgentKind::Keeper => keeper_template_list(),
        PromptAgentKind::Replyer => replyer_template_list(),
    }
}

/// The rank of a built-in module in the default module order.
pub open spec fn module_rank(m: BuiltinModule) -> int {
    match m {
        BuiltinModule::Role => 0,
        BuiltinModule::Task => 1,
        BuiltinModule::StaticContext => 2,
        BuiltinModule::DynamicContext => 3,
        BuiltinModule::Output => 4,
    }
}

/// `module_sort_key`: the rank of a built-in module.
pub fn module_sort_key(m: BuiltinModule) -> (k: i32)
    ensures
        k == module_rank(m),
{
    match m {
        BuiltinModule::Role => 0,
        BuiltinModule::Task => 1,
        BuiltinModule::StaticContext => 2,
        BuiltinModule::DynamicContext => 3,
        BuiltinModule::Output => 4,
    }
}

} // verus!
