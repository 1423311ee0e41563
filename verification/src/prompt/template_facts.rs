//! Facts about the built-in templates that the preset laws rest on: entry
//! ids are unique, ids and names carry no surrounding whitespace, and no
//! template uses an id that normalization drops.
use vstd::prelude::*;

use crate::prompt::templates::{TemplateView, planner_templates, architect_templates, director_templates, actor_templates, narrator_templates, keeper_templates, replyer_templates};
use crate::prompt::types::{PromptAgentKind, PromptEntryKind};
use crate::text::trim_seq;

verus! {

/// The template data the preset laws need: unique ids, and ids and names
/// that are trimmed and not empty, none of them one that normalization drops,
/// no template of the custom kind, and, within a module, orders that rise
/// with the template order.
pub open spec fn templates_ok(ts: Seq<TemplateView>, removed: Seq<char>) -> bool {
    &&& forall|i: int, j: int|
        0 <= i < j < ts.len() ==> (#[trigger] ts[i]).entry_id != (#[trigger] ts[j]).entry_id
    &&& forall|i: int, j: int|
        0 <= i < j < ts.len() && (#[trigger] ts[i]).module == (#[trigger] ts[j]).module ==> ts[i].order
            < ts[j].order
    &&& forall|i: int|
        0 <= i < ts.len() ==> {
            &&& trim_seq((#[trigger] ts[i]).entry_id) == ts[i].entry_id
            &&& ts[i].entry_id.len() > 0
            &&& trim_seq(ts[i].display_name) == ts[i].display_name
            &&& ts[i].display_name.len() > 0
            &&& ts[i].entry_id != removed
            &&& ts[i].kind != PromptEntryKind::CustomText
        }
}

/// The planner templates satisfy `templates_ok`.
pub proof fn lemma_planner_templates_ok()
    ensures
        templates_ok(planner_templates(), "director_player_input"@),
{
    let ts = planner_templates();
    reveal_strlit("planner_role_core");
    reveal_strlit("Core Role");
    reveal_strlit("planner_task_core");
    reveal_strlit("Planning Task");
    reveal_strlit("planner_story_concept");
    reveal_strlit("Story Concept");
    reveal_strlit("planner_lorebook_base");
    reveal_strlit("Lorebook Base");
    reveal_strlit("planner_available_characters");
    reveal_strlit("Available Characters");
    reveal_strlit("planner_lorebook_matched");
    reveal_strlit("Lorebook Matched");
    reveal_strlit("planner_output_core");
    reveal_strlit("Output Contract");
    reveal_strlit("director_player_input");
    assert(trim_seq("planner_role_core"@) == "planner_role_core"@);
    assert(trim_seq("Core Role"@) == "Core Role"@);
    assert(trim_seq("planner_task_core"@) == "planner_task_core"@);
    assert(trim_seq("Planning Task"@) == "Planning Task"@);
    assert(trim_seq("planner_story_concept"@) == "planner_story_concept"@);
    assert(trim_seq("Story Concept"@) == "Story Concept"@);
    assert(trim_seq("planner_lorebook_base"@) == "planner_lorebook_base"@);
    assert(trim_seq("Lorebook Base"@) == "Lorebook Base"@);
    assert(trim_seq("planner_available_characters"@) == "planner_available_characters"@);
    assert(trim_seq("Available Characters"@) == "Available Characters"@);
    assert(trim_seq("planner_lorebook_matched"@) == "planner_lorebook_matched"@);
    assert(trim_seq("Lorebook Matched"@) == "Lorebook Matched"@);
    assert(trim_seq("planner_output_core"@) == "planner_output_core"@);
    assert(trim_seq("Output Contract"@) == "Output Contract"@);
    assert(ts[0].entry_id == "planner_role_core"@);
    assert(ts[0].display_name == "Core Role"@);
    assert("planner_role_core"@ != "director_player_input"@);
    assert(ts[1].entry_id == "planner_task_core"@);
    assert(ts[1].display_name == "Planning Task"@);
    assert("planner_task_core"@ != "director_player_input"@);
    assert(ts[2].entry_id == "planner_story_concept"@);
    assert(ts[2].display_name == "Story Concept"@);
    assert("planner_story_concept"@[0] != "director_player_input"@[0]);
    assert("planner_story_concept"@ != "director_player_input"@);
    assert(ts[3].entry_id == "planner_lorebook_base"@);
    assert(ts[3].display_name == "Lorebook Base"@);
    assert("planner_lorebook_base"@[0] != "director_player_input"@[0]);
    assert("planner_lorebook_base"@ != "director_player_input"@);
    assert(ts[4].entry_id == "planner_available_characters"@);
    assert(ts[4].display_name == "Available Characters"@);
    assert("planner_available_characters"@ != "director_player_input"@);
    assert(ts[5].entry_id == "planner_lorebook_matched"@);
    assert(ts[5].display_name == "Lorebook Matched"@);
    assert("planner_lorebook_matched"@ != "director_player_input"@);
    assert(ts[6].entry_id == "planner_output_core"@);
    assert(ts[6].display_name == "Output Contract"@);
    assert("planner_output_core"@ != "director_player_input"@);
    assert("planner_role_core"@[8] != "planner_task_core"@[8]);
    assert("planner_role_core"@ != "planner_task_core"@);
    assert("planner_role_core"@ != "planner_story_concept"@);
    assert("planner_role_core"@ != "planner_lorebook_base"@);
    assert("planner_role_core"@ != "planner_available_characters"@);
    assert("planner_role_core"@ != "planner_lorebook_matched"@);
    assert("planner_role_core"@ != "planner_output_core"@);
    assert("planner_task_core"@ != "planner_story_concept"@);
    assert("planner_task_core"@ != "planner_lorebook_base"@);
    assert("planner_task_core"@ != "planner_available_characters"@);
    assert("planner_task_core"@ != "planner_lorebook_matched"@);
    assert("planner_task_core"@ != "planner_output_core"@);
    assert("planner_story_concept"@[8] != "planner_lorebook_base"@[8]);
    assert("planner_story_concept"@ != "planner_lorebook_base"@);
    assert("planner_story_concept"@ != "planner_available_characters"@);
    assert("planner_story_concept"@ != "planner_lorebook_matched"@);
    assert("planner_story_concept"@ != "planner_output_core"@);
    assert("planner_lorebook_base"@ != "planner_available_characters"@);
    assert("planner_lorebook_base"@ != "planner_lorebook_matched"@);
    assert("planner_lorebook_base"@ != "planner_output_core"@);
    assert("planner_available_characters"@ != "planner_lorebook_matched"@);
    assert("planner_available_characters"@ != "planner_output_core"@);
    assert("planner_lorebook_matched"@ != "planner_output_core"@);
}

/// The architect templates satisfy `templates_ok`.
pub proof fn lemma_architect_templates_ok()
    ensures
        templates_ok(architect_templates(), "director_player_input"@),
{
    let ts = architect_templates();
    reveal_strlit("architect_role_core");
    reveal_strlit("Core Role");
    reveal_strlit("architect_task_core");
    reveal_strlit("Architecture Task");
    reveal_strlit("architect_story_concept");
    reveal_strlit("Story Concept");
    reveal_strlit("architect_lorebook_base");
    reveal_strlit("Lorebook Base");
    reveal_strlit("architect_planned_story");
    reveal_strlit("Planned Story");
    reveal_strlit("architect_available_characters");
    reveal_strlit("Available Characters");
    reveal_strlit("architect_world_state_schema_seed");
    reveal_strlit("World State Schema Seed");
    reveal_strlit("architect_player_state_schema_seed");
    reveal_strlit("Player State Schema Seed");
    reveal_strlit("architect_world_state_schema");
    reveal_strlit("World State Schema");
    reveal_strlit("architect_player_state_schema");
    reveal_strlit("Player State Schema");
    reveal_strlit("architect_section_summaries");
    reveal_strlit("Section Summaries");
    reveal_strlit("architect_current_section");
    reveal_strlit("Current Section");
    reveal_strlit("architect_section_index");
    reveal_strlit("Section Index");
    reveal_strlit("architect_total_sections");
    reveal_strlit("Total Sections");
    reveal_strlit("architect_target_node_count");
    reveal_strlit("Target Node Count");
    reveal_strlit("architect_graph_summary");
    reveal_strlit("Graph Summary");
    reveal_strlit("architect_recent_section_detail");
    reveal_strlit("Recent Section Detail");
    reveal_strlit("architect_lorebook_matched");
    reveal_strlit("Lorebook Matched");
    reveal_strlit("architect_output_core");
    reveal_strlit("Output Contract");
    reveal_strlit("director_player_input");
    assert(trim_seq("architect_role_core"@) == "architect_role_core"@);
    assert(trim_seq("Core Role"@) == "Core Role"@);
    assert(trim_seq("architect_task_core"@) == "architect_task_core"@);
    assert(trim_seq("Architecture Task"@) == "Architecture Task"@);
    assert(trim_seq("architect_story_concept"@) == "architect_story_concept"@);
    assert(trim_seq("Story Concept"@) == "Story Concept"@);
    assert(trim_seq("architect_lorebook_base"@) == "architect_lorebook_base"@);
    assert(trim_seq("Lorebook Base"@) == "Lorebook Base"@);
    assert(trim_seq("architect_planned_story"@) == "architect_planned_story"@);
    assert(trim_seq("Planned Story"@) == "Planned Story"@);
    assert(trim_seq("architect_available_characters"@) == "architect_available_characters"@);
    assert(trim_seq("Available Characters"@) == "Available Characters"@);
    assert(trim_seq("architect_world_state_schema_seed"@) == "architect_world_state_schema_seed"@);
    assert(trim_seq("World State Schema Seed"@) == "World State Schema Seed"@);
    assert(trim_seq("architect_player_state_schema_seed"@) == "architect_player_state_schema_seed"@);
    assert(trim_seq("Player State Schema Seed"@) == "Player State Schema Seed"@);
    assert(trim_seq("architect_world_state_schema"@) == "architect_world_state_schema"@);
    assert(trim_seq("World State Schema"@) == "World State Schema"@);
    assert(trim_seq("architect_player_state_schema"@) == "architect_player_state_schema"@);
    assert(trim_seq("Player State Schema"@) == "Player State Schema"@);
    assert(trim_seq("architect_section_summaries"@) == "architect_section_summaries"@);
    assert(trim_seq("Section Summaries"@) == "Section Summaries"@);
    assert(trim_seq("architect_current_section"@) == "architect_current_section"@);
    assert(trim_seq("Current Section"@) == "Current Section"@);
    assert(trim_seq("architect_section_index"@) == "architect_section_index"@);
    assert(trim_seq("Section Index"@) == "Section Index"@);
    assert(trim_seq("architect_total_sections"@) == "architect_total_sections"@);
    assert(trim_seq("Total Sections"@) == "Total Sections"@);
    assert(trim_seq("architect_target_node_count"@) == "architect_target_node_count"@);
    assert(trim_seq("Target Node Count"@) == "Target Node Count"@);
    assert(trim_seq("architect_graph_summary"@) == "architect_graph_summary"@);
    assert(trim_seq("Graph Summary"@) == "Graph Summary"@);
    assert(trim_seq("architect_recent_section_detail"@) == "architect_recent_section_detail"@);
    assert(trim_seq("Recent Section Detail"@) == "Recent Section Detail"@);
    assert(trim_seq("architect_lorebook_matched"@) == "architect_lorebook_matched"@);
    assert(trim_seq("Lorebook Matched"@) == "Lorebook Matched"@);
    assert(trim_seq("architect_output_core"@) == "architect_output_core"@);
    assert(trim_seq("Output Contract"@) == "Output Contract"@);
    assert(ts[0].entry_id == "architect_role_core"@);
    assert(ts[0].display_name == "Core Role"@);
    assert("architect_role_core"@ != "director_player_input"@);
    assert(ts[1].entry_id == "architect_task_core"@);
    assert(ts[1].display_name == "Architecture Task"@);
    assert("architect_task_core"@ != "director_player_input"@);
    assert(ts[2].entry_id == "architect_story_concept"@);
    assert(ts[2].display_name == "Story Concept"@);
    assert("architect_story_concept"@ != "director_player_input"@);
    assert(ts[3].entry_id == "architect_lorebook_base"@);
    assert(ts[3].display_name == "Lorebook Base"@);
    assert("architect_lorebook_base"@ != "director_player_input"@);
    assert(ts[4].entry_id == "architect_planned_story"@);
    assert(ts[4].display_name == "Planned Story"@);
    assert("architect_planned_story"@ != "director_player_input"@);
    assert(ts[5].entry_id == "architect_available_characters"@);
    assert(ts[5].display_name == "Available Characters"@);
    assert("architect_available_characters"@ != "director_player_input"@);
    assert(ts[6].entry_id == "architect_world_state_schema_seed"@);
    assert(ts[6].display_name == "World State Schema Seed"@);
    assert("architect_world_state_schema_seed"@ != "director_player_input"@);
    assert(ts[7].entry_id == "architect_player_state_schema_seed"@);
    assert(ts[7].display_name == "Player State Schema Seed"@);
    assert("architect_player_state_schema_seed"@ != "director_player_input"@);
    assert(ts[8].entry_id == "architect_world_state_schema"@);
    assert(ts[8].display_name == "World State Schema"@);
    assert("architect_world_state_schema"@ != "director_player_input"@);
    assert(ts[9].entry_id == "architect_player_state_schema"@);
    assert(ts[9].display_name == "Player State Schema"@);
    assert("architect_player_state_schema"@ != "director_player_input"@);
    assert(ts[10].entry_id == "architect_section_summaries"@);
    assert(ts[10].display_name == "Section Summaries"@);
    assert("architect_section_summaries"@ != "director_player_input"@);
    assert(ts[11].entry_id == "architect_current_section"@);
    assert(ts[11].display_name == "Current Section"@);
    assert("architect_current_section"@ != "director_player_input"@);
    assert(ts[12].entry_id == "architect_section_index"@);
    assert(ts[12].display_name == "Section Index"@);
    assert("architect_section_index"@ != "director_player_input"@);
    assert(ts[13].entry_id == "architect_total_sections"@);
    assert(ts[13].display_name == "Total Sections"@);
    assert("architect_total_sections"@ != "director_player_input"@);
    assert(ts[14].entry_id == "architect_target_node_count"@);
    assert(ts[14].display_name == "Target Node Count"@);
    assert("architect_target_node_count"@ != "director_player_input"@);
    assert(ts[15].entry_id == "architect_graph_summary"@);
    assert(ts[15].display_name == "Graph Summary"@);
    assert("architect_graph_summary"@ != "director_player_input"@);
    assert(ts[16].entry_id == "architect_recent_section_detail"@);
    assert(ts[16].display_name == "Recent Section Detail"@);
    assert("architect_recent_section_detail"@ != "director_player_input"@);
    assert(ts[17].entry_id == "architect_lorebook_matched"@);
    assert(ts[17].display_name == "Lorebook Matched"@);
    assert("architect_lorebook_matched"@ != "director_player_input"@);
    assert(ts[18].entry_id == "architect_output_core"@);
    assert(ts[18].display_name == "Output Contract"@);
    assert("architect_output_core"@[0] != "director_player_input"@[0]);
    assert("architect_output_core"@ != "director_player_input"@);
    assert("architect_role_core"@[10] != "architect_task_core"@[10]);
    assert("architect_role_core"@ != "architect_task_core"@);
    assert("architect_role_core"@ != "architect_story_concept"@);
    assert("architect_role_core"@ != "architect_lorebook_base"@);
    assert("architect_role_core"@ != "architect_planned_story"@);
    assert("architect_role_core"@ != "architect_available_characters"@);
    assert("architect_role_core"@ != "architect_world_state_schema_seed"@);
    assert("architect_role_core"@ != "architect_player_state_schema_seed"@);
    assert("architect_role_core"@ != "architect_world_state_schema"@);
    assert("architect_role_core"@ != "architect_player_state_schema"@);
    assert("architect_role_core"@ != "architect_section_summaries"@);
    assert("architect_role_core"@ != "architect_current_section"@);
    assert("architect_role_core"@ != "architect_section_index"@);
    assert("architect_role_core"@ != "architect_total_sections"@);
    assert("architect_role_core"@ != "architect_target_node_count"@);
    assert("architect_role_core"@ != "architect_graph_summary"@);
    assert("architect_role_core"@ != "architect_recent_section_detail"@);
    assert("architect_role_core"@ != "architect_lorebook_matched"@);
    assert("architect_role_core"@ != "architect_output_core"@);
    assert("architect_task_core"@ != "architect_story_concept"@);
    assert("architect_task_core"@ != "architect_lorebook_base"@);
    assert("architect_task_core"@ != "architect_planned_story"@);
    assert("architect_task_core"@ != "architect_available_characters"@);
    assert("architect_task_core"@ != "architect_world_state_schema_seed"@);
    assert("architect_task_core"@ != "architect_player_state_schema_seed"@);
    assert("architect_task_core"@ != "architect_world_state_schema"@);
    assert("architect_task_core"@ != "architect_player_state_schema"@);
    assert("architect_task_core"@ != "architect_section_summaries"@);
    assert("architect_task_core"@ != "architect_current_section"@);
    assert("architect_task_core"@ != "architect_section_index"@);
    assert("architect_task_core"@ != "architect_total_sections"@);
    assert("architect_task_core"@ != "architect_target_node_count"@);
    assert("architect_task_core"@ != "architect_graph_summary"@);
    assert("architect_task_core"@ != "architect_recent_section_detail"@);
    assert("architect_task_core"@ != "architect_lorebook_matched"@);
    assert("architect_task_core"@ != "architect_output_core"@);
    assert("architect_story_concept"@[10] != "architect_lorebook_base"@[10]);
    assert("architect_story_concept"@ != "architect_lorebook_base"@);
    assert("architect_story_concept"@[10] != "architect_planned_story"@[10]);
    assert("architect_story_concept"@ != "architect_planned_story"@);
    assert("architect_story_concept"@ != "architect_available_characters"@);
    assert("architect_story_concept"@ != "architect_world_state_schema_seed"@);
    assert("architect_story_concept"@ != "architect_player_state_schema_seed"@);
    assert("architect_story_concept"@ != "architect_world_state_schema"@);
    assert("architect_story_concept"@ != "architect_player_state_schema"@);
    assert("architect_story_concept"@ != "architect_section_summaries"@);
    assert("architect_story_concept"@ != "architect_current_section"@);
    assert("architect_story_concept"@[11] != "architect_section_index"@[11]);
    assert("architect_story_concept"@ != "architect_section_index"@);
    assert("architect_story_concept"@ != "architect_total_sections"@);
    assert("architect_story_concept"@ != "architect_target_node_count"@);
    assert("architect_story_concept"@[10] != "architect_graph_summary"@[10]);
    assert("architect_story_concept"@ != "architect_graph_summary"@);
    assert("architect_story_concept"@ != "architect_recent_section_detail"@);
    assert("architect_story_concept"@ != "architect_lorebook_matched"@);
    assert("architect_story_concept"@ != "architect_output_core"@);
    assert("architect_lorebook_base"@[10] != "architect_planned_story"@[10]);
    assert("architect_lorebook_base"@ != "architect_planned_story"@);
    assert("architect_lorebook_base"@ != "architect_available_characters"@);
    assert("architect_lorebook_base"@ != "architect_world_state_schema_seed"@);
    assert("architect_lorebook_base"@ != "architect_player_state_schema_seed"@);
    assert("architect_lorebook_base"@ != "architect_world_state_schema"@);
    assert("architect_lorebook_base"@ != "architect_player_state_schema"@);
    assert("architect_lorebook_base"@ != "architect_section_summaries"@);
    assert("architect_lorebook_base"@ != "architect_current_section"@);
    assert("architect_lorebook_base"@[10] != "architect_section_index"@[10]);
    assert("architect_lorebook_base"@ != "architect_section_index"@);
    assert("architect_lorebook_base"@ != "architect_total_sections"@);
    assert("architect_lorebook_base"@ != "architect_target_node_count"@);
    assert("architect_lorebook_base"@[10] != "architect_graph_summary"@[10]);
    assert("architect_lorebook_base"@ != "architect_graph_summary"@);
    assert("architect_lorebook_base"@ != "architect_recent_section_detail"@);
    assert("architect_lorebook_base"@ != "architect_lorebook_matched"@);
    assert("architect_lorebook_base"@ != "architect_output_core"@);
    assert("architect_planned_story"@ != "architect_available_characters"@);
    assert("architect_planned_story"@ != "architect_world_state_schema_seed"@);
    assert("architect_planned_story"@ != "architect_player_state_schema_seed"@);
    assert("architect_planned_story"@ != "architect_world_state_schema"@);
    assert("architect_planned_story"@ != "architect_player_state_schema"@);
    assert("architect_planned_story"@ != "architect_section_summaries"@);
    assert("architect_planned_story"@ != "architect_current_section"@);
    assert("architect_planned_story"@[10] != "architect_section_index"@[10]);
    assert("architect_planned_story"@ != "architect_section_index"@);
    assert("architect_planned_story"@ != "architect_total_sections"@);
    assert("architect_planned_story"@ != "architect_target_node_count"@);
    assert("architect_planned_story"@[10] != "architect_graph_summary"@[10]);
    assert("architect_planned_story"@ != "architect_graph_summary"@);
    assert("architect_planned_story"@ != "architect_recent_section_detail"@);
    assert("architect_planned_story"@ != "architect_lorebook_matched"@);
    assert("architect_planned_story"@ != "architect_output_core"@);
    assert("architect_available_characters"@ != "architect_world_state_schema_seed"@);
    assert("architect_available_characters"@ != "architect_player_state_schema_seed"@);
    assert("architect_available_characters"@ != "architect_world_state_schema"@);
    assert("architect_available_characters"@ != "architect_player_state_schema"@);
    assert("architect_available_characters"@ != "architect_section_summaries"@);
    assert("architect_available_characters"@ != "architect_current_section"@);
    assert("architect_available_characters"@ != "architect_section_index"@);
    assert("architect_available_characters"@ != "architect_total_sections"@);
    assert("architect_available_characters"@ != "architect_target_node_count"@);
    assert("architect_available_characters"@ != "architect_graph_summary"@);
    assert("architect_available_characters"@ != "architect_recent_section_detail"@);
    assert("architect_available_characters"@ != "architect_lorebook_matched"@);
    assert("architect_available_characters"@ != "architect_output_core"@);
    assert("architect_world_state_schema_seed"@ != "architect_player_state_schema_seed"@);
    assert("architect_world_state_schema_seed"@ != "architect_world_state_schema"@);
    assert("architect_world_state_schema_seed"@ != "architect_player_state_schema"@);
    assert("architect_world_state_schema_seed"@ != "architect_section_summaries"@);
    assert("architect_world_state_schema_seed"@ != "architect_current_section"@);
    assert("architect_world_state_schema_seed"@ != "architect_section_index"@);
    assert("architect_world_state_schema_seed"@ != "architect_total_sections"@);
    assert("architect_world_state_schema_seed"@ != "architect_target_node_count"@);
    assert("architect_world_state_schema_seed"@ != "architect_graph_summary"@);
    assert("architect_world_state_schema_seed"@ != "architect_recent_section_detail"@);
    assert("architect_world_state_schema_seed"@ != "architect_lorebook_matched"@);
    assert("architect_world_state_schema_seed"@ != "architect_output_core"@);
    assert("architect_player_state_schema_seed"@ != "architect_world_state_schema"@);
    assert("architect_player_state_schema_seed"@ != "architect_player_state_schema"@);
    assert("architect_player_state_schema_seed"@ != "architect_section_summaries"@);
    assert("architect_player_state_schema_seed"@ != "architect_current_section"@);
    assert("architect_player_state_schema_seed"@ != "architect_section_index"@);
    assert("architect_player_state_schema_seed"@ != "architect_total_sections"@);
    assert("architect_player_state_schema_seed"@ != "architect_target_node_count"@);
    assert("architect_player_state_schema_seed"@ != "architect_graph_summary"@);
    assert("architect_player_state_schema_seed"@ != "architect_recent_section_detail"@);
    assert("architect_player_state_schema_seed"@ != "architect_lorebook_matched"@);
    assert("architect_player_state_schema_seed"@ != "architect_output_core"@);
    assert("architect_world_state_schema"@ != "architect_player_state_schema"@);
    assert("architect_world_state_schema"@ != "architect_section_summaries"@);
    assert("architect_world_state_schema"@ != "architect_current_section"@);
    assert("architect_world_state_schema"@ != "architect_section_index"@);
    assert("architect_world_state_schema"@ != "architect_total_sections"@);
    assert("architect_world_state_schema"@ != "architect_target_node_count"@);
    assert("architect_world_state_schema"@ != "architect_graph_summary"@);
    assert("architect_world_state_schema"@ != "architect_recent_section_detail"@);
    assert("architect_world_state_schema"@ != "architect_lorebook_matched"@);
    assert("architect_world_state_schema"@ != "architect_output_core"@);
    assert("architect_player_state_schema"@ != "architect_section_summaries"@);
    assert("architect_player_state_schema"@ != "architect_current_section"@);
    assert("architect_player_state_schema"@ != "architect_section_index"@);
    assert("architect_player_state_schema"@ != "architect_total_sections"@);
    assert("architect_player_state_schema"@ != "architect_target_node_count"@);
    assert("architect_player_state_schema"@ != "architect_graph_summary"@);
    assert("architect_player_state_schema"@ != "architect_recent_section_detail"@);
    assert("architect_player_state_schema"@ != "architect_lorebook_matched"@);
    assert("architect_player_state_schema"@ != "architect_output_core"@);
    assert("architect_section_summaries"@ != "architect_current_section"@);
    assert("architect_section_summaries"@ != "architect_section_index"@);
    assert("architect_section_summaries"@ != "architect_total_sections"@);
    assert("architect_section_summaries"@[10] != "architect_target_node_count"@[10]);
    assert("architect_section_summaries"@ != "architect_target_node_count"@);
    assert("architect_section_summaries"@ != "architect_graph_summary"@);
    assert("architect_section_summaries"@ != "architect_recent_section_detail"@);
    assert("architect_section_summaries"@ != "architect_lorebook_matched"@);
    assert("architect_section_summaries"@ != "architect_output_core"@);
    assert("architect_current_section"@ != "architect_section_index"@);
    assert("architect_current_section"@ != "architect_total_sections"@);
    assert("architect_current_section"@ != "architect_target_node_count"@);
    assert("architect_current_section"@ != "architect_graph_summary"@);
    assert("architect_current_section"@ != "architect_recent_section_detail"@);
    assert("architect_current_section"@ != "architect_lorebook_matched"@);
    assert("architect_current_section"@ != "architect_output_core"@);
    assert("architect_section_index"@ != "architect_total_sections"@);
    assert("architect_section_index"@ != "architect_target_node_count"@);
    assert("architect_section_index"@[10] != "architect_graph_summary"@[10]);
    assert("architect_section_index"@ != "architect_graph_summary"@);
    assert("architect_section_index"@ != "architect_recent_section_detail"@);
    assert("architect_section_index"@ != "architect_lorebook_matched"@);
    assert("architect_section_index"@ != "architect_output_core"@);
    assert("architect_total_sections"@ != "architect_target_node_count"@);
    assert("architect_total_sections"@ != "architect_graph_summary"@);
    assert("architect_total_sections"@ != "architect_recent_section_detail"@);
    assert("architect_total_sections"@ != "architect_lorebook_matched"@);
    assert("architect_total_sections"@ != "architect_output_core"@);
    assert("architect_target_node_count"@ != "architect_graph_summary"@);
    assert("architect_target_node_count"@ != "architect_recent_section_detail"@);
    assert("architect_target_node_count"@ != "architect_lorebook_matched"@);
    assert("architect_target_node_count"@ != "architect_output_core"@);
    assert("architect_graph_summary"@ != "architect_recent_section_detail"@);
    assert("architect_graph_summary"@ != "architect_lorebook_matched"@);
    assert("architect_graph_summary"@ != "architect_output_core"@);
    assert("architect_recent_section_detail"@ != "architect_lorebook_matched"@);
    assert("architect_recent_section_detail"@ != "architect_output_core"@);
    assert("architect_lorebook_matched"@ != "architect_output_core"@);
}

/// The director templates satisfy `templates_ok`.
pub proof fn lemma_director_templates_ok()
    ensures
        templates_ok(director_templates(), "director_player_input"@),
{
    let ts = director_templates();
    reveal_strlit("director_role_core");
    reveal_strlit("Core Role");
    reveal_strlit("director_task_core");
    reveal_strlit("Turn Task");
    reveal_strlit("director_lorebook_base");
    reveal_strlit("Lorebook Base");
    reveal_strlit("director_player");
    reveal_strlit("Player");
    reveal_strlit("director_current_cast");
    reveal_strlit("Current Cast");
    reveal_strlit("director_current_node");
    reveal_strlit("Current Node");
    reveal_strlit("director_player_state_schema");
    reveal_strlit("Player State Schema");
    reveal_strlit("director_lorebook_matched");
    reveal_strlit("Lorebook Matched");
    reveal_strlit("director_world_state");
    reveal_strlit("World State");
    reveal_strlit("director_shared_history");
    reveal_strlit("Shared History");
    reveal_strlit("director_output_core");
    reveal_strlit("Output Contract");
    reveal_strlit("director_player_input");
    assert(trim_seq("director_role_core"@) == "director_role_core"@);
    assert(trim_seq("Core Role"@) == "Core Role"@);
    assert(trim_seq("director_task_core"@) == "director_task_core"@);
    assert(trim_seq("Turn Task"@) == "Turn Task"@);
    assert(trim_seq("director_lorebook_base"@) == "director_lorebook_base"@);
    assert(trim_seq("Lorebook Base"@) == "Lorebook Base"@);
    assert(trim_seq("director_player"@) == "director_player"@);
    assert(trim_seq("Player"@) == "Player"@);
    assert(trim_seq("director_current_cast"@) == "director_current_cast"@);
    assert(trim_seq("Current Cast"@) == "Current Cast"@);
    assert(trim_seq("director_current_node"@) == "director_current_node"@);
    assert(trim_seq("Current Node"@) == "Current Node"@);
    assert(trim_seq("director_player_state_schema"@) == "director_player_state_schema"@);
    assert(trim_seq("Player State Schema"@) == "Player State Schema"@);
    assert(trim_seq("director_lorebook_matched"@) == "director_lorebook_matched"@);
    assert(trim_seq("Lorebook Matched"@) == "Lorebook Matched"@);
    assert(trim_seq("director_world_state"@) == "director_world_state"@);
    assert(trim_seq("World State"@) == "World State"@);
    assert(trim_seq("director_shared_history"@) == "director_shared_history"@);
    assert(trim_seq("Shared History"@) == "Shared History"@);
    assert(trim_seq("director_output_core"@) == "director_output_core"@);
    assert(trim_seq("Output Contract"@) == "Output Contract"@);
    assert(ts[0].entry_id == "director_role_core"@);
    assert(ts[0].display_name == "Core Role"@);
    assert("director_role_core"@ != "director_player_input"@);
    assert(ts[1].entry_id == "director_task_core"@);
    assert(ts[1].display_name == "Turn Task"@);
    assert("director_task_core"@ != "director_player_input"@);
    assert(ts[2].entry_id == "director_lorebook_base"@);
    assert(ts[2].display_name == "Lorebook Base"@);
    assert("director_lorebook_base"@ != "director_player_input"@);
    assert(ts[3].entry_id == "director_player"@);
    assert(ts[3].display_name == "Player"@);
    assert("director_player"@ != "director_player_input"@);
    assert(ts[4].entry_id == "director_current_cast"@);
    assert(ts[4].display_name == "Current Cast"@);
    assert("director_current_cast"@[9] != "director_player_input"@[9]);
    assert("director_current_cast"@ != "director_player_input"@);
    assert(ts[5].entry_id == "director_current_node"@);
    assert(ts[5].display_name == "Current Node"@);
    assert("director_current_node"@[9] != "director_player_input"@[9]);
    assert("director_current_node"@ != "director_player_input"@);
    assert(ts[6].entry_id == "director_player_state_schema"@);
    assert(ts[6].display_name == "Player State Schema"@);
    assert("director_player_state_schema"@ != "director_player_input"@);
    assert(ts[7].entry_id == "director_lorebook_matched"@);
    assert(ts[7].display_name == "Lorebook Matched"@);
    assert("director_lorebook_matched"@ != "director_player_input"@);
    assert(ts[8].entry_id == "director_world_state"@);
    assert(ts[8].display_name == "World State"@);
    assert("director_world_state"@ != "director_player_input"@);
    assert(ts[9].entry_id == "director_shared_history"@);
    assert(ts[9].display_name == "Shared History"@);
    assert("director_shared_history"@ != "director_player_input"@);
    assert(ts[10].entry_id == "director_output_core"@);
    assert(ts[10].display_name == "Output Contract"@);
    assert("director_output_core"@ != "director_player_input"@);
    assert("director_role_core"@[9] != "director_task_core"@[9]);
    assert("director_role_core"@ != "director_task_core"@);
    assert("director_role_core"@ != "director_lorebook_base"@);
    assert("director_role_core"@ != "director_player"@);
    assert("director_role_core"@ != "director_current_cast"@);
    assert("director_role_core"@ != "director_current_node"@);
    assert("director_role_core"@ != "director_player_state_schema"@);
    assert("director_role_core"@ != "director_lorebook_matched"@);
    assert("director_role_core"@ != "director_world_state"@);
    assert("director_role_core"@ != "director_shared_history"@);
    assert("director_role_core"@ != "director_output_core"@);
    assert("director_task_core"@ != "director_lorebook_base"@);
    assert("director_task_core"@ != "director_player"@);
    assert("director_task_core"@ != "director_current_cast"@);
    assert("director_task_core"@ != "director_current_node"@);
    assert("director_task_core"@ != "director_player_state_schema"@);
    assert("director_task_core"@ != "director_lorebook_matched"@);
    assert("director_task_core"@ != "director_world_state"@);
    assert("director_task_core"@ != "director_shared_history"@);
    assert("director_task_core"@ != "director_output_core"@);
    assert("director_lorebook_base"@ != "director_player"@);
    assert("director_lorebook_base"@ != "director_current_cast"@);
    assert("director_lorebook_base"@ != "director_current_node"@);
    assert("director_lorebook_base"@ != "director_player_state_schema"@);
    assert("director_lorebook_base"@ != "director_lorebook_matched"@);
    assert("director_lorebook_base"@ != "director_world_state"@);
    assert("director_lorebook_base"@ != "director_shared_history"@);
    assert("director_lorebook_base"@ != "director_output_core"@);
    assert("director_player"@ != "director_current_cast"@);
    assert("director_player"@ != "director_current_node"@);
    assert("director_player"@ != "director_player_state_schema"@);
    assert("director_player"@ != "director_lorebook_matched"@);
    assert("director_player"@ != "director_world_state"@);
    assert("director_player"@ != "director_shared_history"@);
    assert("director_player"@ != "director_output_core"@);
    assert("director_current_cast"@[17] != "director_current_node"@[17]);
    assert("director_current_cast"@ != "director_current_node"@);
    assert("director_current_cast"@ != "director_player_state_schema"@);
    assert("director_current_cast"@ != "director_lorebook_matched"@);
    assert("director_current_cast"@ != "director_world_state"@);
    assert("director_current_cast"@ != "director_shared_history"@);
    assert("director_current_cast"@ != "director_output_core"@);
    assert("director_current_node"@ != "director_player_state_schema"@);
    assert("director_current_node"@ != "director_lorebook_matched"@);
    assert("director_current_node"@ != "director_world_state"@);
    assert("director_current_node"@ != "director_shared_history"@);
    assert("director_current_node"@ != "director_output_core"@);
    assert("director_player_state_schema"@ != "director_lorebook_matched"@);
    assert("director_player_state_schema"@ != "director_world_state"@);
    assert("director_player_state_schema"@ != "director_shared_history"@);
    assert("director_player_state_schema"@ != "director_output_core"@);
    assert("director_lorebook_matched"@ != "director_world_state"@);
    assert("director_lorebook_matched"@ != "director_shared_history"@);
    assert("director_lorebook_matched"@ != "director_output_core"@);
    assert("director_world_state"@ != "director_shared_history"@);
    assert("director_world_state"@[9] != "director_output_core"@[9]);
    assert("director_world_state"@ != "director_output_core"@);
    assert("director_shared_history"@ != "director_output_core"@);
}

/// The actor templates satisfy `templates_ok`.
pub proof fn lemma_actor_templates_ok()
    ensures
        templates_ok(actor_templates(), "director_player_input"@),
{
    let ts = actor_templates();
    reveal_strlit("actor_role_core");
    reveal_strlit("Core Role");
    reveal_strlit("actor_task_core");
    reveal_strlit("Performance Task");
    reveal_strlit("actor_lorebook_base");
    reveal_strlit("Lorebook Base");
    reveal_strlit("actor_player");
    reveal_strlit("Player");
    reveal_strlit("actor_current_cast");
    reveal_strlit("Current Cast");
    reveal_strlit("actor_current_node");
    reveal_strlit("Current Node");
    reveal_strlit("actor_lorebook_matched");
    reveal_strlit("Lorebook Matched");
    reveal_strlit("actor_world_state");
    reveal_strlit("World State");
    reveal_strlit("actor_shared_history");
    reveal_strlit("Shared History");
    reveal_strlit("actor_private_memory");
    reveal_strlit("Private Memory");
    reveal_strlit("actor_purpose");
    reveal_strlit("Actor Purpose");
    reveal_strlit("actor_output_core");
    reveal_strlit("Output Contract");
    reveal_strlit("director_player_input");
    assert(trim_seq("actor_role_core"@) == "actor_role_core"@);
    assert(trim_seq("Core Role"@) == "Core Role"@);
    assert(trim_seq("actor_task_core"@) == "actor_task_core"@);
    assert(trim_seq("Performance Task"@) == "Performance Task"@);
    assert(trim_seq("actor_lorebook_base"@) == "actor_lorebook_base"@);
    assert(trim_seq("Lorebook Base"@) == "Lorebook Base"@);
    assert(trim_seq("actor_player"@) == "actor_player"@);
    assert(trim_seq("Player"@) == "Player"@);
    assert(trim_seq("actor_current_cast"@) == "actor_current_cast"@);
    assert(trim_seq("Current Cast"@) == "Current Cast"@);
    assert(trim_seq("actor_current_node"@) == "actor_current_node"@);
    assert(trim_seq("Current Node"@) == "Current Node"@);
    assert(trim_seq("actor_lorebook_matched"@) == "actor_lorebook_matched"@);
    assert(trim_seq("Lorebook Matched"@) == "Lorebook Matched"@);
    assert(trim_seq("actor_world_state"@) == "actor_world_state"@);
    assert(trim_seq("World State"@) == "World State"@);
    assert(trim_seq("actor_shared_history"@) == "actor_shared_history"@);
    assert(trim_seq("Shared History"@) == "Shared History"@);
    assert(trim_seq("actor_private_memory"@) == "actor_private_memory"@);
    assert(trim_seq("Private Memory"@) == "Private Memory"@);
    assert(trim_seq("actor_purpose"@) == "actor_purpose"@);
    assert(trim_seq("Actor Purpose"@) == "Actor Purpose"@);
    assert(trim_seq("actor_output_core"@) == "actor_output_core"@);
    assert(trim_seq("Output Contract"@) == "Output Contract"@);
    assert(ts[0].entry_id == "actor_role_core"@);
    assert(ts[0].display_name == "Core Role"@);
    assert("actor_role_core"@ != "director_player_input"@);
    assert(ts[1].entry_id == "actor_task_core"@);
    assert(ts[1].display_name == "Performance Task"@);
    assert("actor_task_core"@ != "director_player_input"@);
    assert(ts[2].entry_id == "actor_lorebook_base"@);
    assert(ts[2].display_name == "Lorebook Base"@);
    assert("actor_lorebook_base"@ != "director_player_input"@);
    assert(ts[3].entry_id == "actor_player"@);
    assert(ts[3].display_name == "Player"@);
    assert("actor_player"@ != "director_player_input"@);
    assert(ts[4].entry_id == "actor_current_cast"@);
    assert(ts[4].display_name == "Current Cast"@);
    assert("actor_current_cast"@ != "director_player_input"@);
    assert(ts[5].entry_id == "actor_current_node"@);
    assert(ts[5].display_name == "Current Node"@);
    assert("actor_current_node"@ != "director_player_input"@);
    assert(ts[6].entry_id == "actor_lorebook_matched"@);
    assert(ts[6].display_name == "Lorebook Matched"@);
    assert("actor_lorebook_matched"@ != "director_player_input"@);
    assert(ts[7].entry_id == "actor_world_state"@);
    assert(ts[7].display_name == "World State"@);
    assert("actor_world_state"@ != "director_player_input"@);
    assert(ts[8].entry_id == "actor_shared_history"@);
    assert(ts[8].display_name == "Shared History"@);
    assert("actor_shared_history"@ != "director_player_input"@);
    assert(ts[9].entry_id == "actor_private_memory"@);
    assert(ts[9].display_name == "Private Memory"@);
    assert("actor_private_memory"@ != "director_player_input"@);
    assert(ts[10].entry_id == "actor_purpose"@);
    assert(ts[10].display_name == "Actor Purpose"@);
    assert("actor_purpose"@ != "director_player_input"@);
    assert(ts[11].entry_id == "actor_output_core"@);
    assert(ts[11].display_name == "Output Contract"@);
    assert("actor_output_core"@ != "director_player_input"@);
    assert("actor_role_core"@[6] != "actor_task_core"@[6]);
    assert("actor_role_core"@ != "actor_task_core"@);
    assert("actor_role_core"@ != "actor_lorebook_base"@);
    assert("actor_role_core"@ != "actor_player"@);
    assert("actor_role_core"@ != "actor_current_cast"@);
    assert("actor_role_core"@ != "actor_current_node"@);
    assert("actor_role_core"@ != "actor_lorebook_matched"@);
    assert("actor_role_core"@ != "actor_world_state"@);
    assert("actor_role_core"@ != "actor_shared_history"@);
    assert("actor_role_core"@ != "actor_private_memory"@);
    assert("actor_role_core"@ != "actor_purpose"@);
    assert("actor_role_core"@ != "actor_output_core"@);
    assert("actor_task_core"@ != "actor_lorebook_base"@);
    assert("actor_task_core"@ != "actor_player"@);
    assert("actor_task_core"@ != "actor_current_cast"@);
    assert("actor_task_core"@ != "actor_current_node"@);
    assert("actor_task_core"@ != "actor_lorebook_matched"@);
    assert("actor_task_core"@ != "actor_world_state"@);
    assert("actor_task_core"@ != "actor_shared_history"@);
    assert("actor_task_core"@ != "actor_private_memory"@);
    assert("actor_task_core"@ != "actor_purpose"@);
    assert("actor_task_core"@ != "actor_output_core"@);
    assert("actor_lorebook_base"@ != "actor_player"@);
    assert("actor_lorebook_base"@ != "actor_current_cast"@);
    assert("actor_lorebook_base"@ != "actor_current_node"@);
    assert("actor_lorebook_base"@ != "actor_lorebook_matched"@);
    assert("actor_lorebook_base"@ != "actor_world_state"@);
    assert("actor_lorebook_base"@ != "actor_shared_history"@);
    assert("actor_lorebook_base"@ != "actor_private_memory"@);
    assert("actor_lorebook_base"@ != "actor_purpose"@);
    assert("actor_lorebook_base"@ != "actor_output_core"@);
    assert("actor_player"@ != "actor_current_cast"@);
    assert("actor_player"@ != "actor_current_node"@);
    assert("actor_player"@ != "actor_lorebook_matched"@);
    assert("actor_player"@ != "actor_world_state"@);
    assert("actor_player"@ != "actor_shared_history"@);
    assert("actor_player"@ != "actor_private_memory"@);
    assert("actor_player"@ != "actor_purpose"@);
    assert("actor_player"@ != "actor_output_core"@);
    assert("actor_current_cast"@[14] != "actor_current_node"@[14]);
    assert("actor_current_cast"@ != "actor_current_node"@);
    assert("actor_current_cast"@ != "actor_lorebook_matched"@);
    assert("actor_current_cast"@ != "actor_world_state"@);
    assert("actor_current_cast"@ != "actor_shared_history"@);
    assert("actor_current_cast"@ != "actor_private_memory"@);
    assert("actor_current_cast"@ != "actor_purpose"@);
    assert("actor_current_cast"@ != "actor_output_core"@);
    assert("actor_current_node"@ != "actor_lorebook_matched"@);
    assert("actor_current_node"@ != "actor_world_state"@);
    assert("actor_current_node"@ != "actor_shared_history"@);
    assert("actor_current_node"@ != "actor_private_memory"@);
    assert("actor_current_node"@ != "actor_purpose"@);
    assert("actor_current_node"@ != "actor_output_core"@);
    assert("actor_lorebook_matched"@ != "actor_world_state"@);
    assert("actor_lorebook_matched"@ != "actor_shared_history"@);
    assert("actor_lorebook_matched"@ != "actor_private_memory"@);
    assert("actor_lorebook_matched"@ != "actor_purpose"@);
    assert("actor_lorebook_matched"@ != "actor_output_core"@);
    assert("actor_world_state"@ != "actor_shared_history"@);
    assert("actor_world_state"@ != "actor_private_memory"@);
    assert("actor_world_state"@ != "actor_purpose"@);
    assert("actor_world_state"@[6] != "actor_output_core"@[6]);
    assert("actor_world_state"@ != "actor_output_core"@);
    assert("actor_shared_history"@[6] != "actor_private_memory"@[6]);
    assert("actor_shared_history"@ != "actor_private_memory"@);
    assert("actor_shared_history"@ != "actor_purpose"@);
    assert("actor_shared_history"@ != "actor_output_core"@);
    assert("actor_private_memory"@ != "actor_purpose"@);
    assert("actor_private_memory"@ != "actor_output_core"@);
    assert("actor_purpose"@ != "actor_output_core"@);
}

/// The narrator templates satisfy `templates_ok`.
pub proof fn lemma_narrator_templates_ok()
    ensures
        templates_ok(narrator_templates(), "director_player_input"@),
{
    let ts = narrator_templates();
    reveal_strlit("narrator_role_core");
    reveal_strlit("Core Role");
    reveal_strlit("narrator_task_core");
    reveal_strlit("Narration Task");
    reveal_strlit("narrator_lorebook_base");
    reveal_strlit("Lorebook Base");
    reveal_strlit("narrator_player");
    reveal_strlit("Player");
    reveal_strlit("narrator_previous_node");
    reveal_strlit("Previous Node");
    reveal_strlit("narrator_current_node");
    reveal_strlit("Current Node");
    reveal_strlit("narrator_previous_cast");
    reveal_strlit("Previous Cast");
    reveal_strlit("narrator_current_cast");
    reveal_strlit("Current Cast");
    reveal_strlit("narrator_player_state_schema");
    reveal_strlit("Player State Schema");
    reveal_strlit("narrator_purpose");
    reveal_strlit("Narrator Purpose");
    reveal_strlit("narrator_lorebook_matched");
    reveal_strlit("Lorebook Matched");
    reveal_strlit("narrator_world_state");
    reveal_strlit("World State");
    reveal_strlit("narrator_shared_history");
    reveal_strlit("Shared History");
    reveal_strlit("narrator_output_core");
    reveal_strlit("Output Contract");
    reveal_strlit("director_player_input");
    assert(trim_seq("narrator_role_core"@) == "narrator_role_core"@);
    assert(trim_seq("Core Role"@) == "Core Role"@);
    assert(trim_seq("narrator_task_core"@) == "narrator_task_core"@);
    assert(trim_seq("Narration Task"@) == "Narration Task"@);
    assert(trim_seq("narrator_lorebook_base"@) == "narrator_lorebook_base"@);
    assert(trim_seq("Lorebook Base"@) == "Lorebook Base"@);
    assert(trim_seq("narrator_player"@) == "narrator_player"@);
    assert(trim_seq("Player"@) == "Player"@);
    assert(trim_seq("narrator_previous_node"@) == "narrator_previous_node"@);
    assert(trim_seq("Previous Node"@) == "Previous Node"@);
    assert(trim_seq("narrator_current_node"@) == "narrator_current_node"@);
    assert(trim_seq("Current Node"@) == "Current Node"@);
    assert(trim_seq("narrator_previous_cast"@) == "narrator_previous_cast"@);
    assert(trim_seq("Previous Cast"@) == "Previous Cast"@);
    assert(trim_seq("narrator_current_cast"@) == "narrator_current_cast"@);
    assert(trim_seq("Current Cast"@) == "Current Cast"@);
    assert(trim_seq("narrator_player_state_schema"@) == "narrator_player_state_schema"@);
    assert(trim_seq("Player State Schema"@) == "Player State Schema"@);
    assert(trim_seq("narrator_purpose"@) == "narrator_purpose"@);
    assert(trim_seq("Narrator Purpose"@) == "Narrator Purpose"@);
    assert(trim_seq("narrator_lorebook_matched"@) == "narrator_lorebook_matched"@);
    assert(trim_seq("Lorebook Matched"@) == "Lorebook Matched"@);
    assert(trim_seq("narrator_world_state"@) == "narrator_world_state"@);
    assert(trim_seq("World State"@) == "World State"@);
    assert(trim_seq("narrator_shared_history"@) == "narrator_shared_history"@);
    assert(trim_seq("Shared History"@) == "Shared History"@);
    assert(trim_seq("narrator_output_core"@) == "narrator_output_core"@);
    assert(trim_seq("Output Contract"@) == "Output Contract"@);
    assert(ts[0].entry_id == "narrator_role_core"@);
    assert(ts[0].display_name == "Core Role"@);
    assert("narrator_role_core"@ != "director_player_input"@);
    assert(ts[1].entry_id == "narrator_task_core"@);
    assert(ts[1].display_name == "Narration Task"@);
    assert("narrator_task_core"@ != "director_player_input"@);
    assert(ts[2].entry_id == "narrator_lorebook_base"@);
    assert(ts[2].display_name == "Lorebook Base"@);
    assert("narrator_lorebook_base"@ != "director_player_input"@);
    assert(ts[3].entry_id == "narrator_player"@);
    assert(ts[3].display_name == "Player"@);
    assert("narrator_player"@ != "director_player_input"@);
    assert(ts[4].entry_id == "narrator_previous_node"@);
    assert(ts[4].display_name == "Previous Node"@);
    assert("narrator_previous_node"@ != "director_player_input"@);
    assert(ts[5].entry_id == "narrator_current_node"@);
    assert(ts[5].display_name == "Current Node"@);
    assert("narrator_current_node"@[0] != "director_player_input"@[0]);
    assert("narrator_current_node"@ != "director_player_input"@);
    assert(ts[6].entry_id == "narrator_previous_cast"@);
    assert(ts[6].display_name == "Previous Cast"@);
    assert("narrator_previous_cast"@ != "director_player_input"@);
    assert(ts[7].entry_id == "narrator_current_cast"@);
    assert(ts[7].display_name == "Current Cast"@);
    assert("narrator_current_cast"@[0] != "director_player_input"@[0]);
    assert("narrator_current_cast"@ != "director_player_input"@);
    assert(ts[8].entry_id == "narrator_player_state_schema"@);
    assert(ts[8].display_name == "Player State Schema"@);
    assert("narrator_player_state_schema"@ != "director_player_input"@);
    assert(ts[9].entry_id == "narrator_purpose"@);
    assert(ts[9].display_name == "Narrator Purpose"@);
    assert("narrator_purpose"@ != "director_player_input"@);
    assert(ts[10].entry_id == "narrator_lorebook_matched"@);
    assert(ts[10].display_name == "Lorebook Matched"@);
    assert("narrator_lorebook_matched"@ != "director_player_input"@);
    assert(ts[11].entry_id == "narrator_world_state"@);
    assert(ts[11].display_name == "World State"@);
    assert("narrator_world_state"@ != "director_player_input"@);
    assert(ts[12].entry_id == "narrator_shared_history"@);
    assert(ts[12].display_name == "Shared History"@);
    assert("narrator_shared_history"@ != "director_player_input"@);
    assert(ts[13].entry_id == "narrator_output_core"@);
    assert(ts[13].display_name == "Output Contract"@);
    assert("narrator_output_core"@ != "director_player_input"@);
    assert("narrator_role_core"@[9] != "narrator_task_core"@[9]);
    assert("narrator_role_core"@ != "narrator_task_core"@);
    assert("narrator_role_core"@ != "narrator_lorebook_base"@);
    assert("narrator_role_core"@ != "narrator_player"@);
    assert("narrator_role_core"@ != "narrator_previous_node"@);
    assert("narrator_role_core"@ != "narrator_current_node"@);
    assert("narrator_role_core"@ != "narrator_previous_cast"@);
    assert("narrator_role_core"@ != "narrator_current_cast"@);
    assert("narrator_role_core"@ != "narrator_player_state_schema"@);
    assert("narrator_role_core"@ != "narrator_purpose"@);
    assert("narrator_role_core"@ != "narrator_lorebook_matched"@);
    assert("narrator_role_core"@ != "narrator_world_state"@);
    assert("narrator_role_core"@ != "narrator_shared_history"@);
    assert("narrator_role_core"@ != "narrator_output_core"@);
    assert("narrator_task_core"@ != "narrator_lorebook_base"@);
    assert("narrator_task_core"@ != "narrator_player"@);
    assert("narrator_task_core"@ != "narrator_previous_node"@);
    assert("narrator_task_core"@ != "narrator_current_node"@);
    assert("narrator_task_core"@ != "narrator_previous_cast"@);
    assert("narrator_task_core"@ != "narrator_current_cast"@);
    assert("narrator_task_core"@ != "narrator_player_state_schema"@);
    assert("narrator_task_core"@ != "narrator_purpose"@);
    assert("narrator_task_core"@ != "narrator_lorebook_matched"@);
    assert("narrator_task_core"@ != "narrator_world_state"@);
    assert("narrator_task_core"@ != "narrator_shared_history"@);
    assert("narrator_task_core"@ != "narrator_output_core"@);
    assert("narrator_lorebook_base"@ != "narrator_player"@);
    assert("narrator_lorebook_base"@[9] != "narrator_previous_node"@[9]);
    assert("narrator_lorebook_base"@ != "narrator_previous_node"@);
    assert("narrator_lorebook_base"@ != "narrator_current_node"@);
    assert("narrator_lorebook_base"@[9] != "narrator_previous_cast"@[9]);
    assert("narrator_lorebook_base"@ != "narrator_previous_cast"@);
    assert("narrator_lorebook_base"@ != "narrator_current_cast"@);
    assert("narrator_lorebook_base"@ != "narrator_player_state_schema"@);
    assert("narrator_lorebook_base"@ != "narrator_purpose"@);
    assert("narrator_lorebook_base"@ != "narrator_lorebook_matched"@);
    assert("narrator_lorebook_base"@ != "narrator_world_state"@);
    assert("narrator_lorebook_base"@ != "narrator_shared_history"@);
    assert("narrator_lorebook_base"@ != "narrator_output_core"@);
    assert("narrator_player"@ != "narrator_previous_node"@);
    assert("narrator_player"@ != "narrator_current_node"@);
    assert("narrator_player"@ != "narrator_previous_cast"@);
    assert("narrator_player"@ != "narrator_current_cast"@);
    assert("narrator_player"@ != "narrator_player_state_schema"@);
    assert("narrator_player"@ != "narrator_purpose"@);
    assert("narrator_player"@ != "narrator_lorebook_matched"@);
    assert("narrator_player"@ != "narrator_world_state"@);
    assert("narrator_player"@ != "narrator_shared_history"@);
    assert("narrator_player"@ != "narrator_output_core"@);
    assert("narrator_previous_node"@ != "narrator_current_node"@);
    assert("narrator_previous_node"@[18] != "narrator_previous_cast"@[18]);
    assert("narrator_previous_node"@ != "narrator_previous_cast"@);
    assert("narrator_previous_node"@ != "narrator_current_cast"@);
    assert("narrator_previous_node"@ != "narrator_player_state_schema"@);
    assert("narrator_previous_node"@ != "narrator_purpose"@);
    assert("narrator_previous_node"@ != "narrator_lorebook_matched"@);
    assert("narrator_previous_node"@ != "narrator_world_state"@);
    assert("narrator_previous_node"@ != "narrator_shared_history"@);
    assert("narrator_previous_node"@ != "narrator_output_core"@);
    assert("narrator_current_node"@ != "narrator_previous_cast"@);
    assert("narrator_current_node"@[17] != "narrator_current_cast"@[17]);
    assert("narrator_current_node"@ != "narrator_current_cast"@);
    assert("narrator_current_node"@ != "narrator_player_state_schema"@);
    assert("narrator_current_node"@ != "narrator_purpose"@);
    assert("narrator_current_node"@ != "narrator_lorebook_matched"@);
    assert("narrator_current_node"@ != "narrator_world_state"@);
    assert("narrator_current_node"@ != "narrator_shared_history"@);
    assert("narrator_current_node"@ != "narrator_output_core"@);
    assert("narrator_previous_cast"@ != "narrator_current_cast"@);
    assert("narrator_previous_cast"@ != "narrator_player_state_schema"@);
    assert("narrator_previous_cast"@ != "narrator_purpose"@);
    assert("narrator_previous_cast"@ != "narrator_lorebook_matched"@);
    assert("narrator_previous_cast"@ != "narrator_world_state"@);
    assert("narrator_previous_cast"@ != "narrator_shared_history"@);
    assert("narrator_previous_cast"@ != "narrator_output_core"@);
    assert("narrator_current_cast"@ != "narrator_player_state_schema"@);
    assert("narrator_current_cast"@ != "narrator_purpose"@);
    assert("narrator_current_cast"@ != "narrator_lorebook_matched"@);
    assert("narrator_current_cast"@ != "narrator_world_state"@);
    assert("narrator_current_cast"@ != "narrator_shared_history"@);
    assert("narrator_current_cast"@ != "narrator_output_core"@);
    assert("narrator_player_state_schema"@ != "narrator_purpose"@);
    assert("narrator_player_state_schema"@ != "narrator_lorebook_matched"@);
    assert("narrator_player_state_schema"@ != "narrator_world_state"@);
    assert("narrator_player_state_schema"@ != "narrator_shared_history"@);
    assert("narrator_player_state_schema"@ != "narrator_output_core"@);
    assert("narrator_purpose"@ != "narrator_lorebook_matched"@);
    assert("narrator_purpose"@ != "narrator_world_state"@);
    assert("narrator_purpose"@ != "narrator_shared_history"@);
    assert("narrator_purpose"@ != "narrator_output_core"@);
    assert("narrator_lorebook_matched"@ != "narrator_world_state"@);
    assert("narrator_lorebook_matched"@ != "narrator_shared_history"@);
    assert("narrator_lorebook_matched"@ != "narrator_output_core"@);
    assert("narrator_world_state"@ != "narrator_shared_history"@);
    assert("narrator_world_state"@[9] != "narrator_output_core"@[9]);
    assert("narrator_world_state"@ != "narrator_output_core"@);
    assert("narrator_shared_history"@ != "narrator_output_core"@);
}

/// The keeper templates satisfy `templates_ok`.
pub proof fn lemma_keeper_templates_ok()
    ensures
        templates_ok(keeper_templates(), "keeper_shared_history"@),
{
    let ts = keeper_templates();
    reveal_strlit("keeper_role_core");
    reveal_strlit("Core Role");
    reveal_strlit("keeper_task_core");
    reveal_strlit("State Task");
    reveal_strlit("keeper_lorebook_base");
    reveal_strlit("Lorebook Base");
    reveal_strlit("keeper_player");
    reveal_strlit("Player");
    reveal_strlit("keeper_previous_node");
    reveal_strlit("Previous Node");
    reveal_strlit("keeper_current_node");
    reveal_strlit("Current Node");
    reveal_strlit("keeper_previous_cast");
    reveal_strlit("Previous Cast");
    reveal_strlit("keeper_current_cast");
    reveal_strlit("Current Cast");
    reveal_strlit("keeper_player_state_schema");
    reveal_strlit("Player State Schema");
    reveal_strlit("keeper_phase");
    reveal_strlit("Keeper Phase");
    reveal_strlit("keeper_node_change");
    reveal_strlit("Node Change");
    reveal_strlit("keeper_progression_hints");
    reveal_strlit("Progression Hints");
    reveal_strlit("keeper_lorebook_matched");
    reveal_strlit("Lorebook Matched");
    reveal_strlit("keeper_world_state");
    reveal_strlit("World State");
    reveal_strlit("keeper_player_input");
    reveal_strlit("Player Input");
    reveal_strlit("keeper_completed_beats");
    reveal_strlit("Completed Beats");
    reveal_strlit("keeper_output_core");
    reveal_strlit("Output Contract");
    reveal_strlit("keeper_shared_history");
    assert(trim_seq("keeper_role_core"@) == "keeper_role_core"@);
    assert(trim_seq("Core Role"@) == "Core Role"@);
    assert(trim_seq("keeper_task_core"@) == "keeper_task_core"@);
    assert(trim_seq("State Task"@) == "State Task"@);
    assert(trim_seq("keeper_lorebook_base"@) == "keeper_lorebook_base"@);
    assert(trim_seq("Lorebook Base"@) == "Lorebook Base"@);
    assert(trim_seq("keeper_player"@) == "keeper_player"@);
    assert(trim_seq("Player"@) == "Player"@);
    assert(trim_seq("keeper_previous_node"@) == "keeper_previous_node"@);
    assert(trim_seq("Previous Node"@) == "Previous Node"@);
    assert(trim_seq("keeper_current_node"@) == "keeper_current_node"@);
    assert(trim_seq("Current Node"@) == "Current Node"@);
    assert(trim_seq("keeper_previous_cast"@) == "keeper_previous_cast"@);
    assert(trim_seq("Previous Cast"@) == "Previous Cast"@);
    assert(trim_seq("keeper_current_cast"@) == "keeper_current_cast"@);
    assert(trim_seq("Current Cast"@) == "Current Cast"@);
    assert(trim_seq("keeper_player_state_schema"@) == "keeper_player_state_schema"@);
    assert(trim_seq("Player State Schema"@) == "Player State Schema"@);
    assert(trim_seq("keeper_phase"@) == "keeper_phase"@);
    assert(trim_seq("Keeper Phase"@) == "Keeper Phase"@);
    assert(trim_seq("keeper_node_change"@) == "keeper_node_change"@);
    assert(trim_seq("Node Change"@) == "Node Change"@);
    assert(trim_seq("keeper_progression_hints"@) == "keeper_progression_hints"@);
    assert(trim_seq("Progression Hints"@) == "Progression Hints"@);
    assert(trim_seq("keeper_lorebook_matched"@) == "keeper_lorebook_matched"@);
    assert(trim_seq("Lorebook Matched"@) == "Lorebook Matched"@);
    assert(trim_seq("keeper_world_state"@) == "keeper_world_state"@);
    assert(trim_seq("World State"@) == "World State"@);
    assert(trim_seq("keeper_player_input"@) == "keeper_player_input"@);
    assert(trim_seq("Player Input"@) == "Player Input"@);
    assert(trim_seq("keeper_completed_beats"@) == "keeper_completed_beats"@);
    assert(trim_seq("Completed Beats"@) == "Completed Beats"@);
    assert(trim_seq("keeper_output_core"@) == "keeper_output_core"@);
    assert(trim_seq("Output Contract"@) == "Output Contract"@);
    assert(ts[0].entry_id == "keeper_role_core"@);
    assert(ts[0].display_name == "Core Role"@);
    assert("keeper_role_core"@ != "keeper_shared_history"@);
    assert(ts[1].entry_id == "keeper_task_core"@);
    assert(ts[1].display_name == "State Task"@);
    assert("keeper_task_core"@ != "keeper_shared_history"@);
    assert(ts[2].entry_id == "keeper_lorebook_base"@);
    assert(ts[2].display_name == "Lorebook Base"@);
    assert("keeper_lorebook_base"@ != "keeper_shared_history"@);
    assert(ts[3].entry_id == "keeper_player"@);
    assert(ts[3].display_name == "Player"@);
    assert("keeper_player"@ != "keeper_shared_history"@);
    assert(ts[4].entry_id == "keeper_previous_node"@);
    assert(ts[4].display_name == "Previous Node"@);
    assert("keeper_previous_node"@ != "keeper_shared_history"@);
    assert(ts[5].entry_id == "keeper_current_node"@);
    assert(ts[5].display_name == "Current Node"@);
    assert("keeper_current_node"@ != "keeper_shared_history"@);
    assert(ts[6].entry_id == "keeper_previous_cast"@);
    assert(ts[6].display_name == "Previous Cast"@);
    assert("keeper_previous_cast"@ != "keeper_shared_history"@);
    assert(ts[7].entry_id == "keeper_current_cast"@);
    assert(ts[7].display_name == "Current Cast"@);
    assert("keeper_current_cast"@ != "keeper_shared_history"@);
    assert(ts[8].entry_id == "keeper_player_state_schema"@);
    assert(ts[8].display_name == "Player State Schema"@);
    assert("keeper_player_state_schema"@ != "keeper_shared_history"@);
    assert(ts[9].entry_id == "keeper_phase"@);
    assert(ts[9].display_name == "Keeper Phase"@);
    assert("keeper_phase"@ != "keeper_shared_history"@);
    assert(ts[10].entry_id == "keeper_node_change"@);
    assert(ts[10].display_name == "Node Change"@);
    assert("keeper_node_change"@ != "keeper_shared_history"@);
    assert(ts[11].entry_id == "keeper_progression_hints"@);
    assert(ts[11].display_name == "Progression Hints"@);
    assert("keeper_progression_hints"@ != "keeper_shared_history"@);
    assert(ts[12].entry_id == "keeper_lorebook_matched"@);
    assert(ts[12].display_name == "Lorebook Matched"@);
    assert("keeper_lorebook_matched"@ != "keeper_shared_history"@);
    assert(ts[13].entry_id == "keeper_world_state"@);
    assert(ts[13].display_name == "World State"@);
    assert("keeper_world_state"@ != "keeper_shared_history"@);
    assert(ts[14].entry_id == "keeper_player_input"@);
    assert(ts[14].display_name == "Player Input"@);
    assert("keeper_player_input"@ != "keeper_shared_history"@);
    assert(ts[15].entry_id == "keeper_completed_beats"@);
    assert(ts[15].display_name == "Completed Beats"@);
    assert("keeper_completed_beats"@ != "keeper_shared_history"@);
    assert(ts[16].entry_id == "keeper_output_core"@);
    assert(ts[16].display_name == "Output Contract"@);
    assert("keeper_output_core"@ != "keeper_shared_history"@);
    assert("keeper_role_core"@[7] != "keeper_task_core"@[7]);
    assert("keeper_role_core"@ != "keeper_task_core"@);
    assert("keeper_role_core"@ != "keeper_lorebook_base"@);
    assert("keeper_role_core"@ != "keeper_player"@);
    assert("keeper_role_core"@ != "keeper_previous_node"@);
    assert("keeper_role_core"@ != "keeper_current_node"@);
    assert("keeper_role_core"@ != "keeper_previous_cast"@);
    assert("keeper_role_core"@ != "keeper_current_cast"@);
    assert("keeper_role_core"@ != "keeper_player_state_schema"@);
    assert("keeper_role_core"@ != "keeper_phase"@);
    assert("keeper_role_core"@ != "keeper_node_change"@);
    assert("keeper_role_core"@ != "keeper_progression_hints"@);
    assert("keeper_role_core"@ != "keeper_lorebook_matched"@);
    assert("keeper_role_core"@ != "keeper_world_state"@);
    assert("keeper_role_core"@ != "keeper_player_input"@);
    assert("keeper_role_core"@ != "keeper_completed_beats"@);
    assert("keeper_role_core"@ != "keeper_output_core"@);
    assert("keeper_task_core"@ != "keeper_lorebook_base"@);
    assert("keeper_task_core"@ != "keeper_player"@);
    assert("keeper_task_core"@ != "keeper_previous_node"@);
    assert("keeper_task_core"@ != "keeper_current_node"@);
    assert("keeper_task_core"@ != "keeper_previous_cast"@);
    assert("keeper_task_core"@ != "keeper_current_cast"@);
    assert("keeper_task_core"@ != "keeper_player_state_schema"@);
    assert("keeper_task_core"@ != "keeper_phase"@);
    assert("keeper_task_core"@ != "keeper_node_change"@);
    assert("keeper_task_core"@ != "keeper_progression_hints"@);
    assert("keeper_task_core"@ != "keeper_lorebook_matched"@);
    assert("keeper_task_core"@ != "keeper_world_state"@);
    assert("keeper_task_core"@ != "keeper_player_input"@);
    assert("keeper_task_core"@ != "keeper_completed_beats"@);
    assert("keeper_task_core"@ != "keeper_output_core"@);
    assert("keeper_lorebook_base"@ != "keeper_player"@);
    assert("keeper_lorebook_base"@[7] != "keeper_previous_node"@[7]);
    assert("keeper_lorebook_base"@ != "keeper_previous_node"@);
    assert("keeper_lorebook_base"@ != "keeper_current_node"@);
    assert("keeper_lorebook_base"@[7] != "keeper_previous_cast"@[7]);
    assert("keeper_lorebook_base"@ != "keeper_previous_cast"@);
    assert("keeper_lorebook_base"@ != "keeper_current_cast"@);
    assert("keeper_lorebook_base"@ != "keeper_player_state_schema"@);
    assert("keeper_lorebook_base"@ != "keeper_phase"@);
    assert("keeper_lorebook_base"@ != "keeper_node_change"@);
    assert("keeper_lorebook_base"@ != "keeper_progression_hints"@);
    assert("keeper_lorebook_base"@ != "keeper_lorebook_matched"@);
    assert("keeper_lorebook_base"@ != "keeper_world_state"@);
    assert("keeper_lorebook_base"@ != "keeper_player_input"@);
    assert("keeper_lorebook_base"@ != "keeper_completed_beats"@);
    assert("keeper_lorebook_base"@ != "keeper_output_core"@);
    assert("keeper_player"@ != "keeper_previous_node"@);
    assert("keeper_player"@ != "keeper_current_node"@);
    assert("keeper_player"@ != "keeper_previous_cast"@);
    assert("keeper_player"@ != "keeper_current_cast"@);
    assert("keeper_player"@ != "keeper_player_state_schema"@);
    assert("keeper_player"@ != "keeper_phase"@);
    assert("keeper_player"@ != "keeper_node_change"@);
    assert("keeper_player"@ != "keeper_progression_hints"@);
    assert("keeper_player"@ != "keeper_lorebook_matched"@);
    assert("keeper_player"@ != "keeper_world_state"@);
    assert("keeper_player"@ != "keeper_player_input"@);
    assert("keeper_player"@ != "keeper_completed_beats"@);
    assert("keeper_player"@ != "keeper_output_core"@);
    assert("keeper_previous_node"@ != "keeper_current_node"@);
    assert("keeper_previous_node"@[16] != "keeper_previous_cast"@[16]);
    assert("keeper_previous_node"@ != "keeper_previous_cast"@);
    assert("keeper_previous_node"@ != "keeper_current_cast"@);
    assert("keeper_previous_node"@ != "keeper_player_state_schema"@);
    assert("keeper_previous_node"@ != "keeper_phase"@);
    assert("keeper_previous_node"@ != "keeper_node_change"@);
    assert("keeper_previous_node"@ != "keeper_progression_hints"@);
    assert("keeper_previous_node"@ != "keeper_lorebook_matched"@);
    assert("keeper_previous_node"@ != "keeper_world_state"@);
    assert("keeper_previous_node"@ != "keeper_player_input"@);
    assert("keeper_previous_node"@ != "keeper_completed_beats"@);
    assert("keeper_previous_node"@ != "keeper_output_core"@);
    assert("keeper_current_node"@ != "keeper_previous_cast"@);
    assert("keeper_current_node"@[15] != "keeper_current_cast"@[15]);
    assert("keeper_current_node"@ != "keeper_current_cast"@);
    assert("keeper_current_node"@ != "keeper_player_state_schema"@);
    assert("keeper_current_node"@ != "keeper_phase"@);
    assert("keeper_current_node"@ != "keeper_node_change"@);
    assert("keeper_current_node"@ != "keeper_progression_hints"@);
    assert("keeper_current_node"@ != "keeper_lorebook_matched"@);
    assert("keeper_current_node"@ != "keeper_world_state"@);
    assert("keeper_current_node"@[7] != "keeper_player_input"@[7]);
    assert("keeper_current_node"@ != "keeper_player_input"@);
    assert("keeper_current_node"@ != "keeper_completed_beats"@);
    assert("keeper_current_node"@ != "keeper_output_core"@);
    assert("keeper_previous_cast"@ != "keeper_current_cast"@);
    assert("keeper_previous_cast"@ != "keeper_player_state_schema"@);
    assert("keeper_previous_cast"@ != "keeper_phase"@);
    assert("keeper_previous_cast"@ != "keeper_node_change"@);
    assert("keeper_previous_cast"@ != "keeper_progression_hints"@);
    assert("keeper_previous_cast"@ != "keeper_lorebook_matched"@);
    assert("keeper_previous_cast"@ != "keeper_world_state"@);
    assert("keeper_previous_cast"@ != "keeper_player_input"@);
    assert("keeper_previous_cast"@ != "keeper_completed_beats"@);
    assert("keeper_previous_cast"@ != "keeper_output_core"@);
    assert("keeper_current_cast"@ != "keeper_player_state_schema"@);
    assert("keeper_current_cast"@ != "keeper_phase"@);
    assert("keeper_current_cast"@ != "keeper_node_change"@);
    assert("keeper_current_cast"@ != "keeper_progression_hints"@);
    assert("keeper_current_cast"@ != "keeper_lorebook_matched"@);
    assert("keeper_current_cast"@ != "keeper_world_state"@);
    assert("keeper_current_cast"@[7] != "keeper_player_input"@[7]);
    assert("keeper_current_cast"@ != "keeper_player_input"@);
    assert("keeper_current_cast"@ != "keeper_completed_beats"@);
    assert("keeper_current_cast"@ != "keeper_output_core"@);
    assert("keeper_player_state_schema"@ != "keeper_phase"@);
    assert("keeper_player_state_schema"@ != "keeper_node_change"@);
    assert("keeper_player_state_schema"@ != "keeper_progression_hints"@);
    assert("keeper_player_state_schema"@ != "keeper_lorebook_matched"@);
    assert("keeper_player_state_schema"@ != "keeper_world_state"@);
    assert("keeper_player_state_schema"@ != "keeper_player_input"@);
    assert("keeper_player_state_schema"@ != "keeper_completed_beats"@);
    assert("keeper_player_state_schema"@ != "keeper_output_core"@);
    assert("keeper_phase"@ != "keeper_node_change"@);
    assert("keeper_phase"@ != "keeper_progression_hints"@);
    assert("keeper_phase"@ != "keeper_lorebook_matched"@);
    assert("keeper_phase"@ != "keeper_world_state"@);
    assert("keeper_phase"@ != "keeper_player_input"@);
    assert("keeper_phase"@ != "keeper_completed_beats"@);
    assert("keeper_phase"@ != "keeper_output_core"@);
    assert("keeper_node_change"@ != "keeper_progression_hints"@);
    assert("keeper_node_change"@ != "keeper_lorebook_matched"@);
    assert("keeper_node_change"@[7] != "keeper_world_state"@[7]);
    assert("keeper_node_change"@ != "keeper_world_state"@);
    assert("keeper_node_change"@ != "keeper_player_input"@);
    assert("keeper_node_change"@ != "keeper_completed_beats"@);
    assert("keeper_node_change"@[7] != "keeper_output_core"@[7]);
    assert("keeper_node_change"@ != "keeper_output_core"@);
    assert("keeper_progression_hints"@ != "keeper_lorebook_matched"@);
    assert("keeper_progression_hints"@ != "keeper_world_state"@);
    assert("keeper_progression_hints"@ != "keeper_player_input"@);
    assert("keeper_progression_hints"@ != "keeper_completed_beats"@);
    assert("keeper_progression_hints"@ != "keeper_output_core"@);
    assert("keeper_lorebook_matched"@ != "keeper_world_state"@);
    assert("keeper_lorebook_matched"@ != "keeper_player_input"@);
    assert("keeper_lorebook_matched"@ != "keeper_completed_beats"@);
    assert("keeper_lorebook_matched"@ != "keeper_output_core"@);
    assert("keeper_world_state"@ != "keeper_player_input"@);
    assert("keeper_world_state"@ != "keeper_completed_beats"@);
    assert("keeper_world_state"@[7] != "keeper_output_core"@[7]);
    assert("keeper_world_state"@ != "keeper_output_core"@);
    assert("keeper_player_input"@ != "keeper_completed_beats"@);
    assert("keeper_player_input"@ != "keeper_output_core"@);
    assert("keeper_completed_beats"@ != "keeper_output_core"@);
}

/// The replyer templates satisfy `templates_ok`.
pub proof fn lemma_replyer_templates_ok()
    ensures
        templates_ok(replyer_templates(), "director_player_input"@),
{
    let ts = replyer_templates();
    reveal_strlit("replyer_role_core");
    reveal_strlit("Core Role");
    reveal_strlit("replyer_task_core");
    reveal_strlit("Reply Task");
    reveal_strlit("replyer_lorebook_base");
    reveal_strlit("Lorebook Base");
    reveal_strlit("replyer_player");
    reveal_strlit("Player");
    reveal_strlit("replyer_limit");
    reveal_strlit("Reply Limit");
    reveal_strlit("replyer_current_cast");
    reveal_strlit("Current Cast");
    reveal_strlit("replyer_current_node");
    reveal_strlit("Current Node");
    reveal_strlit("replyer_player_state_schema");
    reveal_strlit("Player State Schema");
    reveal_strlit("replyer_world_state");
    reveal_strlit("World State");
    reveal_strlit("replyer_session_history");
    reveal_strlit("Session History");
    reveal_strlit("replyer_lorebook_matched");
    reveal_strlit("Lorebook Matched");
    reveal_strlit("replyer_output_core");
    reveal_strlit("Output Contract");
    reveal_strlit("director_player_input");
    assert(trim_seq("replyer_role_core"@) == "replyer_role_core"@);
    assert(trim_seq("Core Role"@) == "Core Role"@);
    assert(trim_seq("replyer_task_core"@) == "replyer_task_core"@);
    assert(trim_seq("Reply Task"@) == "Reply Task"@);
    assert(trim_seq("replyer_lorebook_base"@) == "replyer_lorebook_base"@);
    assert(trim_seq("Lorebook Base"@) == "Lorebook Base"@);
    assert(trim_seq("replyer_player"@) == "replyer_player"@);
    assert(trim_seq("Player"@) == "Player"@);
    assert(trim_seq("replyer_limit"@) == "replyer_limit"@);
    assert(trim_seq("Reply Limit"@) == "Reply Limit"@);
    assert(trim_seq("replyer_current_cast"@) == "replyer_current_cast"@);
    assert(trim_seq("Current Cast"@) == "Current Cast"@);
    assert(trim_seq("replyer_current_node"@) == "replyer_current_node"@);
    assert(trim_seq("Current Node"@) == "Current Node"@);
    assert(trim_seq("replyer_player_state_schema"@) == "replyer_player_state_schema"@);
    assert(trim_seq("Player State Schema"@) == "Player State Schema"@);
    assert(trim_seq("replyer_world_state"@) == "replyer_world_state"@);
    assert(trim_seq("World State"@) == "World State"@);
    assert(trim_seq("replyer_session_history"@) == "replyer_session_history"@);
    assert(trim_seq("Session History"@) == "Session History"@);
    assert(trim_seq("replyer_lorebook_matched"@) == "replyer_lorebook_matched"@);
    assert(trim_seq("Lorebook Matched"@) == "Lorebook Matched"@);
    assert(trim_seq("replyer_output_core"@) == "replyer_output_core"@);
    assert(trim_seq("Output Contract"@) == "Output Contract"@);
    assert(ts[0].entry_id == "replyer_role_core"@);
    assert(ts[0].display_name == "Core Role"@);
    assert("replyer_role_core"@ != "director_player_input"@);
    assert(ts[1].entry_id == "replyer_task_core"@);
    assert(ts[1].display_name == "Reply Task"@);
    assert("replyer_task_core"@ != "director_player_input"@);
    assert(ts[2].entry_id == "replyer_lorebook_base"@);
    assert(ts[2].display_name == "Lorebook Base"@);
    assert("replyer_lorebook_base"@[0] != "director_player_input"@[0]);
    assert("replyer_lorebook_base"@ != "director_player_input"@);
    assert(ts[3].entry_id == "replyer_player"@);
    assert(ts[3].display_name == "Player"@);
    assert("replyer_player"@ != "director_player_input"@);
    assert(ts[4].entry_id == "replyer_limit"@);
    assert(ts[4].display_name == "Reply Limit"@);
    assert("replyer_limit"@ != "director_player_input"@);
    assert(ts[5].entry_id == "replyer_current_cast"@);
    assert(ts[5].display_name == "Current Cast"@);
    assert("replyer_current_cast"@ != "director_player_input"@);
    assert(ts[6].entry_id == "replyer_current_node"@);
    assert(ts[6].display_name == "Current Node"@);
    assert("replyer_current_node"@ != "director_player_input"@);
    assert(ts[7].entry_id == "replyer_player_state_schema"@);
    assert(ts[7].display_name == "Player State Schema"@);
    assert("replyer_player_state_schema"@ != "director_player_input"@);
    assert(ts[8].entry_id == "replyer_world_state"@);
    assert(ts[8].display_name == "World State"@);
    assert("replyer_world_state"@ != "director_player_input"@);
    assert(ts[9].entry_id == "replyer_session_history"@);
    assert(ts[9].display_name == "Session History"@);
    assert("replyer_session_history"@ != "director_player_input"@);
    assert(ts[10].entry_id == "replyer_lorebook_matched"@);
    assert(ts[10].display_name == "Lorebook Matched"@);
    assert("replyer_lorebook_matched"@ != "director_player_input"@);
    assert(ts[11].entry_id == "replyer_output_core"@);
    assert(ts[11].display_name == "Output Contract"@);
    assert("replyer_output_core"@ != "director_player_input"@);
    assert("replyer_role_core"@[8] != "replyer_task_core"@[8]);
    assert("replyer_role_core"@ != "replyer_task_core"@);
    assert("replyer_role_core"@ != "replyer_lorebook_base"@);
    assert("replyer_role_core"@ != "replyer_player"@);
    assert("replyer_role_core"@ != "replyer_limit"@);
    assert("replyer_role_core"@ != "replyer_current_cast"@);
    assert("replyer_role_core"@ != "replyer_current_node"@);
    assert("replyer_role_core"@ != "replyer_player_state_schema"@);
    assert("replyer_role_core"@ != "replyer_world_state"@);
    assert("replyer_role_core"@ != "replyer_session_history"@);
    assert("replyer_role_core"@ != "replyer_lorebook_matched"@);
    assert("replyer_role_core"@ != "replyer_output_core"@);
    assert("replyer_task_core"@ != "replyer_lorebook_base"@);
    assert("replyer_task_core"@ != "replyer_player"@);
    assert("replyer_task_core"@ != "replyer_limit"@);
    assert("replyer_task_core"@ != "replyer_current_cast"@);
    assert("replyer_task_core"@ != "replyer_current_node"@);
    assert("replyer_task_core"@ != "replyer_player_state_schema"@);
    assert("replyer_task_core"@ != "replyer_world_state"@);
    assert("replyer_task_core"@ != "replyer_session_history"@);
    assert("replyer_task_core"@ != "replyer_lorebook_matched"@);
    assert("replyer_task_core"@ != "replyer_output_core"@);
    assert("replyer_lorebook_base"@ != "replyer_player"@);
    assert("replyer_lorebook_base"@ != "replyer_limit"@);
    assert("replyer_lorebook_base"@ != "replyer_current_cast"@);
    assert("replyer_lorebook_base"@ != "replyer_current_node"@);
    assert("replyer_lorebook_base"@ != "replyer_player_state_schema"@);
    assert("replyer_lorebook_base"@ != "replyer_world_state"@);
    assert("replyer_lorebook_base"@ != "replyer_session_history"@);
    assert("replyer_lorebook_base"@ != "replyer_lorebook_matched"@);
    assert("replyer_lorebook_base"@ != "replyer_output_core"@);
    assert("replyer_player"@ != "replyer_limit"@);
    assert("replyer_player"@ != "replyer_current_cast"@);
    assert("replyer_player"@ != "replyer_current_node"@);
    assert("replyer_player"@ != "replyer_player_state_schema"@);
    assert("replyer_player"@ != "replyer_world_state"@);
    assert("replyer_player"@ != "replyer_session_history"@);
    assert("replyer_player"@ != "replyer_lorebook_matched"@);
    assert("replyer_player"@ != "replyer_output_core"@);
    assert("replyer_limit"@ != "replyer_current_cast"@);
    assert("replyer_limit"@ != "replyer_current_node"@);
    assert("replyer_limit"@ != "replyer_player_state_schema"@);
    assert("replyer_limit"@ != "replyer_world_state"@);
    assert("replyer_limit"@ != "replyer_session_history"@);
    assert("replyer_limit"@ != "replyer_lorebook_matched"@);
    assert("replyer_limit"@ != "replyer_output_core"@);
    assert("replyer_current_cast"@[16] != "replyer_current_node"@[16]);
    assert("replyer_current_cast"@ != "replyer_current_node"@);
    assert("replyer_current_cast"@ != "replyer_player_state_schema"@);
    assert("replyer_current_cast"@ != "replyer_world_state"@);
    assert("replyer_current_cast"@ != "replyer_session_history"@);
    assert("replyer_current_cast"@ != "replyer_lorebook_matched"@);
    assert("replyer_current_cast"@ != "replyer_output_core"@);
    assert("replyer_current_node"@ != "replyer_player_state_schema"@);
    assert("replyer_current_node"@ != "replyer_world_state"@);
    assert("replyer_current_node"@ != "replyer_session_history"@);
    assert("replyer_current_node"@ != "replyer_lorebook_matched"@);
    assert("replyer_current_node"@ != "replyer_output_core"@);
    assert("replyer_player_state_schema"@ != "replyer_world_state"@);
    assert("replyer_player_state_schema"@ != "replyer_session_history"@);
    assert("replyer_player_state_schema"@ != "replyer_lorebook_matched"@);
    assert("replyer_player_state_schema"@ != "replyer_output_core"@);
    assert("replyer_world_state"@ != "replyer_session_history"@);
    assert("replyer_world_state"@ != "replyer_lorebook_matched"@);
    assert("replyer_world_state"@[8] != "replyer_output_core"@[8]);
    assert("replyer_world_state"@ != "replyer_output_core"@);
    assert("replyer_session_history"@ != "replyer_lorebook_matched"@);
    assert("replyer_session_history"@ != "replyer_output_core"@);
    assert("replyer_lorebook_matched"@ != "replyer_output_core"@);
}

} // verus!
