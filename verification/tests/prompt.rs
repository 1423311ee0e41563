use ss_engine::prompt::types::{
    AgentPromptModuleEntryConfig, PromptConfigError, PromptEntryKind, PromptModuleId,
};
use ss_engine::{
    compact_agent_preset_config, compile_architect_prompt_profiles, compile_prompt_profile,
    default_agent_preset_config, normalize_agent_preset_config, PromptAgentKind,
};

#[test]
fn compact_agent_preset_config_drops_default_built_ins() {
    let compact = compact_agent_preset_config(
        PromptAgentKind::Planner,
        default_agent_preset_config(PromptAgentKind::Planner),
    )
    .expect("default planner config should compact");

    assert!(compact.modules.is_empty());
    assert_eq!(compact.temperature_bits, None);
    assert_eq!(compact.max_tokens, None);
    assert_eq!(compact.extra_json, None);
}

#[test]
fn compact_agent_preset_config_preserves_overrides_and_custom_entries() {
    let mut config = default_agent_preset_config(PromptAgentKind::Narrator);
    let static_context_module = config
        .modules
        .iter_mut()
        .find(|module| module.module_id.same(&PromptModuleId::StaticContext))
        .expect("static context module should exist");

    let built_in = static_context_module
        .entries
        .iter_mut()
        .find(|entry| entry.entry_id == "narrator_lorebook_base")
        .expect("built-in entry should exist");
    built_in.display_name = "Narrator Lorebook Base".to_owned();
    built_in.enabled = false;
    built_in.order = 15;

    let task_module = config
        .modules
        .iter_mut()
        .find(|module| module.module_id.same(&PromptModuleId::Task))
        .expect("task module should exist");
    task_module.entries.push(AgentPromptModuleEntryConfig {
        entry_id: "narrator-tone".to_owned(),
        display_name: "Narrator Tone".to_owned(),
        kind: PromptEntryKind::CustomText,
        enabled: true,
        order: 95,
        required: false,
        text: Some("Keep the narration dry.".to_owned()),
        context_key: None,
    });

    let normalized = normalize_agent_preset_config(PromptAgentKind::Narrator, config)
        .expect("config should normalize");
    let compact = compact_agent_preset_config(PromptAgentKind::Narrator, normalized.duplicate())
        .expect("config should compact");

    assert_eq!(compact.modules.len(), 2);
    let compact_static_context = compact
        .modules
        .iter()
        .find(|module| module.module_id.same(&PromptModuleId::StaticContext))
        .expect("static context module should be stored");
    let compact_built_in = compact_static_context
        .entries
        .iter()
        .find(|entry| entry.entry_id == "narrator_lorebook_base")
        .expect("built-in override should be stored");
    assert_eq!(compact_built_in.kind, PromptEntryKind::BuiltInContextRef);
    assert_eq!(compact_built_in.text, None);
    assert_eq!(compact_built_in.context_key, None);
    assert!(!compact_built_in.enabled);
    assert_eq!(compact_built_in.order, 15);

    let expanded = normalize_agent_preset_config(PromptAgentKind::Narrator, compact)
        .expect("compact config should expand");
    assert_eq!(format!("{expanded:?}"), format!("{normalized:?}"));
}

#[test]
fn normalize_drops_removed_director_builtin_entry() {
    let mut config = default_agent_preset_config(PromptAgentKind::Director);
    let module = config
        .modules
        .iter_mut()
        .find(|module| module.module_id.same(&PromptModuleId::DynamicContext))
        .expect("dynamic context module should exist");
    module.entries.push(AgentPromptModuleEntryConfig {
        entry_id: "director_player_input".to_owned(),
        display_name: "Player Input".to_owned(),
        kind: PromptEntryKind::BuiltInContextRef,
        enabled: true,
        order: 40,
        required: true,
        text: None,
        context_key: Some("player_input".to_owned()),
    });

    let normalized = normalize_agent_preset_config(PromptAgentKind::Director, config)
        .expect("normalization should succeed");

    assert!(!normalized
        .modules
        .iter()
        .flat_map(|module| module.entries.iter())
        .any(|entry| entry.entry_id == "director_player_input"));
}

#[test]
fn default_runtime_prompt_profiles_include_output_contracts() {
    let director = compile_prompt_profile(
        PromptAgentKind::Director,
        &default_agent_preset_config(PromptAgentKind::Director),
    )
    .expect("default director prompt profile should compile");
    assert!(director.system_prompt.contains("ResponsePlan schema:"));
    assert!(director.system_prompt.contains("\"role_actions\": [SessionCharacterAction]"));
    assert!(director.system_prompt.contains("\"type\":\"Narrator\""));
    assert!(director
        .system_prompt
        .contains("Every Actor beat speaker_id must be either a CURRENT_CAST id"));

    let keeper = compile_prompt_profile(
        PromptAgentKind::Keeper,
        &default_agent_preset_config(PromptAgentKind::Keeper),
    )
    .expect("default keeper prompt profile should compile");
    assert!(keeper.system_prompt.contains("StateUpdate schema:"));
    assert!(keeper.system_prompt.contains("\"type\":\"SetCharacterState\""));
    assert!(keeper.system_prompt.contains("Always include \"ops\""));
    assert!(keeper
        .system_prompt
        .contains("Never introduce a brand-new character id in active-character ops"));

    let replyer = compile_prompt_profile(
        PromptAgentKind::Replyer,
        &default_agent_preset_config(PromptAgentKind::Replyer),
    )
    .expect("default replyer prompt profile should compile");
    assert!(replyer
        .system_prompt
        .contains("Suggest several player reply options that fit the current state of the scene"));
    assert!(replyer.system_prompt.contains(
        "Offer concise, distinct reply options grounded in the visible conversation history and current world state"
    ));
    assert!(replyer
        .system_prompt
        .contains("Let the options vary naturally in tone, intent, and commitment level"));
    assert!(replyer.system_prompt.contains("Reply suggestion schema:"));
    assert!(replyer.system_prompt.contains("\"replies\": ["));

    let actor = compile_prompt_profile(
        PromptAgentKind::Actor,
        &default_agent_preset_config(PromptAgentKind::Actor),
    )
    .expect("default actor prompt profile should compile");
    assert!(actor.system_prompt.contains("Allowed tags:"));
    assert!(actor.system_prompt.contains("<thought>...</thought>"));
    assert!(actor.system_prompt.contains("Tags may appear in any order"));
}

#[test]
fn default_architect_prompt_profiles_include_output_schemas() {
    let profiles =
        compile_architect_prompt_profiles(&default_agent_preset_config(PromptAgentKind::Architect))
            .expect("default architect prompt profiles should compile");

    assert!(profiles.graph.system_prompt.contains("Common nested schemas:"));
    assert!(profiles.graph.system_prompt.contains("\"graph\": {"));
    assert!(profiles
        .graph
        .system_prompt
        .contains("\"introduction\": \"short player-facing opening paragraph\""));
    assert!(profiles.graph.system_prompt.contains(
        "If \"enum_values\" is present, omit \"default\" or make \"default\" exactly equal to one item from \"enum_values\""
    ));
    assert!(profiles
        .graph
        .system_prompt
        .contains("Use only the exact StateOp type names listed above"));
    assert!(profiles
        .graph
        .system_prompt
        .contains("Every returned NarrativeNode id must be unique within the current response"));
    assert!(profiles
        .graph
        .system_prompt
        .contains("Use only AVAILABLE_CHARACTERS ids in NarrativeNode.characters"));

    assert!(profiles
        .draft_init
        .system_prompt
        .contains("\"transition_patches\": [NodeTransitionPatch]"));
    assert!(profiles.draft_init.system_prompt.contains("\"start_node\": \"node_id\""));
    assert!(profiles
        .draft_init
        .system_prompt
        .contains("Returned node ids must all be new and unique within this response"));
    assert!(profiles.draft_init.system_prompt.contains(
        "All transition and transition_patches targets must use returned node ids only"
    ));
    assert!(profiles.draft_init.system_prompt.contains(
        "Do not point to future chunk nodes; add those links later with transition_patches"
    ));

    assert!(profiles
        .draft_continue
        .system_prompt
        .contains("\"section_summary\": \"one short sentence\""));
    assert!(profiles
        .draft_continue
        .system_prompt
        .contains("must not reuse node ids that already exist in GRAPH_SUMMARY"));
    assert!(profiles.draft_continue.system_prompt.contains(
        "All transition and transition_patches targets must use either GRAPH_SUMMARY node ids or returned node ids"
    ));
    assert!(profiles.draft_continue.system_prompt.contains(
        "Do not point to future chunk nodes; add those links later with transition_patches"
    ));
    assert!(profiles
        .repair_system_prompt
        .contains("omit default or make default exactly match one enum_values item"));
    assert!(profiles
        .repair_system_prompt
        .contains("do not return any node whose id already exists in GRAPH_SUMMARY"));
    assert!(profiles.repair_system_prompt.contains(
        "transition and transition_patches targets must use GRAPH_SUMMARY node ids or returned node ids only"
    ));
    assert!(profiles.repair_system_prompt.contains(
        "Remove links to future chunk nodes; later chunks can add them via transition_patches"
    ));
}

#[test]
fn normalizing_twice_changes_nothing_and_compacting_round_trips() {
    for agent in [
        PromptAgentKind::Planner,
        PromptAgentKind::Architect,
        PromptAgentKind::Director,
        PromptAgentKind::Actor,
        PromptAgentKind::Narrator,
        PromptAgentKind::Keeper,
        PromptAgentKind::Replyer,
    ] {
        let normalized = normalize_agent_preset_config(agent, default_agent_preset_config(agent))
            .expect("defaults normalize");
        let again = normalize_agent_preset_config(agent, normalized.duplicate()).expect("again");
        assert_eq!(format!("{again:?}"), format!("{normalized:?}"));
        let compact = compact_agent_preset_config(agent, normalized.duplicate()).expect("compact");
        assert!(compact.modules.is_empty());
        let expanded = normalize_agent_preset_config(agent, compact).expect("expand");
        assert_eq!(format!("{expanded:?}"), format!("{normalized:?}"));
    }
}

#[test]
fn normalize_rejects_blank_custom_entries_and_unknown_built_ins() {
    let mut config = default_agent_preset_config(PromptAgentKind::Keeper);
    config.modules[0].entries.push(AgentPromptModuleEntryConfig {
        entry_id: "blank-note".to_owned(),
        display_name: "Blank".to_owned(),
        kind: PromptEntryKind::CustomText,
        enabled: true,
        order: 5,
        required: false,
        text: Some("   ".to_owned()),
        context_key: None,
    });
    let error = normalize_agent_preset_config(PromptAgentKind::Keeper, config)
        .expect_err("blank custom text");
    assert!(matches!(error, PromptConfigError::EmptyCustomEntryText(ref id) if id == "blank-note"));

    let mut config = default_agent_preset_config(PromptAgentKind::Keeper);
    config.modules[0].entries.push(AgentPromptModuleEntryConfig {
        entry_id: "keeper_made_up".to_owned(),
        display_name: "Made up".to_owned(),
        kind: PromptEntryKind::BuiltInText,
        enabled: true,
        order: 5,
        required: false,
        text: None,
        context_key: None,
    });
    let error = normalize_agent_preset_config(PromptAgentKind::Keeper, config)
        .expect_err("unknown built-in entry");
    assert!(matches!(error, PromptConfigError::UnknownBuiltInEntry { ref entry_id, .. } if entry_id == "keeper_made_up"));
}
