use ss_engine::draft_summary::{
    build_graph_summary, compact_recent_section_node, recent_draft_nodes, refresh_draft_status,
    StoryDraftStatus,
};
use ss_engine::preview::{keeper_condition_tracking_hint, render_condition, render_keeper_condition};
use ss_engine::schema::{SchemaField, StateFieldSchema};
use ss_engine::state_text::{
    render_actor_world_state, render_character_state, render_compact_schema_text,
    render_director_world_state, render_observable_world_state, render_sorted_map,
    render_state_schema_fields, render_state_schema_fields_without_description,
    render_world_state_sections,
};
use ss_engine::story::{
    Condition, ConditionOperator, ConditionScope, NarrativeNode, StateOp, StoryGraph, Transition,
};
use ss_engine::world::{
    narration_entry, player_input_entry, ActorMemoryKind, CharacterState, StateValue, WorldState,
};

fn value(key: &str, json: &str) -> StateValue {
    StateValue { key: key.to_owned(), value_json: json.to_owned() }
}

fn world() -> WorldState {
    WorldState {
        current_node: "dock".to_owned(),
        active_characters: vec!["guide".to_owned(), "merchant".to_owned()],
        custom: vec![value("weather", "\"rain\""), value("alarm", "false")],
        player_state: vec![value("coins", "3")],
        character_state: vec![
            CharacterState { character: "merchant".to_owned(), values: vec![value("mood", "\"sly\"")] },
            CharacterState {
                character: "guide".to_owned(),
                values: vec![value("trust", "2"), value("fear", "0")],
            },
        ],
        shared_history: Vec::new(),
        private_memory: Vec::new(),
    }
}

#[test]
fn sorted_map_orders_by_key() {
    assert_eq!(render_sorted_map(&vec![]), "none");
    assert_eq!(
        render_sorted_map(&vec![value("b", "2"), value("a", "\"x\""), value("c", "true")]),
        "a=\"x\"\nb=2\nc=true"
    );
}

#[test]
fn character_state_orders_by_character() {
    assert_eq!(render_character_state(&vec![]), "none");
    assert_eq!(
        render_character_state(&world().character_state),
        "guide: fear=0\ntrust=2\nmerchant: mood=\"sly\""
    );
}

#[test]
fn world_state_sections_by_viewer() {
    let w = world();
    let observable = render_observable_world_state(&w);
    assert_eq!(
        observable,
        "current_node:\ndock\n\nactive_characters:\nguide, merchant\n\nworld_state:\nalarm=false\nweather=\"rain\"\n\nplayer_state:\ncoins=3\n\ncharacter_state:\nguide: fear=0\ntrust=2\nmerchant: mood=\"sly\""
    );
    assert_eq!(render_director_world_state(&w), observable);
    let actor = render_actor_world_state(&w);
    assert!(!actor.contains("player_state"));
    assert!(actor.contains("character_state:\nguide: fear=0"));
    let bare = render_world_state_sections("hall", &vec![], &vec![], None, None);
    assert_eq!(bare, "current_node:\nhall\n\nactive_characters:\nnone\n\nworld_state:\nnone");
}

fn schema_fields() -> Vec<SchemaField> {
    vec![
        SchemaField {
            key: "trust".to_owned(),
            field: StateFieldSchema {
                value_type_json: "\"int\"".to_owned(),
                default_json: Some("0".to_owned()),
                enum_values_json: None,
                description: Some("how much  the\nguide trusts".to_owned()),
            },
        },
        SchemaField {
            key: "mood".to_owned(),
            field: StateFieldSchema {
                value_type_json: "\"string\"".to_owned(),
                default_json: None,
                enum_values_json: Some("[\"calm\",\"angry\"]".to_owned()),
                description: None,
            },
        },
    ]
}

#[test]
fn schema_fields_render_sorted() {
    assert_eq!(render_state_schema_fields(&vec![]), "none");
    assert_eq!(
        render_state_schema_fields(&schema_fields()),
        "mood:\"string\" enum=[\"calm\",\"angry\"], trust:\"int\" default=0 desc=how much the guide trusts"
    );
    assert_eq!(
        render_state_schema_fields_without_description(&schema_fields()),
        "mood:\"string\" enum=[\"calm\",\"angry\"], trust:\"int\" default=0"
    );
    assert_eq!(render_compact_schema_text(None), "null");
    assert_eq!(render_compact_schema_text(Some(&vec![])), "none");
}

fn long_node() -> NarrativeNode {
    NarrativeNode::new(
        "dock".to_owned(),
        "Flooded Dock".to_owned(),
        "s".repeat(210),
        "g".repeat(130),
        vec!["guide".to_owned()],
        vec![Transition { to: "gate".to_owned(), condition: None }],
        vec![
            StateOp::SetCurrentNode { node_id: "dock".to_owned() },
            StateOp::SetActiveCharacters { characters: vec![] },
            StateOp::AddActiveCharacter { character: "guide".to_owned() },
            StateOp::RemoveActiveCharacter { character: "merchant".to_owned() },
            StateOp::SetState { key: "alarm".to_owned(), value_json: "true".to_owned() },
            StateOp::RemovePlayerState { key: "coins".to_owned() },
            StateOp::SetCharacterState {
                character: "guide".to_owned(),
                key: "trust".to_owned(),
                value_json: "1".to_owned(),
            },
        ],
    )
}

#[test]
fn graph_summary_truncates_scene_and_goal() {
    let graph = StoryGraph::new("dock".to_owned(), vec![long_node()]);
    let summary = build_graph_summary(&graph);
    assert_eq!(summary.len(), 1);
    assert_eq!(summary[0].id, "dock");
    assert_eq!(summary[0].scene_summary, format!("{}...", "s".repeat(200)));
    assert_eq!(summary[0].goal, format!("{}...", "g".repeat(120)));
    assert_eq!(summary[0].transition_targets, vec!["gate".to_owned()]);
}

#[test]
fn recent_node_lists_update_keys() {
    let recent = compact_recent_section_node(&long_node());
    assert_eq!(recent.scene_summary, format!("{}...", "s".repeat(140)));
    assert_eq!(recent.goal, format!("{}...", "g".repeat(100)));
    assert_eq!(
        recent.on_enter_update_keys,
        vec![
            "current_node:dock",
            "active_characters",
            "active+:guide",
            "active-:merchant",
            "world:alarm",
            "player:coins",
            "character:guide:trust",
        ]
    );
}

#[test]
fn conditions_and_tracking_hints() {
    let c = Condition {
        scope: ConditionScope::Character,
        key: "trust".to_owned(),
        character: Some("guide".to_owned()),
        op: ConditionOperator::Gte,
        value_json: "2".to_owned(),
    };
    assert_eq!(render_condition(&c), "character[guide].trust >= 2");
    assert_eq!(render_keeper_condition(&c), "character[guide].trust >= 2");
    assert_eq!(keeper_condition_tracking_hint(&c), ("character", "trust", Some("guide")));
    let g = Condition {
        scope: ConditionScope::Global,
        key: "alarm".to_owned(),
        character: None,
        op: ConditionOperator::Eq,
        value_json: "true".to_owned(),
    };
    assert_eq!(keeper_condition_tracking_hint(&g), ("global", "alarm", None));
}

#[test]
fn history_entries_for_player_input_and_narration() {
    let player = player_input_entry("Open the door!");
    assert_eq!(player.speaker_id, "player");
    assert_eq!(player.speaker_name, "Player");
    assert_eq!(player.kind, ActorMemoryKind::PlayerInput);
    assert_eq!(player.text, "Open the door!");
    assert!(narration_entry(" \n\t").is_none());
    let narration = narration_entry("  Rain falls.\n").expect("text is not blank");
    assert_eq!(narration.speaker_id, "narrator");
    assert_eq!(narration.speaker_name, "Narrator");
    assert_eq!(narration.kind, ActorMemoryKind::Narration);
    assert_eq!(narration.text, "Rain falls.");
}

#[test]
fn draft_status_and_recent_nodes() {
    let outline = vec!["one".to_owned(), "two".to_owned()];
    assert_eq!(refresh_draft_status(None, 1, &outline), StoryDraftStatus::Building);
    assert_eq!(refresh_draft_status(None, 2, &outline), StoryDraftStatus::ReadyToFinalize);
    assert_eq!(refresh_draft_status(Some("story"), 0, &outline), StoryDraftStatus::Finalized);

    let graph = StoryGraph::new("dock".to_owned(), vec![long_node()]);
    assert!(recent_draft_nodes(&vec![], &graph).is_empty());
    let recent = recent_draft_nodes(
        &vec![vec!["old".to_owned()], vec!["missing".to_owned(), "dock".to_owned()]],
        &graph,
    );
    assert_eq!(recent.len(), 1);
    assert_eq!(recent[0].title(), "Flooded Dock");
}
