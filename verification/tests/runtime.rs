use ss_engine::context::{
    actor_context, architect_graph_context, director_context, keeper_context, narrator_context, planner_context,
    render_character_summaries, render_reply_history, replyer_context, ContextError,
};
use ss_engine::preview::render_recent_history;
use ss_engine::util::{ReplyHistoryKind, ReplyHistoryMessage};
use ss_engine::{default_agent_preset_config, PromptAgentKind};
use ss_engine::graph::{GraphDefect, RuntimeStoryGraph};
use ss_engine::schema::{CharacterCard, StateFieldSchema, StateSchema};
use ss_engine::story::{NarrativeNode, StateOp, StoryGraph, Transition};
use ss_engine::session::SessionCharacterAction;
use ss_engine::turn::{resolve_beat_speaker, BeatKind, BeatSpeakerError, TurnAction, TurnPhase};
use ss_engine::turn_state::{begin_turn, turn_transition, SessionCharacterOutcome, TurnReport};
use ss_engine::world::{ActorMemoryEntry, ActorMemoryKind, PrivateMemory, StateValue, WorldState};
use ss_engine::{EngineStage, RuntimePromptPreviewOptions, RuntimeError, RuntimeSnapshot, RuntimeState, StoryResources};

fn sample_character_cards() -> Vec<CharacterCard> {
    vec![
        CharacterCard {
            id: "merchant".to_owned(),
            name: "Haru".to_owned(),
            personality: "greedy but friendly trader".to_owned(),
            style: "talkative, casual".to_owned(),
            state_schema: StateSchema::new(),
            system_prompt: "Stay in character.".to_owned(),
        },
        CharacterCard {
            id: "guide".to_owned(),
            name: "Yuki".to_owned(),
            personality: "calm local guide".to_owned(),
            style: "measured".to_owned(),
            state_schema: StateSchema::new(),
            system_prompt: "Stay observant.".to_owned(),
        },
    ]
}

fn node(id: &str, title: &str, scene: &str, goal: &str, characters: &[&str], on_enter: Vec<StateOp>) -> NarrativeNode {
    NarrativeNode::new(
        id.to_owned(),
        title.to_owned(),
        scene.to_owned(),
        goal.to_owned(),
        characters.iter().map(|c| (*c).to_owned()).collect(),
        Vec::new(),
        on_enter,
    )
}

fn sample_story_graph() -> StoryGraph {
    StoryGraph::new(
        "dock".to_owned(),
        vec![
            node(
                "dock",
                "Flooded Dock",
                "A flooded dock at dusk.",
                "Decide whether to trust the guide.",
                &["merchant", "guide"],
                vec![],
            ),
            node(
                "canal_gate",
                "Canal Gate",
                "A narrow ledge beside the floodgate.",
                "Open the route.",
                &["guide"],
                vec![],
            ),
        ],
    )
}

fn sample_story_graph_with_start_on_enter_updates() -> StoryGraph {
    StoryGraph::new(
        "dock".to_owned(),
        vec![
            node(
                "dock",
                "Flooded Dock",
                "A flooded dock at dusk.",
                "Decide whether to trust the guide.",
                &["merchant", "guide"],
                vec![
                    StateOp::SetState { key: "entered_dock".to_owned(), value_json: "true".to_owned() },
                    StateOp::SetPlayerState { key: "coins".to_owned(), value_json: "3".to_owned() },
                    StateOp::SetCharacterState {
                        character: "merchant".to_owned(),
                        key: "trust".to_owned(),
                        value_json: "1".to_owned(),
                    },
                ],
            ),
            node(
                "canal_gate",
                "Canal Gate",
                "A narrow ledge beside the floodgate.",
                "Open the route.",
                &["guide"],
                vec![],
            ),
        ],
    )
}

fn sample_player_state_schema() -> StateSchema {
    let mut schema = StateSchema::new();
    schema.insert_field(
        "coins".to_owned(),
        StateFieldSchema::new("\"int\"".to_owned()).with_default("0".to_owned()),
    );
    schema
}

fn sample_world_state_schema() -> StateSchema {
    let mut schema = StateSchema::new();
    schema.insert_field(
        "flood_gate_open".to_owned(),
        StateFieldSchema::new("\"bool\"".to_owned()).with_default("false".to_owned()),
    );
    schema
}

fn sample_player_description() -> &'static str {
    "A cautious courier carrying medicine and trying not to attract attention."
}

fn sample_story_resources() -> StoryResources {
    StoryResources::new(
        "flooded_city_demo".to_owned(),
        "A flooded city courier story.".to_owned(),
        sample_character_cards(),
        Some(sample_player_state_schema()),
    )
    .expect("story resources should build")
    .with_world_state_schema_seed(sample_world_state_schema())
}

fn value_of(values: &[StateValue], key: &str) -> Option<String> {
    values.iter().find(|v| v.key == key).map(|v| v.value_json.clone())
}

#[test]
fn story_resources_store_generation_inputs_and_seed() {
    let resources = sample_story_resources().with_planned_story(
        "Title:\nFlooded City Courier\n\nOpening Situation:\nThe courier arrives at the dock.".to_owned(),
    );

    assert_eq!(resources.story_id(), "flooded_city_demo");
    assert_eq!(resources.story_concept(), "A flooded city courier story.");
    assert_eq!(resources.character_cards().len(), 2);
    assert!(resources.planned_story().is_some());
    assert!(resources
        .player_state_schema_seed()
        .expect("player schema seed should exist")
        .has_field("coins"));
    assert!(resources
        .world_state_schema_seed()
        .expect("seed should exist")
        .has_field("flood_gate_open"));
}

#[test]
fn story_resources_reject_invalid_inputs() {
    let empty_story_id = StoryResources::new(
        "   ".to_owned(),
        "A flooded city courier story.".to_owned(),
        sample_character_cards(),
        Some(sample_player_state_schema()),
    )
    .expect_err("empty story_id should fail");
    assert!(empty_story_id.message().contains("story_id"));

    let empty_story_concept = StoryResources::new(
        "flooded_city_demo".to_owned(),
        "   ".to_owned(),
        sample_character_cards(),
        Some(sample_player_state_schema()),
    )
    .expect_err("empty story_concept should fail");
    assert!(empty_story_concept.message().contains("story_concept"));

    let empty_character_cards = StoryResources::new(
        "flooded_city_demo".to_owned(),
        "A flooded city courier story.".to_owned(),
        Vec::new(),
        Some(sample_player_state_schema()),
    )
    .expect_err("empty character cards should fail");
    assert!(empty_character_cards.message().contains("character card"));

    let first = sample_character_cards().remove(0);
    let duplicate_character_cards = StoryResources::new(
        "flooded_city_demo".to_owned(),
        "A flooded city courier story.".to_owned(),
        vec![first.duplicate(), first],
        Some(sample_player_state_schema()),
    )
    .expect_err("duplicate character cards should fail");
    assert!(duplicate_character_cards.message().contains("duplicate"));
}

#[test]
fn runtime_state_can_build_from_story_resources() {
    let resources = sample_story_resources();
    let runtime_state = RuntimeState::from_story_resources(
        &resources,
        sample_story_graph(),
        sample_player_description().to_owned(),
        resources
            .player_state_schema_seed()
            .map(|s| s.duplicate())
            .expect("player schema seed should exist"),
    )
    .expect("runtime");

    assert_eq!(runtime_state.story_id(), resources.story_id());
    assert!(runtime_state.player_state_schema().has_field("coins"));
    assert_eq!(runtime_state.player_description(), sample_player_description());
    assert_eq!(runtime_state.world_state().current_node(), "dock");
}

#[test]
fn new_initializes_from_start_node() {
    let runtime_state = RuntimeState::from_story_graph(
        "flooded_city_demo".to_owned(),
        sample_story_graph(),
        sample_character_cards(),
        sample_player_description().to_owned(),
        sample_player_state_schema(),
    )
    .expect("runtime state should build");

    assert_eq!(runtime_state.story_id(), "flooded_city_demo");
    assert_eq!(runtime_state.turn_index(), 0);
    assert!(runtime_state.player_state_schema().has_field("coins"));
    assert_eq!(runtime_state.player_description(), sample_player_description());
    assert_eq!(runtime_state.world_state().current_node(), "dock");
    assert_eq!(
        runtime_state.world_state().active_characters(),
        &["merchant".to_owned(), "guide".to_owned()]
    );
    assert_eq!(
        runtime_state.current_node().expect("current node should exist").title(),
        "Flooded Dock"
    );
}

#[test]
fn new_applies_start_node_on_enter_updates() {
    let runtime_state = RuntimeState::from_story_graph(
        "flooded_city_demo".to_owned(),
        sample_story_graph_with_start_on_enter_updates(),
        sample_character_cards(),
        sample_player_description().to_owned(),
        sample_player_state_schema(),
    )
    .expect("runtime state should build");

    assert_eq!(runtime_state.world_state().state("entered_dock"), Some(&"true".to_owned()));
    assert_eq!(runtime_state.world_state().player_state("coins"), Some(&"3".to_owned()));
    assert_eq!(
        runtime_state
            .world_state()
            .character_states("merchant")
            .and_then(|state| value_of(state, "trust")),
        Some("1".to_owned())
    );
}

#[test]
fn active_character_cards_follow_world_state() {
    let mut runtime_state = RuntimeState::from_story_graph(
        "flooded_city_demo".to_owned(),
        sample_story_graph(),
        sample_character_cards(),
        sample_player_description().to_owned(),
        sample_player_state_schema(),
    )
    .expect("runtime state should build");
    runtime_state.world_state_mut().set_active_characters(vec!["guide".to_owned()]);

    let active_cards = runtime_state
        .active_character_cards()
        .expect("active character cards should resolve");

    assert_eq!(active_cards.len(), 1);
    assert_eq!(active_cards[0].id, "guide");
    assert_eq!(runtime_state.character_card("merchant").expect("merchant card").name, "Haru");
}

#[test]
fn snapshot_round_trip_restores_dynamic_state_only() {
    let mut runtime_state = RuntimeState::from_story_graph(
        "flooded_city_demo".to_owned(),
        sample_story_graph(),
        sample_character_cards(),
        sample_player_description().to_owned(),
        sample_player_state_schema(),
    )
    .expect("runtime state should build");
    runtime_state.set_player_description("A disguised courier posing as a dock clerk.".to_owned());
    runtime_state.world_state_mut().set_current_node("canal_gate".to_owned());
    runtime_state.world_state_mut().set_active_characters(vec!["guide".to_owned()]);
    runtime_state.world_state_mut().set_state("flood_gate_open".to_owned(), "true".to_owned());
    runtime_state.world_state_mut().set_player_state("coins".to_owned(), "7".to_owned());
    runtime_state.advance_turn();
    runtime_state.advance_turn();

    let snapshot = runtime_state.snapshot();
    // The snapshot carries the story id, the player, the world state and the
    // turn counter, and nothing of the graph or the cards.
    assert_eq!(snapshot.story_id, "flooded_city_demo");
    assert_eq!(snapshot.player_description, "A disguised courier posing as a dock clerk.");
    assert_eq!(snapshot.world_state.current_node(), "canal_gate");
    assert_eq!(snapshot.turn_index, 2);

    let restored = RuntimeState::from_snapshot(
        "flooded_city_demo".to_owned(),
        RuntimeStoryGraph::from_story_graph(sample_story_graph()).expect("runtime graph should build"),
        sample_character_cards(),
        sample_player_state_schema(),
        snapshot,
    )
    .expect("snapshot should restore");

    assert_eq!(restored.story_id(), "flooded_city_demo");
    assert_eq!(restored.player_description(), "A disguised courier posing as a dock clerk.");
    assert_eq!(restored.turn_index(), 2);
    assert_eq!(restored.world_state().current_node(), "canal_gate");
    assert_eq!(restored.world_state().state("flood_gate_open"), Some(&"true".to_owned()));
    assert_eq!(restored.world_state().player_state("coins"), Some(&"7".to_owned()));
    assert_eq!(
        restored.active_character_cards().expect("active character cards should resolve")[0].id,
        "guide"
    );
}

#[test]
fn from_snapshot_rejects_story_id_mismatch() {
    let snapshot = RuntimeSnapshot {
        story_id: "different_story".to_owned(),
        player_description: sample_player_description().to_owned(),
        world_state: WorldState::new("dock".to_owned())
            .with_active_characters(vec!["merchant".to_owned(), "guide".to_owned()]),
        turn_index: 1,
    };

    let error = RuntimeState::from_snapshot(
        "flooded_city_demo".to_owned(),
        RuntimeStoryGraph::from_story_graph(sample_story_graph()).expect("runtime graph should build"),
        sample_character_cards(),
        sample_player_state_schema(),
        snapshot,
    )
    .expect_err("story id mismatch should fail");

    assert!(error.message().contains("different_story"));
    assert!(error.message().contains("flooded_city_demo"));
}

#[test]
fn from_story_graph_rejects_missing_character_cards() {
    let error = RuntimeState::from_story_graph(
        "flooded_city_demo".to_owned(),
        sample_story_graph(),
        Vec::new(),
        sample_player_description().to_owned(),
        sample_player_state_schema(),
    )
    .expect_err("missing character cards should fail");

    assert!(error.message().contains("merchant"));
}

#[test]
fn advance_turn_saturates_at_the_largest_count() {
    let runtime_state = RuntimeState::from_story_graph(
        "flooded_city_demo".to_owned(),
        sample_story_graph(),
        sample_character_cards(),
        sample_player_description().to_owned(),
        sample_player_state_schema(),
    )
    .expect("runtime state should build");
    let snapshot = RuntimeSnapshot { turn_index: u64::MAX, ..runtime_state.snapshot() };
    let mut restored = RuntimeState::from_snapshot(
        "flooded_city_demo".to_owned(),
        RuntimeStoryGraph::from_story_graph(sample_story_graph()).expect("graph"),
        sample_character_cards(),
        sample_player_state_schema(),
        snapshot,
    )
    .expect("restore");
    assert_eq!(restored.advance_turn(), u64::MAX);
    assert_eq!(restored.turn_index(), u64::MAX);
}

#[test]
fn runtime_errors_name_their_cause() {
    let mut graph = sample_story_graph();
    graph.start_node = "nowhere".to_owned();
    let error = RuntimeState::from_story_graph(
        "flooded_city_demo".to_owned(),
        graph,
        sample_character_cards(),
        sample_player_description().to_owned(),
        sample_player_state_schema(),
    )
    .expect_err("missing start node should fail");
    assert!(matches!(error, RuntimeError::GraphBuild(GraphDefect::MissingStart(ref id)) if id == "nowhere"));
    assert_eq!(
        error.message(),
        "failed to build runtime graph: story graph start node 'nowhere' does not exist"
    );

    let mut state = RuntimeState::from_story_graph(
        "flooded_city_demo".to_owned(),
        sample_story_graph(),
        sample_character_cards(),
        sample_player_description().to_owned(),
        sample_player_state_schema(),
    )
    .expect("runtime state should build");
    state.world_state_mut().set_current_node("lost".to_owned());
    let error = state.current_node().expect_err("moved off the graph");
    assert_eq!(error.message(), "current node 'lost' not found in runtime graph");

    state.world_state_mut().set_current_node("dock".to_owned());
    state.world_state_mut().set_active_characters(vec!["guide".to_owned(), "ghost".to_owned()]);
    let error = state.active_character_cards().expect_err("unknown character");
    assert_eq!(error.message(), "missing character card for id 'ghost'");

    let first = sample_character_cards().remove(0);
    let error = RuntimeState::from_story_graph(
        "flooded_city_demo".to_owned(),
        sample_story_graph(),
        vec![first.duplicate(), first],
        sample_player_description().to_owned(),
        sample_player_state_schema(),
    )
    .expect_err("duplicate cards");
    assert_eq!(error.message(), "duplicate character card id 'merchant'");

    let mut graph = sample_story_graph();
    graph.nodes[0].transitions.push(Transition { to: "attic".to_owned(), condition: None });
    let error = RuntimeState::from_story_graph(
        "flooded_city_demo".to_owned(),
        graph,
        sample_character_cards(),
        sample_player_description().to_owned(),
        sample_player_state_schema(),
    )
    .expect_err("dangling transition");
    assert_eq!(
        error.message(),
        "failed to build runtime graph: transition from 'dock' points to missing node 'attic'"
    );
}

#[test]
fn previous_node_is_looked_up_in_the_runtime_graph() {
    let runtime_state = RuntimeState::from_story_graph(
        "flooded_city_demo".to_owned(),
        sample_story_graph(),
        sample_character_cards(),
        sample_player_description().to_owned(),
        sample_player_state_schema(),
    )
    .expect("runtime state should build");

    assert!(ss_engine::preview::previous_node(&runtime_state, None).expect("no id is fine").is_none());
    let found = ss_engine::preview::previous_node(&runtime_state, Some("canal_gate"))
        .expect("known node")
        .expect("node present");
    assert_eq!(found.title(), "Canal Gate");
    assert_eq!(
        ss_engine::preview::previous_node(&runtime_state, Some("attic")).err(),
        Some("previous_node_id 'attic' was not found in runtime graph".to_owned())
    );
}

#[test]
fn actor_beats_need_a_speaker_in_the_scene_with_a_card() {
    let runtime_state = RuntimeState::from_story_graph(
        "flooded_city_demo".to_owned(),
        sample_story_graph(),
        sample_character_cards(),
        sample_player_description().to_owned(),
        sample_player_state_schema(),
    )
    .expect("runtime state should build");

    let card = resolve_beat_speaker(&runtime_state, "guide").expect("guide is in the scene");
    assert_eq!(card.name, "Yuki");
    match resolve_beat_speaker(&runtime_state, "stranger") {
        Err(BeatSpeakerError::InvalidBeatSpeaker { speaker_id, node_id }) => {
            assert_eq!(speaker_id, "stranger");
            assert_eq!(node_id, "dock");
        }
        other => panic!("unexpected: {other:?}"),
    }
}

#[test]
fn forgetting_a_character_drops_it_from_scene_and_state() {
    let mut world = WorldState::new("dock".to_owned());
    world.add_active_character("mira".to_owned());
    world.add_active_character("orin".to_owned());
    world.set_character_state("mira".to_owned(), "trust".to_owned(), "3".to_owned());
    world.set_character_state("orin".to_owned(), "trust".to_owned(), "1".to_owned());
    world.private_memory.push(PrivateMemory { character: "mira".to_owned(), entries: vec![said("secret")] });
    world.private_memory.push(PrivateMemory { character: "orin".to_owned(), entries: vec![] });
    assert!(world.private_memory_of("mira").is_some());
    world.forget_character("mira");
    assert!(world.private_memory_of("mira").is_none());
    assert_eq!(world.private_memory.len(), 1);
    assert_eq!(world.active_characters, vec!["orin".to_owned()]);
    assert!(world.character_states("mira").is_none());
    assert_eq!(world.character_states("orin").map(|v| v.len()), Some(1));
    assert_eq!(world.current_node, "dock");
}

fn sample_runtime() -> RuntimeState {
    RuntimeState::from_story_graph(
        "flooded_city_demo".to_owned(),
        sample_story_graph(),
        sample_character_cards(),
        sample_player_description().to_owned(),
        sample_player_state_schema(),
    )
    .expect("runtime state should build")
}

fn said(text: &str) -> ActorMemoryEntry {
    ActorMemoryEntry {
        speaker_id: "guide".to_owned(),
        speaker_name: "Yuki".to_owned(),
        kind: ActorMemoryKind::Dialogue,
        text: text.to_owned(),
    }
}

#[test]
fn a_turn_applies_keepers_actions_and_narration() {
    let mut runtime = sample_runtime();
    runtime.world_state_mut().push_shared_history(said("one"), 2);
    runtime.world_state_mut().push_shared_history(said("two"), 2);
    let (mut turn, action) = begin_turn(runtime, 2, "Lower the bridge.");
    assert_eq!(action, TurnAction::RunFirstKeeper);
    let texts: Vec<&str> = turn.runtime.world_state().shared_history.iter().map(|e| e.text.as_str()).collect();
    assert_eq!(texts, vec!["two", "Lower the bridge."]);
    assert_eq!(turn.runtime.world_state().shared_history[1].kind, ActorMemoryKind::PlayerInput);

    let action = turn_transition(
        &mut turn,
        TurnReport::KeeperUpdate(vec![StateOp::SetPlayerState { key: "coins".to_owned(), value_json: "9".to_owned() }]),
    );
    assert_eq!(action, TurnAction::RunDirector);
    assert_eq!(turn.runtime.turn_index(), 1);
    assert_eq!(turn.runtime.world_state().player_state("coins").map(|v| v.as_str()), Some("9"));

    let action = turn_transition(
        &mut turn,
        TurnReport::DirectorPlan {
            beats: vec![BeatKind::Narrator, BeatKind::Actor],
            actions: vec![
                SessionCharacterAction::LeaveScene { session_character_id: "merchant".to_owned() },
                SessionCharacterAction::CreateAndEnter {
                    session_character_id: "stranger".to_owned(),
                    display_name: "Stranger".to_owned(),
                    personality: String::new(),
                    style: String::new(),
                    system_prompt: String::new(),
                },
                SessionCharacterAction::LeaveScene { session_character_id: "nobody".to_owned() },
            ],
            now_ms: 42,
        },
    );
    assert_eq!(action, TurnAction::PlayBeat(0));
    assert_eq!(
        turn.runtime.world_state().active_characters(),
        &["guide".to_owned(), "stranger".to_owned()]
    );
    assert_eq!(turn.runtime.character_card("stranger").map(|c| c.name.as_str()), Some("Stranger"));
    assert_eq!(turn.outcomes.len(), 3);
    assert!(matches!(turn.outcomes[0], SessionCharacterOutcome::LeftScene { ref session_character_id } if session_character_id == "merchant"));
    assert!(matches!(
        turn.outcomes[1],
        SessionCharacterOutcome::CreatedAndEntered { ref character }
            if character.session_character_id == "stranger" && character.created_at_ms == 42 && character.session_id.is_empty()
    ));
    assert!(matches!(turn.outcomes[2], SessionCharacterOutcome::Noop));

    // A report that does not fit the beat changes nothing.
    assert_eq!(turn_transition(&mut turn, TurnReport::ActorDone), TurnAction::Nothing);
    assert_eq!(turn.phase, TurnPhase::Beat(0));

    let action = turn_transition(&mut turn, TurnReport::Narration("  The bridge groans.  ".to_owned()));
    assert_eq!(action, TurnAction::PlayBeat(1));
    let texts: Vec<&str> = turn.runtime.world_state().shared_history.iter().map(|e| e.text.as_str()).collect();
    assert_eq!(texts, vec!["Lower the bridge.", "The bridge groans."]);

    assert_eq!(turn_transition(&mut turn, TurnReport::ActorDone), TurnAction::RunSecondKeeper);
    let action = turn_transition(
        &mut turn,
        TurnReport::KeeperUpdate(vec![StateOp::SetState { key: "bridge_down".to_owned(), value_json: "true".to_owned() }]),
    );
    assert_eq!(action, TurnAction::Finish);
    assert_eq!(turn.phase, TurnPhase::Completed);
    assert_eq!(turn.runtime.turn_index(), 1);
    assert_eq!(turn.runtime.world_state().state("bridge_down").map(|v| v.as_str()), Some("true"));
    assert_eq!(turn_transition(&mut turn, TurnReport::Failed), TurnAction::Nothing);
}

#[test]
fn a_failed_first_keeper_does_not_count_the_turn() {
    let (mut turn, _) = begin_turn(sample_runtime(), 8, "Wait.");
    let action = turn_transition(&mut turn, TurnReport::Failed);
    assert_eq!(action, TurnAction::ReportFailure(EngineStage::KeeperAfterPlayerInput));
    assert_eq!(turn.phase, TurnPhase::Failed(EngineStage::KeeperAfterPlayerInput));
    assert_eq!(turn.runtime.turn_index(), 0);
    assert_eq!(turn.runtime.world_state().shared_history.len(), 1);
}

#[test]
fn blank_narration_is_not_recorded_and_a_failed_actor_keeps_changes() {
    let (mut turn, _) = begin_turn(sample_runtime(), 8, "Look.");
    turn_transition(&mut turn, TurnReport::KeeperUpdate(Vec::new()));
    turn_transition(
        &mut turn,
        TurnReport::DirectorPlan { beats: vec![BeatKind::Narrator, BeatKind::Actor], actions: Vec::new(), now_ms: 0 },
    );
    turn_transition(&mut turn, TurnReport::Narration("   ".to_owned()));
    assert_eq!(turn.runtime.world_state().shared_history.len(), 1);
    let action = turn_transition(&mut turn, TurnReport::Failed);
    assert_eq!(action, TurnAction::ReportFailure(EngineStage::Actor));
    assert_eq!(turn.runtime.turn_index(), 1);
}

fn preview_options(previous_node_id: Option<&str>) -> RuntimePromptPreviewOptions {
    RuntimePromptPreviewOptions {
        character_id: None,
        actor_purpose: None,
        narrator_purpose: None,
        keeper_phase: None,
        previous_node_id: previous_node_id.map(|id| id.to_owned()),
        player_input: Some("Follow the guide.".to_owned()),
        reply_limit: None,
    }
}

fn context_value<'a>(context: &'a [StateValue], key: &str) -> Option<&'a str> {
    context.iter().find(|v| v.key == key).map(|v| v.value_json.as_str())
}

#[test]
fn keeper_context_lists_nodes_casts_and_state() {
    let runtime = sample_runtime();
    let context = keeper_context(
        &runtime,
        &sample_character_cards(),
        Some("Aki"),
        &preview_options(Some("canal_gate")),
        &Vec::new(),
        8,
    )
    .expect("context builds");
    let keys: Vec<&str> = context.iter().map(|v| v.key.as_str()).collect();
    assert_eq!(
        keys,
        vec![
            "player", "keeper_phase", "previous_node", "node_change", "previous_cast", "current_node",
            "progression_hints", "current_cast", "player_state_schema", "player_input", "world_state",
            "completed_beats",
        ]
    );
    assert_eq!(context_value(&context, "keeper_phase"), Some("\"AfterPlayerInput\""));
    assert_eq!(context_value(&context, "player_input"), Some("Follow the guide."));
    assert_eq!(context_value(&context, "completed_beats"), Some("- none"));
    let previous_cast = context_value(&context, "previous_cast").expect("previous cast");
    assert!(previous_cast.starts_with("- guide | Yuki | personality=calm local guide | style=measured"));
    let current_cast = context_value(&context, "current_cast").expect("current cast");
    assert_eq!(current_cast.lines().count(), 2);
    assert!(current_cast.starts_with("- merchant | Haru |"));
}

#[test]
fn keeper_context_reports_missing_previous_node_and_cards() {
    let runtime = sample_runtime();
    let err = keeper_context(&runtime, &sample_character_cards(), None, &preview_options(Some("attic")), &Vec::new(), 8)
        .expect_err("missing previous node");
    assert!(matches!(err, ContextError::PreviousNode(ref m) if m == "previous_node_id 'attic' was not found in runtime graph"));

    let only_guide: Vec<CharacterCard> = sample_character_cards().into_iter().filter(|c| c.id == "guide").collect();
    let err = keeper_context(&runtime, &only_guide, None, &preview_options(None), &Vec::new(), 8)
        .expect_err("missing card");
    assert!(matches!(err, ContextError::Runtime(RuntimeError::MissingCharacterCard(ref id)) if id == "merchant"));
}

#[test]
fn character_summaries_render_one_line_each() {
    let text = render_character_summaries(&sample_character_cards());
    assert_eq!(text.lines().count(), 2);
    assert!(text.starts_with("- merchant | Haru | personality=greedy but friendly trader | style=talkative, casual | state_schema="));
    assert_eq!(render_character_summaries(&Vec::new()), "- none");
}

#[test]
fn director_and_narrator_contexts_show_scene_and_recent_history() {
    let mut runtime = sample_runtime();
    for line in ["one", "two", "three"] {
        runtime.world_state_mut().push_shared_history(said(line), 8);
    }
    let config = default_agent_preset_config(PromptAgentKind::Director);
    let context = director_context(
        &runtime,
        &sample_character_cards(),
        None,
        &config,
        &preview_options(None),
        &Vec::new(),
        8,
    )
    .expect("director context builds");
    let keys: Vec<&str> = context.iter().map(|v| v.key.as_str()).collect();
    assert_eq!(
        keys,
        vec![
            "player", "current_cast", "current_node", "player_state_schema", "transitioned_this_turn",
            "world_state", "shared_history",
        ]
    );
    assert_eq!(context_value(&context, "transitioned_this_turn"), Some("false"));
    assert_eq!(
        context_value(&context, "shared_history"),
        Some("- [guide|Yuki|dialogue] one\n- [guide|Yuki|dialogue] two\n- [guide|Yuki|dialogue] three")
    );

    let config = default_agent_preset_config(PromptAgentKind::Narrator);
    let context = narrator_context(
        &runtime,
        &sample_character_cards(),
        None,
        &config,
        &preview_options(None),
        &Vec::new(),
        8,
    )
    .expect("narrator context builds");
    assert_eq!(context_value(&context, "narrator_purpose"), Some("\"DescribeScene\""));
    assert_eq!(context_value(&context, "previous_node"), Some("null"));
    assert_eq!(context_value(&context, "previous_cast"), Some("null"));
}

#[test]
fn recent_history_keeps_the_latest_lines() {
    let text = render_recent_history(&vec![said("one"), said("two"), said("three")], 2);
    assert_eq!(text, "- [guide|Yuki|dialogue] two\n- [guide|Yuki|dialogue] three");
    assert_eq!(render_recent_history(&Vec::new(), 2), "- none");
}

#[test]
fn story_contexts_list_concept_characters_and_seeds() {
    let context = planner_context("A flooded city", None, &sample_character_cards(), &Vec::new());
    let keys: Vec<&str> = context.iter().map(|v| v.key.as_str()).collect();
    assert_eq!(keys, vec!["story_concept", "available_characters"]);
    assert_eq!(context_value(&context, "story_concept"), Some("A flooded city"));

    let context = architect_graph_context(
        "A flooded city",
        Some("Cross the canal."),
        &sample_character_cards(),
        None,
        Some(&sample_player_state_schema()),
        &Vec::new(),
    );
    assert_eq!(context_value(&context, "planned_story"), Some("Cross the canal."));
    assert_eq!(context_value(&context, "world_state_schema_seed"), Some("null"));
    assert!(context_value(&context, "player_state_schema_seed").is_some_and(|t| t.contains("coins")));
}

#[test]
fn actor_context_needs_a_character_and_shows_private_memory() {
    let runtime = sample_runtime();
    let config = default_agent_preset_config(PromptAgentKind::Actor);
    let err = actor_context(&runtime, &sample_character_cards(), None, &config, &preview_options(None), &Vec::new(), 8)
        .expect_err("no character");
    assert!(matches!(err, ContextError::MissingCharacterId));

    let mut options = preview_options(None);
    options.character_id = Some("ghost".to_owned());
    let err = actor_context(&runtime, &sample_character_cards(), None, &config, &options, &Vec::new(), 8)
        .expect_err("no card");
    assert!(matches!(err, ContextError::Runtime(RuntimeError::MissingCharacterCard(ref id)) if id == "ghost"));

    options.character_id = Some("guide".to_owned());
    let mut runtime = runtime;
    runtime.world_state_mut().private_memory.push(PrivateMemory {
        character: "guide".to_owned(),
        entries: vec![said("remember the tide")],
    });
    let context = actor_context(&runtime, &sample_character_cards(), None, &config, &options, &Vec::new(), 8)
    .expect("actor context builds");
    assert_eq!(context_value(&context, "actor_purpose"), Some("\"ReactToPlayer\""));
    assert_eq!(context_value(&context, "private_memory"), Some("- [guide|Yuki|dialogue] remember the tide"));
    assert_eq!(context_value(&context, "shared_history"), Some("- none"));
}

#[test]
fn an_existing_character_enters_with_its_card_replaced() {
    let (mut turn, _) = begin_turn(sample_runtime(), 8, "Call the guide.");
    turn_transition(&mut turn, TurnReport::KeeperUpdate(Vec::new()));
    turn_transition(
        &mut turn,
        TurnReport::DirectorPlan {
            beats: vec![],
            actions: vec![SessionCharacterAction::CreateAndEnter {
                session_character_id: "guide".to_owned(),
                display_name: "Yuki the Elder".to_owned(),
                personality: "wise".to_owned(),
                style: "slow".to_owned(),
                system_prompt: String::new(),
            }],
            now_ms: 7,
        },
    );
    assert!(matches!(turn.outcomes[0], SessionCharacterOutcome::EnteredScene { ref session_character_id } if session_character_id == "guide"));
    assert_eq!(turn.runtime.character_cards().len(), 2);
    assert_eq!(turn.runtime.character_card("guide").map(|c| c.name.as_str()), Some("Yuki the Elder"));
    assert_eq!(turn.phase, TurnPhase::SecondKeeper);
}

#[test]
fn the_shared_history_survives_a_snapshot() {
    let (turn, _) = begin_turn(sample_runtime(), 8, "Remember me.");
    let snapshot = turn.runtime.snapshot();
    assert_eq!(snapshot.world_state.shared_history.len(), 1);
    let restored = RuntimeState::from_snapshot(
        "flooded_city_demo".to_owned(),
        RuntimeStoryGraph::from_story_graph(sample_story_graph()).expect("valid graph"),
        sample_character_cards(),
        sample_player_state_schema(),
        snapshot,
    )
    .expect("restores");
    assert_eq!(restored.world_state().shared_history[0].text, "Remember me.");
}

fn reply(kind: ReplyHistoryKind, turn_index: u64, text: &str) -> ReplyHistoryMessage {
    ReplyHistoryMessage {
        kind,
        turn_index,
        speaker_id: "narrator".to_owned(),
        speaker_name: "Narrator".to_owned(),
        text: text.to_owned(),
    }
}

#[test]
fn reply_history_renders_turn_speaker_and_kind() {
    assert_eq!(render_reply_history(&Vec::new()), "- none");
    let text = render_reply_history(&vec![
        reply(ReplyHistoryKind::Narration, 2, "Rain\nfalls."),
        reply(ReplyHistoryKind::PlayerInput, 3, "Go."),
    ]);
    assert_eq!(
        text,
        "- [turn:2|narrator|Narrator|\"Narration\"] Rain falls.\n- [turn:3|narrator|Narrator|\"PlayerInput\"] Go."
    );
}

#[test]
fn replyer_context_shows_limit_history_and_scene() {
    let runtime = sample_runtime();
    let context = replyer_context(
        &runtime,
        &sample_character_cards(),
        Some("Aki"),
        &vec![reply(ReplyHistoryKind::Narration, 1, "The dock creaks.")],
        &preview_options(None),
        &Vec::new(),
    )
    .expect("replyer context builds");
    let keys: Vec<&str> = context.iter().map(|v| v.key.as_str()).collect();
    assert_eq!(
        keys,
        vec!["player", "reply_limit", "current_cast", "current_node", "player_state_schema", "world_state", "session_history"]
    );
    assert_eq!(context_value(&context, "reply_limit"), Some("3"));
    assert_eq!(
        context_value(&context, "session_history"),
        Some("- [turn:1|narrator|Narrator|\"Narration\"] The dock creaks.")
    );
    let mut options = preview_options(None);
    options.reply_limit = Some(5);
    let context = replyer_context(&runtime, &sample_character_cards(), None, &Vec::new(), &options, &Vec::new())
        .expect("replyer context builds");
    assert_eq!(context_value(&context, "reply_limit"), Some("5"));
}

#[test]
fn context_errors_have_messages() {
    assert_eq!(ContextError::MissingCharacterId.message(), "actor runtime preview requires character_id");
    assert_eq!(ContextError::NoOutlineSections.message(), "story draft has no outline sections");
    assert_eq!(ContextError::NoRemainingSection.message(), "story draft has no remaining outline section");
    assert_eq!(ContextError::PreviousNode("x".to_owned()).message(), "x");
}

#[test]
fn upserting_a_card_replaces_or_adds() {
    let mut runtime = sample_runtime();
    let mut card = sample_character_cards().remove(0);
    card.name = "Haru the Elder".to_owned();
    assert!(runtime.upsert_card(card));
    assert_eq!(runtime.character_cards().len(), 2);
    assert_eq!(runtime.character_card("merchant").map(|c| c.name.as_str()), Some("Haru the Elder"));
    let mut stranger = sample_character_cards().remove(1);
    stranger.id = "stranger".to_owned();
    assert!(!runtime.upsert_card(stranger));
    assert_eq!(runtime.character_cards().len(), 3);
}
