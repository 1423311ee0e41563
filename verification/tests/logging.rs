use ss_engine::logging::{
    count_graph_transitions, summarize_actor_response, summarize_architect_draft_chunk,
    summarize_director_result, summarize_keeper_response, summarize_narrator_response,
    summarize_planner_response, summarize_reply_options, truncate_text, ActorResponse,
    ArchitectDraftChunkResponse, DirectorResult, KeeperPhase, NarratorResponse, PlannerResponse,
    ReplyOption, ResponseBeat,
};
use ss_engine::session::{ActorSegment, ActorSegmentKind};
use ss_engine::story::{NarrativeNode, StateOp, StateUpdate, StoryGraph, Transition};

#[test]
fn actor_summary_counts_segment_lengths_by_kind() {
    let summary = summarize_actor_response(&ActorResponse {
        speaker_id: "merchant".to_owned(),
        speaker_name: "Haru".to_owned(),
        segments: vec![
            ActorSegment { kind: ActorSegmentKind::Thought, text: "Think".to_owned() },
            ActorSegment { kind: ActorSegmentKind::Action, text: "Act".to_owned() },
            ActorSegment { kind: ActorSegmentKind::Dialogue, text: "Speak".to_owned() },
        ],
        raw_output: String::new(),
    });

    assert_eq!(summary.segment_count, 3);
    assert_eq!(summary.thought_chars, 5);
    assert_eq!(summary.action_chars, 3);
    assert_eq!(summary.dialogue_chars, 5);
}

#[test]
fn keeper_summary_tracks_op_types_and_keys() {
    let summary = summarize_keeper_response(
        KeeperPhase::AfterTurnOutputs,
        &StateUpdate {
            ops: vec![
                StateOp::SetState { key: "flood_level".to_owned(), value_json: "2".to_owned() },
                StateOp::SetPlayerState { key: "coins".to_owned(), value_json: "3".to_owned() },
                StateOp::SetCharacterState {
                    character: "merchant".to_owned(),
                    key: "trust".to_owned(),
                    value_json: "1".to_owned(),
                },
            ],
        },
    );

    assert_eq!(summary.op_count, 3);
    assert!(summary.op_types.contains(&"set_state"));
    assert_eq!(summary.touched_global_keys, vec!["flood_level"]);
    assert_eq!(summary.touched_player_keys, vec!["coins"]);
    assert_eq!(summary.touched_character_pairs, vec!["merchant:trust"]);
}

#[test]
fn replyer_summary_truncates_long_texts() {
    let summary = summarize_reply_options(&vec![ReplyOption { id: "reply-1".to_owned(), text: "a".repeat(200) }]);

    assert_eq!(summary.reply_count, 1);
    assert!(summary.previews[0].contains("[truncated]"));
}

#[test]
fn log_previews_keep_160_characters() {
    assert_eq!(truncate_text(&"é".repeat(160)), "é".repeat(160));
    assert_eq!(truncate_text(&"é".repeat(161)), format!("{}...[truncated]", "é".repeat(160)));
}

#[test]
fn keeper_op_types_are_named_in_order() {
    let summary = summarize_keeper_response(
        KeeperPhase::AfterPlayerInput,
        &StateUpdate {
            ops: vec![
                StateOp::RemoveCharacterState { character: "a".to_owned(), key: "k".to_owned() },
                StateOp::SetCurrentNode { node_id: "n".to_owned() },
                StateOp::RemoveState { key: "g".to_owned() },
            ],
        },
    );
    assert_eq!(summary.op_types, vec!["remove_character_state", "set_current_node", "remove_state"]);
    assert_eq!(summary.touched_character_pairs, vec!["a:k"]);
    assert_eq!(summary.touched_global_keys, vec!["g"]);
    assert!(summary.touched_player_keys.is_empty());
}

#[test]
fn graph_transitions_are_counted() {
    let t = |to: &str| Transition { to: to.to_owned(), condition: None };
    let graph = StoryGraph::new(
        "a".to_owned(),
        vec![
            NarrativeNode::new("a".into(), "A".into(), "".into(), "".into(), vec![], vec![t("b"), t("a")], vec![]),
            NarrativeNode::new("b".into(), "B".into(), "".into(), "".into(), vec![], vec![t("a")], vec![]),
        ],
    );
    assert_eq!(count_graph_transitions(&graph), 3);
}

#[test]
fn planner_and_narrator_summaries_count_text() {
    let planner = summarize_planner_response(&PlannerResponse {
        story_script: "Act one\nAct two\n".to_owned(),
    });
    assert_eq!(planner.story_script_chars, 16);
    assert_eq!(planner.story_script_lines, 2);
    assert_eq!(planner.preview, "Act one\nAct two\n");
    let empty = summarize_planner_response(&PlannerResponse { story_script: String::new() });
    assert_eq!(empty.story_script_lines, 0);
    let ragged = summarize_planner_response(&PlannerResponse { story_script: "a\n\nb".to_owned() });
    assert_eq!(ragged.story_script_lines, 3);
    let narrator = summarize_narrator_response(&NarratorResponse { text: "x".repeat(170) });
    assert_eq!(narrator.text_chars, 170);
    assert_eq!(narrator.preview, format!("{}...[truncated]", "x".repeat(160)));
}

#[test]
fn architect_and_director_summaries_count_parts() {
    let chunk = summarize_architect_draft_chunk(
        &ArchitectDraftChunkResponse {
            nodes: vec![],
            transition_patches: vec![],
            section_summary: "The bridge lowers.".to_owned(),
        },
        2,
        5,
    );
    assert_eq!((chunk.section_index, chunk.total_sections, chunk.node_count), (2, 5, 0));
    assert_eq!(chunk.world_schema_fields, 0);
    assert_eq!(chunk.section_summary_preview, "The bridge lowers.");
    assert_eq!(chunk.introduction_preview, "");
    let director = summarize_director_result(&DirectorResult {
        previous_node_id: "dock".to_owned(),
        current_node_id: "gate".to_owned(),
        transitioned: true,
        beats: vec![ResponseBeat::Narrator, ResponseBeat::Actor, ResponseBeat::Actor],
    });
    assert_eq!(director.beat_count, 3);
    assert_eq!(director.beat_types, vec!["narrator", "actor", "actor"]);
    assert!(director.transitioned);
}
