use ss_engine::graph::GraphDefect;
use ss_engine::story::{NarrativeNode, StoryGraph, Transition};
use ss_engine::util::{
    apply_transition_patches, build_reply_history, preview_reply_history, recent_reply_history,
    sort_messages_by_sequence, effective_planned_story_text, merge_story_chunk,
    next_session_message_sequence, non_empty_planned_story, now_timestamp_ms, timestamp_from_millis,
    truncate_text, validate_story_graph, DraftError, NodeTransitionPatch, ReplyHistoryKind,
    SessionMessageKind, SessionMessageRecord,
};

fn session_message(sequence: u64, turn_index: u64, kind: SessionMessageKind, text: &str) -> SessionMessageRecord {
    SessionMessageRecord {
        message_id: format!("message-{sequence}"),
        session_id: "session-1".to_owned(),
        kind,
        sequence,
        turn_index,
        recorded_at_ms: 0,
        created_at_ms: 0,
        updated_at_ms: 0,
        speaker_id: "speaker".to_owned(),
        speaker_name: "Speaker".to_owned(),
        text: text.to_owned(),
    }
}

#[test]
fn build_reply_history_keeps_only_latest_turn_narration() {
    let history = build_reply_history(
        vec![
            session_message(0, 1, SessionMessageKind::PlayerInput, "Where is the floodgate?"),
            session_message(1, 1, SessionMessageKind::Narration, "The square is crowded."),
            session_message(2, 1, SessionMessageKind::Dialogue, "This way."),
            session_message(3, 2, SessionMessageKind::PlayerInput, "Lead on."),
            session_message(4, 2, SessionMessageKind::Narration, "Rain starts to fall."),
            session_message(5, 2, SessionMessageKind::Narration, "The torches hiss."),
            session_message(6, 2, SessionMessageKind::Action, "The guide raises a lamp."),
        ],
        7,
    );

    assert_eq!(history.len(), 6);
    assert!(history.iter().any(|message| {
        message.kind == ReplyHistoryKind::Narration
            && message.turn_index == 2
            && message.text == "Rain starts to fall."
    }));
    assert!(history.iter().any(|message| {
        message.kind == ReplyHistoryKind::Narration
            && message.turn_index == 2
            && message.text == "The torches hiss."
    }));
    assert!(!history
        .iter()
        .any(|message| { message.kind == ReplyHistoryKind::Narration && message.turn_index == 1 }));
}

#[test]
fn build_reply_history_honors_zero_limit() {
    let history = build_reply_history(
        vec![session_message(0, 1, SessionMessageKind::Narration, "A bell rings in the distance.")],
        0,
    );

    assert!(history.is_empty());
}

#[test]
fn build_reply_history_keeps_the_last_messages_in_order() {
    let history = build_reply_history(
        vec![
            session_message(0, 1, SessionMessageKind::PlayerInput, "one"),
            session_message(1, 1, SessionMessageKind::Dialogue, "two"),
            session_message(2, 2, SessionMessageKind::Action, "three"),
        ],
        2,
    );
    let texts: Vec<&str> = history.iter().map(|m| m.text.as_str()).collect();
    assert_eq!(texts, vec!["two", "three"]);
    assert_eq!(history[1].kind, ReplyHistoryKind::Action);
}

#[test]
fn next_sequence_follows_the_largest() {
    assert_eq!(next_session_message_sequence(&[]), 0);
    let messages = vec![
        session_message(4, 1, SessionMessageKind::PlayerInput, "a"),
        session_message(9, 1, SessionMessageKind::Narration, "b"),
        session_message(2, 1, SessionMessageKind::Dialogue, "c"),
    ];
    assert_eq!(next_session_message_sequence(&messages), 10);
    let top = vec![session_message(u64::MAX, 1, SessionMessageKind::PlayerInput, "a")];
    assert_eq!(next_session_message_sequence(&top), u64::MAX);
}

#[test]
fn planned_story_falls_back_to_concept() {
    assert_eq!(non_empty_planned_story(Some("  \n ")), None);
    assert_eq!(non_empty_planned_story(None), None);
    assert_eq!(non_empty_planned_story(Some(" plan ")), Some(" plan ".to_owned()));
    assert_eq!(effective_planned_story_text(Some("\t"), "concept"), "concept");
    assert_eq!(effective_planned_story_text(Some("plan"), "concept"), "plan");
}

#[test]
fn truncate_text_cuts_by_characters() {
    assert_eq!(truncate_text("héllo wörld", 5), "héllo...");
    assert_eq!(truncate_text("short", 5), "short");
    assert_eq!(truncate_text("", 0), "");
    assert_eq!(truncate_text("ab", 0), "...");
}

#[test]
fn timestamps_are_clamped() {
    assert_eq!(timestamp_from_millis(None), 0);
    assert_eq!(timestamp_from_millis(Some(42)), 42);
    assert_eq!(timestamp_from_millis(Some(u128::from(u64::MAX) + 5)), u64::MAX);
    // The clock reads a time after 2020-01-01.
    assert!(now_timestamp_ms() > 1_577_836_800_000);
}

fn node(id: &str, targets: &[&str]) -> NarrativeNode {
    NarrativeNode::new(
        id.to_owned(),
        format!("Title {id}"),
        String::new(),
        String::new(),
        Vec::new(),
        targets.iter().map(|t| Transition { to: (*t).to_owned(), condition: None }).collect(),
        Vec::new(),
    )
}

#[test]
fn validate_story_graph_reports_each_defect() {
    let empty = StoryGraph::new("a".to_owned(), Vec::new());
    assert!(matches!(validate_story_graph(&empty), Err(GraphDefect::Empty)));
    let duplicate = StoryGraph::new("a".to_owned(), vec![node("a", &[]), node("b", &[]), node("a", &[])]);
    let err = validate_story_graph(&duplicate).expect_err("duplicate");
    assert_eq!(err.message(), "story graph contains duplicate node id 'a'");
    let missing_start = StoryGraph::new("z".to_owned(), vec![node("a", &[])]);
    assert_eq!(
        validate_story_graph(&missing_start).expect_err("start").message(),
        "story graph start node 'z' does not exist"
    );
    let dangling = StoryGraph::new("a".to_owned(), vec![node("a", &["b"]), node("b", &["c"])]);
    assert_eq!(
        validate_story_graph(&dangling).expect_err("target").message(),
        "transition from 'b' points to missing node 'c'"
    );
    let good = StoryGraph::new("a".to_owned(), vec![node("a", &["b"]), node("b", &["a"])]);
    assert!(validate_story_graph(&good).is_ok());
}

#[test]
fn transition_patches_extend_existing_nodes_in_order() {
    let mut graph = StoryGraph::new("a".to_owned(), vec![node("a", &[]), node("b", &[])]);
    let patches = vec![
        NodeTransitionPatch {
            node_id: "a".to_owned(),
            add_transitions: vec![Transition { to: "b".to_owned(), condition: None }],
        },
        NodeTransitionPatch {
            node_id: "missing".to_owned(),
            add_transitions: vec![Transition { to: "a".to_owned(), condition: None }],
        },
        NodeTransitionPatch {
            node_id: "b".to_owned(),
            add_transitions: vec![Transition { to: "a".to_owned(), condition: None }],
        },
    ];
    let err = apply_transition_patches(&mut graph, &patches).expect_err("missing node");
    assert_eq!(err.message(), "architect draft attempted to patch missing node 'missing'");
    assert_eq!(graph.nodes[0].transitions.len(), 1);
    assert_eq!(graph.nodes[1].transitions.len(), 0);
}

#[test]
fn merge_story_chunk_adds_nodes_patches_and_checks() {
    let mut graph = StoryGraph::new("a".to_owned(), vec![node("a", &[])]);
    merge_story_chunk(
        &mut graph,
        &[node("b", &["a"])],
        &[NodeTransitionPatch {
            node_id: "a".to_owned(),
            add_transitions: vec![Transition { to: "b".to_owned(), condition: None }],
        }],
    )
    .expect("chunk merges");
    assert_eq!(graph.nodes.len(), 2);
    assert_eq!(graph.nodes[0].transitions[0].to, "b");

    let err = merge_story_chunk(&mut graph, &[node("a", &[])], &[]).expect_err("reused id");
    assert!(matches!(err, DraftError::ReusedNodeId(ref id) if id == "a"));
    assert!(err.message().starts_with("architect draft reused existing partial graph node id 'a'"));

    let err = merge_story_chunk(&mut graph, &[node("c", &["nowhere"])], &[]).expect_err("dangling");
    assert_eq!(err.message(), "transition from 'c' points to missing node 'nowhere'");
    assert_eq!(graph.nodes.len(), 3);
}

#[test]
fn messages_sort_by_sequence_keeping_listed_order_of_ties() {
    let mut tied = session_message(2, 1, SessionMessageKind::Dialogue, "second of two");
    tied.message_id = "tied".to_owned();
    let sorted = sort_messages_by_sequence(vec![
        session_message(5, 2, SessionMessageKind::Narration, "five"),
        session_message(2, 1, SessionMessageKind::PlayerInput, "first of two"),
        session_message(0, 1, SessionMessageKind::PlayerInput, "zero"),
        tied,
        session_message(3, 1, SessionMessageKind::Action, "three"),
    ]);
    let texts: Vec<&str> = sorted.iter().map(|m| m.text.as_str()).collect();
    assert_eq!(texts, vec!["zero", "first of two", "second of two", "three", "five"]);
    assert_eq!(sorted[2].message_id, "tied");
}

#[test]
fn recent_reply_history_keeps_the_last_eight_by_sequence() {
    let mut messages = Vec::new();
    for sequence in (0..10u64).rev() {
        messages.push(session_message(sequence, sequence / 2, SessionMessageKind::Narration, &format!("line {sequence}")));
    }
    let history = recent_reply_history(messages);
    assert_eq!(history.len(), 8);
    assert_eq!(history[0].text, "line 2");
    assert_eq!(history[7].text, "line 9");
    assert_eq!(history[0].kind, ReplyHistoryKind::Narration);
    assert_eq!(history[0].turn_index, 1);
}

#[test]
fn recent_reply_history_keeps_all_of_a_short_session() {
    let history = recent_reply_history(vec![
        session_message(1, 1, SessionMessageKind::Narration, "later"),
        session_message(0, 1, SessionMessageKind::PlayerInput, "earlier"),
    ]);
    assert_eq!(history.len(), 2);
    assert_eq!(history[0].text, "earlier");
    assert_eq!(history[0].kind, ReplyHistoryKind::PlayerInput);
    assert_eq!(history[1].text, "later");
}

#[test]
fn preview_reply_history_sorts_before_trimming() {
    let history = preview_reply_history(
        vec![
            session_message(4, 2, SessionMessageKind::Narration, "The torches hiss."),
            session_message(1, 1, SessionMessageKind::Narration, "The square is crowded."),
            session_message(3, 2, SessionMessageKind::PlayerInput, "Lead on."),
            session_message(0, 1, SessionMessageKind::PlayerInput, "Which way?"),
        ],
        3,
    );
    let texts: Vec<&str> = history.iter().map(|m| m.text.as_str()).collect();
    assert_eq!(texts, vec!["Lead on.", "The torches hiss."]);
}
