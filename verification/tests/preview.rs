use ss_engine::preview::{
    actor_memory_kind_label, insert_optional, render_actor_history, render_actor_purpose,
    render_keeper_node, render_keeper_node_change, render_keeper_phase,
    render_keeper_progression_hint_line, render_keeper_progression_hints, render_list_lines,
    render_narrator_purpose, render_node, render_player, render_section_summaries, render_sections,
    render_keeper_transition, render_transition,
};
use ss_engine::story::{Condition, ConditionOperator, ConditionScope, NarrativeNode, Transition};
use ss_engine::world::{ActorMemoryEntry, ActorMemoryKind, StateValue};
use ss_engine::{PromptPreviewActorPurpose, PromptPreviewKeeperPhase, PromptPreviewNarratorPurpose};

fn node(id: &str, transitions: Vec<Transition>) -> NarrativeNode {
    NarrativeNode::new(
        id.to_owned(),
        format!("Title {id}"),
        "A scene.  \n".to_owned(),
        "A goal.".to_owned(),
        vec!["guide".to_owned(), "merchant".to_owned()],
        transitions,
        vec![],
    )
}

fn gate_transition() -> Transition {
    Transition {
        to: "gate".to_owned(),
        condition: Some(Condition {
            scope: ConditionScope::Character,
            key: "trust".to_owned(),
            character: Some("guide".to_owned()),
            op: ConditionOperator::Gte,
            value_json: "2".to_owned(),
        }),
    }
}

#[test]
fn sections_and_lists() {
    assert_eq!(
        render_sections(&[("a", "one \n".to_owned()), ("b", "two".to_owned())]),
        "a:\none\n\nb:\ntwo"
    );
    assert_eq!(render_sections(&[]), "");
    assert_eq!(render_list_lines(&vec![]), "- none");
    assert_eq!(render_list_lines(&vec!["x".to_owned(), "y".to_owned()]), "- x\n- y");
    assert_eq!(render_player(None, "quiet"), "name:\nUser\n\ndescription:\nquiet");
    assert_eq!(render_player(Some("Aki"), "quiet"), "name:\nAki\n\ndescription:\nquiet");
    assert_eq!(render_section_summaries(&vec![]), "- none");
    let many: Vec<String> = (0..11).map(|i| format!("s{i}")).collect();
    let rendered = render_section_summaries(&many);
    assert!(rendered.starts_with("- [0] s0\n- [1] s1"));
    assert!(rendered.ends_with("- [10] s10"));
}

#[test]
fn purposes_are_json_strings() {
    assert_eq!(render_actor_purpose(PromptPreviewActorPurpose::AdvanceGoal), "\"AdvanceGoal\"");
    assert_eq!(render_actor_purpose(PromptPreviewActorPurpose::ReactToPlayer), "\"ReactToPlayer\"");
    assert_eq!(render_actor_purpose(PromptPreviewActorPurpose::CommentOnScene), "\"CommentOnScene\"");
    assert_eq!(render_narrator_purpose(PromptPreviewNarratorPurpose::DescribeTransition), "\"DescribeTransition\"");
    assert_eq!(render_narrator_purpose(PromptPreviewNarratorPurpose::DescribeScene), "\"DescribeScene\"");
    assert_eq!(render_narrator_purpose(PromptPreviewNarratorPurpose::DescribeResult), "\"DescribeResult\"");
    assert_eq!(render_keeper_phase(PromptPreviewKeeperPhase::AfterPlayerInput), "\"AfterPlayerInput\"");
    assert_eq!(render_keeper_phase(PromptPreviewKeeperPhase::AfterTurnOutputs), "\"AfterTurnOutputs\"");
}

#[test]
fn insert_optional_sets_only_given_values() {
    let mut context: Vec<StateValue> = Vec::new();
    insert_optional(&mut context, "lorebook_base", None);
    assert!(context.is_empty());
    insert_optional(&mut context, "lorebook_base", Some("one".to_owned()));
    insert_optional(&mut context, "lorebook_base", Some("two".to_owned()));
    assert_eq!(context.len(), 1);
    assert_eq!(context[0].value_json, "two");
}

#[test]
fn nodes_and_transitions_render() {
    assert_eq!(render_transition(&gate_transition()), "to node=gate when character[guide].trust >= 2");
    assert_eq!(
        render_transition(&Transition { to: "hall".to_owned(), condition: None }),
        "to node=hall when always"
    );
    let n = node("dock", vec![gate_transition()]);
    assert_eq!(
        render_node(&n),
        "id:\ndock\n\ntitle:\nTitle dock\n\nscene:\nA scene.\n\ngoal:\nA goal.\n\ncharacters:\nguide, merchant\n\ntransitions:\n- to node=gate when character[guide].trust >= 2"
    );
    assert!(render_keeper_node(&node("x", vec![])).ends_with("candidate_transitions:\n- none"));
    assert_eq!(
        render_keeper_progression_hint_line(&gate_transition()),
        "target_node=gate | condition=character[guide].trust >= 2 | likely_state_scope=character | tracked_key=trust | tracked_character=guide"
    );
    assert_eq!(
        render_keeper_progression_hint_line(&Transition { to: "hall".to_owned(), condition: None }),
        "target_node=hall | condition=always | likely_state_scope=none | tracked_key=none"
    );
    assert_eq!(render_keeper_progression_hints(&node("x", vec![])), "- none");
}

#[test]
fn node_change_lists_matching_hints() {
    let previous = node("dock", vec![gate_transition(), Transition { to: "hall".to_owned(), condition: None }]);
    let current = node("gate", vec![]);
    assert_eq!(render_keeper_node_change(None, &current), "null");
    assert_eq!(
        render_keeper_node_change(Some(&previous), &current),
        "transitioned:\ntrue\n\nfrom:\ndock\n\nto:\ngate\n\nmatched_transition_hints:\n- target_node=gate | condition=character[guide].trust >= 2 | likely_state_scope=character | tracked_key=trust | tracked_character=guide"
    );
    assert!(render_keeper_node_change(Some(&previous), &previous).starts_with("transitioned:\nfalse"));
}

#[test]
fn actor_history_is_one_line_per_entry() {
    assert_eq!(render_actor_history(&vec![]), "- none");
    let entries = vec![ActorMemoryEntry {
        speaker_id: "guide".to_owned(),
        speaker_name: "Yuki".to_owned(),
        kind: ActorMemoryKind::Dialogue,
        text: "  Follow\nme. ".to_owned(),
    }];
    assert_eq!(render_actor_history(&entries), "- [guide|Yuki|dialogue] Follow me.");
    assert_eq!(actor_memory_kind_label(ActorMemoryKind::PlayerInput), "player_input");
    assert_eq!(actor_memory_kind_label(ActorMemoryKind::Thought), "thought");
}

#[test]
fn keeper_transitions_name_target_and_condition() {
    assert_eq!(
        render_keeper_transition(&gate_transition()),
        "to node=gate when character[guide].trust >= 2"
    );
    assert_eq!(
        render_keeper_transition(&Transition { to: "harbor".to_owned(), condition: None }),
        "to node=harbor when always"
    );
}
