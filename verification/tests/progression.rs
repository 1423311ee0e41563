use ss_engine::progression::{
    apply_progression_fallback, candidate_transition_keys, condition_key_label, condition_key_touched,
    describe_condition, matched_transition_keys, state_op_from_simple_transition_condition,
};
use ss_engine::story::{
    Condition, ConditionOperator, ConditionScope, NarrativeNode, StateOp, StateUpdate, Transition,
};

fn cond(scope: ConditionScope, key: &str, character: Option<&str>, op: ConditionOperator, value: &str) -> Condition {
    Condition {
        scope,
        key: key.to_owned(),
        character: character.map(|c| c.to_owned()),
        op,
        value_json: value.to_owned(),
    }
}

fn node_with(transitions: Vec<Transition>) -> NarrativeNode {
    NarrativeNode::new(
        "dock".to_owned(),
        "Dock".to_owned(),
        String::new(),
        String::new(),
        vec![],
        transitions,
        vec![],
    )
}

#[test]
fn condition_labels_and_descriptions() {
    let g = cond(ConditionScope::Global, "gate_open", None, ConditionOperator::Eq, "true");
    let p = cond(ConditionScope::Player, "coins", None, ConditionOperator::Gte, "3");
    let c = cond(ConditionScope::Character, "trust", Some("guide"), ConditionOperator::Contains, "\"x\"");
    let u = cond(ConditionScope::Character, "trust", None, ConditionOperator::Ne, "1");
    assert_eq!(condition_key_label(&g), "global:gate_open");
    assert_eq!(condition_key_label(&p), "player:coins");
    assert_eq!(condition_key_label(&c), "character:guide:trust");
    assert_eq!(condition_key_label(&u), "character:?:trust");
    assert_eq!(describe_condition(&g), "global.gate_open == true");
    assert_eq!(describe_condition(&p), "player.coins >= 3");
    assert_eq!(describe_condition(&c), "character[guide].trust contains \"x\"");
    assert_eq!(describe_condition(&u), "character[?].trust != 1");
}

#[test]
fn transition_keys_are_listed_in_order() {
    let node = node_with(vec![
        Transition { to: "gate".to_owned(), condition: Some(cond(ConditionScope::Global, "a", None, ConditionOperator::Eq, "1")) },
        Transition { to: "hall".to_owned(), condition: None },
        Transition { to: "gate".to_owned(), condition: Some(cond(ConditionScope::Player, "b", None, ConditionOperator::Lt, "2")) },
    ]);
    assert_eq!(candidate_transition_keys(&node), vec!["global:a", "player:b"]);
    assert_eq!(matched_transition_keys(&node, "gate"), vec!["global:a", "player:b"]);
    assert!(matched_transition_keys(&node, "hall").is_empty());
}

#[test]
fn simple_equalities_become_state_ops() {
    let op = state_op_from_simple_transition_condition(&cond(
        ConditionScope::Character,
        "trust",
        Some("guide"),
        ConditionOperator::Eq,
        "2",
    ));
    assert!(matches!(op, Some(StateOp::SetCharacterState { ref character, ref key, ref value_json })
        if character == "guide" && key == "trust" && value_json == "2"));
    assert!(state_op_from_simple_transition_condition(&cond(ConditionScope::Global, "a", None, ConditionOperator::Gt, "1")).is_none());
    assert!(state_op_from_simple_transition_condition(&cond(ConditionScope::Character, "a", None, ConditionOperator::Eq, "1")).is_none());
}

#[test]
fn second_keeper_fallback_restates_simple_eq_transition_fact() {
    // The session moved from the crossroads to the canal gate on `route ==
    // "canal_path"`, and the second keeper returned no operations.
    let crossroads = NarrativeNode::new(
        "crossroads".to_owned(),
        "Crossroads".to_owned(),
        "Two flooded lanes split around a toppled shrine.".to_owned(),
        "Commit to one route.".to_owned(),
        vec!["merchant".to_owned()],
        vec![Transition {
            to: "canal_gate".to_owned(),
            condition: Some(cond(ConditionScope::Global, "route", None, ConditionOperator::Eq, "\"canal_path\"")),
        }],
        vec![],
    );
    let mut after_turn_update = StateUpdate { ops: vec![] };
    apply_progression_fallback(true, Some(&crossroads), "canal_gate", &mut after_turn_update);
    assert_eq!(after_turn_update.ops.len(), 1);
    assert!(matches!(
        &after_turn_update.ops[0],
        StateOp::SetState { key, value_json } if key == "route" && value_json == "\"canal_path\""
    ));
}

#[test]
fn second_keeper_fallback_skips_non_eq_transition_fact() {
    // The session moved from the checkpoint to the VIP node on `coins >= 10`,
    // and the second keeper returned no operations.
    let checkpoint = NarrativeNode::new(
        "checkpoint".to_owned(),
        "Checkpoint".to_owned(),
        "A guard watches the floodgate and waits for proof of passage.".to_owned(),
        "Determine whether the courier can pass.".to_owned(),
        vec!["merchant".to_owned()],
        vec![Transition {
            to: "vip_gate".to_owned(),
            condition: Some(cond(ConditionScope::Player, "coins", None, ConditionOperator::Gte, "10")),
        }],
        vec![],
    );
    let mut after_turn_update = StateUpdate { ops: vec![] };
    apply_progression_fallback(true, Some(&checkpoint), "vip_gate", &mut after_turn_update);
    assert!(after_turn_update.ops.is_empty());
}

#[test]
fn progression_fallback_is_added_once_after_other_ops() {
    let previous = node_with(vec![Transition {
        to: "canal_gate".to_owned(),
        condition: Some(cond(ConditionScope::Player, "has_key", None, ConditionOperator::Eq, "true")),
    }]);
    let mut update = StateUpdate { ops: vec![StateOp::SetState { key: "noise".to_owned(), value_json: "1".to_owned() }] };
    assert!(apply_progression_fallback(true, Some(&previous), "canal_gate", &mut update));
    assert_eq!(update.ops.len(), 2);
    assert!(matches!(update.ops[1], StateOp::SetPlayerState { ref key, ref value_json } if key == "has_key" && value_json == "true"));
    let c = previous.transitions[0].condition.as_ref().unwrap();
    assert!(condition_key_touched(&update, c));
    // Applying it again adds nothing: the key is now touched.
    assert!(!apply_progression_fallback(true, Some(&previous), "canal_gate", &mut update));
    assert_eq!(update.ops.len(), 2);
}

#[test]
fn progression_fallback_needs_an_eq_fact_and_a_transition() {
    let previous = node_with(vec![Transition {
        to: "canal_gate".to_owned(),
        condition: Some(cond(ConditionScope::Player, "coins", None, ConditionOperator::Gte, "3")),
    }]);
    let mut update = StateUpdate { ops: vec![] };
    assert!(!apply_progression_fallback(true, Some(&previous), "canal_gate", &mut update));
    assert!(update.ops.is_empty());
    assert!(!apply_progression_fallback(false, Some(&previous), "canal_gate", &mut update));
    assert!(!apply_progression_fallback(true, None, "canal_gate", &mut update));
    assert!(!apply_progression_fallback(true, Some(&previous), "elsewhere", &mut update));
    assert!(update.ops.is_empty());
}
