//! How a turn's state update relates to the transitions of the story graph:
//! the labels of condition keys, which keys an update touches, and the
//! progression fallback that restates a simple equality condition when the
//! director moved along a transition that the keeper did not account for.
use vstd::prelude::*;

use crate::story::{
    Condition, ConditionOperator, ConditionScope, ConditionView, NarrativeNode, NodeView, OpView,
    StateOp, StateUpdate, TransitionView, op_views, transition_views,
};
use crate::text::{push_str, str_chars, string_of_chars, string_seq_views};
use crate::prompt::types::str_eq;

verus! {

/// The character a condition names, or `?` when it names none.
pub open spec fn character_or_unknown(c: ConditionView) -> Seq<char> {
    match c.character {
        Some(ch) => ch,
        None => "?"@,
    }
}

/// `global:key`, `player:key` or `character:id:key`.
pub open spec fn condition_label(c: ConditionView) -> Seq<char> {
    match c.scope {
        ConditionScope::Global => "global:"@ + c.key,
        ConditionScope::Player => "player:"@ + c.key,
        ConditionScope::Character => "character:"@ + character_or_unknown(c) + ":"@ + c.key,
    }
}

/// `global.key`, `player.key` or `character[id].key`.
pub open spec fn condition_left(c: ConditionView) -> Seq<char> {
    match c.scope {
        ConditionScope::Global => "global."@ + c.key,
        ConditionScope::Player => "player."@ + c.key,
        ConditionScope::Character => "character["@ + character_or_unknown(c) + "]."@ + c.key,
    }
}

/// The symbol of a comparison operator.
pub open spec fn operator_text(op: ConditionOperator) -> Seq<char> {
    match op {
        ConditionOperator::Eq => "=="@,
        ConditionOperator::Ne => "!="@,
        ConditionOperator::Gt => ">"@,
        ConditionOperator::Gte => ">="@,
        ConditionOperator::Lt => "<"@,
        ConditionOperator::Lte => "<="@,
        ConditionOperator::Contains => "contains"@,
    }
}

/// `left op value`, the readable form of a condition.
pub open spec fn condition_text(c: ConditionView) -> Seq<char> {
    condition_left(c) + " "@ + operator_text(c.op) + " "@ + c.value
}

/// The symbol of a comparison operator.
pub fn render_condition_operator(op: ConditionOperator) -> (s: &'static str)
    ensures
        s@ == operator_text(op),
{
    match op {
        ConditionOperator::Eq => "==",
        ConditionOperator::Ne => "!=",
        ConditionOperator::Gt => ">",
        ConditionOperator::Gte => ">=",
        ConditionOperator::Lt => "<",
        ConditionOperator::Lte => "<=",
        ConditionOperator::Contains => "contains",
    }
}

/// Appends the character a condition names, or `?`.
fn push_character(out: &mut Vec<char>, condition: &Condition)
    ensures
        final(out)@ == old(out)@ + character_or_unknown(condition@),
{
    match &condition.character {
        Some(ch) => push_str(out, ch.as_str()),
        None => push_str(out, "?"),
    }
}

/// The label of the state key a condition reads (`global:key`,
/// `player:key`, `character:id:key`).
pub fn condition_key_label(condition: &Condition) -> (s: String)
    ensures
        s@ == condition_label(condition@),
{
    let mut out: Vec<char> = Vec::new();
    match condition.scope {
        ConditionScope::Global => push_str(&mut out, "global:"),
        ConditionScope::Player => push_str(&mut out, "player:"),
        ConditionScope::Character => {
            push_str(&mut out, "character:");
            push_character(&mut out, condition);
            push_str(&mut out, ":");
        },
    }
    push_str(&mut out, condition.key.as_str());
    string_of_chars(out.as_slice())
}

/// Appends `global.key`, `player.key` or `character[id].key`.
fn push_condition_left(out: &mut Vec<char>, condition: &Condition)
    ensures
        final(out)@ == old(out)@ + condition_left(condition@),
{
    let ghost start = out@;
    match condition.scope {
        ConditionScope::Global => push_str(out, "global."),
        ConditionScope::Player => push_str(out, "player."),
        ConditionScope::Character => {
            push_str(out, "character[");
            push_character(out, condition);
            push_str(out, "].");
        },
    }
    push_str(out, condition.key.as_str());
    proof {
        assert(out@ =~= start + condition_left(condition@));
    }
}

/// The readable form of a condition: `left op value`.
pub fn describe_condition(condition: &Condition) -> (s: String)
    ensures
        s@ == condition_text(condition@),
{
    let mut out: Vec<char> = Vec::new();
    push_condition_left(&mut out, condition);
    push_str(&mut out, " ");
    push_str(&mut out, render_condition_operator(condition.op));
    push_str(&mut out, " ");
    push_str(&mut out, condition.value_json.as_str());
    proof {
        assert(out@ =~= condition_text(condition@));
    }
    string_of_chars(out.as_slice())
}

/// Whether an operation writes or removes the state key a condition reads.
pub open spec fn op_touches(o: OpView, c: ConditionView) -> bool {
    match o {
        OpView::SetState { key, .. } => c.scope == ConditionScope::Global && key == c.key,
        OpView::RemoveState { key } => c.scope == ConditionScope::Global && key == c.key,
        OpView::SetPlayerState { key, .. } => c.scope == ConditionScope::Player && key == c.key,
        OpView::RemovePlayerState { key } => c.scope == ConditionScope::Player && key == c.key,
        OpView::SetCharacterState { character, key, .. } => c.scope == ConditionScope::Character
            && key == c.key && c.character == Some(character),
        OpView::RemoveCharacterState { character, key } => c.scope == ConditionScope::Character
            && key == c.key && c.character == Some(character),
        _ => false,
    }
}

/// Whether some operation of a batch touches the key a condition reads.
pub open spec fn update_touches(ops: Seq<OpView>, c: ConditionView) -> bool {
    exists|i: int| 0 <= i < ops.len() && #[trigger] op_touches(ops[i], c)
}

/// Whether an operation touches the key a condition reads.
fn op_touches_condition(op: &StateOp, condition: &Condition) -> (b: bool)
    ensures
        b == op_touches(op@, condition@),
{
    match op {
        StateOp::SetState { key, .. } | StateOp::RemoveState { key } => {
            condition.scope == ConditionScope::Global && str_eq(key.as_str(), condition.key.as_str())
        },
        StateOp::SetPlayerState { key, .. } | StateOp::RemovePlayerState { key } => {
            condition.scope == ConditionScope::Player && str_eq(key.as_str(), condition.key.as_str())
        },
        StateOp::SetCharacterState { character, key, .. }
        | StateOp::RemoveCharacterState { character, key } => {
            condition.scope == ConditionScope::Character && str_eq(
                key.as_str(),
                condition.key.as_str(),
            ) && match &condition.character {
                Some(expected) => str_eq(expected.as_str(), character.as_str()),
                None => false,
            }
        },
        _ => false,
    }
}

/// Whether some operation of the update writes or removes the state key that
/// the condition reads.
pub fn condition_key_touched(update: &StateUpdate, condition: &Condition) -> (b: bool)
    ensures
        b == update_touches(op_views(update.ops@), condition@),
{
    let ghost ov = op_views(update.ops@);
    let mut i: usize = 0;
    while i < update.ops.len()
        invariant
            ov == op_views(update.ops@),
            i <= update.ops@.len(),
            forall|j: int| 0 <= j < i ==> !op_touches(#[trigger] ov[j], condition@),
        decreases update.ops.len() - i,
    {
        if op_touches_condition(&update.ops[i], condition) {
            assert(op_touches(ov[i as int], condition@));
            return true;
        }
        i = i + 1;
    }
    false
}

/// The operation that makes an equality condition true by writing its operand
/// to the key it reads; none for other operators, or for a character
/// condition that names no character.
pub open spec fn simple_op(c: ConditionView) -> Option<OpView> {
    if c.op != ConditionOperator::Eq {
        None
    } else {
        match c.scope {
            ConditionScope::Global => Some(OpView::SetState { key: c.key, value: c.value }),
            ConditionScope::Player => Some(OpView::SetPlayerState { key: c.key, value: c.value }),
            ConditionScope::Character => match c.character {
                Some(ch) => Some(OpView::SetCharacterState { character: ch, key: c.key, value: c.value }),
                None => None,
            },
        }
    }
}

/// The operation that makes a simple equality condition true.
pub fn state_op_from_simple_transition_condition(condition: &Condition) -> (r: Option<StateOp>)
    ensures
        match r {
            Some(o) => simple_op(condition@) == Some(o@),
            None => simple_op(condition@) is None,
        },
{
    if condition.op != ConditionOperator::Eq {
        return None;
    }
    match condition.scope {
        ConditionScope::Global => Some(
            StateOp::SetState { key: condition.key.clone(), value_json: condition.value_json.clone() },
        ),
        ConditionScope::Player => Some(
            StateOp::SetPlayerState {
                key: condition.key.clone(),
                value_json: condition.value_json.clone(),
            },
        ),
        ConditionScope::Character => match &condition.character {
            Some(ch) => Some(
                StateOp::SetCharacterState {
                    character: ch.clone(),
                    key: condition.key.clone(),
                    value_json: condition.value_json.clone(),
                },
            ),
            None => None,
        },
    }
}

/// The labels of the conditioned transitions of a list, in order.
pub open spec fn labels_of(ts: Seq<TransitionView>) -> Seq<Seq<char>>
    decreases ts.len(),
{
    if ts.len() == 0 {
        seq![]
    } else {
        let rest = labels_of(ts.drop_last());
        match ts.last().condition {
            Some(c) => rest.push(condition_label(c)),
            None => rest,
        }
    }
}

/// The transitions of a list that lead to node `to`.
pub open spec fn transitions_to(ts: Seq<TransitionView>, to: Seq<char>) -> Seq<TransitionView> {
    ts.filter(|t: TransitionView| t.to == to)
}

/// The key labels of the conditioned transitions out of a node.
pub fn candidate_transition_keys(node: &NarrativeNode) -> (r: Vec<String>)
    ensures
        string_seq_views(r@) == labels_of(node@.transitions),
{
    keys_of_transitions_to(node, None)
}

/// The key labels of the conditioned transitions out of `previous_node` that
/// lead to `current_node_id`.
pub fn matched_transition_keys(previous_node: &NarrativeNode, current_node_id: &str) -> (r: Vec<
    String,
>)
    ensures
        string_seq_views(r@) == labels_of(transitions_to(previous_node@.transitions, current_node_id@)),
{
    keys_of_transitions_to(previous_node, Some(current_node_id))
}

/// The key labels of the conditioned transitions out of a node, restricted to
/// those leading to `target` when one is given.
fn keys_of_transitions_to(node: &NarrativeNode, target: Option<&str>) -> (r: Vec<String>)
    ensures
        string_seq_views(r@) == labels_of(
            match target {
                Some(to) => transitions_to(node@.transitions, to@),
                None => node@.transitions,
            },
        ),
{
    let ghost tv = node@.transitions;
    let ghost pred = |t: TransitionView| t.to == target.unwrap()@;
    let ghost sel = |s: Seq<TransitionView>|
        match target {
            Some(to) => s.filter(pred),
            None => s,
        };
    let mut out: Vec<String> = Vec::new();
    let mut i: usize = 0;
    while i < node.transitions.len()
        invariant
            tv == node@.transitions,
            tv == transition_views(node.transitions@),
            pred == (|t: TransitionView| t.to == target.unwrap()@),
            sel == (|s: Seq<TransitionView>|
                match target {
                    Some(to) => s.filter(pred),
                    None => s,
                }),
            i <= tv.len(),
            string_seq_views(out@) == labels_of(sel(tv.take(i as int))),
        decreases node.transitions.len() - i,
    {
        let t = &node.transitions[i];
        let ghost before = out@;
        proof {
            assert(tv.take(i + 1) =~= tv.take(i as int).push(tv[i as int]));
            tv.take(i as int).lemma_filter_push(tv[i as int], pred);
            assert(tv[i as int] == t@);
        }
        let keep = match target {
            Some(to) => str_eq(t.to.as_str(), to),
            None => true,
        };
        if keep {
            proof {
                assert(sel(tv.take(i + 1)) == sel(tv.take(i as int)).push(t@));
                assert(sel(tv.take(i + 1)).drop_last() =~= sel(tv.take(i as int)));
            }
            match &t.condition {
                Some(c) => {
                    let label = condition_key_label(c);
                    out.push(label);
                    proof {
                        assert(out@ =~= before.push(out@.last()));
                        assert(string_seq_views(out@) =~= string_seq_views(before).push(
                            condition_label(c@),
                        ));
                    }
                },
                None => {},
            }
        } else {
            proof {
                assert(sel(tv.take(i + 1)) == sel(tv.take(i as int)));
            }
        }
        i = i + 1;
    }
    proof {
        assert(tv.take(tv.len() as int) =~= tv);
    }
    out
}

/// The index of the first transition of a list that leads to node `to`.
pub open spec fn first_transition_to(ts: Seq<TransitionView>, to: Seq<char>, i: int) -> Option<int>
    decreases ts.len() - i,
{
    if i < 0 || i >= ts.len() {
        None
    } else if ts[i].to == to {
        Some(i)
    } else {
        first_transition_to(ts, to, i + 1)
    }
}

/// The operation that the progression fallback adds to a keeper's update: when
/// the director moved from `previous` to `current_id`, the first transition
/// between them has an equality condition, and no operation of the update
/// touches the key that condition reads, the operation writing the
/// condition's operand to that key.
pub open spec fn fallback_op(
    transitioned: bool,
    previous: Option<NodeView>,
    current_id: Seq<char>,
    ops: Seq<OpView>,
) -> Option<OpView> {
    if !transitioned {
        None
    } else {
        match previous {
            None => None,
            Some(p) => match first_transition_to(p.transitions, current_id, 0) {
                None => None,
                Some(i) => match p.transitions[i].condition {
                    None => None,
                    Some(c) => if update_touches(ops, c) {
                        None
                    } else {
                        simple_op(c)
                    },
                },
            },
        }
    }
}

/// The first transition of a node that leads to `to`.
fn find_transition_to(node: &NarrativeNode, to: &str) -> (r: Option<usize>)
    ensures
        match r {
            Some(i) => i < node@.transitions.len() && first_transition_to(node@.transitions, to@, 0)
                == Some(i as int),
            None => first_transition_to(node@.transitions, to@, 0) is None,
        },
{
    let ghost tv = node@.transitions;
    let mut i: usize = 0;
    while i < node.transitions.len()
        invariant
            tv == transition_views(node.transitions@),
            i <= tv.len(),
            first_transition_to(tv, to@, 0) == first_transition_to(tv, to@, i as int),
        decreases node.transitions.len() - i,
    {
        assert(tv[i as int] == node.transitions@[i as int]@);
        if str_eq(node.transitions[i].to.as_str(), to) {
            return Some(i);
        }
        i = i + 1;
    }
    None
}

/// Adds the progression fallback operation (see `fallback_op`) to a keeper's
/// update; true when one was added.
pub fn apply_progression_fallback(
    transitioned: bool,
    previous_node: Option<&NarrativeNode>,
    current_node_id: &str,
    update: &mut StateUpdate,
) -> (added: bool)
    ensures
        added == fallback_op(
            transitioned,
            match previous_node {
                Some(n) => Some(n@),
                None => None,
            },
            current_node_id@,
            op_views(old(update).ops@),
        ) is Some,
        op_views(final(update).ops@) == match fallback_op(
            transitioned,
            match previous_node {
                Some(n) => Some(n@),
                None => None,
            },
            current_node_id@,
            op_views(old(update).ops@),
        ) {
            Some(o) => op_views(old(update).ops@).push(o),
            None => op_views(old(update).ops@),
        },
{
    if !transitioned {
        return false;
    }
    let previous = match previous_node {
        Some(n) => n,
        None => return false,
    };
    let index = match find_transition_to(previous, current_node_id) {
        Some(i) => i,
        None => return false,
    };
    assert(previous@.transitions[index as int] == previous.transitions@[index as int]@);
    let condition = match &previous.transitions[index].condition {
        Some(c) => c,
        None => return false,
    };
    if condition_key_touched(update, condition) {
        return false;
    }
    match state_op_from_simple_transition_condition(condition) {
        Some(op) => {
            update.add_op(op);
            true
        },
        None => false,
    }
}

/// The fallback restates the condition it was derived from: the operation it
/// adds writes the condition's own operand to the key the condition reads, so
/// the update then touches that key.
pub proof fn lemma_fallback_restates_condition(
    transitioned: bool,
    previous: NodeView,
    current_id: Seq<char>,
    ops: Seq<OpView>,
)
    requires
        fallback_op(transitioned, Some(previous), current_id, ops) is Some,
    ensures
        ({
            let i = first_transition_to(previous.transitions, current_id, 0)->0;
            let c = previous.transitions[i].condition->0;
            let o = fallback_op(transitioned, Some(previous), current_id, ops)->0;
            &&& c.op == ConditionOperator::Eq
            &&& !update_touches(ops, c)
            &&& update_touches(ops.push(o), c)
            &&& match o {
                OpView::SetState { key, value } => c.scope == ConditionScope::Global && key == c.key
                    && value == c.value,
                OpView::SetPlayerState { key, value } => c.scope == ConditionScope::Player && key
                    == c.key && value == c.value,
                OpView::SetCharacterState { character, key, value } => c.scope
                    == ConditionScope::Character && c.character == Some(character) && key == c.key
                    && value == c.value,
                _ => false,
            }
        }),
{
    let i = first_transition_to(previous.transitions, current_id, 0)->0;
    let c = previous.transitions[i].condition->0;
    let o = fallback_op(transitioned, Some(previous), current_id, ops)->0;
    assert(ops.push(o)[ops.len() as int] == o);
    assert(op_touches(ops.push(o)[ops.len() as int], c));
}

/// The state key an operation writes or removes, with its scope and, for a
/// character's state, the character; none for scene operations.
pub open spec fn written_key(o: OpView) -> Option<(ConditionScope, Option<Seq<char>>, Seq<char>)> {
    match o {
        OpView::SetState { key, .. } => Some((ConditionScope::Global, None, key)),
        OpView::RemoveState { key } => Some((ConditionScope::Global, None, key)),
        OpView::SetPlayerState { key, .. } => Some((ConditionScope::Player, None, key)),
        OpView::RemovePlayerState { key } => Some((ConditionScope::Player, None, key)),
        OpView::SetCharacterState { character, key, .. } => Some(
            (ConditionScope::Character, Some(character), key),
        ),
        OpView::RemoveCharacterState { character, key } => Some((ConditionScope::Character, Some(character), key)),
        _ => None,
    }
}

/// An operation touches a condition only by writing or removing the
/// condition's own key, in the condition's scope (and, for a character's
/// state, of the condition's character); and every such operation does.
pub proof fn lemma_touch_is_own_key(o: OpView, c: ConditionView)
    ensures
        op_touches(o, c) ==> (written_key(o) matches Some(w) && w.0 == c.scope && w.2 == c.key),
        op_touches(o, c) && c.scope == ConditionScope::Character ==> (written_key(o) matches Some(w) && w.1
            == c.character),
        (written_key(o) matches Some(w) && w.0 == c.scope && w.2 == c.key && (c.scope
            == ConditionScope::Character ==> w.1 == c.character && c.character is Some)) ==> op_touches(o, c),
{
}

/// An update whose operations all write other keys never touches a
/// condition.
pub proof fn lemma_other_keys_never_touch(ops: Seq<OpView>, c: ConditionView)
    requires
        forall|i: int| 0 <= i < ops.len() ==> !(#[trigger] written_key(ops[i]) matches Some(w) && w.2 == c.key),
    ensures
        !update_touches(ops, c),
{
    if update_touches(ops, c) {
        let i = choose|i: int| 0 <= i < ops.len() && #[trigger] op_touches(ops[i], c);
        lemma_touch_is_own_key(ops[i], c);
        assert(written_key(ops[i]) matches Some(w) && w.2 == c.key);
    }
}

/// After a transition on an equality condition, the fallback restates the
/// condition whenever the keeper's operations all write other keys.
pub proof fn lemma_fallback_added_when_key_untouched(
    previous: NodeView,
    current_id: Seq<char>,
    ops: Seq<OpView>,
    i: int,
    c: ConditionView,
)
    requires
        first_transition_to(previous.transitions, current_id, 0) == Some(i),
        previous.transitions[i].condition == Some(c),
        simple_op(c) is Some,
        forall|k: int| 0 <= k < ops.len() ==> !(#[trigger] written_key(ops[k]) matches Some(w) && w.2 == c.key),
    ensures
        fallback_op(true, Some(previous), current_id, ops) == simple_op(c),
        fallback_op(true, Some(previous), current_id, ops) is Some,
{
    lemma_other_keys_never_touch(ops, c);
}

/// No fallback is added when the keeper's update writes or removes the key
/// of the transition's condition itself.
pub proof fn lemma_no_fallback_when_key_written(
    transitioned: bool,
    previous: NodeView,
    current_id: Seq<char>,
    ops: Seq<OpView>,
    i: int,
    c: ConditionView,
    k: int,
)
    requires
        first_transition_to(previous.transitions, current_id, 0) == Some(i),
        previous.transitions[i].condition == Some(c),
        0 <= k < ops.len(),
        written_key(ops[k]) matches Some(w) && w.0 == c.scope && w.2 == c.key && (c.scope
            == ConditionScope::Character ==> w.1 == c.character && c.character is Some),
    ensures
        fallback_op(transitioned, Some(previous), current_id, ops) is None,
{
    lemma_touch_is_own_key(ops[k], c);
    assert(op_touches(ops[k], c));
}

} // verus!
