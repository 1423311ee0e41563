//! The story graph: narrative nodes, the transitions between them with their
//! state conditions, and the state operations that nodes and keepers apply.
//!
//! Condition and operation values are held as their compact JSON text.
use vstd::prelude::*;

use crate::prompt::types::{clone_opt_string, opt_view};
use crate::text::string_seq_views;
use crate::world::clone_strings;

verus! {

/// Which part of the state a condition reads.
#[derive(Debug, Clone, Copy, PartialEq, Eq, Structural)]
pub enum ConditionScope {
    Global,
    Player,
    Character,
}

/// How a condition compares the state value with its operand.
#[derive(Debug, Clone, Copy, PartialEq, Eq, Structural)]
pub enum ConditionOperator {
    Eq,
    Ne,
    Gt,
    Gte,
    Lt,
    Lte,
    Contains,
}

/// A comparison of one state value with a JSON operand.
#[derive(Debug)]
pub struct Condition {
    pub scope: ConditionScope,
    pub key: String,
    pub character: Option<String>,
    pub op: ConditionOperator,
    pub value_json: String,
}

/// The value of a condition.
pub struct ConditionView {
    pub scope: ConditionScope,
    pub key: Seq<char>,
    pub character: Option<Seq<char>>,
    pub op: ConditionOperator,
    pub value: Seq<char>,
}

impl View for Condition {
    type V = ConditionView;

    open spec fn view(&self) -> ConditionView {
        ConditionView {
            scope: self.scope,
            key: self.key@,
            character: opt_view(self.character),
            op: self.op,
            value: self.value_json@,
        }
    }
}

impl Condition {
    /// A copy of the condition.
    pub fn duplicate(&self) -> (c: Condition)
        ensures
            c@ == self@,
    {
        Condition {
            scope: self.scope,
            key: self.key.clone(),
            character: clone_opt_string(&self.character),
            op: self.op,
            value_json: self.value_json.clone(),
        }
    }
}

/// An edge of the story graph, taken when its condition holds (always when it
/// has none).
#[derive(Debug)]
pub struct Transition {
    pub to: String,
    pub condition: Option<Condition>,
}

/// The value of a transition.
pub struct TransitionView {
    pub to: Seq<char>,
    pub condition: Option<ConditionView>,
}

/// The view of an optional condition.
pub open spec fn opt_condition_view(c: Option<Condition>) -> Option<ConditionView> {
    match c {
        Some(c) => Some(c@),
        None => None,
    }
}

impl View for Transition {
    type V = TransitionView;

    open spec fn view(&self) -> TransitionView {
        TransitionView { to: self.to@, condition: opt_condition_view(self.condition) }
    }
}

/// The views of transitions.
pub open spec fn transition_views(v: Seq<Transition>) -> Seq<TransitionView> {
    v.map_values(|t: Transition| t@)
}

impl Transition {
    /// A copy of the transition.
    pub fn duplicate(&self) -> (t: Transition)
        ensures
            t@ == self@,
    {
        Transition {
            to: self.to.clone(),
            condition: match &self.condition {
                Some(c) => Some(c.duplicate()),
                None => None,
            },
        }
    }
}

/// Copies a list of transitions.
pub fn clone_transitions(v: &Vec<Transition>) -> (r: Vec<Transition>)
    ensures
        transition_views(r@) == transition_views(v@),
{
    let mut out: Vec<Transition> = Vec::new();
    let mut i: usize = 0;
    while i < v.len()
        invariant
            i <= v@.len(),
            transition_views(out@) =~= transition_views(v@.take(i as int)),
        decreases v.len() - i,
    {
        let ghost before = out@;
        out.push(v[i].duplicate());
        proof {
            assert(out@ =~= before.push(out@.last()));
            assert(v@.take(i + 1) =~= v@.take(i as int).push(v@[i as int]));
            assert(transition_views(v@.take(i + 1)) =~= transition_views(v@.take(i as int)).push(
                v@[i as int]@,
            ));
        }
        i = i + 1;
    }
    assert(v@.take(v@.len() as int) =~= v@);
    out
}

/// One change to the state of a session.
#[derive(Debug)]
pub enum StateOp {
    SetCurrentNode { node_id: String },
    SetActiveCharacters { characters: Vec<String> },
    AddActiveCharacter { character: String },
    RemoveActiveCharacter { character: String },
    SetState { key: String, value_json: String },
    RemoveState { key: String },
    SetPlayerState { key: String, value_json: String },
    RemovePlayerState { key: String },
    SetCharacterState { character: String, key: String, value_json: String },
    RemoveCharacterState { character: String, key: String },
}

/// The value of a state operation.
pub enum OpView {
    SetCurrentNode { node_id: Seq<char> },
    SetActiveCharacters { characters: Seq<Seq<char>> },
    AddActiveCharacter { character: Seq<char> },
    RemoveActiveCharacter { character: Seq<char> },
    SetState { key: Seq<char>, value: Seq<char> },
    RemoveState { key: Seq<char> },
    SetPlayerState { key: Seq<char>, value: Seq<char> },
    RemovePlayerState { key: Seq<char> },
    SetCharacterState { character: Seq<char>, key: Seq<char>, value: Seq<char> },
    RemoveCharacterState { character: Seq<char>, key: Seq<char> },
}

impl View for StateOp {
    type V = OpView;

    open spec fn view(&self) -> OpView {
        match self {
            StateOp::SetCurrentNode { node_id } => OpView::SetCurrentNode { node_id: node_id@ },
            StateOp::SetActiveCharacters { characters } => OpView::SetActiveCharacters {
                characters: string_seq_views(characters@),
            },
            StateOp::AddActiveCharacter { character } => OpView::AddActiveCharacter {
                character: character@,
            },
            StateOp::RemoveActiveCharacter { character } => OpView::RemoveActiveCharacter {
                character: character@,
            },
            StateOp::SetState { key, value_json } => OpView::SetState {
                key: key@,
                value: value_json@,
            },
            StateOp::RemoveState { key } => OpView::RemoveState { key: key@ },
            StateOp::SetPlayerState { key, value_json } => OpView::SetPlayerState {
                key: key@,
                value: value_json@,
            },
            StateOp::RemovePlayerState { key } => OpView::RemovePlayerState { key: key@ },
            StateOp::SetCharacterState { character, key, value_json } => OpView::SetCharacterState {
                character: character@,
                key: key@,
                value: value_json@,
            },
            StateOp::RemoveCharacterState { character, key } => OpView::RemoveCharacterState {
                character: character@,
                key: key@,
            },
        }
    }
}

/// The views of state operations.
pub open spec fn op_views(v: Seq<StateOp>) -> Seq<OpView> {
    v.map_values(|o: StateOp| o@)
}

impl StateOp {
    /// A copy of the operation.
    pub fn duplicate(&self) -> (o: StateOp)
        ensures
            o@ == self@,
    {
        match self {
            StateOp::SetCurrentNode { node_id } => StateOp::SetCurrentNode { node_id: node_id.clone() },
            StateOp::SetActiveCharacters { characters } => StateOp::SetActiveCharacters {
                characters: clone_strings(characters),
            },
            StateOp::AddActiveCharacter { character } => StateOp::AddActiveCharacter {
                character: character.clone(),
            },
            StateOp::RemoveActiveCharacter { character } => StateOp::RemoveActiveCharacter {
                character: character.clone(),
            },
            StateOp::SetState { key, value_json } => StateOp::SetState {
                key: key.clone(),
                value_json: value_json.clone(),
            },
            StateOp::RemoveState { key } => StateOp::RemoveState { key: key.clone() },
            StateOp::SetPlayerState { key, value_json } => StateOp::SetPlayerState {
                key: key.clone(),
                value_json: value_json.clone(),
            },
            StateOp::RemovePlayerState { key } => StateOp::RemovePlayerState { key: key.clone() },
            StateOp::SetCharacterState { character, key, value_json } => StateOp::SetCharacterState {
                character: character.clone(),
                key: key.clone(),
                value_json: value_json.clone(),
            },
            StateOp::RemoveCharacterState { character, key } => StateOp::RemoveCharacterState {
                character: character.clone(),
                key: key.clone(),
            },
        }
    }
}

/// Copies a list of state operations.
pub fn clone_ops(v: &Vec<StateOp>) -> (r: Vec<StateOp>)
    ensures
        op_views(r@) == op_views(v@),
{
    let mut out: Vec<StateOp> = Vec::new();
    let mut i: usize = 0;
    while i < v.len()
        invariant
            i <= v@.len(),
            op_views(out@) =~= op_views(v@.take(i as int)),
        decreases v.len() - i,
    {
        let ghost before = out@;
        out.push(v[i].duplicate());
        proof {
            assert(out@ =~= before.push(out@.last()));
            assert(v@.take(i + 1) =~= v@.take(i as int).push(v@[i as int]));
            assert(op_views(v@.take(i + 1)) =~= op_views(v@.take(i as int)).push(v@[i as int]@));
        }
        i = i + 1;
    }
    assert(v@.take(v@.len() as int) =~= v@);
    out
}

/// A batch of state operations, applied in order.
#[derive(Debug)]
pub struct StateUpdate {
    pub ops: Vec<StateOp>,
}

impl StateUpdate {
    /// Appends an operation.
    pub fn add_op(&mut self, op: StateOp)
        ensures
            op_views(final(self).ops@) == op_views(old(self).ops@).push(op@),
    {
        let ghost before = self.ops@;
        let ghost ov = op@;
        self.ops.push(op);
        proof {
            assert(op_views(self.ops@) =~= op_views(before).push(ov));
        }
    }
}

/// A scene of the story.
#[derive(Debug)]
pub struct NarrativeNode {
    pub id: String,
    pub title: String,
    pub scene: String,
    pub goal: String,
    pub characters: Vec<String>,
    pub transitions: Vec<Transition>,
    pub on_enter_updates: Vec<StateOp>,
}

/// The value of a node.
pub struct NodeView {
    pub id: Seq<char>,
    pub title: Seq<char>,
    pub scene: Seq<char>,
    pub goal: Seq<char>,
    pub characters: Seq<Seq<char>>,
    pub transitions: Seq<TransitionView>,
    pub on_enter_updates: Seq<OpView>,
}

impl View for NarrativeNode {
    type V = NodeView;

    open spec fn view(&self) -> NodeView {
        NodeView {
            id: self.id@,
            title: self.title@,
            scene: self.scene@,
            goal: self.goal@,
            characters: string_seq_views(self.characters@),
            transitions: transition_views(self.transitions@),
            on_enter_updates: op_views(self.on_enter_updates@),
        }
    }
}

/// The views of nodes.
pub open spec fn node_views(v: Seq<NarrativeNode>) -> Seq<NodeView> {
    v.map_values(|n: NarrativeNode| n@)
}

impl NarrativeNode {
    /// A node from its parts.
    pub fn new(
        id: String,
        title: String,
        scene: String,
        goal: String,
        characters: Vec<String>,
        transitions: Vec<Transition>,
        on_enter_updates: Vec<StateOp>,
    ) -> (n: NarrativeNode)
        ensures
            n@ == (NodeView {
                id: id@,
                title: title@,
                scene: scene@,
                goal: goal@,
                characters: string_seq_views(characters@),
                transitions: transition_views(transitions@),
                on_enter_updates: op_views(on_enter_updates@),
            }),
    {
        NarrativeNode { id, title, scene, goal, characters, transitions, on_enter_updates }
    }

    /// The title of the node.
    pub fn title(&self) -> (t: &str)
        ensures
            t@ == self@.title,
    {
        self.title.as_str()
    }

    /// A copy of the node.
    pub fn duplicate(&self) -> (n: NarrativeNode)
        ensures
            n@ == self@,
    {
        NarrativeNode {
            id: self.id.clone(),
            title: self.title.clone(),
            scene: self.scene.clone(),
            goal: self.goal.clone(),
            characters: clone_strings(&self.characters),
            transitions: clone_transitions(&self.transitions),
            on_enter_updates: clone_ops(&self.on_enter_updates),
        }
    }
}

/// A story graph: its nodes and the id of the node a session starts at.
#[derive(Debug)]
pub struct StoryGraph {
    pub start_node: String,
    pub nodes: Vec<NarrativeNode>,
}

/// The value of a story graph.
pub struct GraphView {
    pub start_node: Seq<char>,
    pub nodes: Seq<NodeView>,
}

impl View for StoryGraph {
    type V = GraphView;

    open spec fn view(&self) -> GraphView {
        GraphView { start_node: self.start_node@, nodes: node_views(self.nodes@) }
    }
}

impl StoryGraph {
    /// A graph from its start node id and its nodes.
    pub fn new(start_node: String, nodes: Vec<NarrativeNode>) -> (g: StoryGraph)
        ensures
            g@ == (GraphView { start_node: start_node@, nodes: node_views(nodes@) }),
    {
        StoryGraph { start_node, nodes }
    }
}

} // verus!
