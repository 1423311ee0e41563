//! Short summaries of story graph nodes that the architect is shown while it
//! drafts a story in sections: every node of the graph so far, and the nodes
//! of the most recent section in a little more detail.
use vstd::prelude::*;

use crate::graph::{find_node, node_index};
use crate::story::{node_views, GraphView, NarrativeNode, NodeView, OpView, StateOp, StoryGraph, TransitionView};
use crate::text::{push_str, str_chars, string_of_chars, string_seq_views, truncated_seq};
use crate::util::truncate_text;
use crate::world::clone_strings;

verus! {

/// A node of the graph as the draft's graph summary shows it.
#[derive(Debug)]
pub struct GraphSummaryNode {
    pub id: String,
    pub title: String,
    pub scene_summary: String,
    pub goal: String,
    pub characters: Vec<String>,
    pub transition_targets: Vec<String>,
}

/// The value of a graph summary node.
pub struct GraphSummaryView {
    pub id: Seq<char>,
    pub title: Seq<char>,
    pub scene_summary: Seq<char>,
    pub goal: Seq<char>,
    pub characters: Seq<Seq<char>>,
    pub transition_targets: Seq<Seq<char>>,
}

impl View for GraphSummaryNode {
    type V = GraphSummaryView;

    open spec fn view(&self) -> GraphSummaryView {
        GraphSummaryView {
            id: self.id@,
            title: self.title@,
            scene_summary: self.scene_summary@,
            goal: self.goal@,
            characters: string_seq_views(self.characters@),
            transition_targets: string_seq_views(self.transition_targets@),
        }
    }
}

/// The targets of transitions, in order.
pub open spec fn targets_of(ts: Seq<TransitionView>) -> Seq<Seq<char>> {
    ts.map_values(|t: TransitionView| t.to)
}

/// A node summarized: its id, title and characters, its scene cut to 200
/// characters and its goal cut to 120, and where its transitions lead.
pub open spec fn graph_summary_of(n: NodeView) -> GraphSummaryView {
    GraphSummaryView {
        id: n.id,
        title: n.title,
        scene_summary: truncated_seq(n.scene, 200),
        goal: truncated_seq(n.goal, 120),
        characters: n.characters,
        transition_targets: targets_of(n.transitions),
    }
}

/// The views of graph summary nodes.
pub open spec fn graph_summary_views(v: Seq<GraphSummaryNode>) -> Seq<GraphSummaryView> {
    v.map_values(|x: GraphSummaryNode| x@)
}

/// The targets of a node's transitions.
fn transition_targets(node: &NarrativeNode) -> (r: Vec<String>)
    ensures
        string_seq_views(r@) == targets_of(node@.transitions),
{
    let mut out: Vec<String> = Vec::new();
    let mut i: usize = 0;
    while i < node.transitions.len()
        invariant
            i <= node.transitions@.len(),
            string_seq_views(out@) =~= targets_of(node@.transitions).take(i as int),
        decreases node.transitions.len() - i,
    {
        let ghost before = out@;
        out.push(node.transitions[i].to.clone());
        proof {
            assert(string_seq_views(out@) =~= string_seq_views(before).push(out@.last()@));
            assert(targets_of(node@.transitions).take(i + 1) =~= targets_of(node@.transitions).take(
                i as int,
            ).push(node@.transitions[i as int].to));
        }
        i = i + 1;
    }
    proof {
        assert(targets_of(node@.transitions).take(node.transitions@.len() as int) =~= targets_of(
            node@.transitions,
        ));
    }
    out
}

/// Summarizes every node of a graph, in order.
pub fn build_graph_summary(graph: &StoryGraph) -> (r: Vec<GraphSummaryNode>)
    ensures
        graph_summary_views(r@) == graph@.nodes.map_values(|n: NodeView| graph_summary_of(n)),
{
    let ghost f = |n: NodeView| graph_summary_of(n);
    let mut out: Vec<GraphSummaryNode> = Vec::new();
    let mut i: usize = 0;
    while i < graph.nodes.len()
        invariant
            f == (|n: NodeView| graph_summary_of(n)),
            i <= graph.nodes@.len(),
            graph_summary_views(out@) =~= graph@.nodes.take(i as int).map_values(f),
        decreases graph.nodes.len() - i,
    {
        let node = &graph.nodes[i];
        let item = GraphSummaryNode {
            id: node.id.clone(),
            title: node.title.clone(),
            scene_summary: truncate_text(node.scene.as_str(), 200),
            goal: truncate_text(node.goal.as_str(), 120),
            characters: clone_strings(&node.characters),
            transition_targets: transition_targets(node),
        };
        let ghost before = out@;
        assert(item@ == f(graph@.nodes[i as int]));
        out.push(item);
        proof {
            assert(graph_summary_views(out@) =~= graph_summary_views(before).push(item@));
            assert(graph@.nodes.take(i + 1) =~= graph@.nodes.take(i as int).push(graph@.nodes[i as int]));
        }
        i = i + 1;
    }
    proof {
        assert(graph@.nodes.take(graph.nodes@.len() as int) =~= graph@.nodes);
    }
    out
}

/// What an entry update touches: the current node, the active characters,
/// or a world, player or character key.
pub open spec fn update_key(o: OpView) -> Seq<char> {
    match o {
        OpView::SetCurrentNode { node_id } => "current_node:"@ + node_id,
        OpView::SetActiveCharacters { .. } => "active_characters"@,
        OpView::AddActiveCharacter { character } => "active+:"@ + character,
        OpView::RemoveActiveCharacter { character } => "active-:"@ + character,
        OpView::SetState { key, .. } => "world:"@ + key,
        OpView::RemoveState { key } => "world:"@ + key,
        OpView::SetPlayerState { key, .. } => "player:"@ + key,
        OpView::RemovePlayerState { key } => "player:"@ + key,
        OpView::SetCharacterState { character, key, .. } => "character:"@ + character + ":"@ + key,
        OpView::RemoveCharacterState { character, key } => "character:"@ + character + ":"@ + key,
    }
}

fn render_update_key(op: &StateOp) -> (r: String)
    ensures
        r@ == update_key(op@),
{
    let mut out: Vec<char> = Vec::new();
    match op {
        StateOp::SetCurrentNode { node_id } => {
            push_str(&mut out, "current_node:");
            push_str(&mut out, node_id.as_str());
        },
        StateOp::SetActiveCharacters { .. } => {
            push_str(&mut out, "active_characters");
        },
        StateOp::AddActiveCharacter { character } => {
            push_str(&mut out, "active+:");
            push_str(&mut out, character.as_str());
        },
        StateOp::RemoveActiveCharacter { character } => {
            push_str(&mut out, "active-:");
            push_str(&mut out, character.as_str());
        },
        StateOp::SetState { key, .. } => {
            push_str(&mut out, "world:");
            push_str(&mut out, key.as_str());
        },
        StateOp::RemoveState { key } => {
            push_str(&mut out, "world:");
            push_str(&mut out, key.as_str());
        },
        StateOp::SetPlayerState { key, .. } => {
            push_str(&mut out, "player:");
            push_str(&mut out, key.as_str());
        },
        StateOp::RemovePlayerState { key } => {
            push_str(&mut out, "player:");
            push_str(&mut out, key.as_str());
        },
        StateOp::SetCharacterState { character, key, .. } => {
            push_str(&mut out, "character:");
            push_str(&mut out, character.as_str());
            push_str(&mut out, ":");
            push_str(&mut out, key.as_str());
        },
        StateOp::RemoveCharacterState { character, key } => {
            push_str(&mut out, "character:");
            push_str(&mut out, character.as_str());
            push_str(&mut out, ":");
            push_str(&mut out, key.as_str());
        },
    }
    proof {
        assert(out@ =~= update_key(op@));
    }
    string_of_chars(out.as_slice())
}

/// A node of the most recent section as the architect is shown it.
#[derive(Debug)]
pub struct RecentSectionDetailNodePreview {
    pub id: String,
    pub title: String,
    pub scene_summary: String,
    pub goal: String,
    pub characters: Vec<String>,
    pub transition_targets: Vec<String>,
    pub on_enter_update_keys: Vec<String>,
}

/// The value of a recent-section node.
pub struct RecentNodeView {
    pub id: Seq<char>,
    pub title: Seq<char>,
    pub scene_summary: Seq<char>,
    pub goal: Seq<char>,
    pub characters: Seq<Seq<char>>,
    pub transition_targets: Seq<Seq<char>>,
    pub on_enter_update_keys: Seq<Seq<char>>,
}

impl View for RecentSectionDetailNodePreview {
    type V = RecentNodeView;

    open spec fn view(&self) -> RecentNodeView {
        RecentNodeView {
            id: self.id@,
            title: self.title@,
            scene_summary: self.scene_summary@,
            goal: self.goal@,
            characters: string_seq_views(self.characters@),
            transition_targets: string_seq_views(self.transition_targets@),
            on_enter_update_keys: string_seq_views(self.on_enter_update_keys@),
        }
    }
}

/// A recent node summarized: its id, title and characters, its scene cut to
/// 140 characters and its goal cut to 100, where its transitions lead, and
/// what its entry updates touch.
pub open spec fn recent_node_of(n: NodeView) -> RecentNodeView {
    RecentNodeView {
        id: n.id,
        title: n.title,
        scene_summary: truncated_seq(n.scene, 140),
        goal: truncated_seq(n.goal, 100),
        characters: n.characters,
        transition_targets: targets_of(n.transitions),
        on_enter_update_keys: n.on_enter_updates.map_values(|o: OpView| update_key(o)),
    }
}

/// Summarizes a node of the most recent section.
pub fn compact_recent_section_node(node: &NarrativeNode) -> (r: RecentSectionDetailNodePreview)
    ensures
        r@ == recent_node_of(node@),
{
    let ghost f = |o: OpView| update_key(o);
    let ghost ops = node@.on_enter_updates;
    let mut keys: Vec<String> = Vec::new();
    let mut i: usize = 0;
    while i < node.on_enter_updates.len()
        invariant
            f == (|o: OpView| update_key(o)),
            ops == node@.on_enter_updates,
            i <= node.on_enter_updates@.len(),
            string_seq_views(keys@) =~= ops.take(i as int).map_values(f),
        decreases node.on_enter_updates.len() - i,
    {
        let key = render_update_key(&node.on_enter_updates[i]);
        let ghost before = keys@;
        keys.push(key);
        proof {
            assert(string_seq_views(keys@) =~= string_seq_views(before).push(key@));
            assert(ops.take(i + 1) =~= ops.take(i as int).push(ops[i as int]));
        }
        i = i + 1;
    }
    proof {
        assert(ops.take(ops.len() as int) =~= ops);
    }
    RecentSectionDetailNodePreview {
        id: node.id.clone(),
        title: node.title.clone(),
        scene_summary: truncate_text(node.scene.as_str(), 140),
        goal: truncate_text(node.goal.as_str(), 100),
        characters: clone_strings(&node.characters),
        transition_targets: transition_targets(node),
        on_enter_update_keys: keys,
    }
}

/// Where a story draft stands.
#[derive(Debug, Clone, Copy, PartialEq, Eq, Structural)]
pub enum StoryDraftStatus {
    Building,
    ReadyToFinalize,
    Finalized,
}

/// The status of a draft: finalized once a story was made from it, ready to
/// finalize once every outline section is drafted, building before.
pub fn refresh_draft_status(
    final_story_id: Option<&str>,
    next_section_index: usize,
    outline_sections: &Vec<String>,
) -> (s: StoryDraftStatus)
    ensures
        s == (if final_story_id is Some {
            StoryDraftStatus::Finalized
        } else if next_section_index >= outline_sections@.len() {
            StoryDraftStatus::ReadyToFinalize
        } else {
            StoryDraftStatus::Building
        }),
{
    if final_story_id.is_some() {
        StoryDraftStatus::Finalized
    } else if next_section_index >= outline_sections.len() {
        StoryDraftStatus::ReadyToFinalize
    } else {
        StoryDraftStatus::Building
    }
}

/// The nodes of the graph with the given ids, in the order of the ids,
/// skipping ids the graph lacks.
pub open spec fn nodes_with_ids(g: GraphView, ids: Seq<Seq<char>>) -> Seq<NodeView>
    decreases ids.len(),
{
    if ids.len() == 0 {
        seq![]
    } else {
        let rest = nodes_with_ids(g, ids.drop_last());
        match node_index(g, ids.last()) {
            Some(i) => rest.push(g.nodes[i]),
            None => rest,
        }
    }
}

/// The nodes of the most recent drafted section: those of the last section's
/// node ids that the partial graph holds, in order; none before any section.
pub fn recent_draft_nodes(section_node_ids: &Vec<Vec<String>>, partial_graph: &StoryGraph) -> (r: Vec<
    NarrativeNode,
>)
    ensures
        node_views(r@) == (if section_node_ids@.len() == 0 {
            Seq::<NodeView>::empty()
        } else {
            nodes_with_ids(partial_graph@, string_seq_views(section_node_ids@.last()@))
        }),
{
    let mut out: Vec<NarrativeNode> = Vec::new();
    if section_node_ids.len() == 0 {
        proof {
            assert(node_views(out@) =~= Seq::<NodeView>::empty());
        }
        return out;
    }
    let ids = &section_node_ids[section_node_ids.len() - 1];
    let ghost iv = string_seq_views(ids@);
    let mut i: usize = 0;
    while i < ids.len()
        invariant
            iv == string_seq_views(ids@),
            i <= ids@.len(),
            node_views(out@) == nodes_with_ids(partial_graph@, iv.take(i as int)),
        decreases ids.len() - i,
    {
        proof {
            assert(iv.take(i + 1).drop_last() =~= iv.take(i as int));
            assert(iv.take(i + 1).last() == ids@[i as int]@);
        }
        match find_node(&partial_graph.nodes, ids[i].as_str()) {
            Some(k) => {
                let ghost before = out@;
                out.push(partial_graph.nodes[k].duplicate());
                proof {
                    assert(node_views(out@) =~= node_views(before).push(partial_graph@.nodes[k as int]));
                }
            },
            None => {},
        }
        i = i + 1;
    }
    proof {
        assert(iv.take(iv.len() as int) =~= iv);
    }
    out
}

} // verus!
