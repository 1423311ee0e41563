//! Well-formed story graphs: node ids are unique, the start node exists, and
//! every transition leads to an existing node.
use vstd::prelude::*;

use crate::prompt::types::str_eq;
use crate::story::{GraphView, NarrativeNode, NodeView, StoryGraph, TransitionView, node_views};
use crate::text::{push_str, string_of_chars};

verus! {

/// The first index in `i..n` where `p` holds.
pub open spec fn first_where(n: int, p: spec_fn(int) -> bool, i: int) -> Option<int>
    decreases n - i,
{
    if i < 0 || i >= n {
        None
    } else if p(i) {
        Some(i)
    } else {
        first_where(n, p, i + 1)
    }
}

/// A found index is in range and satisfies the predicate; no earlier index
/// from `i` does.
pub proof fn lemma_first_where(n: int, p: spec_fn(int) -> bool, i: int)
    requires
        0 <= i,
    ensures
        first_where(n, p, i) matches Some(j) ==> i <= j < n && p(j) && forall|k: int|
            i <= k < j ==> !#[trigger] p(k),
        first_where(n, p, i) is None ==> forall|k: int| i <= k < n ==> !#[trigger] p(k),
    decreases n - i,
{
    if i < n && !p(i) {
        lemma_first_where(n, p, i + 1);
    }
}

/// The ids of nodes, in order.
pub open spec fn node_ids(nodes: Seq<NodeView>) -> Seq<Seq<char>> {
    nodes.map_values(|n: NodeView| n.id)
}

/// Whether the string at position `j` already occurs before it.
pub open spec fn repeats_earlier(ids: Seq<Seq<char>>) -> spec_fn(int) -> bool {
    |j: int| ids.take(j).contains(ids[j])
}

/// The position of the first string that repeats an earlier one.
pub open spec fn first_duplicate(ids: Seq<Seq<char>>) -> Option<int> {
    first_where(ids.len() as int, repeats_earlier(ids), 0)
}

/// Whether the transition at position `j` leads to a node outside `ids`.
pub open spec fn leads_outside(ts: Seq<TransitionView>, ids: Seq<Seq<char>>) -> spec_fn(int) -> bool {
    |j: int| !ids.contains(ts[j].to)
}

/// The first transition of a list that leads to a node outside `ids`.
pub open spec fn first_outside_target(ts: Seq<TransitionView>, ids: Seq<Seq<char>>) -> Option<int> {
    first_where(ts.len() as int, leads_outside(ts, ids), 0)
}

/// Whether the node at position `i` has a transition leading outside `ids`.
pub open spec fn has_outside_target(nodes: Seq<NodeView>, ids: Seq<Seq<char>>) -> spec_fn(int) -> bool {
    |i: int| first_outside_target(nodes[i].transitions, ids) is Some
}

/// What is wrong with a story graph.
#[derive(Debug)]
pub enum GraphDefect {
    Empty,
    DuplicateNode(String),
    MissingStart(String),
    MissingTarget { from: String, to: String },
}

/// The value of a graph defect.
pub enum DefectView {
    Empty,
    DuplicateNode(Seq<char>),
    MissingStart(Seq<char>),
    MissingTarget { from: Seq<char>, to: Seq<char> },
}

impl View for GraphDefect {
    type V = DefectView;

    open spec fn view(&self) -> DefectView {
        match self {
            GraphDefect::Empty => DefectView::Empty,
            GraphDefect::DuplicateNode(id) => DefectView::DuplicateNode(id@),
            GraphDefect::MissingStart(id) => DefectView::MissingStart(id@),
            GraphDefect::MissingTarget { from, to } => DefectView::MissingTarget { from: from@, to: to@ },
        }
    }
}

/// The first defect of a graph, checked in this order: no nodes, a repeated
/// node id (the first node whose id an earlier node has), a start node that is
/// not a node, a transition to a missing node (the first in node and
/// transition order).
pub open spec fn graph_defect(g: GraphView) -> Option<DefectView> {
    let ids = node_ids(g.nodes);
    if g.nodes.len() == 0 {
        Some(DefectView::Empty)
    } else if first_duplicate(ids) is Some {
        Some(DefectView::DuplicateNode(ids[first_duplicate(ids)->0]))
    } else if !ids.contains(g.start_node) {
        Some(DefectView::MissingStart(g.start_node))
    } else {
        match first_where(g.nodes.len() as int, has_outside_target(g.nodes, ids), 0) {
            Some(i) => Some(
                DefectView::MissingTarget {
                    from: g.nodes[i].id,
                    to: g.nodes[i].transitions[first_outside_target(g.nodes[i].transitions, ids)->0].to,
                },
            ),
            None => None,
        }
    }
}

/// Whether a graph has no defect.
pub open spec fn valid_graph(g: GraphView) -> bool {
    graph_defect(g) is None
}

/// Whether the node at position `i` has id `id`.
pub open spec fn has_id(nodes: Seq<NodeView>, id: Seq<char>) -> spec_fn(int) -> bool {
    |i: int| nodes[i].id == id
}

/// The position of the node with id `id`.
pub open spec fn node_index(g: GraphView, id: Seq<char>) -> Option<int> {
    first_where(g.nodes.len() as int, has_id(g.nodes, id), 0)
}

/// Whether `ids` holds `s`.
fn ids_contain(nodes: &Vec<NarrativeNode>, n: usize, s: &str) -> (b: bool)
    requires
        n <= nodes@.len(),
    ensures
        b == node_ids(node_views(nodes@)).take(n as int).contains(s@),
{
    let ghost ids = node_ids(node_views(nodes@));
    let mut i: usize = 0;
    while i < n
        invariant
            ids == node_ids(node_views(nodes@)),
            n <= nodes@.len(),
            i <= n,
            forall|k: int| 0 <= k < i ==> ids[k] != s@,
        decreases n - i,
    {
        if str_eq(nodes[i].id.as_str(), s) {
            assert(ids.take(n as int)[i as int] == s@);
            return true;
        }
        i = i + 1;
    }
    assert forall|k: int| 0 <= k < ids.take(n as int).len() implies ids.take(n as int)[k] != s@ by {}
    false
}

/// The position of the first node with id `id`.
pub fn find_node(nodes: &Vec<NarrativeNode>, id: &str) -> (r: Option<usize>)
    ensures
        match r {
            Some(i) => i < nodes@.len() && first_where(nodes@.len() as int, has_id(node_views(nodes@), id@), 0)
                == Some(i as int),
            None => first_where(nodes@.len() as int, has_id(node_views(nodes@), id@), 0) is None,
        },
{
    let ghost nv = node_views(nodes@);
    let ghost p = has_id(nv, id@);
    let mut i: usize = 0;
    while i < nodes.len()
        invariant
            nv == node_views(nodes@),
            p == has_id(nv, id@),
            i <= nodes@.len(),
            first_where(nodes@.len() as int, p, 0) == first_where(nodes@.len() as int, p, i as int),
        decreases nodes.len() - i,
    {
        assert(nv[i as int] == nodes@[i as int]@);
        if str_eq(nodes[i].id.as_str(), id) {
            return Some(i);
        }
        i = i + 1;
    }
    None
}

/// The first transition of a node that leads outside the first `n` node ids.
fn find_outside_target(node: &NarrativeNode, nodes: &Vec<NarrativeNode>) -> (r: Option<usize>)
    ensures
        match r {
            Some(j) => j < node@.transitions.len() && first_outside_target(
                node@.transitions,
                node_ids(node_views(nodes@)),
            ) == Some(j as int),
            None => first_outside_target(node@.transitions, node_ids(node_views(nodes@))) is None,
        },
{
    let ghost ids = node_ids(node_views(nodes@));
    let ghost ts = node@.transitions;
    let ghost p = leads_outside(ts, ids);
    let mut j: usize = 0;
    while j < node.transitions.len()
        invariant
            ids == node_ids(node_views(nodes@)),
            ts == node@.transitions,
            p == leads_outside(ts, ids),
            j <= ts.len(),
            first_where(ts.len() as int, p, 0) == first_where(ts.len() as int, p, j as int),
        decreases node.transitions.len() - j,
    {
        assert(ts[j as int] == node.transitions@[j as int]@);
        assert(ids.take(nodes@.len() as int) =~= ids);
        if !ids_contain(nodes, nodes.len(), node.transitions[j].to.as_str()) {
            return Some(j);
        }
        j = j + 1;
    }
    None
}

/// Finds the first defect of a graph (see `graph_defect`).
pub fn find_graph_defect(graph: &StoryGraph) -> (r: Option<GraphDefect>)
    ensures
        match r {
            Some(d) => graph_defect(graph@) == Some(d@),
            None => graph_defect(graph@) is None,
        },
{
    let ghost nv = node_views(graph.nodes@);
    let ghost ids = node_ids(nv);
    if graph.nodes.len() == 0 {
        return Some(GraphDefect::Empty);
    }
    let ghost pd = repeats_earlier(ids);
    let mut j: usize = 0;
    while j < graph.nodes.len()
        invariant
            nv == node_views(graph.nodes@),
            ids == node_ids(nv),
            pd == repeats_earlier(ids),
            j <= ids.len(),
            first_where(ids.len() as int, pd, 0) == first_where(ids.len() as int, pd, j as int),
        decreases graph.nodes.len() - j,
    {
        assert(ids[j as int] == graph.nodes@[j as int].id@);
        if ids_contain(&graph.nodes, j, graph.nodes[j].id.as_str()) {
            return Some(GraphDefect::DuplicateNode(graph.nodes[j].id.clone()));
        }
        j = j + 1;
    }
    assert(ids.take(ids.len() as int) =~= ids);
    if !ids_contain(&graph.nodes, graph.nodes.len(), graph.start_node.as_str()) {
        return Some(GraphDefect::MissingStart(graph.start_node.clone()));
    }
    let ghost pm = has_outside_target(nv, ids);
    let mut i: usize = 0;
    while i < graph.nodes.len()
        invariant
            nv == node_views(graph.nodes@),
            ids == node_ids(nv),
            pm == has_outside_target(nv, ids),
            i <= nv.len(),
            nv.len() > 0,
            first_duplicate(ids) is None,
            ids.contains(graph@.start_node),
            first_where(nv.len() as int, pm, 0) == first_where(nv.len() as int, pm, i as int),
        decreases graph.nodes.len() - i,
    {
        let node = &graph.nodes[i];
        assert(nv[i as int] == node@);
        match find_outside_target(node, &graph.nodes) {
            Some(jt) => {
                assert(node@.transitions[jt as int] == node.transitions@[jt as int]@);
                assert(pm(i as int));
                return Some(
                    GraphDefect::MissingTarget {
                        from: node.id.clone(),
                        to: node.transitions[jt].to.clone(),
                    },
                );
            },
            None => {},
        }
        i = i + 1;
    }
    None
}

/// The readable text of a graph defect.
pub open spec fn defect_text(d: DefectView) -> Seq<char> {
    match d {
        DefectView::Empty => "story graph must contain at least one node"@,
        DefectView::DuplicateNode(id) => "story graph contains duplicate node id '"@ + id + "'"@,
        DefectView::MissingStart(id) => "story graph start node '"@ + id + "' does not exist"@,
        DefectView::MissingTarget { from, to } => "transition from '"@ + from + "' points to missing node '"@
            + to + "'"@,
    }
}

impl GraphDefect {
    /// The readable text of the defect.
    pub fn message(&self) -> (s: String)
        ensures
            s@ == defect_text(self@),
    {
        let mut out: Vec<char> = Vec::new();
        match self {
            GraphDefect::Empty => push_str(&mut out, "story graph must contain at least one node"),
            GraphDefect::DuplicateNode(id) => {
                push_str(&mut out, "story graph contains duplicate node id '");
                push_str(&mut out, id.as_str());
                push_str(&mut out, "'");
            },
            GraphDefect::MissingStart(id) => {
                push_str(&mut out, "story graph start node '");
                push_str(&mut out, id.as_str());
                push_str(&mut out, "' does not exist");
            },
            GraphDefect::MissingTarget { from, to } => {
                push_str(&mut out, "transition from '");
                push_str(&mut out, from.as_str());
                push_str(&mut out, "' points to missing node '");
                push_str(&mut out, to.as_str());
                push_str(&mut out, "'");
            },
        }
        proof {
            assert(out@ =~= defect_text(self@));
        }
        string_of_chars(out.as_slice())
    }
}

/// A story graph without defects, ready for a session to walk.
#[derive(Debug)]
pub struct RuntimeStoryGraph {
    graph: StoryGraph,
}

impl View for RuntimeStoryGraph {
    type V = GraphView;

    closed spec fn view(&self) -> GraphView {
        self.graph@
    }
}

impl RuntimeStoryGraph {
    /// Always true: the graph has no defect.
    #[verifier::type_invariant]
    spec fn inv(self) -> bool {
        valid_graph(self.graph@)
    }

    /// The graph, when it has no defect; its first defect otherwise.
    pub fn from_story_graph(graph: StoryGraph) -> (r: Result<RuntimeStoryGraph, GraphDefect>)
        ensures
            match r {
                Ok(g) => g@ == graph@ && graph_defect(graph@) is None,
                Err(d) => graph_defect(graph@) == Some(d@),
            },
    {
        match find_graph_defect(&graph) {
            Some(d) => Err(d),
            None => Ok(RuntimeStoryGraph { graph }),
        }
    }

    /// The underlying graph.
    pub fn graph(&self) -> (g: &StoryGraph)
        ensures
            g@ == self@,
    {
        &self.graph
    }

    /// The node with id `id`.
    pub fn get_node(&self, id: &str) -> (r: Option<&NarrativeNode>)
        ensures
            match r {
                Some(n) => node_index(self@, id@) matches Some(i) && n@ == self@.nodes[i],
                None => node_index(self@, id@) is None,
            },
    {
        match find_node(&self.graph.nodes, id) {
            Some(i) => Some(&self.graph.nodes[i]),
            None => None,
        }
    }

    /// The node a session starts at.
    pub fn start_node(&self) -> (n: &NarrativeNode)
        ensures
            node_index(self@, self@.start_node) matches Some(i) && n@ == self@.nodes[i],
    {
        proof {
            use_type_invariant(self);
            let ids = node_ids(self@.nodes);
            let k = choose|k: int| 0 <= k < ids.len() && ids[k] == self@.start_node;
            assert(has_id(self@.nodes, self@.start_node)(k));
            lemma_first_where(self@.nodes.len() as int, has_id(self@.nodes, self@.start_node), 0);
        }
        match find_node(&self.graph.nodes, self.graph.start_node.as_str()) {
            Some(i) => &self.graph.nodes[i],
            None => {
                assert(false);
                &self.graph.nodes[0]
            },
        }
    }
}

} // verus!
