//! Drafting a story section by section: starting a draft from the planned
//! story and the architect's first chunk, and adding the chunk of each
//! further outline section.
use vstd::prelude::*;

use crate::draft_summary::{refresh_draft_status, StoryDraftStatus};
use crate::graph::{find_graph_defect, graph_defect, node_ids};
use crate::outline::{extract_outline_sections, outline_sections};
use crate::story::{node_views, GraphView, NarrativeNode, NodeView, StoryGraph};
use crate::text::string_seq_views;
use crate::util::{
    apply_transition_patches, merge_story_chunk, merged, patch_views, patched, DraftError, DraftErrorView,
    NodeTransitionPatch, PatchView,
};

verus! {

/// What drafting changes of a story draft.
#[derive(Debug)]
pub struct StoryDraft {
    pub planned_story: String,
    pub outline_sections: Vec<String>,
    pub next_section_index: usize,
    pub partial_graph: StoryGraph,
    pub introduction: String,
    pub section_summaries: Vec<String>,
    pub section_node_ids: Vec<Vec<String>>,
    pub status: StoryDraftStatus,
    pub final_story_id: Option<String>,
}

/// The value of a story draft.
pub struct DraftView {
    pub planned_story: Seq<char>,
    pub outline_sections: Seq<Seq<char>>,
    pub next_section_index: nat,
    pub partial_graph: GraphView,
    pub introduction: Seq<char>,
    pub section_summaries: Seq<Seq<char>>,
    pub section_node_ids: Seq<Seq<Seq<char>>>,
    pub status: StoryDraftStatus,
    pub final_story_id: Option<Seq<char>>,
}

/// The views of lists of strings.
pub open spec fn id_lists(v: Seq<Vec<String>>) -> Seq<Seq<Seq<char>>> {
    v.map_values(|ids: Vec<String>| string_seq_views(ids@))
}

impl View for StoryDraft {
    type V = DraftView;

    open spec fn view(&self) -> DraftView {
        DraftView {
            planned_story: self.planned_story@,
            outline_sections: string_seq_views(self.outline_sections@),
            next_section_index: self.next_section_index as nat,
            partial_graph: self.partial_graph@,
            introduction: self.introduction@,
            section_summaries: string_seq_views(self.section_summaries@),
            section_node_ids: id_lists(self.section_node_ids@),
            status: self.status,
            final_story_id: match self.final_story_id {
                Some(s) => Some(s@),
                None => None,
            },
        }
    }
}

/// The architect's first chunk of a draft.
#[derive(Debug)]
pub struct DraftInitChunk {
    pub start_node: String,
    pub nodes: Vec<NarrativeNode>,
    pub transition_patches: Vec<NodeTransitionPatch>,
    pub introduction: String,
    pub section_summary: String,
}

/// The value of a first chunk.
pub struct InitView {
    pub start_node: Seq<char>,
    pub nodes: Seq<NodeView>,
    pub transition_patches: Seq<PatchView>,
    pub introduction: Seq<char>,
    pub section_summary: Seq<char>,
}

impl View for DraftInitChunk {
    type V = InitView;

    open spec fn view(&self) -> InitView {
        InitView {
            start_node: self.start_node@,
            nodes: node_views(self.nodes@),
            transition_patches: patch_views(self.transition_patches@),
            introduction: self.introduction@,
            section_summary: self.section_summary@,
        }
    }
}

/// The architect's chunk for a further outline section.
#[derive(Debug)]
pub struct DraftChunk {
    pub nodes: Vec<NarrativeNode>,
    pub transition_patches: Vec<NodeTransitionPatch>,
    pub section_summary: String,
}

/// The value of a further chunk.
pub struct ChunkView {
    pub nodes: Seq<NodeView>,
    pub transition_patches: Seq<PatchView>,
    pub section_summary: Seq<char>,
}

impl View for DraftChunk {
    type V = ChunkView;

    open spec fn view(&self) -> ChunkView {
        ChunkView {
            nodes: node_views(self.nodes@),
            transition_patches: patch_views(self.transition_patches@),
            section_summary: self.section_summary@,
        }
    }
}

/// Why a drafting step was refused.
#[derive(Debug)]
pub enum DraftStepError {
    /// The planned story has no outline section.
    NoOutlineSections,
    /// The draft is not being built any more.
    NotBuilding,
    /// Every outline section is drafted already.
    NoRemainingSection,
    /// The chunk does not fit the draft's graph.
    Draft(DraftError),
}

/// The value of a drafting step error.
pub enum StepErrorView {
    NoOutlineSections,
    NotBuilding,
    NoRemainingSection,
    Draft(DraftErrorView),
}

impl View for DraftStepError {
    type V = StepErrorView;

    open spec fn view(&self) -> StepErrorView {
        match self {
            DraftStepError::NoOutlineSections => StepErrorView::NoOutlineSections,
            DraftStepError::NotBuilding => StepErrorView::NotBuilding,
            DraftStepError::NoRemainingSection => StepErrorView::NoRemainingSection,
            DraftStepError::Draft(e) => StepErrorView::Draft(e@),
        }
    }
}

/// The readable text of a drafting step error, for the draft `draft_id`.
pub open spec fn step_error_text(e: StepErrorView, draft_id: Seq<char>) -> Seq<char> {
    match e {
        StepErrorView::NoOutlineSections => "planned_story did not contain any outline sections"@,
        StepErrorView::NotBuilding => "story draft '"@ + draft_id + "' is not in building state"@,
        StepErrorView::NoRemainingSection => "story draft has no remaining section"@,
        StepErrorView::Draft(d) => crate::util::draft_error_text(d),
    }
}

impl DraftStepError {
    /// The readable text of the error, for the draft `draft_id`.
    pub fn message(&self, draft_id: &str) -> (s: String)
        ensures
            s@ == step_error_text(self@, draft_id@),
    {
        match self {
            DraftStepError::NoOutlineSections => "planned_story did not contain any outline sections".to_string(),
            DraftStepError::NotBuilding => {
                let mut out: Vec<char> = Vec::new();
                crate::text::push_str(&mut out, "story draft '");
                crate::text::push_str(&mut out, draft_id);
                crate::text::push_str(&mut out, "' is not in building state");
                let r = crate::text::string_of_chars(out.as_slice());
                assert(r@ =~= step_error_text(self@, draft_id@));
                r
            },
            DraftStepError::NoRemainingSection => "story draft has no remaining section".to_string(),
            DraftStepError::Draft(d) => d.message(),
        }
    }
}

/// The status of a draft: finalized once a story was made from it, ready to
/// finalize once every outline section is drafted, building before.
pub open spec fn draft_status(final_story_id: Option<Seq<char>>, next_section_index: nat, sections: nat) -> StoryDraftStatus {
    if final_story_id is Some {
        StoryDraftStatus::Finalized
    } else if next_section_index >= sections {
        StoryDraftStatus::ReadyToFinalize
    } else {
        StoryDraftStatus::Building
    }
}

/// A new draft: refused when the planned story has no outline section; the
/// first chunk's graph with its transition patches applied, refused at the
/// first patch of a missing node or when the graph has a structural defect;
/// otherwise drafted up to the second section, with the chunk's introduction,
/// section summary and node ids.
pub open spec fn started_draft(planned_story: Seq<char>, init: InitView) -> Result<DraftView, StepErrorView> {
    let sections = outline_sections(planned_story);
    if sections.len() == 0 {
        Err(StepErrorView::NoOutlineSections)
    } else {
        let (g, missing) = patched(GraphView { start_node: init.start_node, nodes: init.nodes }, init.transition_patches);
        match missing {
            Some(id) => Err(StepErrorView::Draft(DraftErrorView::MissingPatchNode(id))),
            None => match graph_defect(g) {
                Some(d) => Err(StepErrorView::Draft(DraftErrorView::Graph(d))),
                None => Ok(
                    DraftView {
                        planned_story,
                        outline_sections: sections,
                        next_section_index: 1,
                        partial_graph: g,
                        introduction: init.introduction,
                        section_summaries: seq![init.section_summary],
                        section_node_ids: seq![node_ids(init.nodes)],
                        status: draft_status(None, 1, sections.len()),
                        final_story_id: None,
                    },
                ),
            },
        }
    }
}

/// A draft after the chunk of its next section: refused unless the draft is
/// being built and has a section left; refused when the chunk does not merge
/// into the graph (see `merged`); otherwise the merged graph, the chunk's
/// summary and node ids appended, the next section index one further and
/// the status refreshed.
pub open spec fn continued_draft(d: DraftView, c: ChunkView) -> Result<DraftView, StepErrorView> {
    if d.status != StoryDraftStatus::Building {
        Err(StepErrorView::NotBuilding)
    } else if d.next_section_index >= d.outline_sections.len() {
        Err(StepErrorView::NoRemainingSection)
    } else {
        let (g, e) = merged(d.partial_graph, c.nodes, c.transition_patches);
        match e {
            Some(err) => Err(StepErrorView::Draft(err)),
            None => {
                let next = d.next_section_index + 1;
                Ok(
                    DraftView {
                        partial_graph: g,
                        section_summaries: d.section_summaries.push(c.section_summary),
                        section_node_ids: d.section_node_ids.push(node_ids(c.nodes)),
                        next_section_index: next,
                        status: draft_status(d.final_story_id, next, d.outline_sections.len()),
                        ..d
                    },
                )
            },
        }
    }
}

/// The view of a drafting result.
pub open spec fn draft_result(r: Result<StoryDraft, DraftStepError>) -> Result<DraftView, StepErrorView> {
    match r {
        Ok(d) => Ok(d@),
        Err(e) => Err(e@),
    }
}

/// The ids of nodes, in order.
fn ids_of(nodes: &Vec<NarrativeNode>) -> (r: Vec<String>)
    ensures
        string_seq_views(r@) == node_ids(node_views(nodes@)),
{
    let mut out: Vec<String> = Vec::new();
    let mut i: usize = 0;
    while i < nodes.len()
        invariant
            i <= nodes@.len(),
            string_seq_views(out@) == node_ids(node_views(nodes@)).take(i as int),
        decreases nodes.len() - i,
    {
        let ghost before = out@;
        out.push(nodes[i].id.clone());
        proof {
            assert(out@ =~= before.push(out@.last()));
            assert(node_ids(node_views(nodes@)).take(i + 1) =~= node_ids(node_views(nodes@)).take(i as int).push(
                nodes@[i as int].id@,
            ));
            assert(string_seq_views(out@) =~= string_seq_views(before).push(nodes@[i as int].id@));
        }
        i = i + 1;
    }
    assert(node_ids(node_views(nodes@)).take(nodes@.len() as int) =~= node_ids(node_views(nodes@)));
    out
}

/// The outline sections of a planned story; refused when it has none.
pub fn draft_outline(planned_story: &str) -> (r: Result<Vec<String>, DraftStepError>)
    ensures
        match r {
            Ok(s) => string_seq_views(s@) == outline_sections(planned_story@) && s@.len() > 0,
            Err(e) => outline_sections(planned_story@).len() == 0 && e@ == StepErrorView::NoOutlineSections,
        },
{
    let sections = extract_outline_sections(planned_story);
    if sections.len() == 0 {
        Err(DraftStepError::NoOutlineSections)
    } else {
        Ok(sections)
    }
}

/// Starts a draft from the planned story and the architect's first chunk.
pub fn start_draft(planned_story: String, init: DraftInitChunk) -> (r: Result<StoryDraft, DraftStepError>)
    ensures
        draft_result(r) == started_draft(planned_story@, init@),
{
    let ghost iv = init@;
    let outline = match draft_outline(planned_story.as_str()) {
        Ok(s) => s,
        Err(e) => return Err(e),
    };
    let ids = ids_of(&init.nodes);
    let mut graph = StoryGraph::new(init.start_node, init.nodes);
    match apply_transition_patches(&mut graph, init.transition_patches.as_slice()) {
        Ok(()) => {},
        Err(e) => return Err(DraftStepError::Draft(e)),
    }
    match find_graph_defect(&graph) {
        Some(d) => return Err(DraftStepError::Draft(DraftError::Graph(d))),
        None => {},
    }
    let status = refresh_draft_status(None, 1, &outline);
    let mut summaries: Vec<String> = Vec::new();
    summaries.push(init.section_summary);
    let mut node_id_lists: Vec<Vec<String>> = Vec::new();
    node_id_lists.push(ids);
    let d = StoryDraft {
        planned_story,
        outline_sections: outline,
        next_section_index: 1,
        partial_graph: graph,
        introduction: init.introduction,
        section_summaries: summaries,
        section_node_ids: node_id_lists,
        status,
        final_story_id: None,
    };
    proof {
        assert(d@.section_summaries =~= seq![iv.section_summary]);
        assert(d@.section_node_ids =~= seq![node_ids(iv.nodes)]);
    }
    Ok(d)
}

/// The section the draft is to be continued with; refused unless the draft
/// is being built and has a section left.
pub fn next_draft_section(draft: &StoryDraft) -> (r: Result<&String, DraftStepError>)
    ensures
        match r {
            Ok(s) => draft@.status == StoryDraftStatus::Building && draft@.next_section_index
                < draft@.outline_sections.len() && s@ == draft@.outline_sections[draft@.next_section_index as int],
            Err(e) => if draft@.status != StoryDraftStatus::Building {
                e@ == StepErrorView::NotBuilding
            } else {
                draft@.next_section_index >= draft@.outline_sections.len() && e@ == StepErrorView::NoRemainingSection
            },
        },
{
    if draft.status != StoryDraftStatus::Building {
        return Err(DraftStepError::NotBuilding);
    }
    if draft.next_section_index >= draft.outline_sections.len() {
        return Err(DraftStepError::NoRemainingSection);
    }
    Ok(&draft.outline_sections[draft.next_section_index])
}

/// Continues a draft with the architect's chunk for its next section.
pub fn continue_draft(draft: StoryDraft, chunk: DraftChunk) -> (r: Result<StoryDraft, DraftStepError>)
    ensures
        draft_result(r) == continued_draft(draft@, chunk@),
{
    let ghost dv = draft@;
    let ghost cv = chunk@;
    if draft.status != StoryDraftStatus::Building {
        return Err(DraftStepError::NotBuilding);
    }
    if draft.next_section_index >= draft.outline_sections.len() {
        return Err(DraftStepError::NoRemainingSection);
    }
    let mut d = draft;
    match merge_story_chunk(&mut d.partial_graph, chunk.nodes.as_slice(), chunk.transition_patches.as_slice()) {
        Ok(()) => {},
        Err(e) => return Err(DraftStepError::Draft(e)),
    }
    let ids = ids_of(&chunk.nodes);
    let ghost summaries_before = d.section_summaries@;
    let ghost ids_before = d.section_node_ids@;
    d.section_summaries.push(chunk.section_summary);
    d.section_node_ids.push(ids);
    d.next_section_index = d.next_section_index + 1;
    let fin = match &d.final_story_id {
        Some(s) => Some(s.as_str()),
        None => None,
    };
    let status = refresh_draft_status(fin, d.next_section_index, &d.outline_sections);
    d.status = status;
    proof {
        assert(string_seq_views(d.section_summaries@) =~= string_seq_views(summaries_before).push(
            cv.section_summary,
        ));
        assert(id_lists(d.section_node_ids@) =~= id_lists(ids_before).push(node_ids(cv.nodes)));
    }
    Ok(d)
}

} // verus!
