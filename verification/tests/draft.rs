use ss_engine::context::{architect_draft_continue_context, architect_draft_init_context, ContextError};
use ss_engine::schema::StateSchema;
use ss_engine::draft::{
    continue_draft, draft_outline, next_draft_section, start_draft, DraftChunk, DraftInitChunk, DraftStepError,
};
use ss_engine::draft_summary::StoryDraftStatus;
use ss_engine::graph::GraphDefect;
use ss_engine::story::{NarrativeNode, Transition};
use ss_engine::util::{DraftError, NodeTransitionPatch};

fn node(id: &str, targets: &[&str]) -> NarrativeNode {
    NarrativeNode::new(
        id.to_owned(),
        format!("Title {id}"),
        String::new(),
        String::new(),
        Vec::new(),
        targets.iter().map(|t| Transition { to: (*t).to_owned(), condition: None }).collect(),
        Vec::new(),
    )
}

const PLAN: &str = "First part.\n\nSecond part.\n\nThird part.";

fn init() -> DraftInitChunk {
    DraftInitChunk {
        start_node: "dock".to_owned(),
        nodes: vec![node("dock", &[]), node("canal", &["dock"])],
        transition_patches: vec![NodeTransitionPatch {
            node_id: "dock".to_owned(),
            add_transitions: vec![Transition { to: "canal".to_owned(), condition: None }],
        }],
        introduction: "You arrive.".to_owned(),
        section_summary: "Arrival.".to_owned(),
    }
}

#[test]
fn starting_a_draft_needs_outline_sections() {
    assert!(matches!(draft_outline(""), Err(DraftStepError::NoOutlineSections)));
    assert_eq!(draft_outline(PLAN).expect("sections").len(), 3);
    let err = start_draft(String::new(), init()).expect_err("no sections");
    assert!(matches!(err, DraftStepError::NoOutlineSections));
}

#[test]
fn starting_a_draft_applies_patches_and_begins_at_the_second_section() {
    let draft = start_draft(PLAN.to_owned(), init()).expect("draft starts");
    assert_eq!(draft.outline_sections.len(), 3);
    assert_eq!(draft.next_section_index, 1);
    assert_eq!(draft.partial_graph.nodes[0].transitions[0].to, "canal");
    assert_eq!(draft.section_summaries, vec!["Arrival.".to_owned()]);
    assert_eq!(draft.section_node_ids, vec![vec!["dock".to_owned(), "canal".to_owned()]]);
    assert_eq!(draft.status, StoryDraftStatus::Building);
    assert_eq!(draft.introduction, "You arrive.");
    assert_eq!(draft.final_story_id, None);
    assert_eq!(next_draft_section(&draft).expect("a section left"), "Second part.");
}

#[test]
fn a_single_section_draft_is_ready_at_once() {
    let draft = start_draft("Only part.".to_owned(), init()).expect("draft starts");
    assert_eq!(draft.status, StoryDraftStatus::ReadyToFinalize);
    assert!(matches!(next_draft_section(&draft), Err(DraftStepError::NotBuilding)));
}

#[test]
fn starting_a_draft_rejects_bad_patches_and_graphs() {
    let mut bad_patch = init();
    bad_patch.transition_patches[0].node_id = "nowhere".to_owned();
    let err = start_draft(PLAN.to_owned(), bad_patch).expect_err("missing patch node");
    assert!(matches!(err, DraftStepError::Draft(DraftError::MissingPatchNode(ref id)) if id == "nowhere"));

    let mut bad_start = init();
    bad_start.start_node = "harbor".to_owned();
    let err = start_draft(PLAN.to_owned(), bad_start).expect_err("missing start");
    assert!(matches!(err, DraftStepError::Draft(DraftError::Graph(GraphDefect::MissingStart(_)))));
}

#[test]
fn continuing_a_draft_merges_chunks_until_ready() {
    let draft = start_draft(PLAN.to_owned(), init()).expect("draft starts");
    let draft = continue_draft(
        draft,
        DraftChunk {
            nodes: vec![node("gate", &["dock"])],
            transition_patches: vec![NodeTransitionPatch {
                node_id: "canal".to_owned(),
                add_transitions: vec![Transition { to: "gate".to_owned(), condition: None }],
            }],
            section_summary: "The canal.".to_owned(),
        },
    )
    .expect("chunk merges");
    assert_eq!(draft.next_section_index, 2);
    assert_eq!(draft.partial_graph.nodes.len(), 3);
    assert_eq!(draft.section_summaries.len(), 2);
    assert_eq!(draft.section_node_ids[1], vec!["gate".to_owned()]);
    assert_eq!(draft.status, StoryDraftStatus::Building);

    let draft = continue_draft(
        draft,
        DraftChunk { nodes: vec![node("tower", &["gate"])], transition_patches: vec![], section_summary: "The tower.".to_owned() },
    )
    .expect("chunk merges");
    assert_eq!(draft.next_section_index, 3);
    assert_eq!(draft.status, StoryDraftStatus::ReadyToFinalize);

    let err = continue_draft(
        draft,
        DraftChunk { nodes: vec![], transition_patches: vec![], section_summary: String::new() },
    )
    .expect_err("not building");
    assert!(matches!(err, DraftStepError::NotBuilding));
}

#[test]
fn continuing_a_draft_rejects_reused_ids() {
    let draft = start_draft(PLAN.to_owned(), init()).expect("draft starts");
    let err = continue_draft(
        draft,
        DraftChunk { nodes: vec![node("dock", &[])], transition_patches: vec![], section_summary: String::new() },
    )
    .expect_err("reused id");
    assert!(matches!(err, DraftStepError::Draft(DraftError::ReusedNodeId(ref id)) if id == "dock"));
}

#[test]
fn architect_draft_init_context_describes_the_first_section() {
    let draft = start_draft(PLAN.to_owned(), init()).expect("draft starts");
    let context = architect_draft_init_context("A flooded city", None, &Vec::new(), None, None, &Vec::new(), &draft)
        .expect("context builds");
    let value = |key: &str| context.iter().find(|v| v.key == key).map(|v| v.value_json.clone());
    assert_eq!(value("current_section"), Some("First part.".to_owned()));
    assert_eq!(value("section_index"), Some("0".to_owned()));
    assert_eq!(value("total_sections"), Some("3".to_owned()));
    assert_eq!(value("target_node_count"), Some("4".to_owned()));
    assert_eq!(value("graph_summary"), Some("[]".to_owned()));
    assert_eq!(value("planned_story"), Some("null".to_owned()));
    assert_eq!(value("available_characters"), Some("- none".to_owned()));

    let mut empty = start_draft(PLAN.to_owned(), init()).expect("draft starts");
    empty.outline_sections.clear();
    let err = architect_draft_init_context("A flooded city", None, &Vec::new(), None, None, &Vec::new(), &empty)
        .expect_err("no sections");
    assert!(matches!(err, ContextError::NoOutlineSections));
}

#[test]
fn architect_draft_continue_context_describes_the_next_section() {
    let draft = start_draft(PLAN.to_owned(), init()).expect("draft starts");
    let context = architect_draft_continue_context(
        "A flooded city",
        None,
        &Vec::new(),
        &StateSchema::new(),
        &StateSchema::new(),
        &Vec::new(),
        &draft,
        "[{\"id\":\"dock\"}]".to_owned(),
        "[]".to_owned(),
    )
    .expect("context builds");
    let value = |key: &str| context.iter().find(|v| v.key == key).map(|v| v.value_json.clone());
    assert_eq!(value("current_section"), Some("Second part.".to_owned()));
    assert_eq!(value("section_index"), Some("1".to_owned()));
    assert_eq!(value("total_sections"), Some("3".to_owned()));
    assert_eq!(value("section_summaries"), Some("- [0] Arrival.".to_owned()));
    assert_eq!(value("graph_summary"), Some("[{\"id\":\"dock\"}]".to_owned()));
    assert_eq!(value("world_state_schema"), Some("none".to_owned()));

    let ready = start_draft("Only part.".to_owned(), init()).expect("draft starts");
    let err = architect_draft_continue_context(
        "A flooded city",
        None,
        &Vec::new(),
        &StateSchema::new(),
        &StateSchema::new(),
        &Vec::new(),
        &ready,
        String::new(),
        String::new(),
    )
    .expect_err("no section left");
    assert!(matches!(err, ContextError::NoRemainingSection));
}

#[test]
fn drafting_errors_have_messages() {
    assert_eq!(
        DraftStepError::NoOutlineSections.message("draft-0"),
        "planned_story did not contain any outline sections"
    );
    assert_eq!(DraftStepError::NotBuilding.message("draft-0"), "story draft 'draft-0' is not in building state");
    assert_eq!(DraftStepError::NoRemainingSection.message("draft-0"), "story draft has no remaining section");
}
