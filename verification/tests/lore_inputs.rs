use ss_engine::graph::RuntimeStoryGraph;
use ss_engine::lore_inputs::{
    replyer_lorebook_sections, runtime_lorebook_sections, story_generation_lorebook_sections,
};
use ss_engine::lorebook::LorebookEntryRecord;
use ss_engine::story::{NarrativeNode, StoryGraph};
use ss_engine::util::{ReplyHistoryKind, ReplyHistoryMessage};
use ss_engine::world::{ActorMemoryEntry, ActorMemoryKind};

fn entry(entry_id: &str, keyword: &str) -> LorebookEntryRecord {
    LorebookEntryRecord {
        entry_id: entry_id.to_owned(),
        title: format!("Title {entry_id}"),
        content: format!("Content for {entry_id}"),
        keywords: vec![keyword.to_owned()],
        enabled: true,
        always_include: false,
    }
}

fn dock() -> NarrativeNode {
    NarrativeNode::new(
        "dock".into(),
        "Dock".into(),
        "The harbor at dusk".into(),
        "find the smuggler".into(),
        vec![],
        vec![],
        vec![],
    )
}

fn said(text: &str) -> ActorMemoryEntry {
    ActorMemoryEntry {
        speaker_id: "guide".to_owned(),
        speaker_name: "Guide".to_owned(),
        kind: ActorMemoryKind::Dialogue,
        text: text.to_owned(),
    }
}

fn entries() -> Vec<LorebookEntryRecord> {
    vec![
        entry("smuggler", "smuggler"),
        entry("lantern", "lantern"),
        entry("ship", "ship"),
        entry("tide", "tide"),
    ]
}

fn matched_ids(matched: Option<String>) -> Vec<String> {
    matched
        .unwrap_or_default()
        .lines()
        .map(|line| line.trim_start_matches("- ").split(" | ").next().unwrap_or("").to_owned())
        .collect()
}

#[test]
fn runtime_sections_match_node_latest_history_and_input() {
    let graph = RuntimeStoryGraph::from_story_graph(StoryGraph::new("dock".into(), vec![dock()]))
        .expect("valid graph");
    let sections = runtime_lorebook_sections(
        &entries(),
        &graph,
        "dock",
        &vec![said("an old lantern"), said("a ship arrives")],
        1,
        "watch the tide",
    );
    assert_eq!(sections.base, None);
    assert_eq!(matched_ids(sections.matched), vec!["smuggler", "ship", "tide"]);
}

#[test]
fn runtime_sections_skip_an_unknown_node() {
    let graph = RuntimeStoryGraph::from_story_graph(StoryGraph::new("dock".into(), vec![dock()]))
        .expect("valid graph");
    let sections = runtime_lorebook_sections(
        &entries(),
        &graph,
        "elsewhere",
        &vec![said("an old lantern"), said("a ship arrives")],
        5,
        "",
    );
    assert_eq!(matched_ids(sections.matched), vec!["lantern", "ship"]);
}

#[test]
fn replyer_sections_match_node_and_history_lines() {
    let history = vec![
        ReplyHistoryMessage {
            kind: ReplyHistoryKind::Narration,
            turn_index: 1,
            speaker_id: "narrator".to_owned(),
            speaker_name: "Narrator".to_owned(),
            text: "The tide turns.".to_owned(),
        },
        ReplyHistoryMessage {
            kind: ReplyHistoryKind::Dialogue,
            turn_index: 1,
            speaker_id: "guide".to_owned(),
            speaker_name: "Guide".to_owned(),
            text: "   ".to_owned(),
        },
    ];
    let sections = replyer_lorebook_sections(&entries(), &dock(), &history);
    assert_eq!(matched_ids(sections.matched), vec!["smuggler", "tide"]);
}

#[test]
fn story_generation_sections_use_concept_plan_and_extras() {
    let with_plan = story_generation_lorebook_sections(
        &entries(),
        "A smuggler's tale",
        Some("A lantern in the fog"),
        &vec!["   ", "the ship"],
    );
    assert_eq!(matched_ids(with_plan.matched), vec!["smuggler", "lantern", "ship"]);
    let without_plan =
        story_generation_lorebook_sections(&entries(), "A quiet harbor", None, &vec!["high tide"]);
    assert_eq!(matched_ids(without_plan.matched), vec!["tide"]);
}
