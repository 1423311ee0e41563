use ss_engine::lorebook::{build_lorebook_prompt_sections, render_lorebook_entries, LorebookEntryRecord};

fn entry(entry_id: &str, keywords: &[&str], enabled: bool, always_include: bool) -> LorebookEntryRecord {
    LorebookEntryRecord {
        entry_id: entry_id.to_owned(),
        title: format!("Title {entry_id}"),
        content: format!("Content for {entry_id}"),
        keywords: keywords.iter().map(|keyword| (*keyword).to_owned()).collect(),
        enabled,
        always_include,
    }
}

#[test]
fn splits_base_and_matched_entries() {
    let sections = build_lorebook_prompt_sections(
        &vec![
            entry("base", &[], true, true),
            entry("match", &["merchant"], true, false),
            entry("disabled", &["merchant"], false, false),
        ],
        &vec!["merchant at the dock"],
    );

    assert!(sections.base.as_deref().is_some_and(|text| text.contains("base")));
    assert!(sections.matched.as_deref().is_some_and(|text| text.contains("match")));
    assert!(sections.matched.as_deref().is_none_or(|text| !text.contains("disabled")));
}

#[test]
fn keywords_match_case_insensitively_after_trimming() {
    let sections = build_lorebook_prompt_sections(
        &vec![entry("gate", &["  Flood GATE "], true, false), entry("none", &["   "], true, false)],
        &vec!["The flood gate creaks.", "   "],
    );
    assert_eq!(sections.base, None);
    assert_eq!(
        sections.matched.as_deref(),
        Some("- gate | Title gate | keywords=Flood GATE | Content for gate")
    );
}

#[test]
fn empty_inputs_match_nothing_and_limits_apply() {
    let sections = build_lorebook_prompt_sections(&vec![entry("m", &["merchant"], true, false)], &vec!["  "]);
    assert_eq!(sections.matched, None);

    let many: Vec<LorebookEntryRecord> = (0..6).map(|i| entry(&format!("b{i}"), &[], true, true)).collect();
    let sections = build_lorebook_prompt_sections(&many, &vec!["x"]);
    assert_eq!(sections.base.as_deref().map(|t| t.lines().count()), Some(4));

    let many: Vec<LorebookEntryRecord> = (0..10).map(|i| entry(&format!("m{i}"), &["x"], true, false)).collect();
    let sections = build_lorebook_prompt_sections(&many, &vec!["x"]);
    assert_eq!(sections.matched.as_deref().map(|t| t.lines().count()), Some(8));
}

#[test]
fn entries_render_one_line_each_with_cut_content() {
    let mut long = entry("long", &[], true, true);
    long.title = "  A   spaced\ttitle ".to_owned();
    long.content = "y".repeat(900);
    let rendered = render_lorebook_entries(&vec![&long]).expect("one entry");
    assert_eq!(rendered, format!("- long | A spaced title | keywords=none | {}...", "y".repeat(800)));
    assert_eq!(render_lorebook_entries(&Vec::new()), None);
}
