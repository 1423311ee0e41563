use ss_engine::outline::extract_outline_sections;

#[test]
fn outline_reads_opening_and_beats() {
    let plan = "Title:\nFlooded City Courier\n\nOpening Situation: The courier arrives at the dock.\n\nSuggested Beats:\n- Meet the guide\n2) Cross the canal\n* \n3. Open the floodgate\nCore Conflict:\n- not a beat\n";
    assert_eq!(
        extract_outline_sections(plan),
        vec![
            "The courier arrives at the dock.".to_owned(),
            "Meet the guide".to_owned(),
            "Cross the canal".to_owned(),
            "Open the floodgate".to_owned(),
        ]
    );
}

#[test]
fn outline_opening_on_its_own_line_is_not_read() {
    let plan = "Opening Situation:\nThe courier arrives at the dock.";
    // The opening text must follow the heading on the same line; otherwise the
    // paragraphs are used.
    assert_eq!(extract_outline_sections(plan), vec![plan.to_owned()]);
}

#[test]
fn free_text_falls_back_to_paragraphs() {
    let plan = "First part.\r\n\nHeading:\n\n  Second part.  \n\n\n\nThird\npart.";
    assert_eq!(
        extract_outline_sections(plan),
        vec!["First part.".to_owned(), "Second part.".to_owned(), "Third\npart.".to_owned()]
    );
    assert!(extract_outline_sections("").is_empty());
    assert!(extract_outline_sections("Title:\n\nCore Conflict:").is_empty());
}
