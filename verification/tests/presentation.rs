use announcer::{layout, pick_voice, speech_text};

#[test]
fn title_is_centered_above_the_middle() {
    // Width 80, height 24: a 10-character title starts at column 35, row 11.
    let placements = layout("ten chars!", "", 80, 24);
    assert_eq!(placements[0].x, 35);
    assert_eq!(placements[0].y, 11);
    assert_eq!(placements[0].text, "ten chars!");
}

#[test]
fn body_lines_grow_downward_from_below_the_middle() {
    let placements = layout("t", "aa\nbbbb", 10, 24);
    assert_eq!(placements.len(), 3);
    assert_eq!(placements[1].text, "aa");
    assert_eq!(placements[1].x, 4);
    assert_eq!(placements[1].y, 13);
    assert_eq!(placements[2].text, "bbbb");
    assert_eq!(placements[2].x, 3);
    assert_eq!(placements[2].y, 14);
}

#[test]
fn wide_text_starts_at_the_left_edge() {
    let placements = layout("much too wide a title", "", 5, 24);
    assert_eq!(placements[0].x, 0);
}

#[test]
fn empty_body_still_has_one_line() {
    // Splitting the empty body yields one empty segment, as splitting on a
    // separator does.
    let placements = layout("t", "", 80, 24);
    assert_eq!(placements.len(), 2);
    assert_eq!(placements[1].text, "");
}

#[test]
fn speech_text_joins_title_and_body_with_a_blank_line() {
    assert_eq!(speech_text("a title", "a body"), "a title\n\na body");
}

#[test]
fn voice_is_picked_from_the_catalog() {
    let voices = vec!["Joanna".to_string(), "Matthew".to_string()];
    let picked = pick_voice(&voices).unwrap();
    assert!(voices.contains(picked));
    let one = vec!["Solo".to_string()];
    assert_eq!(pick_voice(&one).unwrap(), "Solo");
    let none: Vec<String> = Vec::new();
    assert!(pick_voice(&none).is_none());
}
