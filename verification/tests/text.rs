use bluetooth_widget::text::{same_text, text_precedes};

#[test]
fn equal_texts_are_the_same() {
    assert!(same_text("WF-C700", "WF-C700"));
    assert!(same_text("", ""));
    assert!(same_text("Kopfhörer", "Kopfhörer"));
}

#[test]
fn different_texts_are_not_the_same() {
    assert!(!same_text("WF-C700", "WF-C70"));
    assert!(!same_text("WF-C700", "wf-c700"));
    assert!(!same_text("", " "));
    assert!(!same_text("Alpha", "Alphb"));
}

#[test]
fn a_text_does_not_precede_itself() {
    assert!(!text_precedes("Alpha", "Alpha"));
    assert!(!text_precedes("", ""));
}

#[test]
fn the_first_differing_byte_decides() {
    assert!(text_precedes("Alpha", "Beta"));
    assert!(!text_precedes("Beta", "Alpha"));
    assert!(text_precedes("Beta", "Zed"));
    assert!(text_precedes("Alpha", "Alphb"));
}

#[test]
fn a_proper_prefix_comes_first() {
    assert!(text_precedes("", "A"));
    assert!(text_precedes("Al", "Alpha"));
    assert!(!text_precedes("Alpha", "Al"));
}

#[test]
fn upper_case_comes_before_lower_case() {
    assert!(text_precedes("Zed", "alpha"));
    assert!(!text_precedes("alpha", "Zed"));
}

#[test]
fn texts_outside_ascii_go_by_their_bytes() {
    assert!(text_precedes("z", "é"));
    assert!(text_precedes("é", "耳"));
    assert!(!text_precedes("耳", "é"));
}

#[test]
fn text_order_agrees_with_the_order_of_strings() {
    let names = ["", "A", "Al", "Alpha", "Beta", "WF-C700", "Zed", "alpha", "é", "耳机"];
    for a in names.iter() {
        for b in names.iter() {
            assert_eq!(text_precedes(a, b), a < b);
            assert_eq!(same_text(a, b), a == b);
        }
    }
}
