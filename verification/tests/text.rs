use command_bridge::text::same_text;

#[test]
fn equal_strings_are_the_same_text() {
    assert!(same_text("", ""));
    assert!(same_text("quit_app", "quit_app"));
    assert!(same_text("\u{65e5}\u{672c}", "\u{65e5}\u{672c}"));
}

#[test]
fn different_strings_are_not_the_same_text() {
    assert!(!same_text("quit_app", "quit_apq"));
    assert!(!same_text("quit_app", "quit_ap"));
    assert!(!same_text("", "a"));
    assert!(!same_text("a", "A"));
    assert!(!same_text("\u{65e5}\u{672c}", "\u{65e5}\u{672d}"));
}
