use dc_to_deployment::text::{chars_of, clone_opt_text, join, opt_text_is, replace, same_text};

#[test]
fn replace_rewrites_a_whole_match() {
    assert_eq!(replace("Rolling", "Rolling", "RollingUpdate"), "RollingUpdate");
}

#[test]
fn replace_rewrites_every_occurrence() {
    assert_eq!(replace("RollingRolling", "Rolling", "RollingUpdate"), "RollingUpdateRollingUpdate");
    assert_eq!(replace("a-Rolling-b-Rolling", "Rolling", "X"), "a-X-b-X");
}

#[test]
fn replace_rewrites_inside_a_longer_text() {
    assert_eq!(replace("MyRollingThing", "Rolling", "RollingUpdate"), "MyRollingUpdateThing");
}

#[test]
fn replace_leaves_text_without_a_match() {
    assert_eq!(replace("Recreate", "Rolling", "RollingUpdate"), "Recreate");
    assert_eq!(replace("Rollin", "Rolling", "RollingUpdate"), "Rollin");
    assert_eq!(replace("rolling", "Rolling", "RollingUpdate"), "rolling");
    assert_eq!(replace("", "Rolling", "RollingUpdate"), "");
}

#[test]
fn replace_does_not_look_at_replaced_text_again() {
    assert_eq!(replace("RollingUpdate", "Rolling", "RollingUpdate"), "RollingUpdateUpdate");
    assert_eq!(replace("aaa", "aa", "a"), "aa");
    assert_eq!(replace("aaaa", "aa", "b"), "bb");
}

#[test]
fn replace_agrees_with_std_on_samples() {
    let samples = ["", "R", "Rolling", "RRolling", "RollinRolling", "xRollingyRollingz", "Rolling\u{e9}Rolling", "\u{1f600}Rolling"];
    for s in samples {
        assert_eq!(replace(s, "Rolling", "RollingUpdate"), s.replace("Rolling", "RollingUpdate"));
    }
}

#[test]
fn replace_of_the_empty_text_puts_the_replacement_around_each_character() {
    assert_eq!(replace("", "", "X"), "X");
    assert_eq!(replace("ab", "", "-"), "-a-b-");
    assert_eq!(replace("ab", "", ""), "ab");
    for s in ["", "a", "ab", "h\u{e9}llo"] {
        assert_eq!(replace(s, "", "<>"), s.replace("", "<>"));
    }
}

#[test]
fn replace_handles_text_beyond_ascii() {
    assert_eq!(replace("h\u{e9}llo w\u{f6}rld", "\u{f6}", "oe"), "h\u{e9}llo woerld");
}

#[test]
fn same_text_compares_contents() {
    assert!(same_text("", ""));
    assert!(same_text("Rolling", "Rolling"));
    assert!(!same_text("Rolling", "Rollinh"));
    assert!(!same_text("Rolling", "Rollin"));
    assert!(!same_text("", "a"));
    assert!(same_text("\u{e9}", "\u{e9}"));
    assert!(!same_text("\u{e9}", "e"));
}

#[test]
fn opt_text_is_needs_a_present_and_equal_text() {
    assert!(opt_text_is(&Some("Rolling".to_string()), "Rolling"));
    assert!(!opt_text_is(&Some("Recreate".to_string()), "Rolling"));
    assert!(!opt_text_is(&None, "Rolling"));
    assert!(!opt_text_is(&None, ""));
}

#[test]
fn clone_opt_text_copies() {
    assert_eq!(clone_opt_text(&Some("x".to_string())), Some("x".to_string()));
    assert_eq!(clone_opt_text(&None), None);
}

#[test]
fn chars_of_lists_the_characters() {
    assert_eq!(chars_of(""), Vec::<char>::new());
    assert_eq!(chars_of("a\u{e9}b"), vec!['a', '\u{e9}', 'b']);
}

#[test]
fn join_puts_the_separator_between() {
    assert_eq!(join(&vec![], ","), "");
    assert_eq!(join(&vec!["a".to_string()], ","), "a");
    assert_eq!(join(&vec!["a".to_string(), "b".to_string(), "c".to_string()], ","), "a,b,c");
    assert_eq!(join(&vec!["".to_string(), "".to_string()], "--"), "--");
}
