use jiu::text::{join, same_text, spaces, width};

fn strings(items: &[&str]) -> Vec<String> {
    items.iter().map(|item| item.to_string()).collect()
}

#[test]
fn join_puts_the_separator_between_neighbours() {
    assert_eq!(join(&strings(&[]), ", "), "");
    assert_eq!(join(&strings(&["a"]), ", "), "a");
    assert_eq!(join(&strings(&["a", "b", "c"]), ", "), "a, b, c");
    assert_eq!(join(&strings(&["", ""]), "/"), "/");
    assert_eq!(join(&strings(&["a", "", "b"]), ""), "ab");
}

#[test]
fn spaces_gives_as_many_as_asked() {
    assert_eq!(spaces(0), "");
    assert_eq!(spaces(1), " ");
    assert_eq!(spaces(5), "     ");
}

#[test]
fn same_text_compares_letter_for_letter() {
    assert!(same_text("", ""));
    assert!(same_text("--help", "--help"));
    assert!(!same_text("--help", "--Help"));
    assert!(!same_text("--help", "--hel"));
    assert!(!same_text("", " "));
    assert!(same_text("d\u{e9}ploy", "d\u{e9}ploy"));
    assert!(!same_text("d\u{e9}ploy", "deploy"));
}

#[test]
fn width_counts_bytes() {
    assert_eq!(width(""), 0);
    assert_eq!(width("abc"), 3);
    assert_eq!(width("\u{e9}"), 2);
    assert_eq!(width("\u{20ac}"), 3);
    assert_eq!(width("\u{1f600}"), 4);
}
