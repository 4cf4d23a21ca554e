use yazi_plugin::line::{join_under, trim_line};

#[test]
fn trim_drops_one_trailing_carriage_return() {
    assert_eq!(trim_line("src/a.rs\r"), "src/a.rs");
    assert_eq!(trim_line("src/a.rs"), "src/a.rs");
    assert_eq!(trim_line("\r"), "");
    assert_eq!(trim_line(""), "");
    assert_eq!(trim_line("a\rb"), "a\rb");
}

#[test]
fn join_inserts_a_single_separator() {
    assert_eq!(join_under("/repo", "src/a.rs"), "/repo/src/a.rs");
    assert_eq!(join_under("/repo/", "src/a.rs"), "/repo/src/a.rs");
    assert_eq!(join_under("/", "a"), "/a");
    assert_eq!(join_under("", "a"), "/a");
}
