use marionette::kwin::{kwin_focus_script, SCRIPT_HEAD, SCRIPT_TAIL};

#[test]
fn plain_title_is_embedded_verbatim() {
    let s = kwin_focus_script("Terminal");
    assert_eq!(s, format!("{}Terminal{}", SCRIPT_HEAD, SCRIPT_TAIL));
    assert!(s.contains("if (title === 'Terminal') {"));
}

#[test]
fn quotes_and_backslashes_are_escaped() {
    let s = kwin_focus_script(r#"it's "a\b""#);
    assert!(s.contains(r#"if (title === 'it\'s \"a\\b\"') {"#));
}
