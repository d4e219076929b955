use reality::toolbar::ToolbarAction;
use reality::toolbar::apply_toolbar_action_at_cursor;

#[test]
fn bold_wraps_selection() {
    let (text, cursor) = apply_toolbar_action_at_cursor("hello", ToolbarAction::Bold, 0, 5);
    assert_eq!(text, "**hello**");
    assert_eq!(cursor, 9);
}

#[test]
fn bold_without_selection_inserts_placeholder() {
    let (text, cursor) = apply_toolbar_action_at_cursor("ab", ToolbarAction::Bold, 1, 1);
    assert_eq!(text, "a**bold text**b");
    assert_eq!(cursor, 14);
}

#[test]
fn italic_and_code_wrap() {
    let (text, cursor) = apply_toolbar_action_at_cursor("xy", ToolbarAction::Italic, 0, 2);
    assert_eq!(text, "_xy_");
    assert_eq!(cursor, 4);

    let (text, cursor) = apply_toolbar_action_at_cursor("f", ToolbarAction::Code, 0, 1);
    assert_eq!(text, "`f`");
    assert_eq!(cursor, 3);
}

#[test]
fn link_inserts_placeholder_url() {
    let (text, cursor) = apply_toolbar_action_at_cursor("x", ToolbarAction::Link, 0, 0);
    assert_eq!(text, "[link text](https://url.com)x");
    assert_eq!(cursor, 28);
}

#[test]
fn heading_snippet_is_padded_with_newlines() {
    let (text, cursor) = apply_toolbar_action_at_cursor("ab", ToolbarAction::Heading(2), 1, 1);
    assert_eq!(text, "a\n## Heading 2\nb");
    assert_eq!(cursor, 15);
}

#[test]
fn heading_at_line_start_needs_no_padding() {
    let (text, cursor) = apply_toolbar_action_at_cursor("", ToolbarAction::HRule, 0, 0);
    assert_eq!(text, "---");
    assert_eq!(cursor, 3);
}

#[test]
fn unknown_heading_level_changes_nothing() {
    let (text, cursor) = apply_toolbar_action_at_cursor("ab", ToolbarAction::Heading(9), 1, 1);
    assert_eq!(text, "ab");
    assert_eq!(cursor, 1);
}

#[test]
fn selection_is_clamped_to_the_text() {
    let (text, cursor) = apply_toolbar_action_at_cursor("ab", ToolbarAction::Bold, 90, 99);
    assert_eq!(text, "ab**bold text**");
    assert_eq!(cursor, 2 + 2 + 9 + 2);
}

#[test]
fn block_snippets_close_around_existing_lines() {
    let (text, _) = apply_toolbar_action_at_cursor("top\nbottom", ToolbarAction::Quote, 4, 4);
    assert_eq!(text, "top\n> blockquote\nbottom");
}
