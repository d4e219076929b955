//! Toolbar edits: each action turns the current text and selection into a
//! new text with a markdown decoration or snippet, and says where the caret
//! belongs afterwards.

use vstd::prelude::*;

use crate::text::copy_range;
use crate::text::str_chars;
use crate::text::string_from_chars;

verus! {

/// One button of the editor toolbar.
#[derive(Clone, PartialEq)]
pub enum ToolbarAction {
    Bold,
    Italic,
    Code,
    CodeBlock,
    Heading(u8),
    Link,
    BulletList,
    NumberedList,
    Quote,
    HRule,
}

/// An offset clamped into the text.
pub open spec fn clamped(x: int, len: int) -> int {
    if x <= len {
        x
    } else {
        len
    }
}

/// Wrapping the selection (or a placeholder when nothing is selected) in a
/// pair of inline marks; the caret lands right after the closing mark.
pub open spec fn wrap_spec(
    before: Seq<char>,
    selected: Seq<char>,
    after: Seq<char>,
    s: int,
    open_mark: Seq<char>,
    placeholder: Seq<char>,
    close_mark: Seq<char>,
) -> (Seq<char>, int) {
    let inner = if selected.len() == 0 {
        placeholder
    } else {
        selected
    };
    (
        before + open_mark + inner + close_mark + after,
        s + open_mark.len() + inner.len() + close_mark.len(),
    )
}

/// The literal snippet a block-level action inserts, if the action is a
/// block-level one.
pub open spec fn block_snippet(action: ToolbarAction) -> Option<Seq<char>> {
    match action {
        ToolbarAction::CodeBlock => Some("```\ncode here\n```"@),
        ToolbarAction::Heading(n) => if n == 1 {
            Some("# Heading 1"@)
        } else if n == 2 {
            Some("## Heading 2"@)
        } else if n == 3 {
            Some("### Heading 3"@)
        } else {
            None
        },
        ToolbarAction::BulletList => Some("- list item"@),
        ToolbarAction::NumberedList => Some("1. list item"@),
        ToolbarAction::Quote => Some("> blockquote"@),
        ToolbarAction::HRule => Some("---"@),
        _ => None,
    }
}

/// What a toolbar action does: inline actions wrap the selection in their
/// marks; block actions insert their snippet at the selection start, padded
/// with newlines so the snippet stands on its own lines; a heading level
/// without a snippet leaves the text untouched. Offsets count Unicode
/// scalar values and are clamped into the text first.
pub open spec fn toolbar_spec(
    content: Seq<char>,
    action: ToolbarAction,
    sel_start: int,
    sel_end: int,
) -> (Seq<char>, int) {
    let s = clamped(sel_start, content.len() as int);
    let e = clamped(sel_end, content.len() as int);
    let before = content.take(s);
    let selected = content.subrange(s, e);
    let after = content.skip(e);
    match action {
        ToolbarAction::Bold => wrap_spec(before, selected, after, s, "**"@, "bold text"@, "**"@),
        ToolbarAction::Italic => wrap_spec(before, selected, after, s, "_"@, "italic text"@, "_"@),
        ToolbarAction::Code => wrap_spec(before, selected, after, s, "`"@, "code"@, "`"@),
        ToolbarAction::Link => {
            let inner = if selected.len() == 0 {
                "link text"@
            } else {
                selected
            };
            (
                before + "["@ + inner + "]("@ + "https://url.com"@ + ")"@ + after,
                s + "["@.len() + inner.len() + "]("@.len() + "https://url.com"@.len()
                    + ")"@.len(),
            )
        },
        _ => {
            match block_snippet(action) {
                Some(snippet) => {
                    let lead = if before.len() > 0 && before.last() != '\n' {
                        "\n"@
                    } else {
                        Seq::<char>::empty()
                    };
                    let trail = if after.len() > 0 && after.first() != '\n' {
                        "\n"@
                    } else {
                        Seq::<char>::empty()
                    };
                    (
                        before + lead + snippet + trail + after,
                        s + lead.len() + snippet.len() + trail.len(),
                    )
                },
                None => (content, s),
            }
        },
    }
}

/// Builds `before + open_mark + inner + close_mark + after`.
fn assemble_wrap(
    before: Vec<char>,
    open_mark: &str,
    inner: Vec<char>,
    close_mark: &str,
    after: Vec<char>,
) -> (v: Vec<char>)
    ensures
        v@ == before@ + open_mark@ + inner@ + close_mark@ + after@,
{
    let mut v = before;
    let mut piece = str_chars(open_mark);
    v.append(&mut piece);
    let mut inner = inner;
    v.append(&mut inner);
    let mut piece = str_chars(close_mark);
    v.append(&mut piece);
    let mut after = after;
    v.append(&mut after);
    v
}

/// Applies one toolbar action to the text at the current selection,
/// returning the new text and the caret position after the edit.
pub fn apply_toolbar_action_at_cursor(
    content: &str,
    action: ToolbarAction,
    sel_start: usize,
    sel_end: usize,
) -> (r: (String, usize))
    requires
        sel_start <= sel_end,
        content@.len() <= usize::MAX / 2 - 64,
    ensures
        (r.0@, r.1 as int) == toolbar_spec(content@, action, sel_start as int, sel_end as int),
{
    let chars: Vec<char> = str_chars(content);
    let s = if sel_start <= chars.len() {
        sel_start
    } else {
        chars.len()
    };
    let e = if sel_end <= chars.len() {
        sel_end
    } else {
        chars.len()
    };
    let before = copy_range(&chars, 0, s);
    let selected = copy_range(&chars, s, e);
    let after = copy_range(&chars, e, chars.len());
    proof {
        assert(before@ =~= content@.take(s as int));
        assert(after@ =~= content@.skip(e as int));
    }
    match action {
        ToolbarAction::Bold => {
            proof {
                reveal_strlit("**");
                reveal_strlit("bold text");
            }
            let inner = if selected.len() == 0 {
                str_chars("bold text")
            } else {
                selected
            };
            let cursor = s + 2 + inner.len() + 2;
            (string_from_chars(assemble_wrap(before, "**", inner, "**", after)), cursor)
        },
        ToolbarAction::Italic => {
            proof {
                reveal_strlit("_");
                reveal_strlit("italic text");
            }
            let inner = if selected.len() == 0 {
                str_chars("italic text")
            } else {
                selected
            };
            let cursor = s + 1 + inner.len() + 1;
            (string_from_chars(assemble_wrap(before, "_", inner, "_", after)), cursor)
        },
        ToolbarAction::Code => {
            proof {
                reveal_strlit("`");
                reveal_strlit("code");
            }
            let inner = if selected.len() == 0 {
                str_chars("code")
            } else {
                selected
            };
            let cursor = s + 1 + inner.len() + 1;
            (string_from_chars(assemble_wrap(before, "`", inner, "`", after)), cursor)
        },
        ToolbarAction::Link => {
            proof {
                reveal_strlit("[");
                reveal_strlit("](");
                reveal_strlit(")");
                reveal_strlit("link text");
                reveal_strlit("https://url.com");
            }
            let inner = if selected.len() == 0 {
                str_chars("link text")
            } else {
                selected
            };
            let url = str_chars("https://url.com");
            let cursor = s + 1 + inner.len() + 2 + url.len() + 1;
            let mut v = assemble_wrap(before, "[", inner, "](", url);
            let mut piece = str_chars(")");
            v.append(&mut piece);
            let mut after = after;
            v.append(&mut after);
            (string_from_chars(v), cursor)
        },
        _ => {
            let snippet: &str = match &action {
                ToolbarAction::CodeBlock => "```\ncode here\n```",
                ToolbarAction::Heading(n) => {
                    if *n == 1 {
                        "# Heading 1"
                    } else if *n == 2 {
                        "## Heading 2"
                    } else if *n == 3 {
                        "### Heading 3"
                    } else {
                        return (content.to_owned(), s);
                    }
                },
                ToolbarAction::BulletList => "- list item",
                ToolbarAction::NumberedList => "1. list item",
                ToolbarAction::Quote => "> blockquote",
                ToolbarAction::HRule => "---",
                _ => {
                    return (content.to_owned(), s);
                },
            };
            let needs_lead = before.len() > 0 && before[before.len() - 1] != '\n';
            let needs_trail = after.len() > 0 && after[0] != '\n';
            let snip = str_chars(snippet);
            proof {
                reveal_strlit("\n");
                reveal_strlit("```\ncode here\n```");
                reveal_strlit("# Heading 1");
                reveal_strlit("## Heading 2");
                reveal_strlit("### Heading 3");
                reveal_strlit("- list item");
                reveal_strlit("1. list item");
                reveal_strlit("> blockquote");
                reveal_strlit("---");
            }
            let mut v = before;
            let mut lead_len: usize = 0;
            if needs_lead {
                let mut piece = str_chars("\n");
                v.append(&mut piece);
                lead_len = 1;
            }
            let snip_len = snip.len();
            let mut snip = snip;
            v.append(&mut snip);
            let mut trail_len: usize = 0;
            if needs_trail {
                let mut piece = str_chars("\n");
                v.append(&mut piece);
                trail_len = 1;
            }
            let mut after = after;
            v.append(&mut after);
            let cursor = s + lead_len + snip_len + trail_len;
            (string_from_chars(v), cursor)
        },
    }
}

} // verus!
