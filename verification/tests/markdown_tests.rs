use reality::markdown::html_escape;
use reality::markdown::inline_md;
use reality::markdown::render_markdown;
use reality::markdown::replace_bold;
use reality::markdown::replace_inline;
use reality::markdown::replace_links;

#[test]
fn escape_replaces_markup_characters() {
    assert_eq!(html_escape("a<b&c>d"), "a&lt;b&amp;c&gt;d");
    assert_eq!(html_escape("plain"), "plain");
}

#[test]
fn inline_code_spans() {
    assert_eq!(replace_inline("`x`", '`', '`', "<code>", "</code>"), "<code>x</code>");
    assert_eq!(replace_inline("a_b_c", '_', '_', "<em>", "</em>"), "a<em>b</em>c");
}

#[test]
fn bold_pairs() {
    assert_eq!(replace_bold("**x**"), "<strong>x</strong>");
    assert_eq!(replace_bold("a*b"), "a*b");
    assert_eq!(replace_bold("**a"), "<strong>a");
}

#[test]
fn links_become_anchors() {
    assert_eq!(replace_links("[t](u)"), "<a href=\"u\" target=\"_blank\">t</a>");
    assert_eq!(replace_links("no link here"), "no link here");
    assert_eq!(replace_links("[dangling"), "[dangling");
}

#[test]
fn inline_decorations_compose() {
    assert_eq!(
        inline_md("**b** _i_ `c` [t](u)"),
        "<strong>b</strong> <em>i</em> <code>c</code> <a href=\"u\" target=\"_blank\">t</a>"
    );
}

#[test]
fn renderer_translates_a_document() {
    let md = "# Title\nhello\n- a\n- b\n\n```\nx<y\n```\n> q\n---\n";
    let expected = "<h1>Title</h1>\n<p>hello</p>\n<ul>\n<li>a</li>\n<li>b</li>\n</ul>\n<br>\n\
                    <pre><code>x&lt;y\n</code></pre>\n<blockquote>q</blockquote>\n<hr>\n";
    assert_eq!(render_markdown(md), expected);
}

#[test]
fn renderer_closes_an_open_code_block() {
    assert_eq!(render_markdown("```\nabc"), "<pre><code>abc\n</code></pre>\n");
}

#[test]
fn renderer_closes_an_open_list() {
    assert_eq!(render_markdown("- one"), "<ul>\n<li>one</li>\n</ul>\n");
}

#[test]
fn renderer_emits_heading_levels() {
    assert_eq!(render_markdown("## Two"), "<h2>Two</h2>\n");
    assert_eq!(render_markdown("### Three"), "<h3>Three</h3>\n");
}
