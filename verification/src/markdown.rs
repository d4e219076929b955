//! The markdown renderer used for the preview pane: a small line-oriented
//! translator to display markup. Presentation only — the replication core
//! never depends on it.

use vstd::prelude::*;

use crate::text::copy_range;
use crate::text::str_chars;
use crate::text::string_from_chars;

verus! {

/// How one character is shown inside display markup.
pub open spec fn escaped_char(c: char) -> Seq<char> {
    if c == '&' {
        "&amp;"@
    } else if c == '<' {
        "&lt;"@
    } else if c == '>' {
        "&gt;"@
    } else {
        seq![c]
    }
}

/// The text with every markup-significant character escaped.
pub open spec fn html_escape_spec(s: Seq<char>) -> Seq<char>
    decreases s.len(),
{
    if s.len() == 0 {
        Seq::<char>::empty()
    } else {
        escaped_char(s[0]) + html_escape_spec(s.skip(1))
    }
}

/// Escapes `&`, `<` and `>` for display markup.
pub fn html_escape(s: &str) -> (r: String)
    ensures
        r@ == html_escape_spec(s@),
{
    let cs = str_chars(s);
    let mut out: Vec<char> = Vec::new();
    proof {
        assert(s@.skip(0) =~= s@);
        assert(out@ + html_escape_spec(s@) =~= html_escape_spec(s@));
    }
    let mut i: usize = 0;
    while i < cs.len()
        invariant
            i <= cs@.len(),
            cs@ == s@,
            out@ + html_escape_spec(s@.skip(i as int)) == html_escape_spec(s@),
        decreases cs@.len() - i,
    {
        let ghost pre = out@;
        let c = cs[i];
        if c == '&' {
            let mut piece = str_chars("&amp;");
            out.append(&mut piece);
        } else if c == '<' {
            let mut piece = str_chars("&lt;");
            out.append(&mut piece);
        } else if c == '>' {
            let mut piece = str_chars("&gt;");
            out.append(&mut piece);
        } else {
            out.push(c);
        }
        proof {
            assert(s@.skip(i as int)[0] == s@[i as int]);
            assert(s@.skip(i as int).skip(1) =~= s@.skip(i as int + 1));
            assert(out@ =~= pre + escaped_char(s@[i as int]));
            assert((pre + escaped_char(s@[i as int])) + html_escape_spec(s@.skip(i as int + 1))
                =~= pre + (escaped_char(s@[i as int]) + html_escape_spec(s@.skip(i as int + 1))));
        }
        i = i + 1;
    }
    proof {
        assert(s@.skip(s@.len() as int) =~= Seq::<char>::empty());
        assert(out@ + Seq::<char>::empty() =~= out@);
    }
    string_from_chars(out)
}

/// The text with runs between `open_char` and `close_char` wrapped in the
/// given tags: the first delimiter opens, the next closes, and so on; a
/// dangling opener leaves its tag unclosed, exactly as the editor shows it.
pub open spec fn replace_inline_spec(
    s: Seq<char>,
    open_char: char,
    close_char: char,
    open_tag: Seq<char>,
    close_tag: Seq<char>,
    inside: bool,
) -> Seq<char>
    decreases s.len(),
{
    if s.len() == 0 {
        Seq::<char>::empty()
    } else if s[0] == open_char && !inside {
        open_tag + replace_inline_spec(s.skip(1), open_char, close_char, open_tag, close_tag, true)
    } else if s[0] == close_char && inside {
        close_tag + replace_inline_spec(
            s.skip(1),
            open_char,
            close_char,
            open_tag,
            close_tag,
            false,
        )
    } else {
        seq![s[0]] + replace_inline_spec(
            s.skip(1),
            open_char,
            close_char,
            open_tag,
            close_tag,
            inside,
        )
    }
}

/// Replaces paired one-character delimiters with open and close tags.
pub fn replace_inline(
    s: &str,
    open_char: char,
    close_char: char,
    open_tag: &str,
    close_tag: &str,
) -> (r: String)
    ensures
        r@ == replace_inline_spec(s@, open_char, close_char, open_tag@, close_tag@, false),
{
    let cs = str_chars(s);
    let mut out: Vec<char> = Vec::new();
    let mut inside: bool = false;
    proof {
        assert(s@.skip(0) =~= s@);
        assert(out@ + replace_inline_spec(s@, open_char, close_char, open_tag@, close_tag@, false)
            =~= replace_inline_spec(s@, open_char, close_char, open_tag@, close_tag@, false));
    }
    let mut i: usize = 0;
    while i < cs.len()
        invariant
            i <= cs@.len(),
            cs@ == s@,
            out@ + replace_inline_spec(
                s@.skip(i as int),
                open_char,
                close_char,
                open_tag@,
                close_tag@,
                inside,
            ) == replace_inline_spec(s@, open_char, close_char, open_tag@, close_tag@, false),
        decreases cs@.len() - i,
    {
        let ghost pre = out@;
        let c = cs[i];
        let ghost piece_view: Seq<char>;
        if c == open_char && !inside {
            let mut piece = str_chars(open_tag);
            out.append(&mut piece);
            inside = true;
            proof {
                piece_view = open_tag@;
            }
        } else if c == close_char && inside {
            let mut piece = str_chars(close_tag);
            out.append(&mut piece);
            inside = false;
            proof {
                piece_view = close_tag@;
            }
        } else {
            out.push(c);
            proof {
                piece_view = seq![c];
            }
        }
        proof {
            assert(s@.skip(i as int)[0] == s@[i as int]);
            assert(s@.skip(i as int).skip(1) =~= s@.skip(i as int + 1));
            assert(out@ =~= pre + piece_view);
            assert((pre + piece_view) + replace_inline_spec(
                s@.skip(i as int + 1),
                open_char,
                close_char,
                open_tag@,
                close_tag@,
                inside,
            ) =~= pre + (piece_view + replace_inline_spec(
                s@.skip(i as int + 1),
                open_char,
                close_char,
                open_tag@,
                close_tag@,
                inside,
            )));
        }
        i = i + 1;
    }
    proof {
        assert(s@.skip(s@.len() as int) =~= Seq::<char>::empty());
        assert(out@ + Seq::<char>::empty() =~= out@);
    }
    string_from_chars(out)
}

/// The text with each `**` alternately opening and closing a strong tag; a
/// lone asterisk stays literal.
pub open spec fn replace_bold_spec(s: Seq<char>, open: bool) -> Seq<char>
    decreases s.len(),
{
    if s.len() == 0 {
        Seq::<char>::empty()
    } else if s.len() >= 2 && s[0] == '*' && s[1] == '*' {
        (if open {
            "</strong>"@
        } else {
            "<strong>"@
        }) + replace_bold_spec(s.skip(2), !open)
    } else {
        seq![s[0]] + replace_bold_spec(s.skip(1), open)
    }
}

/// Replaces `**` pairs with strong tags.
pub fn replace_bold(s: &str) -> (r: String)
    ensures
        r@ == replace_bold_spec(s@, false),
{
    let cs = str_chars(s);
    let mut out: Vec<char> = Vec::new();
    let mut open: bool = false;
    proof {
        assert(s@.skip(0) =~= s@);
        assert(out@ + replace_bold_spec(s@, false) =~= replace_bold_spec(s@, false));
    }
    let mut i: usize = 0;
    while i < cs.len()
        invariant
            i <= cs@.len(),
            cs@ == s@,
            out@ + replace_bold_spec(s@.skip(i as int), open) == replace_bold_spec(s@, false),
        decreases cs@.len() - i,
    {
        let ghost pre = out@;
        let ghost rest = s@.skip(i as int);
        let c = cs[i];
        if c == '*' && i + 1 < cs.len() && cs[i + 1] == '*' {
            let mut piece = if open {
                str_chars("</strong>")
            } else {
                str_chars("<strong>")
            };
            let ghost piece_view = piece@;
            out.append(&mut piece);
            open = !open;
            proof {
                assert(rest.len() >= 2 && rest[0] == '*' && rest[1] == '*');
                assert(rest.skip(2) =~= s@.skip(i as int + 2));
                assert(out@ =~= pre + piece_view);
                assert((pre + piece_view) + replace_bold_spec(s@.skip(i as int + 2), open) =~= pre
                    + (piece_view + replace_bold_spec(s@.skip(i as int + 2), open)));
            }
            i = i + 2;
        } else {
            out.push(c);
            proof {
                assert(rest[0] == s@[i as int]);
                assert(!(rest.len() >= 2 && rest[0] == '*' && rest[1] == '*'));
                assert(rest.skip(1) =~= s@.skip(i as int + 1));
                assert(out@ =~= pre + seq![s@[i as int]]);
                assert((pre + seq![s@[i as int]]) + replace_bold_spec(s@.skip(i as int + 1), open)
                    =~= pre + (seq![s@[i as int]] + replace_bold_spec(
                    s@.skip(i as int + 1),
                    open,
                )));
            }
            i = i + 1;
        }
    }
    proof {
        assert(s@.skip(s@.len() as int) =~= Seq::<char>::empty());
        assert(out@ + Seq::<char>::empty() =~= out@);
    }
    string_from_chars(out)
}

/// The first position at or after `from` holding `c`, or -1.
pub open spec fn find_char_from(s: Seq<char>, c: char, from: int) -> int
    decreases s.len() - from,
    when 0 <= from <= s.len()
{
    if from < 0 || from >= s.len() {
        -1
    } else if s[from] == c {
        from
    } else {
        find_char_from(s, c, from + 1)
    }
}

/// The first position at or after `from` where `a` is followed by `b`, or -1.
pub open spec fn find_pair_from(s: Seq<char>, a: char, b: char, from: int) -> int
    decreases s.len() - from,
    when 0 <= from <= s.len()
{
    if from < 0 || from + 1 >= s.len() {
        -1
    } else if s[from] == a && s[from + 1] == b {
        from
    } else {
        find_pair_from(s, a, b, from + 1)
    }
}

/// Finds the first `c` at or after `from`.
fn find_char(v: &Vec<char>, c: char, from: usize) -> (r: Option<usize>)
    requires
        from <= v@.len(),
    ensures
        r matches Some(m) ==> (from <= m && m < v@.len() && v@[m as int] == c && find_char_from(
            v@,
            c,
            from as int,
        ) == m as int),
        r is None ==> find_char_from(v@, c, from as int) == -1,
{
    let mut i: usize = from;
    while i < v.len()
        invariant
            from <= i <= v@.len(),
            find_char_from(v@, c, from as int) == find_char_from(v@, c, i as int),
        decreases v@.len() - i,
    {
        if v[i] == c {
            return Some(i);
        }
        i = i + 1;
    }
    None
}

/// Finds the first `a` immediately followed by `b`, at or after `from`.
fn find_pair(v: &Vec<char>, a: char, b: char, from: usize) -> (r: Option<usize>)
    requires
        from <= v@.len(),
    ensures
        r matches Some(m) ==> (from <= m && m + 1 < v@.len() && v@[m as int] == a && v@[m as int
            + 1] == b && find_pair_from(v@, a, b, from as int) == m as int),
        r is None ==> find_pair_from(v@, a, b, from as int) == -1,
{
    if v.len() == 0 {
        return None;
    }
    let mut i: usize = from;
    while i < v.len() - 1
        invariant
            from <= i <= v@.len(),
            v@.len() > 0,
            find_pair_from(v@, a, b, from as int) == find_pair_from(v@, a, b, i as int),
        decreases v@.len() - i,
    {
        if v[i] == a && v[i + 1] == b {
            return Some(i);
        }
        i = i + 1;
    }
    None
}

/// The text with `[text](url)` patterns turned into anchors. One pattern is
/// rewritten per step, scanning from the start each time as the editor
/// does; a partial pattern (no `](` or no closing parenthesis after the
/// first `[`) stops the rewriting. The fuel bounds the steps; one unit per
/// character is more than the rewriting can ever use, since every step
/// consumes a `](` and never creates one.
pub open spec fn links_spec(s: Seq<char>, fuel: nat) -> Seq<char>
    decreases fuel,
{
    if fuel == 0 {
        s
    } else {
        let start = find_char_from(s, '[', 0);
        if start < 0 {
            s
        } else {
            let mid = find_pair_from(s, ']', '(', start);
            if mid < 0 {
                s
            } else {
                let close = find_char_from(s, ')', mid);
                if close < 0 {
                    s
                } else {
                    let text = s.subrange(start + 1, mid);
                    let url = s.subrange(mid + 2, close);
                    links_spec(
                        s.take(start) + "<a href=\""@ + url + "\" target=\"_blank\">"@ + text
                            + "</a>"@ + s.skip(close + 1),
                        (fuel - 1) as nat,
                    )
                }
            }
        }
    }
}

/// One fuel-bounded pass of the link rewriting.
fn links_step(v: Vec<char>, fuel: usize) -> (r: Vec<char>)
    ensures
        r@ == links_spec(v@, fuel as nat),
    decreases fuel,
{
    if fuel == 0 {
        return v;
    }
    let start = match find_char(&v, '[', 0) {
        Some(start) => start,
        None => {
            return v;
        },
    };
    let mid = match find_pair(&v, ']', '(', start) {
        Some(mid) => mid,
        None => {
            return v;
        },
    };
    let close = match find_char(&v, ')', mid) {
        Some(close) => close,
        None => {
            return v;
        },
    };
    let text = copy_range(&v, start + 1, mid);
    let url = copy_range(&v, mid + 2, close);
    let mut nv = copy_range(&v, 0, start);
    let mut piece = str_chars("<a href=\"");
    nv.append(&mut piece);
    let mut url = url;
    nv.append(&mut url);
    let mut piece = str_chars("\" target=\"_blank\">");
    nv.append(&mut piece);
    let mut text = text;
    nv.append(&mut text);
    let mut piece = str_chars("</a>");
    nv.append(&mut piece);
    let mut rest = copy_range(&v, close + 1, v.len());
    nv.append(&mut rest);
    proof {
        assert(v@.subrange(0, start as int) =~= v@.take(start as int));
        assert(v@.subrange(close as int + 1, v@.len() as int) =~= v@.skip(close as int + 1));
        assert(nv@ =~= v@.take(start as int) + "<a href=\""@ + v@.subrange(
            mid as int + 2,
            close as int,
        ) + "\" target=\"_blank\">"@ + v@.subrange(start as int + 1, mid as int) + "</a>"@
            + v@.skip(close as int + 1));
    }
    links_step(nv, fuel - 1)
}

/// Rewrites `[text](url)` patterns into anchors.
pub fn replace_links(s: &str) -> (r: String)
    ensures
        r@ == links_spec(s@, s@.len()),
{
    let v = str_chars(s);
    let fuel = v.len();
    string_from_chars(links_step(v, fuel))
}

/// All inline decorations of one line, applied in the editor's order:
/// escape the markup characters, then backtick code spans, then bold, then
/// italics, then links.
pub open spec fn inline_md_spec(s: Seq<char>) -> Seq<char> {
    let escaped = html_escape_spec(s);
    let code = replace_inline_spec(escaped, '`', '`', "<code>"@, "</code>"@, false);
    let bold = replace_bold_spec(code, false);
    let em = replace_inline_spec(bold, '_', '_', "<em>"@, "</em>"@, false);
    links_spec(em, em.len())
}

/// Applies every inline decoration to one line.
pub fn inline_md(s: &str) -> (r: String)
    ensures
        r@ == inline_md_spec(s@),
{
    let escaped = html_escape(s);
    let code = replace_inline(escaped.as_str(), '`', '`', "<code>", "</code>");
    let bold = replace_bold(code.as_str());
    let em = replace_inline(bold.as_str(), '_', '_', "<em>", "</em>");
    replace_links(em.as_str())
}

/// Whether the line begins with the prefix.
pub open spec fn line_starts_with(line: Seq<char>, p: Seq<char>) -> bool {
    p.len() <= line.len() && line.take(p.len() as int) == p
}

/// A line with a trailing carriage return removed, as a split at `\r\n`
/// leaves it.
pub open spec fn chomp(line: Seq<char>) -> Seq<char> {
    if line.len() > 0 && line.last() == '\r' {
        line.drop_last()
    } else {
        line
    }
}

/// The tags still open when the text ends.
pub open spec fn closers(in_code: bool, in_list: bool) -> Seq<char> {
    (if in_list {
        "</ul>\n"@
    } else {
        Seq::<char>::empty()
    }) + (if in_code {
        "</code></pre>\n"@
    } else {
        Seq::<char>::empty()
    })
}

/// The display markup for the text, line by line: code fences toggle a
/// literal block, headings, list items, blockquotes, rules and paragraphs
/// map to their tags with inline decorations applied, a list stays open
/// across its items and is closed by the first line that is no item, and
/// whatever is open at the end is closed.
pub open spec fn render_spec(s: Seq<char>, in_code: bool, in_list: bool) -> Seq<char>
    decreases s.len(),
{
    if s.len() == 0 {
        closers(in_code, in_list)
    } else {
        let nl = find_char_from(s, '\n', 0);
        let line = if nl < 0 || nl > s.len() {
            s
        } else {
            chomp(s.take(nl))
        };
        let rest = if nl < 0 || nl >= s.len() {
            Seq::<char>::empty()
        } else {
            s.skip(nl + 1)
        };
        if line_starts_with(line, "```"@) {
            if in_code {
                "</code></pre>\n"@ + render_spec(rest, false, in_list)
            } else {
                (if in_list {
                    "</ul>\n"@
                } else {
                    Seq::<char>::empty()
                }) + "<pre><code>"@ + render_spec(rest, true, false)
            }
        } else if in_code {
            html_escape_spec(line) + seq!['\n'] + render_spec(rest, true, in_list)
        } else {
            let keep = line_starts_with(line, "- "@);
            let pre = if in_list && !keep {
                "</ul>\n"@
            } else {
                Seq::<char>::empty()
            };
            let l2 = in_list && keep;
            if line_starts_with(line, "### "@) {
                pre + "<h3>"@ + inline_md_spec(line.skip(4)) + "</h3>\n"@ + render_spec(
                    rest,
                    false,
                    l2,
                )
            } else if line_starts_with(line, "## "@) {
                pre + "<h2>"@ + inline_md_spec(line.skip(3)) + "</h2>\n"@ + render_spec(
                    rest,
                    false,
                    l2,
                )
            } else if line_starts_with(line, "# "@) {
                pre + "<h1>"@ + inline_md_spec(line.skip(2)) + "</h1>\n"@ + render_spec(
                    rest,
                    false,
                    l2,
                )
            } else if keep {
                (if !in_list {
                    "<ul>\n"@
                } else {
                    Seq::<char>::empty()
                }) + "<li>"@ + inline_md_spec(line.skip(2)) + "</li>\n"@ + render_spec(
                    rest,
                    false,
                    true,
                )
            } else if line_starts_with(line, "> "@) {
                pre + "<blockquote>"@ + inline_md_spec(line.skip(2)) + "</blockquote>\n"@
                    + render_spec(rest, false, l2)
            } else if line == "---"@ {
                pre + "<hr>\n"@ + render_spec(rest, false, l2)
            } else if line.len() == 0 {
                pre + "<br>\n"@ + render_spec(rest, false, l2)
            } else {
                pre + "<p>"@ + inline_md_spec(line) + "</p>\n"@ + render_spec(rest, false, l2)
            }
        }
    }
}

/// Whether the line begins with the prefix.
fn vec_starts_with(v: &Vec<char>, p: &str) -> (r: bool)
    ensures
        r == line_starts_with(v@, p@),
{
    let pc = str_chars(p);
    if pc.len() > v.len() {
        return false;
    }
    let mut i: usize = 0;
    while i < pc.len()
        invariant
            i <= pc@.len() <= v@.len(),
            pc@ == p@,
            forall|j: int| 0 <= j < i ==> v@[j] == pc@[j],
        decreases pc@.len() - i,
    {
        if v[i] != pc[i] {
            proof {
                assert(v@.take(p@.len() as int)[i as int] != p@[i as int]);
            }
            return false;
        }
        i = i + 1;
    }
    proof {
        assert(v@.take(p@.len() as int) =~= p@);
    }
    true
}

/// Whether the line is exactly the literal.
fn vec_eq_str(v: &Vec<char>, s: &str) -> (r: bool)
    ensures
        r == (v@ == s@),
{
    let sc = str_chars(s);
    if sc.len() != v.len() {
        return false;
    }
    let mut i: usize = 0;
    while i < sc.len()
        invariant
            i <= sc@.len() == v@.len(),
            sc@ == s@,
            forall|j: int| 0 <= j < i ==> v@[j] == sc@[j],
        decreases sc@.len() - i,
    {
        if v[i] != sc[i] {
            return false;
        }
        i = i + 1;
    }
    proof {
        assert(v@ =~= s@);
    }
    true
}

/// Inline decorations over a character vector.
fn inline_md_chars(v: Vec<char>) -> (r: Vec<char>)
    ensures
        r@ == inline_md_spec(v@),
{
    let s = string_from_chars(v);
    str_chars(inline_md(s.as_str()).as_str())
}

/// Appends the characters of a literal.
fn push_str_chars(out: &mut Vec<char>, s: &str)
    ensures
        final(out)@ == old(out)@ + s@,
{
    let mut piece = str_chars(s);
    out.append(&mut piece);
}

/// Renders the remaining text given the open-block state.
fn render_step(v: Vec<char>, in_code: bool, in_list: bool) -> (r: Vec<char>)
    ensures
        r@ == render_spec(v@, in_code, in_list),
    decreases v@.len(),
{
    let mut out: Vec<char> = Vec::new();
    if v.len() == 0 {
        if in_list {
            push_str_chars(&mut out, "</ul>\n");
        }
        if in_code {
            push_str_chars(&mut out, "</code></pre>\n");
        }
        proof {
            assert(out@ =~= closers(in_code, in_list));
        }
        return out;
    }
    let ghost s = v@;
    let (line, rest): (Vec<char>, Vec<char>) = match find_char(&v, '\n', 0) {
        Some(n) => {
            let mut line = copy_range(&v, 0, n);
            if line.len() > 0 && line[line.len() - 1] == '\r' {
                line.pop();
            }
            let rest = copy_range(&v, n + 1, v.len());
            proof {
                assert(v@.subrange(0, n as int) =~= v@.take(n as int));
                assert(chomp(v@.take(n as int)) =~= line@);
                assert(v@.subrange(n as int + 1, v@.len() as int) =~= v@.skip(n as int + 1));
            }
            (line, rest)
        },
        None => (v, Vec::new()),
    };
    let ghost line_s = if find_char_from(s, '\n', 0) < 0 || find_char_from(s, '\n', 0) > s.len() {
        s
    } else {
        chomp(s.take(find_char_from(s, '\n', 0)))
    };
    let ghost rest_s = if find_char_from(s, '\n', 0) < 0 || find_char_from(s, '\n', 0) >= s.len() {
        Seq::<char>::empty()
    } else {
        s.skip(find_char_from(s, '\n', 0) + 1)
    };
    proof {
        assert(line@ == line_s);
        assert(rest@ =~= rest_s);
    }
    if vec_starts_with(&line, "```") {
        if in_code {
            push_str_chars(&mut out, "</code></pre>\n");
            let mut tail = render_step(rest, false, in_list);
            out.append(&mut tail);
        } else {
            if in_list {
                push_str_chars(&mut out, "</ul>\n");
            }
            push_str_chars(&mut out, "<pre><code>");
            let mut tail = render_step(rest, true, false);
            out.append(&mut tail);
        }
        proof {
            assert(out@ =~= render_spec(s, in_code, in_list));
        }
        return out;
    }
    if in_code {
        let escaped = html_escape(string_from_chars(line).as_str());
        push_str_chars(&mut out, escaped.as_str());
        out.push('\n');
        let mut tail = render_step(rest, true, in_list);
        out.append(&mut tail);
        proof {
            assert(out@ =~= render_spec(s, in_code, in_list));
        }
        return out;
    }
    let keep = vec_starts_with(&line, "- ");
    if in_list && !keep {
        push_str_chars(&mut out, "</ul>\n");
    }
    let l2 = in_list && keep;
    if vec_starts_with(&line, "### ") {
        proof {
            reveal_strlit("### ");
        }
        push_str_chars(&mut out, "<h3>");
        let mut body = inline_md_chars(copy_range(&line, 4, line.len()));
        out.append(&mut body);
        push_str_chars(&mut out, "</h3>\n");
        let mut tail = render_step(rest, false, l2);
        out.append(&mut tail);
        proof {
            assert(line_s.subrange(4, line_s.len() as int) =~= line_s.skip(4));
            assert(out@ =~= render_spec(s, in_code, in_list));
        }
        out
    } else if vec_starts_with(&line, "## ") {
        proof {
            reveal_strlit("## ");
        }
        push_str_chars(&mut out, "<h2>");
        let mut body = inline_md_chars(copy_range(&line, 3, line.len()));
        out.append(&mut body);
        push_str_chars(&mut out, "</h2>\n");
        let mut tail = render_step(rest, false, l2);
        out.append(&mut tail);
        proof {
            assert(line_s.subrange(3, line_s.len() as int) =~= line_s.skip(3));
            assert(out@ =~= render_spec(s, in_code, in_list));
        }
        out
    } else if vec_starts_with(&line, "# ") {
        proof {
            reveal_strlit("# ");
        }
        push_str_chars(&mut out, "<h1>");
        let mut body = inline_md_chars(copy_range(&line, 2, line.len()));
        out.append(&mut body);
        push_str_chars(&mut out, "</h1>\n");
        let mut tail = render_step(rest, false, l2);
        out.append(&mut tail);
        proof {
            assert(line_s.subrange(2, line_s.len() as int) =~= line_s.skip(2));
            assert(out@ =~= render_spec(s, in_code, in_list));
        }
        out
    } else if keep {
        proof {
            reveal_strlit("- ");
        }
        if !in_list {
            push_str_chars(&mut out, "<ul>\n");
        }
        push_str_chars(&mut out, "<li>");
        let mut body = inline_md_chars(copy_range(&line, 2, line.len()));
        out.append(&mut body);
        push_str_chars(&mut out, "</li>\n");
        let mut tail = render_step(rest, false, true);
        out.append(&mut tail);
        proof {
            assert(line_s.subrange(2, line_s.len() as int) =~= line_s.skip(2));
            assert(out@ =~= render_spec(s, in_code, in_list));
        }
        out
    } else if vec_starts_with(&line, "> ") {
        proof {
            reveal_strlit("> ");
        }
        push_str_chars(&mut out, "<blockquote>");
        let mut body = inline_md_chars(copy_range(&line, 2, line.len()));
        out.append(&mut body);
        push_str_chars(&mut out, "</blockquote>\n");
        let mut tail = render_step(rest, false, l2);
        out.append(&mut tail);
        proof {
            assert(line_s.subrange(2, line_s.len() as int) =~= line_s.skip(2));
            assert(out@ =~= render_spec(s, in_code, in_list));
        }
        out
    } else if vec_eq_str(&line, "---") {
        push_str_chars(&mut out, "<hr>\n");
        let mut tail = render_step(rest, false, l2);
        out.append(&mut tail);
        proof {
            assert(out@ =~= render_spec(s, in_code, in_list));
        }
        out
    } else if line.len() == 0 {
        push_str_chars(&mut out, "<br>\n");
        let mut tail = render_step(rest, false, l2);
        out.append(&mut tail);
        proof {
            assert(out@ =~= render_spec(s, in_code, in_list));
        }
        out
    } else {
        push_str_chars(&mut out, "<p>");
        let mut body = inline_md_chars(line);
        out.append(&mut body);
        push_str_chars(&mut out, "</p>\n");
        let mut tail = render_step(rest, false, l2);
        out.append(&mut tail);
        proof {
            assert(out@ =~= render_spec(s, in_code, in_list));
        }
        out
    }
}

/// Renders a whole markdown text to display markup.
pub fn render_markdown(md: &str) -> (r: String)
    ensures
        r@ == render_spec(md@, false, false),
{
    let v = str_chars(md);
    string_from_chars(render_step(v, false, false))
}

} // verus!
