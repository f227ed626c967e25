//! Terminal theme constants and the rendering of AI answers written in
//! Markdown: the Markdown is turned into HTML by `pulldown_cmark`, and the
//! HTML is read line by line into text with per-character styles (bold, dim,
//! colour), which the terminal layer then paints.
use vstd::prelude::*;
use crate::text::{chars_of, contains, contains_exec, find_from, find_from_exec, lemma_find_from, lines, lines_exec, repeat, repeat_exec, replace_all, replace_exec, slice, starts_with, starts_with_exec, trim, trim_exec, utf8_len, utf8_len_exec, views};

verus! {

/// An RGB colour of the theme.
#[derive(Debug, Clone, Copy, PartialEq, Eq, Structural)]
pub struct Rgb {
    pub r: u8,
    pub g: u8,
    pub b: u8,
}

/// The colours and glyphs of the terminal interface.
pub struct Theme;

impl Theme {
    pub const BOX_TOP_LEFT: &'static str = "╭";
    pub const BOX_TOP_RIGHT: &'static str = "╮";
    pub const BOX_BOTTOM_LEFT: &'static str = "╰";
    pub const BOX_BOTTOM_RIGHT: &'static str = "╯";
    pub const BOX_HORIZONTAL: &'static str = "─";
    pub const BOX_VERTICAL: &'static str = "│";
    pub const PROMPT_SYMBOL: &'static str = "❯";
    pub const PROMPT_SYMBOL_ALT: &'static str = "➜";
    pub const SHELL_SYMBOL: &'static str = "$";

    pub fn neon_green() -> (c: Rgb)
        ensures
            c == (Rgb { r: 0, g: 255, b: 0 }),
    {
        Rgb { r: 0, g: 255, b: 0 }
    }

    pub fn neon_cyan() -> (c: Rgb)
        ensures
            c == (Rgb { r: 0, g: 255, b: 255 }),
    {
        Rgb { r: 0, g: 255, b: 255 }
    }

    pub fn neon_magenta() -> (c: Rgb)
        ensures
            c == (Rgb { r: 255, g: 0, b: 255 }),
    {
        Rgb { r: 255, g: 0, b: 255 }
    }

    pub fn neon_yellow() -> (c: Rgb)
        ensures
            c == (Rgb { r: 255, g: 255, b: 0 }),
    {
        Rgb { r: 255, g: 255, b: 0 }
    }

    pub fn neon_red() -> (c: Rgb)
        ensures
            c == (Rgb { r: 255, g: 51, b: 51 }),
    {
        Rgb { r: 255, g: 51, b: 51 }
    }

    pub fn neon_blue() -> (c: Rgb)
        ensures
            c == (Rgb { r: 51, g: 153, b: 255 }),
    {
        Rgb { r: 51, g: 153, b: 255 }
    }

    pub fn neon_orange() -> (c: Rgb)
        ensures
            c == (Rgb { r: 255, g: 153, b: 0 }),
    {
        Rgb { r: 255, g: 153, b: 0 }
    }

    pub fn bg_dark() -> (c: Rgb)
        ensures
            c == (Rgb { r: 13, g: 13, b: 13 }),
    {
        Rgb { r: 13, g: 13, b: 13 }
    }

    pub fn bg_matrix() -> (c: Rgb)
        ensures
            c == (Rgb { r: 0, g: 20, b: 0 }),
    {
        Rgb { r: 0, g: 20, b: 0 }
    }

    pub fn bg_cyan_dark() -> (c: Rgb)
        ensures
            c == (Rgb { r: 0, g: 30, b: 30 }),
    {
        Rgb { r: 0, g: 30, b: 30 }
    }

    pub fn text_bright() -> (c: Rgb)
        ensures
            c == (Rgb { r: 224, g: 224, b: 224 }),
    {
        Rgb { r: 224, g: 224, b: 224 }
    }

    pub fn text_dim() -> (c: Rgb)
        ensures
            c == (Rgb { r: 128, g: 128, b: 128 }),
    {
        Rgb { r: 128, g: 128, b: 128 }
    }

    /// Prompts, successes, and information use the neon green and cyan;
    /// errors the neon red; warnings the neon yellow.
    pub fn prompt() -> (c: Rgb)
        ensures
            c == (Rgb { r: 0, g: 255, b: 0 }),
    {
        Self::neon_green()
    }

    pub fn success() -> (c: Rgb)
        ensures
            c == (Rgb { r: 0, g: 255, b: 0 }),
    {
        Self::neon_green()
    }

    pub fn error() -> (c: Rgb)
        ensures
            c == (Rgb { r: 255, g: 51, b: 51 }),
    {
        Self::neon_red()
    }

    pub fn warning() -> (c: Rgb)
        ensures
            c == (Rgb { r: 255, g: 255, b: 0 }),
    {
        Self::neon_yellow()
    }

    pub fn info() -> (c: Rgb)
        ensures
            c == (Rgb { r: 0, g: 255, b: 255 }),
    {
        Self::neon_cyan()
    }
}

/// The foreground colour of a rendered character.
#[derive(Debug, Clone, Copy, PartialEq, Eq, Structural)]
pub enum Color {
    Default,
    Cyan,
    Yellow,
    Green,
}

/// How a rendered character is painted.
#[derive(Debug, Clone, Copy, PartialEq, Eq, Structural)]
pub struct Style {
    pub bold: bool,
    pub dim: bool,
    pub color: Color,
}

pub open spec fn plain_style() -> Style {
    Style { bold: false, dim: false, color: Color::Default }
}

/// Text with no styling.
pub open spec fn plain(s: Seq<char>) -> Seq<(char, Style)> {
    s.map_values(|c: char| (c, plain_style()))
}

/// The characters of styled text.
pub open spec fn text_of(s: Seq<(char, Style)>) -> Seq<char> {
    s.map_values(|p: (char, Style)| p.0)
}

pub open spec fn with_bold(s: Seq<(char, Style)>) -> Seq<(char, Style)> {
    s.map_values(|p: (char, Style)| (p.0, Style { bold: true, ..p.1 }))
}

pub open spec fn with_dim(s: Seq<(char, Style)>) -> Seq<(char, Style)> {
    s.map_values(|p: (char, Style)| (p.0, Style { dim: true, ..p.1 }))
}

pub open spec fn with_color(s: Seq<(char, Style)>, c: Color) -> Seq<(char, Style)> {
    s.map_values(|p: (char, Style)| (p.0, Style { color: c, ..p.1 }))
}

/// The tags that `strip_tags` removes, in the order it removes them.
pub open spec fn html_tags() -> Seq<Seq<char>> {
    seq![
        "<h1>"@, "</h1>"@, "<h2>"@, "</h2>"@, "<h3>"@, "</h3>"@, "<p>"@, "</p>"@,
        "<strong>"@, "</strong>"@, "<em>"@, "</em>"@, "<code>"@, "</code>"@, "<li>"@,
        "</li>"@, "<ul>"@, "</ul>"@, "<ol>"@, "</ol>"@, "<br>"@, "<br/>"@, "<br />"@,
        "<a href=\""@, "\">"@, "</a>"@, "<b>"@, "</b>"@, "<i>"@, "</i>"@, "<strike>"@,
        "</strike>"@, "<pre>"@, "</pre>"@, "<div>"@, "</div>"@, "<span>"@, "</span>"@
    ]
}

/// The text with the first `k` tags of `tags` removed, one tag after another.
pub open spec fn remove_tags_upto(s: Seq<char>, tags: Seq<Seq<char>>, k: int) -> Seq<char>
    decreases k,
{
    if k <= 0 {
        s
    } else {
        replace_all(remove_tags_upto(s, tags, k - 1), tags[k - 1], seq![])
    }
}

pub open spec fn remove_tags(s: Seq<char>) -> Seq<char> {
    remove_tags_upto(s, html_tags(), html_tags().len() as int)
}

/// Whether tag stripping would never finish on `s`: its link rewriting loops
/// for as long as a `[` is left, which it always is once one is there.
pub open spec fn strip_stalls(s: Seq<char>) -> bool {
    contains(remove_tags(s), seq!['['])
}

pub fn html_tags_exec() -> (r: Vec<&'static str>)
    ensures
        r@.map_values(|x: &str| x@) == html_tags(),
{
    let r = vec![
        "<h1>", "</h1>", "<h2>", "</h2>", "<h3>", "</h3>", "<p>", "</p>", "<strong>",
        "</strong>", "<em>", "</em>", "<code>", "</code>", "<li>", "</li>", "<ul>", "</ul>",
        "<ol>", "</ol>", "<br>", "<br/>", "<br />", "<a href=\"", "\">", "</a>", "<b>", "</b>",
        "<i>", "</i>", "<strike>", "</strike>", "<pre>", "</pre>", "<div>", "</div>", "<span>",
        "</span>",
    ];
    assert(r@.map_values(|x: &str| x@) =~= html_tags());
    r
}

/// The text with every tag of the list removed (the first phase of
/// `strip_tags`).
pub fn remove_tags_exec(s: &Vec<char>) -> (r: Vec<char>)
    ensures
        r@ == remove_tags(s@),
{
    let tags = html_tags_exec();
    let ghost ts = tags@.map_values(|x: &str| x@);
    let empty: Vec<char> = Vec::new();
    let mut cur = slice(s, 0, s.len());
    assert(cur@ =~= s@);
    let mut k: usize = 0;
    while k < tags.len()
        invariant
            k <= tags.len(),
            ts == tags@.map_values(|x: &str| x@),
            ts == html_tags(),
            empty@ == Seq::<char>::empty(),
            cur@ == remove_tags_upto(s@, ts, k as int),
        decreases tags.len() - k,
    {
        let t = chars_of(tags[k]);
        assert(t@ == ts[k as int]);
        if t.len() > 0 {
            cur = replace_exec(&cur, &t, &empty);
        }
        k = k + 1;
    }
    cur
}

/// The `**`/`__` pass of inline styling over `s` from `pos`: the text
/// between a marker pair turns bold and the markers go; an unpaired marker
/// ends the pass with the rest of the text, followed once more by everything
/// from `pos` on.
pub open spec fn bold_from(s: Seq<(char, Style)>, m: Seq<char>, pos: int) -> Seq<(char, Style)>
    decreases s.len() - pos,
{
    if pos < 0 || pos > s.len() || m.len() != 2 {
        seq![]
    } else {
        match find_from(text_of(s), m, pos) {
            None => s.subrange(pos, s.len() as int),
            Some(start) => {
                proof {
                    lemma_find_from(text_of(s), m, pos);
                    lemma_find_from(text_of(s), m, start + 2);
                }
                match find_from(text_of(s), m, start + 2) {
                    Some(e) => s.subrange(pos, start) + with_bold(s.subrange(start + 2, e)) + bold_from(
                        s,
                        m,
                        e + 2,
                    ),
                    None => s.subrange(pos, start) + s.subrange(start, s.len() as int) + s.subrange(
                        pos,
                        s.len() as int,
                    ),
                }
            },
        }
    }
}

/// The `*`/`_` pass of inline styling over `s` from `pos`: a marker whose
/// successor is the same marker is kept (the successor is looked up at the
/// marker's byte offset plus one, as a character index); otherwise the text
/// up to the next marker turns dim and both markers go; an unpaired marker
/// ends the pass as in `bold_from`.
pub open spec fn dim_from(s: Seq<(char, Style)>, c: char, pos: int) -> Seq<(char, Style)>
    decreases s.len() - pos,
{
    if pos < 0 || pos > s.len() {
        seq![]
    } else {
        let t = text_of(s);
        match find_from(t, seq![c], pos) {
            None => s.subrange(pos, s.len() as int),
            Some(start) => {
                proof {
                    lemma_find_from(t, seq![c], pos);
                    lemma_find_from(t, seq![c], start + 1);
                }
                let b = utf8_len(t.subrange(pos, start));
                if b + 1 < utf8_len(t.subrange(pos, t.len() as int)) && pos + b + 1 < t.len() && t[pos
                    + b + 1] == c {
                    s.subrange(pos, start + 1) + dim_from(s, c, start + 1)
                } else {
                    match find_from(t, seq![c], start + 1) {
                        Some(e) => s.subrange(pos, start) + with_dim(s.subrange(start + 1, e)) + dim_from(
                            s,
                            c,
                            e + 1,
                        ),
                        None => s.subrange(pos, start) + s.subrange(start, s.len() as int) + s.subrange(
                            pos,
                            s.len() as int,
                        ),
                    }
                }
            },
        }
    }
}

/// Inline Markdown emphasis of a line: `**bold**`, then `__bold__`, then
/// `*dim*`, then `_dim_`.
pub open spec fn inline_styled(t: Seq<char>) -> Seq<(char, Style)> {
    let p1 = bold_from(plain(t), seq!['*', '*'], 0);
    let p2 = bold_from(p1, seq!['_', '_'], 0);
    let p3 = dim_from(p2, '*', 0);
    dim_from(p3, '_', 0)
}

pub fn plain_exec(t: &Vec<char>) -> (r: Vec<(char, Style)>)
    ensures
        r@ == plain(t@),
{
    let mut r: Vec<(char, Style)> = Vec::new();
    let mut i: usize = 0;
    while i < t.len()
        invariant
            i <= t.len(),
            r@ == plain(t@.take(i as int)),
        decreases t.len() - i,
    {
        r.push((t[i], Style { bold: false, dim: false, color: Color::Default }));
        i = i + 1;
        assert(r@ =~= plain(t@.take(i as int)));
    }
    assert(t@.take(t.len() as int) =~= t@);
    r
}

pub fn text_exec(s: &Vec<(char, Style)>) -> (r: Vec<char>)
    ensures
        r@ == text_of(s@),
{
    let mut r: Vec<char> = Vec::new();
    let mut i: usize = 0;
    while i < s.len()
        invariant
            i <= s.len(),
            r@ == text_of(s@.take(i as int)),
        decreases s.len() - i,
    {
        r.push(s[i].0);
        i = i + 1;
        assert(r@ =~= text_of(s@.take(i as int)));
    }
    assert(s@.take(s.len() as int) =~= s@);
    r
}

/// The styled text with `bold`, `dim`, or a colour added to every character.
pub fn restyle(s: &Vec<(char, Style)>, bold: bool, dim: bool, color: Option<Color>) -> (r: Vec<(
    char,
    Style,
)>)
    ensures
        r@.len() == s@.len(),
        forall|i: int|
            0 <= i < s@.len() ==> (#[trigger] r@[i]).0 == s@[i].0 && r@[i].1.bold == (s@[i].1.bold
                || bold) && r@[i].1.dim == (s@[i].1.dim || dim) && r@[i].1.color == match color {
                Some(c) => c,
                None => s@[i].1.color,
            },
{
    let mut r: Vec<(char, Style)> = Vec::new();
    let mut i: usize = 0;
    while i < s.len()
        invariant
            i <= s.len(),
            r@.len() == i,
            forall|k: int|
                0 <= k < i ==> (#[trigger] r@[k]).0 == s@[k].0 && r@[k].1.bold == (s@[k].1.bold
                    || bold) && r@[k].1.dim == (s@[k].1.dim || dim) && r@[k].1.color == match color {
                    Some(c) => c,
                    None => s@[k].1.color,
                },
        decreases s.len() - i,
    {
        let (ch, st) = s[i];
        let col = match color {
            Some(c) => c,
            None => st.color,
        };
        r.push((ch, Style { bold: st.bold || bold, dim: st.dim || dim, color: col }));
        i = i + 1;
    }
    r
}

pub fn bold_exec(s: &Vec<(char, Style)>) -> (r: Vec<(char, Style)>)
    ensures
        r@ == with_bold(s@),
{
    let r = restyle(s, true, false, None);
    assert(r@ =~= with_bold(s@));
    r
}

pub fn dim_exec(s: &Vec<(char, Style)>) -> (r: Vec<(char, Style)>)
    ensures
        r@ == with_dim(s@),
{
    let r = restyle(s, false, true, None);
    assert(r@ =~= with_dim(s@));
    r
}

pub fn color_exec(s: &Vec<(char, Style)>, c: Color) -> (r: Vec<(char, Style)>)
    ensures
        r@ == with_color(s@, c),
{
    let r = restyle(s, false, false, Some(c));
    assert(r@ =~= with_color(s@, c));
    r
}

/// One `**`/`__` pass (see `bold_from`).
pub fn bold_pass(s: &Vec<(char, Style)>, m: &Vec<char>) -> (r: Vec<(char, Style)>)
    requires
        m.len() == 2,
    ensures
        r@ == bold_from(s@, m@, 0),
{
    let t = text_exec(s);
    let mut out: Vec<(char, Style)> = Vec::new();
    let mut pos: usize = 0;
    loop
        invariant
            m.len() == 2,
            t@ == text_of(s@),
            pos <= s.len(),
            bold_from(s@, m@, 0) == out@ + bold_from(s@, m@, pos as int),
        decreases s.len() - pos,
    {
        proof {
            lemma_find_from(t@, m@, pos as int);
        }
        match find_from_exec(&t, m, pos) {
            None => {
                let rest = slice(s, pos, s.len());
                crate::text::push_all(&mut out, &rest);
                return out;
            },
            Some(start) => {
                proof {
                    lemma_find_from(t@, m@, start + 2);
                }
                match find_from_exec(&t, m, start + 2) {
                    Some(e) => {
                        let ghost o0 = out@;
                        let a = slice(s, pos, start);
                        let inner = slice(s, start + 2, e);
                        let b = bold_exec(&inner);
                        crate::text::push_all(&mut out, &a);
                        crate::text::push_all(&mut out, &b);
                        assert(out@ + bold_from(s@, m@, (e + 2) as int) =~= o0 + bold_from(s@, m@, pos as int));
                        pos = e + 2;
                    },
                    None => {
                        let ghost o0 = out@;
                        let a = slice(s, pos, start);
                        let b = slice(s, start, s.len());
                        let c = slice(s, pos, s.len());
                        crate::text::push_all(&mut out, &a);
                        crate::text::push_all(&mut out, &b);
                        crate::text::push_all(&mut out, &c);
                        assert(out@ =~= o0 + bold_from(s@, m@, pos as int));
                        return out;
                    },
                }
            },
        }
    }
}

/// One `*`/`_` pass (see `dim_from`).
pub fn dim_pass(s: &Vec<(char, Style)>, c: char) -> (r: Vec<(char, Style)>)
    ensures
        r@ == dim_from(s@, c, 0),
{
    let t = text_exec(s);
    let m: Vec<char> = vec![c];
    assert(m@ =~= seq![c]);
    let mut out: Vec<(char, Style)> = Vec::new();
    let mut pos: usize = 0;
    loop
        invariant
            t@ == text_of(s@),
            m@ == seq![c],
            pos <= s.len(),
            dim_from(s@, c, 0) == out@ + dim_from(s@, c, pos as int),
        decreases s.len() - pos,
    {
        proof {
            lemma_find_from(t@, m@, pos as int);
        }
        match find_from_exec(&t, &m, pos) {
            None => {
                let rest = slice(s, pos, s.len());
                crate::text::push_all(&mut out, &rest);
                return out;
            },
            Some(start) => {
                proof {
                    lemma_find_from(t@, m@, start + 1);
                }
                let b = utf8_len_exec(&slice(&t, pos, start));
                proof {
                    crate::text::lemma_utf8_len_bound(t@.subrange(pos as int, start as int));
                }
                let total = utf8_len_exec(&slice(&t, pos, t.len()));
                let ghost o0 = out@;
                if b + 1 < total && (pos as u128) + b + 1 < (t.len() as u128) && t[(pos as u128 + b
                    + 1) as usize] == c {
                    let a = slice(s, pos, start + 1);
                    crate::text::push_all(&mut out, &a);
                    assert(out@ + dim_from(s@, c, (start + 1) as int) =~= o0 + dim_from(s@, c, pos as int));
                    pos = start + 1;
                } else {
                    match find_from_exec(&t, &m, start + 1) {
                        Some(e) => {
                            let a = slice(s, pos, start);
                            let inner = slice(s, start + 1, e);
                            let d = dim_exec(&inner);
                            crate::text::push_all(&mut out, &a);
                            crate::text::push_all(&mut out, &d);
                            assert(out@ + dim_from(s@, c, (e + 1) as int) =~= o0 + dim_from(s@, c, pos as int));
                            pos = e + 1;
                        },
                        None => {
                            let a = slice(s, pos, start);
                            let b2 = slice(s, start, s.len());
                            let c2 = slice(s, pos, s.len());
                            crate::text::push_all(&mut out, &a);
                            crate::text::push_all(&mut out, &b2);
                            crate::text::push_all(&mut out, &c2);
                            assert(out@ =~= o0 + dim_from(s@, c, pos as int));
                            return out;
                        },
                    }
                }
            },
        }
    }
}

/// The HTML of a Markdown text, as `pulldown_cmark` renders it with tables,
/// footnotes, strikethrough, and task lists enabled.
pub uninterp spec fn commonmark_html(markdown: Seq<char>) -> Seq<char>;

/// Trusted: `pulldown_cmark::Parser::new_ext` with the four extensions, fed
/// to `pulldown_cmark::html::push_html` into an empty `String`. The result
/// depends on the Markdown text alone; what it is is not stated here.
#[verifier::external_body]
fn markdown_to_html(markdown: &str) -> (r: String)
    ensures
        r@ == commonmark_html(markdown@),
{
    let mut options = pulldown_cmark::Options::empty();
    options.insert(pulldown_cmark::Options::ENABLE_TABLES);
    options.insert(pulldown_cmark::Options::ENABLE_FOOTNOTES);
    options.insert(pulldown_cmark::Options::ENABLE_STRIKETHROUGH);
    options.insert(pulldown_cmark::Options::ENABLE_TASKLISTS);
    let parser = pulldown_cmark::Parser::new_ext(markdown, options);
    let mut html_output = String::new();
    pulldown_cmark::html::push_html(&mut html_output, parser);
    html_output
}

/// The state of the line-by-line reading of HTML: the output so far, whether
/// a paragraph or a heading is open, the heading level and its pending text,
/// and whether tag stripping has stalled.
pub type HtmlView = (Seq<(char, Style)>, bool, bool, nat, Seq<char>, bool);

pub open spec fn html_start() -> HtmlView {
    (seq![], false, false, 0, seq![], false)
}

/// The block a closed heading of `level` with `text` adds.
pub open spec fn heading_block(level: nat, text: Seq<char>) -> Seq<(char, Style)> {
    plain("\n"@ + repeat("#"@, level) + " "@) + with_bold(with_color(plain(text), Color::Cyan)) + plain(
        "\n"@ + repeat("-"@, utf8_len(text)) + "\n\n"@,
    )
}

/// One line of HTML (trimmed) applied to the state.
pub open spec fn html_step(st: HtmlView, raw: Seq<char>) -> HtmlView {
    let (out, inp, inh, lvl, pend, stalled) = st;
    let l = trim(raw);
    let nl = plain("\n"@);
    if stalled {
        st
    } else if starts_with(l, "<h1>"@) {
        (out, inp, true, 1, seq![], false)
    } else if starts_with(l, "<h2>"@) {
        (out, inp, true, 2, seq![], false)
    } else if starts_with(l, "<h3>"@) {
        (out, inp, true, 3, seq![], false)
    } else if inh {
        if contains(l, "</h1>"@) || contains(l, "</h2>"@) || contains(l, "</h3>"@) {
            if strip_stalls(pend) {
                (out, inp, inh, lvl, pend, true)
            } else {
                (out + heading_block(lvl, remove_tags(pend)), inp, false, lvl, seq![], false)
            }
        } else {
            (out, inp, inh, lvl, pend + l, false)
        }
    } else if starts_with(l, "<p>"@) && contains(l, "</p>"@) {
        if strip_stalls(l) {
            (out, inp, inh, lvl, pend, true)
        } else {
            (out + inline_styled(remove_tags(l)) + nl, inp, inh, lvl, pend, false)
        }
    } else if starts_with(l, "<p>"@) {
        let text = l.skip(3);
        if text.len() > 0 && !starts_with(text, "<"@) {
            (out + inline_styled(text), true, inh, lvl, pend, false)
        } else {
            (out, true, inh, lvl, pend, false)
        }
    } else if starts_with(l, "</p>"@) {
        let text = l.skip(4);
        if text.len() > 0 {
            (out + nl + inline_styled(text), false, inh, lvl, pend, false)
        } else {
            (out + nl, false, inh, lvl, pend, false)
        }
    } else if starts_with(l, "<li>"@) {
        if strip_stalls(l) {
            (out, inp, inh, lvl, pend, true)
        } else {
            (out + plain("  ▸ "@) + with_color(inline_styled(remove_tags(l)), Color::Yellow) + nl, inp, inh, lvl, pend, false)
        }
    } else if starts_with(l, "</li>"@) {
        st
    } else if starts_with(l, "<code>"@) {
        if strip_stalls(l) {
            (out, inp, inh, lvl, pend, true)
        } else {
            (out + plain("    "@) + with_color(plain(remove_tags(l)), Color::Green) + nl, inp, inh, lvl, pend, false)
        }
    } else if starts_with(l, "</code>"@) || starts_with(l, "<pre>"@) || starts_with(l, "</pre>"@) {
        st
    } else if contains(l, "<strong>"@) || contains(l, "<b>"@) {
        if strip_stalls(l) {
            (out, inp, inh, lvl, pend, true)
        } else {
            (out + with_bold(plain(remove_tags(l))) + nl, inp, inh, lvl, pend, false)
        }
    } else if contains(l, "<em>"@) || contains(l, "<i>"@) {
        if strip_stalls(l) {
            (out, inp, inh, lvl, pend, true)
        } else {
            (out + with_dim(plain(remove_tags(l))) + nl, inp, inh, lvl, pend, false)
        }
    } else if starts_with(l, "<blockquote>"@) {
        if strip_stalls(l) {
            (out, inp, inh, lvl, pend, true)
        } else {
            (out + plain("  │ "@) + with_color(plain(remove_tags(l)), Color::Cyan) + nl, inp, inh, lvl, pend, false)
        }
    } else if starts_with(l, "</blockquote>"@) {
        st
    } else if contains(l, "<hr"@) {
        (out + with_dim(plain(repeat("-"@, 50))) + nl, inp, inh, lvl, pend, false)
    } else if inp && l.len() > 0 && !starts_with(l, "<"@) && !starts_with(l, ">"@) {
        (out + inline_styled(l) + nl, inp, inh, lvl, pend, false)
    } else {
        st
    }
}

pub open spec fn html_run(st: HtmlView, ls: Seq<Seq<char>>) -> HtmlView
    decreases ls.len(),
{
    if ls.len() == 0 {
        st
    } else {
        html_step(html_run(st, ls.drop_last()), ls.last())
    }
}

/// The reading of a whole HTML text.
pub open spec fn html_result(html: Seq<char>) -> HtmlView {
    html_run(html_start(), lines(html))
}

/// The exec state of the HTML reading.
pub struct HtmlState {
    pub out: Vec<(char, Style)>,
    pub in_paragraph: bool,
    pub in_heading: bool,
    pub heading_level: usize,
    pub pending: Vec<char>,
    pub stalled: bool,
}

impl HtmlState {
    pub open spec fn view(&self) -> HtmlView {
        (self.out@, self.in_paragraph, self.in_heading, self.heading_level as nat, self.pending@, self.stalled)
    }
}

pub fn plain_str(t: &str) -> (r: Vec<(char, Style)>)
    ensures
        r@ == plain(t@),
{
    plain_exec(&chars_of(t))
}

/// `remove_tags` of `l` when that does not stall.
fn stripped(l: &Vec<char>) -> (r: Option<Vec<char>>)
    ensures
        r is None <==> strip_stalls(l@),
        r matches Some(v) ==> v@ == remove_tags(l@),
{
    let t = remove_tags_exec(l);
    let b: Vec<char> = vec!['['];
    assert(b@ =~= seq!['[']);
    if contains_exec(&t, &b) {
        None
    } else {
        Some(t)
    }
}

impl HtmlState {
    /// Applies one line of HTML (see `html_step`).
    pub fn step(&mut self, raw: &Vec<char>)
        requires
            old(self).heading_level <= 3,
        ensures
            final(self).view() == html_step(old(self).view(), raw@),
            final(self).heading_level <= 3,
    {
        let ghost st = self.view();
        let l = trim_exec(raw);
        let nl = plain_str("\n");
        if self.stalled {
            return;
        }
        if starts_with_exec(&l, &chars_of("<h1>")) {
            self.in_heading = true;
            self.heading_level = 1;
            self.pending = Vec::new();
            return;
        }
        if starts_with_exec(&l, &chars_of("<h2>")) {
            self.in_heading = true;
            self.heading_level = 2;
            self.pending = Vec::new();
            return;
        }
        if starts_with_exec(&l, &chars_of("<h3>")) {
            self.in_heading = true;
            self.heading_level = 3;
            self.pending = Vec::new();
            return;
        }
        if self.in_heading {
            if contains_exec(&l, &chars_of("</h1>")) || contains_exec(&l, &chars_of("</h2>"))
                || contains_exec(&l, &chars_of("</h3>")) {
                match stripped(&self.pending) {
                    None => {
                        self.stalled = true;
                    },
                    Some(text) => {
                        let mut head = plain_str("\n");
                        let hashes = repeat_exec(&chars_of("#"), self.heading_level);
                        crate::text::push_all(&mut head, &plain_exec(&hashes));
                        crate::text::push_all(&mut head, &plain_str(" "));
                        assert(head@ =~= plain("\n"@ + repeat("#"@, self.heading_level as nat) + " "@));
                        let body = bold_exec(&color_exec(&plain_exec(&text), Color::Cyan));
                        let dashes = crate::text::repeat_per_byte('-', &text);
                        assert(seq!['-'] =~= "-"@) by {
                            reveal_strlit("-");
                        }
                        let mut tail = plain_str("\n");
                        crate::text::push_all(&mut tail, &plain_exec(&dashes));
                        crate::text::push_all(&mut tail, &plain_str("\n\n"));
                        assert(tail@ =~= plain("\n"@ + repeat("-"@, utf8_len(text@)) + "\n\n"@));
                        crate::text::push_all(&mut self.out, &head);
                        crate::text::push_all(&mut self.out, &body);
                        crate::text::push_all(&mut self.out, &tail);
                        self.in_heading = false;
                        self.pending = Vec::new();
                        assert(self.view() =~= html_step(st, raw@));
                    },
                }
            } else {
                crate::text::push_all(&mut self.pending, &l);
            }
            return;
        }
        if starts_with_exec(&l, &chars_of("<p>")) && contains_exec(&l, &chars_of("</p>")) {
            match stripped(&l) {
                None => {
                    self.stalled = true;
                },
                Some(text) => {
                    let st2 = MarkdownRenderer::style_inline(&crate::text::string_of(&text).as_str());
                    crate::text::push_all(&mut self.out, &st2);
                    crate::text::push_all(&mut self.out, &nl);
                },
            }
            return;
        }
        if starts_with_exec(&l, &chars_of("<p>")) {
            self.in_paragraph = true;
            proof {
                reveal_strlit("<p>");
            }
            let text = slice(&l, 3, l.len());
            if text.len() > 0 && !starts_with_exec(&text, &chars_of("<")) {
                let st2 = MarkdownRenderer::style_inline(&crate::text::string_of(&text).as_str());
                crate::text::push_all(&mut self.out, &st2);
            }
            return;
        }
        if starts_with_exec(&l, &chars_of("</p>")) {
            self.in_paragraph = false;
            proof {
                reveal_strlit("</p>");
            }
            let text = slice(&l, 4, l.len());
            crate::text::push_all(&mut self.out, &nl);
            if text.len() > 0 {
                let st2 = MarkdownRenderer::style_inline(&crate::text::string_of(&text).as_str());
                crate::text::push_all(&mut self.out, &st2);
            }
            return;
        }
        if starts_with_exec(&l, &chars_of("<li>")) {
            match stripped(&l) {
                None => {
                    self.stalled = true;
                },
                Some(text) => {
                    let st2 = MarkdownRenderer::style_inline(&crate::text::string_of(&text).as_str());
                    crate::text::push_all(&mut self.out, &plain_str("  ▸ "));
                    crate::text::push_all(&mut self.out, &color_exec(&st2, Color::Yellow));
                    crate::text::push_all(&mut self.out, &nl);
                },
            }
            return;
        }
        if starts_with_exec(&l, &chars_of("</li>")) {
            return;
        }
        if starts_with_exec(&l, &chars_of("<code>")) {
            match stripped(&l) {
                None => {
                    self.stalled = true;
                },
                Some(text) => {
                    crate::text::push_all(&mut self.out, &plain_str("    "));
                    crate::text::push_all(&mut self.out, &color_exec(&plain_exec(&text), Color::Green));
                    crate::text::push_all(&mut self.out, &nl);
                },
            }
            return;
        }
        if starts_with_exec(&l, &chars_of("</code>")) || starts_with_exec(&l, &chars_of("<pre>"))
            || starts_with_exec(&l, &chars_of("</pre>")) {
            return;
        }
        if contains_exec(&l, &chars_of("<strong>")) || contains_exec(&l, &chars_of("<b>")) {
            match stripped(&l) {
                None => {
                    self.stalled = true;
                },
                Some(text) => {
                    crate::text::push_all(&mut self.out, &bold_exec(&plain_exec(&text)));
                    crate::text::push_all(&mut self.out, &nl);
                },
            }
            return;
        }
        if contains_exec(&l, &chars_of("<em>")) || contains_exec(&l, &chars_of("<i>")) {
            match stripped(&l) {
                None => {
                    self.stalled = true;
                },
                Some(text) => {
                    crate::text::push_all(&mut self.out, &dim_exec(&plain_exec(&text)));
                    crate::text::push_all(&mut self.out, &nl);
                },
            }
            return;
        }
        if starts_with_exec(&l, &chars_of("<blockquote>")) {
            match stripped(&l) {
                None => {
                    self.stalled = true;
                },
                Some(text) => {
                    crate::text::push_all(&mut self.out, &plain_str("  │ "));
                    crate::text::push_all(&mut self.out, &color_exec(&plain_exec(&text), Color::Cyan));
                    crate::text::push_all(&mut self.out, &nl);
                },
            }
            return;
        }
        if starts_with_exec(&l, &chars_of("</blockquote>")) {
            return;
        }
        if contains_exec(&l, &chars_of("<hr")) {
            let dashes = repeat_exec(&chars_of("-"), 50);
            crate::text::push_all(&mut self.out, &dim_exec(&plain_exec(&dashes)));
            crate::text::push_all(&mut self.out, &nl);
            return;
        }
        if self.in_paragraph && l.len() > 0 && !starts_with_exec(&l, &chars_of("<"))
            && !starts_with_exec(&l, &chars_of(">")) {
            let st2 = MarkdownRenderer::style_inline(&crate::text::string_of(&l).as_str());
            crate::text::push_all(&mut self.out, &st2);
            crate::text::push_all(&mut self.out, &nl);
        }
    }
}

pub struct MarkdownRenderer;

impl MarkdownRenderer {
    /// Renders Markdown for the terminal: the HTML that `pulldown_cmark` makes
    /// of it, read by `html_to_styled`. `None` where that reading never ends.
    pub fn render(markdown: &str) -> (r: Option<Vec<(char, Style)>>)
        ensures
            r is None <==> html_result(commonmark_html(markdown@)).5,
            r matches Some(v) ==> v@ == html_result(commonmark_html(markdown@)).0,
    {
        let html = markdown_to_html(markdown);
        Self::html_to_styled(html.as_str())
    }

    /// Reads HTML line by line into styled text (see `html_step`): headings
    /// become `#` titles with a dashed underline, paragraphs and list items
    /// get inline emphasis, code turns green, and so on. `None` where a line
    /// that goes through tag stripping holds a `[`: there the stripping loops
    /// forever.
    pub fn html_to_styled(html: &str) -> (r: Option<Vec<(char, Style)>>)
        ensures
            r is None <==> html_result(html@).5,
            r matches Some(v) ==> v@ == html_result(html@).0,
    {
        let ls = lines_exec(&chars_of(html));
        let mut st = HtmlState {
            out: Vec::new(),
            in_paragraph: false,
            in_heading: false,
            heading_level: 0,
            pending: Vec::new(),
            stalled: false,
        };
        assert(st.view() =~= html_start());
        let mut i: usize = 0;
        while i < ls.len()
            invariant
                i <= ls.len(),
                views(ls@) == lines(html@),
                st.heading_level <= 3,
                st.view() == html_run(html_start(), views(ls@).take(i as int)),
            decreases ls.len() - i,
        {
            st.step(&ls[i]);
            assert(views(ls@).take(i + 1).drop_last() =~= views(ls@).take(i as int));
            i = i + 1;
        }
        assert(views(ls@).take(ls.len() as int) =~= views(ls@));
        if st.stalled {
            None
        } else {
            Some(st.out)
        }
    }

    /// The text with the listed HTML tags removed, one tag after another.
    /// Only for text in which no `[` remains once the tags are gone: on such
    /// a `[` the link rewriting that follows never finishes.
    pub fn strip_tags(html: &str) -> (r: String)
        requires
            !strip_stalls(html@),
        ensures
            r@ == remove_tags(html@),
    {
        let t = remove_tags_exec(&chars_of(html));
        crate::text::string_of(&t)
    }

    /// Inline Markdown emphasis of a line of text (see `inline_styled`).
    pub fn style_inline(text: &str) -> (r: Vec<(char, Style)>)
        ensures
            r@ == inline_styled(text@),
    {
        let p0 = plain_exec(&chars_of(text));
        let bb: Vec<char> = vec!['*', '*'];
        let uu: Vec<char> = vec!['_', '_'];
        assert(bb@ =~= seq!['*', '*']);
        assert(uu@ =~= seq!['_', '_']);
        let p1 = bold_pass(&p0, &bb);
        let p2 = bold_pass(&p1, &uu);
        let p3 = dim_pass(&p2, '*');
        dim_pass(&p3, '_')
    }
}

/// Whether stripping the tags of `s` finishes (executable `!strip_stalls`).
pub fn strip_finishes(s: &Vec<char>) -> (r: bool)
    ensures
        r == !strip_stalls(s@),
{
    let t = remove_tags_exec(s);
    let b: Vec<char> = vec!['['];
    assert(b@ =~= seq!['[']);
    !contains_exec(&t, &b)
}

proof fn lemma_no_marker(t: Seq<char>, m: Seq<char>)
    requires
        m.len() > 0,
        forall|i: int| 0 <= i < t.len() ==> t[i] != m[0],
    ensures
        find_from(t, m, 0) is None,
{
    lemma_find_from(t, m, 0);
    if let Some(k) = find_from(t, m, 0) {
        assert(t.subrange(k, k + m.len())[0] == t[k]);
    }
}

/// Text without `*` and `_` passes inline styling unchanged and unstyled.
pub proof fn lemma_plain_text_unstyled(t: Seq<char>)
    requires
        forall|i: int| 0 <= i < t.len() ==> t[i] != '*' && t[i] != '_',
    ensures
        inline_styled(t) == plain(t),
{
    let p = plain(t);
    assert(text_of(p) =~= t);
    lemma_no_marker(t, seq!['*', '*']);
    lemma_no_marker(t, seq!['_', '_']);
    lemma_no_marker(t, seq!['*']);
    lemma_no_marker(t, seq!['_']);
    assert(p.subrange(0, p.len() as int) =~= p);
    assert(bold_from(p, seq!['*', '*'], 0) == p);
    assert(bold_from(p, seq!['_', '_'], 0) == p);
    assert(dim_from(p, '*', 0) == p);
    assert(dim_from(p, '_', 0) == p);
}

} // verus!
