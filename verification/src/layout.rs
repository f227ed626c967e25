//! How text is fitted to the terminal: panel widths, clamped previews,
//! word wrapping, and the preview of a proposed commit message.
use vstd::prelude::*;
use crate::text::{
    chars_of, string_of, push_str, push_all, decimal, decimal_exec, lines, lines_exec, views, words,
    words_exec, utf8_len, utf8_len_exec, lemma_utf8_len_concat, lemma_utf8_len_bound, lemma_views_push,
    slice,
};
use crate::testgen::string_views;

verus! {

/// The width of a chat panel: the terminal's width, at least 60 (80 when it
/// cannot be read), and at most 92.
pub open spec fn panel_width_of(terminal: Option<u16>) -> nat {
    let w: nat = match terminal {
        Some(c) => if c < 60 {
            60
        } else {
            c as nat
        },
        None => 80,
    };
    if w > 92 {
        92
    } else {
        w
    }
}

pub fn panel_width(terminal: Option<u16>) -> (r: usize)
    ensures
        r == panel_width_of(terminal),
{
    let w: usize = match terminal {
        Some(c) => if c < 60 {
            60
        } else {
            c as usize
        },
        None => 80,
    };
    if w > 92 {
        92
    } else {
        w
    }
}

/// A text cut to `max` characters, with its length noted when it was cut.
pub open spec fn clamped(t: Seq<char>, max: nat) -> Seq<char> {
    if t.len() <= max {
        t
    } else {
        t.take(max as int) + "... ("@ + decimal(t.len()) + " chars)"@
    }
}

pub fn clamp_text(text: &str, max_chars: usize) -> (r: String)
    ensures
        r@ == clamped(text@, max_chars as nat),
{
    let cs = chars_of(text);
    if cs.len() <= max_chars {
        return string_of(&cs);
    }
    let mut t = slice(&cs, 0, max_chars);
    push_str(&mut t, "... (");
    let n = decimal_exec(cs.len() as u64);
    push_all(&mut t, &n);
    push_str(&mut t, " chars)");
    string_of(&t)
}

/// Greedy wrapping of a line's words: a word joins the current line (after
/// a space) unless that makes it wider than `width` bytes; a line is never
/// left empty, so a word wider than `width` stands alone. Gives the lines
/// completed so far and the one being filled.
pub open spec fn wrap_words(ws: Seq<Seq<char>>, width: nat) -> (Seq<Seq<char>>, Seq<char>)
    decreases ws.len(),
{
    if ws.len() == 0 {
        (seq![], seq![])
    } else {
        let (out, cur) = wrap_words(ws.drop_last(), width);
        let w = ws.last();
        let next = if cur.len() == 0 {
            utf8_len(w)
        } else {
            utf8_len(cur) + 1 + utf8_len(w)
        };
        if next > width && cur.len() > 0 {
            (out.push(cur), w)
        } else if cur.len() == 0 {
            (out, w)
        } else {
            (out, cur + seq![' '] + w)
        }
    }
}

/// The wrapped lines of one input line: an empty line stays one empty line.
pub open spec fn wrap_line(l: Seq<char>, width: nat) -> Seq<Seq<char>> {
    if l.len() == 0 {
        seq![seq![]]
    } else {
        let (out, cur) = wrap_words(words(l), width);
        if cur.len() > 0 {
            out.push(cur)
        } else {
            out
        }
    }
}

pub open spec fn wrap_all(ls: Seq<Seq<char>>, width: nat) -> Seq<Seq<char>>
    decreases ls.len(),
{
    if ls.len() == 0 {
        seq![]
    } else {
        wrap_all(ls.drop_last(), width) + wrap_line(ls.last(), width)
    }
}

/// A text wrapped to `width` bytes (at least 20), line by line; never no
/// line at all.
pub open spec fn wrapped(t: Seq<char>, width: nat) -> Seq<Seq<char>> {
    let inner: nat = if width < 20 {
        20
    } else {
        width
    };
    let r = wrap_all(lines(t), inner);
    if r.len() == 0 {
        seq![seq![]]
    } else {
        r
    }
}

fn wrap_line_exec(l: &Vec<char>, width: usize) -> (r: Vec<Vec<char>>)
    ensures
        views(r@) == wrap_line(l@, width as nat),
{
    if l.len() == 0 {
        let mut r: Vec<Vec<char>> = Vec::new();
        r.push(Vec::new());
        assert(views(r@) =~= seq![seq![]]);
        return r;
    }
    let ws = words_exec(l);
    let ghost wv = views(ws@);
    let mut out: Vec<Vec<char>> = Vec::new();
    let mut cur: Vec<char> = Vec::new();
    let mut i: usize = 0;
    assert(wv.take(0) =~= seq![]);
    while i < ws.len()
        invariant
            i <= ws.len(),
            wv == views(ws@),
            (views(out@), cur@) == wrap_words(wv.take(i as int), width as nat),
        decreases ws.len() - i,
    {
        assert(wv.take(i + 1).drop_last() =~= wv.take(i as int));
        assert(wv.take(i + 1).last() == ws@[i as int]@);
        let w = &ws[i];
        proof {
            lemma_utf8_len_bound(cur@);
            lemma_utf8_len_bound(w@);
        }
        let wl = utf8_len_exec(w);
        let cl = utf8_len_exec(&cur);
        let cn: usize = cur.len();
        let wn: usize = w.len();
        assert(cl <= 4 * cn && wl <= 4 * wn);
        let next: u128 = if cur.len() == 0 {
            wl
        } else {
            cl + 1 + wl
        };
        if next > width as u128 && cur.len() > 0 {
            let ghost o0 = out@;
            let done = cur;
            proof {
                lemma_views_push(o0, done);
            }
            out.push(done);
            cur = slice(w, 0, w.len());
            assert(cur@ =~= w@);
        } else if cur.len() == 0 {
            cur = slice(w, 0, w.len());
            assert(cur@ =~= w@);
        } else {
            cur.push(' ');
            push_all(&mut cur, w);
        }
        i = i + 1;
    }
    assert(wv.take(ws.len() as int) =~= wv);
    if cur.len() > 0 {
        let ghost o0 = out@;
        proof {
            lemma_views_push(o0, cur);
        }
        out.push(cur);
    }
    out
}

/// Wraps a text to a width, as [`wrapped`] says.
pub fn wrap_lines(text: &str, width: usize) -> (r: Vec<String>)
    ensures
        string_views(r@) == wrapped(text@, width as nat),
{
    let inner: usize = if width < 20 {
        20
    } else {
        width
    };
    let ls = lines_exec(&chars_of(text));
    let ghost lv = views(ls@);
    let mut out: Vec<String> = Vec::new();
    let mut i: usize = 0;
    while i < ls.len()
        invariant
            i <= ls.len(),
            lv == views(ls@),
            string_views(out@) == wrap_all(lv.take(i as int), inner as nat),
        decreases ls.len() - i,
    {
        assert(lv.take(i + 1).drop_last() =~= lv.take(i as int));
        assert(lv.take(i + 1).last() == ls@[i as int]@);
        let piece = wrap_line_exec(&ls[i], inner);
        let ghost before = string_views(out@);
        let mut k: usize = 0;
        while k < piece.len()
            invariant
                k <= piece.len(),
                string_views(out@) == before + views(piece@).take(k as int),
            decreases piece.len() - k,
        {
            let ghost b2 = string_views(out@);
            out.push(string_of(&piece[k]));
            assert(string_views(out@) =~= b2.push(piece@[k as int]@));
            assert(views(piece@).take(k + 1) =~= views(piece@).take(k as int).push(piece@[k as int]@));
            k = k + 1;
        }
        assert(views(piece@).take(piece.len() as int) =~= views(piece@));
        i = i + 1;
    }
    assert(lv.take(ls.len() as int) =~= lv);
    if out.len() == 0 {
        out.push(String::new());
        assert(string_views(out@) =~= seq![seq![]]);
    }
    out
}

/// A wrapped line is never wider than the width unless it is a single word
/// of the text that is wider by itself.
pub proof fn lemma_wrap_words_fit(ws: Seq<Seq<char>>, width: nat)
    ensures
        forall|k: int| 0 <= k < wrap_words(ws, width).0.len() ==> utf8_len(
            #[trigger] wrap_words(ws, width).0[k],
        ) <= width || ws.contains(wrap_words(ws, width).0[k]),
        utf8_len(wrap_words(ws, width).1) <= width || ws.contains(wrap_words(ws, width).1),
    decreases ws.len(),
{
    if ws.len() > 0 {
        let prev = ws.drop_last();
        lemma_wrap_words_fit(prev, width);
        let (out, cur) = wrap_words(prev, width);
        let w = ws.last();
        assert(ws[ws.len() - 1] == w);
        assert forall|x: Seq<char>| prev.contains(x) implies ws.contains(x) by {
            let j = choose|j: int| 0 <= j < prev.len() && prev[j] == x;
            assert(ws[j] == x);
        }
        if cur.len() > 0 {
            lemma_utf8_len_concat(cur, seq![' ']);
            lemma_utf8_len_concat(cur + seq![' '], w);
            assert(utf8_len(seq![' ']) == 1) by {
                reveal_with_fuel(utf8_len, 2);
            }
        }
        let (o2, c2) = wrap_words(ws, width);
        assert forall|k: int| 0 <= k < o2.len() implies utf8_len(#[trigger] o2[k]) <= width || ws.contains(o2[k]) by {
            if k < out.len() {
                assert(o2[k] == out[k]);
            }
        }
    }
}

/// The first lines of a proposed commit message shown for review, and how
/// many more lines it has.
pub open spec fn review_preview_of(msg: Seq<char>) -> (Seq<Seq<char>>, nat) {
    let ls = lines(msg);
    if ls.len() > 10 {
        (ls.take(10), (ls.len() - 10) as nat)
    } else {
        (ls, 0)
    }
}

pub fn review_preview(msg: &str) -> (r: (Vec<String>, usize))
    ensures
        (string_views(r.0@), r.1 as nat) == review_preview_of(msg@),
{
    let ls = lines_exec(&chars_of(msg));
    let n = if ls.len() > 10 {
        10
    } else {
        ls.len()
    };
    let mut out: Vec<String> = Vec::new();
    let mut i: usize = 0;
    while i < n
        invariant
            i <= n <= ls.len(),
            string_views(out@) == views(ls@).take(i as int),
        decreases n - i,
    {
        let ghost before = string_views(out@);
        out.push(string_of(&ls[i]));
        assert(string_views(out@) =~= before.push(ls@[i as int]@));
        assert(views(ls@).take(i + 1) =~= views(ls@).take(i as int).push(ls@[i as int]@));
        i = i + 1;
    }
    assert(views(ls@).take(ls.len() as int) =~= views(ls@));
    (out, ls.len() - n)
}

/// Whether `x` is one of the words of one of the lines `ls`.
pub open spec fn is_word_of(x: Seq<char>, ls: Seq<Seq<char>>) -> bool {
    exists|i: int| 0 <= i < ls.len() && words(#[trigger] ls[i]).contains(x)
}

proof fn lemma_wrap_line_fit(l: Seq<char>, width: nat)
    ensures
        forall|k: int| 0 <= k < wrap_line(l, width).len() ==> utf8_len(#[trigger] wrap_line(l, width)[k]) <= width
            || words(l).contains(wrap_line(l, width)[k]),
{
    if l.len() == 0 {
        assert(utf8_len(seq![]) == 0);
    } else {
        lemma_wrap_words_fit(words(l), width);
        let (out, cur) = wrap_words(words(l), width);
        let r = wrap_line(l, width);
        assert forall|k: int| 0 <= k < r.len() implies utf8_len(#[trigger] r[k]) <= width || words(l).contains(r[k]) by {
            if k < out.len() {
                assert(r[k] == out[k]);
            } else {
                assert(r[k] == cur);
            }
        }
    }
}

proof fn lemma_wrap_all_fit(ls: Seq<Seq<char>>, width: nat)
    ensures
        forall|k: int| 0 <= k < wrap_all(ls, width).len() ==> utf8_len(#[trigger] wrap_all(ls, width)[k]) <= width
            || is_word_of(wrap_all(ls, width)[k], ls),
    decreases ls.len(),
{
    if ls.len() > 0 {
        let init = ls.drop_last();
        lemma_wrap_all_fit(init, width);
        lemma_wrap_line_fit(ls.last(), width);
        let a = wrap_all(init, width);
        let b = wrap_line(ls.last(), width);
        let r = wrap_all(ls, width);
        assert forall|k: int| 0 <= k < r.len() implies utf8_len(#[trigger] r[k]) <= width || is_word_of(r[k], ls) by {
            if k < a.len() {
                assert(r[k] == a[k]);
                if !(utf8_len(a[k]) <= width) {
                    let i = choose|i: int| 0 <= i < init.len() && words(#[trigger] init[i]).contains(a[k]);
                    assert(ls[i] == init[i]);
                }
            } else {
                assert(r[k] == b[k - a.len()]);
                if !(utf8_len(b[k - a.len()]) <= width) {
                    assert(ls[ls.len() - 1] == ls.last());
                }
            }
        }
    }
}

/// No wrapped line is wider than the width (at least 20 bytes) unless it is
/// a single word of the text that is wider by itself.
pub proof fn lemma_wrapped_fits(t: Seq<char>, width: nat)
    ensures
        forall|k: int| 0 <= k < wrapped(t, width).len() ==> utf8_len(#[trigger] wrapped(t, width)[k]) <= (if width
            < 20 {
            20
        } else {
            width
        }) || is_word_of(wrapped(t, width)[k], lines(t)),
{
    let inner: nat = if width < 20 {
        20
    } else {
        width
    };
    lemma_wrap_all_fit(lines(t), inner);
    if wrap_all(lines(t), inner).len() == 0 {
        assert(utf8_len(seq![]) == 0);
    }
}

} // verus!
