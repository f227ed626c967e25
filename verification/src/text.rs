//! Character-sequence primitives shared by the whole library.
//!
//! Strings are modelled by their character sequences (`s@`). The functions
//! here mirror the `str` operations the application logic relies on
//! (`lines`, `trim`, `find`, `contains`, `starts_with`, `split`, byte length)
//! and are proved against direct specifications over `Seq<char>`.
use vstd::prelude::*;

verus! {

/// The characters of a string slice, in order.
pub fn chars_of(s: &str) -> (r: Vec<char>)
    ensures
        r@ == s@,
{
    broadcast use vstd::string::axiom_spec_iter;
    let mut v: Vec<char> = Vec::new();
    for c in it: s.chars()
        invariant
            v@ == it.seq().take(it.index() as int),
            it.seq() == s@,
    {
        v.push(c);
    }
    v
}

/// A string made of the given characters, in order.
///
/// Trusted: collects the characters into a `String` (`FromIterator<&char>`),
/// which the documentation describes as concatenating them.
#[verifier::external_body]
pub fn string_of(v: &Vec<char>) -> (r: String)
    ensures
        r@ == v@,
{
    v.iter().collect()
}

/// Unicode `White_Space`, the set that `char::is_whitespace` tests.
pub open spec fn is_ws(c: char) -> bool {
    ||| c == '\t' || c == '\n' || c == '\u{0B}' || c == '\u{0C}' || c == '\r' || c == ' '
    ||| c == '\u{85}' || c == '\u{A0}' || c == '\u{1680}'
    ||| ('\u{2000}' <= c && c <= '\u{200A}')
    ||| c == '\u{2028}' || c == '\u{2029}' || c == '\u{202F}' || c == '\u{205F}' || c == '\u{3000}'
}

pub fn is_ws_exec(c: char) -> (r: bool)
    ensures
        r == is_ws(c),
{
    c == '\t' || c == '\n' || c == '\u{0B}' || c == '\u{0C}' || c == '\r' || c == ' ' || c
        == '\u{85}' || c == '\u{A0}' || c == '\u{1680}' || ('\u{2000}' <= c && c <= '\u{200A}')
        || c == '\u{2028}' || c == '\u{2029}' || c == '\u{202F}' || c == '\u{205F}' || c
        == '\u{3000}'
}

/// `str::trim_start`: drops leading whitespace.
pub open spec fn trim_start(s: Seq<char>) -> Seq<char>
    decreases s.len(),
{
    if s.len() > 0 && is_ws(s[0]) {
        trim_start(s.drop_first())
    } else {
        s
    }
}

/// `str::trim_end`: drops trailing whitespace.
pub open spec fn trim_end(s: Seq<char>) -> Seq<char>
    decreases s.len(),
{
    if s.len() > 0 && is_ws(s.last()) {
        trim_end(s.drop_last())
    } else {
        s
    }
}

/// `str::trim`.
pub open spec fn trim(s: Seq<char>) -> Seq<char> {
    trim_end(trim_start(s))
}

/// ASCII letters and the Kelvin sign folded to lower case.
///
/// For comparisons and searches against ASCII lower-case targets this agrees
/// with `str::to_lowercase`: the only other characters whose lower case holds
/// an ASCII letter are the Kelvin sign (to `k`) and `İ` (to `i` followed by a
/// combining dot, which can never complete an ASCII target).
pub open spec fn lower_char(c: char) -> char {
    if 'A' <= c && c <= 'Z' {
        ((c as u32) + 32) as char
    } else if c == '\u{212A}' {
        'k'
    } else {
        c
    }
}

pub open spec fn lower(s: Seq<char>) -> Seq<char> {
    s.map_values(|c: char| lower_char(c))
}

pub fn lower_char_exec(c: char) -> (r: char)
    ensures
        r == lower_char(c),
{
    if 'A' <= c && c <= 'Z' {
        let u: u32 = (c as u32) + 32;
        assert(0x61 <= u <= 0x7a);
        char_from_ascii(u)
    } else if c == '\u{212A}' {
        'k'
    } else {
        c
    }
}

/// The character with an ASCII code point.
pub fn char_from_ascii(u: u32) -> (r: char)
    requires
        u < 0x80,
    ensures
        r == u as char,
        r as u32 == u,
{
    let b: u8 = u as u8;
    b as char
}

pub fn lower_vec(s: &Vec<char>) -> (r: Vec<char>)
    ensures
        r@ == lower(s@),
{
    let mut r: Vec<char> = Vec::new();
    let mut i: usize = 0;
    while i < s.len()
        invariant
            i <= s.len(),
            r@ == lower(s@.take(i as int)),
        decreases s.len() - i,
    {
        let c = lower_char_exec(s[i]);
        r.push(c);
        i = i + 1;
        assert(lower(s@.take(i as int)) =~= lower(s@.take((i - 1) as int)).push(lower_char(s@[i - 1])));
    }
    assert(s@.take(s.len() as int) =~= s@);
    r
}

/// Whether `p` occurs in `s` starting at index `i`.
pub open spec fn matches_at(s: Seq<char>, p: Seq<char>, i: int) -> bool {
    0 <= i && i + p.len() <= s.len() && s.subrange(i, i + p.len()) == p
}

/// First occurrence of `p` in `s` at an index no smaller than `i`.
pub open spec fn find_from(s: Seq<char>, p: Seq<char>, i: int) -> Option<int>
    decreases s.len() - i,
{
    if i < 0 || i + p.len() > s.len() {
        None
    } else if matches_at(s, p, i) {
        Some(i)
    } else if i >= s.len() {
        None
    } else {
        find_from(s, p, i + 1)
    }
}

/// `str::find` with a string pattern, as a character index.
pub open spec fn find(s: Seq<char>, p: Seq<char>) -> Option<int> {
    find_from(s, p, 0)
}

/// `str::contains` with a string pattern.
pub open spec fn contains(s: Seq<char>, p: Seq<char>) -> bool {
    find(s, p) is Some
}

/// `str::starts_with` with a string pattern.
pub open spec fn starts_with(s: Seq<char>, p: Seq<char>) -> bool {
    p.len() <= s.len() && s.take(p.len() as int) == p
}

/// `str::ends_with` with a string pattern.
pub open spec fn ends_with(s: Seq<char>, p: Seq<char>) -> bool {
    p.len() <= s.len() && s.skip(s.len() - p.len()) == p
}

pub proof fn lemma_find_from(s: Seq<char>, p: Seq<char>, i: int)
    requires
        0 <= i,
    ensures
        find_from(s, p, i) matches Some(k) ==> i <= k && matches_at(s, p, k) && (forall|j: int|
            i <= j < k ==> !matches_at(s, p, j)),
        find_from(s, p, i) is None ==> (forall|j: int| i <= j ==> !matches_at(s, p, j)),
    decreases s.len() - i,
{
    if i + p.len() > s.len() {
    } else if matches_at(s, p, i) {
    } else if i >= s.len() {
        assert forall|j: int| i <= j implies !matches_at(s, p, j) by {
            if j > i {
                assert(j + p.len() > s.len());
            }
        }
    } else {
        lemma_find_from(s, p, i + 1);
    }
}

/// Characterisation of `find`: the least matching index.
pub proof fn lemma_find(s: Seq<char>, p: Seq<char>)
    ensures
        find(s, p) matches Some(k) ==> 0 <= k && matches_at(s, p, k) && (forall|j: int|
            0 <= j < k ==> !matches_at(s, p, j)),
        find(s, p) is None ==> (forall|j: int| 0 <= j ==> !matches_at(s, p, j)),
{
    lemma_find_from(s, p, 0);
}

/// Whether `p` occurs at `i` (executable).
pub fn matches_at_exec(s: &Vec<char>, p: &Vec<char>, i: usize) -> (r: bool)
    ensures
        r == matches_at(s@, p@, i as int),
{
    if i > s.len() || p.len() > s.len() - i {
        return false;
    }
    let mut j: usize = 0;
    while j < p.len()
        invariant
            i + p.len() <= s.len(),
            j <= p.len(),
            forall|t: int| 0 <= t < j ==> s@[i + t] == p@[t],
        decreases p.len() - j,
    {
        if s[i + j] != p[j] {
            assert(s@.subrange(i as int, i + p.len())[j as int] != p@[j as int]);
            return false;
        }
        j = j + 1;
    }
    assert(s@.subrange(i as int, i + p.len()) =~= p@);
    true
}

/// First occurrence of `p` at or after `from` (executable `find`).
pub fn find_from_exec(s: &Vec<char>, p: &Vec<char>, from: usize) -> (r: Option<usize>)
    ensures
        r matches Some(k) ==> find_from(s@, p@, from as int) == Some(k as int),
        r is None ==> find_from(s@, p@, from as int) is None,
{
    proof {
        lemma_find_from(s@, p@, from as int);
    }
    let mut i: usize = from;
    while i <= s.len() && p.len() <= s.len() - i
        invariant
            from <= i,
            forall|j: int| from <= j < i ==> !matches_at(s@, p@, j),
        decreases s.len() + 1 - i,
    {
        if matches_at_exec(s, p, i) {
            proof {
                lemma_find_from(s@, p@, from as int);
                assert(find_from(s@, p@, from as int) matches Some(k) && k == i) by {
                    if let Some(k) = find_from(s@, p@, from as int) {
                        if k < i {
                            assert(!matches_at(s@, p@, k));
                        }
                        if k > i {
                            assert(!matches_at(s@, p@, i as int));
                        }
                    } else {
                        assert(!matches_at(s@, p@, i as int));
                    }
                }
            }
            return Some(i);
        }
        assert(i < s.len()) by {
            if i == s.len() {
                assert(s@.subrange(i as int, i as int) =~= p@);
            }
        }
        i = i + 1;
    }
    proof {
        lemma_find_from(s@, p@, from as int);
        assert forall|j: int| from <= j implies !matches_at(s@, p@, j) by {
            if j >= i {
                assert(j + p@.len() > s@.len());
            }
        }
        if let Some(k) = find_from(s@, p@, from as int) {
            assert(!matches_at(s@, p@, k));
        }
    }
    None
}

pub fn find_exec(s: &Vec<char>, p: &Vec<char>) -> (r: Option<usize>)
    ensures
        r matches Some(k) ==> find(s@, p@) == Some(k as int),
        r is None ==> find(s@, p@) is None,
{
    find_from_exec(s, p, 0)
}

pub fn contains_exec(s: &Vec<char>, p: &Vec<char>) -> (r: bool)
    ensures
        r == contains(s@, p@),
{
    find_exec(s, p).is_some()
}

pub fn starts_with_exec(s: &Vec<char>, p: &Vec<char>) -> (r: bool)
    ensures
        r == starts_with(s@, p@),
{
    let r = matches_at_exec(s, p, 0);
    proof {
        if r {
            assert(s@.take(p@.len() as int) =~= s@.subrange(0, p@.len() as int));
        } else if p@.len() <= s@.len() {
            assert(s@.take(p@.len() as int) =~= s@.subrange(0, p@.len() as int));
        }
    }
    r
}

pub fn ends_with_exec(s: &Vec<char>, p: &Vec<char>) -> (r: bool)
    ensures
        r == ends_with(s@, p@),
{
    if p.len() > s.len() {
        return false;
    }
    let r = matches_at_exec(s, p, s.len() - p.len());
    proof {
        assert(s@.skip(s@.len() - p@.len()) =~= s@.subrange(
            s@.len() - p@.len(),
            s@.len() - p@.len() + p@.len(),
        ));
    }
    r
}

/// A copy of `s[i..j]`.
pub fn slice<T: Copy>(s: &Vec<T>, i: usize, j: usize) -> (r: Vec<T>)
    requires
        i <= j <= s.len(),
    ensures
        r@ == s@.subrange(i as int, j as int),
{
    let mut r: Vec<T> = Vec::new();
    let mut k: usize = i;
    while k < j
        invariant
            i <= k <= j <= s.len(),
            r@ == s@.subrange(i as int, k as int),
        decreases j - k,
    {
        r.push(s[k]);
        k = k + 1;
        assert(r@ =~= s@.subrange(i as int, k as int));
    }
    r
}

/// Appends a copy of `t` to `r`.
pub fn push_all<T: Copy>(r: &mut Vec<T>, t: &Vec<T>)
    ensures
        final(r)@ == old(r)@ + t@,
{
    let ghost r0 = r@;
    let mut k: usize = 0;
    while k < t.len()
        invariant
            k <= t.len(),
            r@ == r0 + t@.take(k as int),
        decreases t.len() - k,
    {
        r.push(t[k]);
        k = k + 1;
        assert(r@ =~= r0 + t@.take(k as int));
    }
    assert(t@.take(t.len() as int) =~= t@);
}

/// Appends the characters of a string slice to `r`.
pub fn push_str(r: &mut Vec<char>, t: &str)
    ensures
        final(r)@ == old(r)@ + t@,
{
    let tv = chars_of(t);
    push_all(r, &tv);
}

/// Index of the first character not in `White_Space`.
pub open spec fn leading_ws(s: Seq<char>) -> nat
    decreases s.len(),
{
    if s.len() > 0 && is_ws(s[0]) {
        1 + leading_ws(s.drop_first())
    } else {
        0
    }
}

pub open spec fn trailing_ws(s: Seq<char>) -> nat
    decreases s.len(),
{
    if s.len() > 0 && is_ws(s.last()) {
        1 + trailing_ws(s.drop_last())
    } else {
        0
    }
}

pub proof fn lemma_trim_start(s: Seq<char>)
    ensures
        leading_ws(s) <= s.len(),
        trim_start(s) == s.skip(leading_ws(s) as int),
        forall|i: int| 0 <= i < leading_ws(s) ==> is_ws(s[i]),
        leading_ws(s) < s.len() ==> !is_ws(s[leading_ws(s) as int]),
    decreases s.len(),
{
    if s.len() > 0 && is_ws(s[0]) {
        lemma_trim_start(s.drop_first());
        assert(s.drop_first().skip(leading_ws(s.drop_first()) as int) =~= s.skip(
            leading_ws(s) as int,
        ));
        assert forall|i: int| 0 <= i < leading_ws(s) implies is_ws(s[i]) by {
            if i > 0 {
                assert(s[i] == s.drop_first()[i - 1]);
            }
        }
    } else {
        assert(s.skip(0) =~= s);
    }
}

pub proof fn lemma_trim_end(s: Seq<char>)
    ensures
        trailing_ws(s) <= s.len(),
        trim_end(s) == s.take(s.len() - trailing_ws(s)),
        forall|i: int| s.len() - trailing_ws(s) <= i < s.len() ==> is_ws(s[i]),
        trailing_ws(s) < s.len() ==> !is_ws(s[s.len() - trailing_ws(s) - 1]),
    decreases s.len(),
{
    if s.len() > 0 && is_ws(s.last()) {
        lemma_trim_end(s.drop_last());
        assert(s.drop_last().take(s.drop_last().len() - trailing_ws(s.drop_last())) =~= s.take(
            s.len() - trailing_ws(s),
        ));
        assert forall|i: int| s.len() - trailing_ws(s) <= i < s.len() implies is_ws(s[i]) by {
            if i < s.len() - 1 {
                assert(s[i] == s.drop_last()[i]);
            }
        }
    } else {
        assert(s.take(s.len() as int) =~= s);
    }
}

pub fn trim_start_exec(s: &Vec<char>) -> (r: Vec<char>)
    ensures
        r@ == trim_start(s@),
{
    proof {
        lemma_trim_start(s@);
    }
    let mut i: usize = 0;
    while i < s.len() && is_ws_exec(s[i])
        invariant
            i <= s.len(),
            i <= leading_ws(s@),
            leading_ws(s@) <= s.len(),
            leading_ws(s@) < s.len() ==> !is_ws(s@[leading_ws(s@) as int]),
        decreases s.len() - i,
    {
        i = i + 1;
    }
    proof {
        if i < leading_ws(s@) {
            assert(is_ws(s@[i as int]));
        }
    }
    slice(s, i, s.len())
}

pub fn trim_end_exec(s: &Vec<char>) -> (r: Vec<char>)
    ensures
        r@ == trim_end(s@),
{
    proof {
        lemma_trim_end(s@);
    }
    let mut j: usize = s.len();
    while j > 0 && is_ws_exec(s[j - 1])
        invariant
            j <= s.len(),
            s.len() - j <= trailing_ws(s@),
            trailing_ws(s@) <= s.len(),
            trailing_ws(s@) < s.len() ==> !is_ws(s@[s.len() - trailing_ws(s@) - 1]),
        decreases j,
    {
        proof {
            if s.len() - j == trailing_ws(s@) {
                assert(!is_ws(s@[s.len() - trailing_ws(s@) - 1]));
            }
        }
        j = j - 1;
    }
    proof {
        if s.len() - j < trailing_ws(s@) {
            assert(is_ws(s@[j - 1]));
        }
    }
    let r = slice(s, 0, j);
    assert(r@ =~= s@.take(j as int));
    r
}

pub fn trim_exec(s: &Vec<char>) -> (r: Vec<char>)
    ensures
        r@ == trim(s@),
{
    let t = trim_start_exec(s);
    trim_end_exec(&t)
}

/// Whether two character sequences are equal.
pub fn eq_vec(a: &Vec<char>, b: &Vec<char>) -> (r: bool)
    ensures
        r == (a@ == b@),
{
    if a.len() != b.len() {
        return false;
    }
    let r = matches_at_exec(a, b, 0);
    assert(a@.subrange(0, b@.len() as int) =~= a@);
    r
}

/// Whether a character sequence equals a string slice.
pub fn eq_str(a: &Vec<char>, b: &str) -> (r: bool)
    ensures
        r == (a@ == b@),
{
    let bv = chars_of(b);
    eq_vec(a, &bv)
}


/// The views of a vector of character vectors.
pub open spec fn views(v: Seq<Vec<char>>) -> Seq<Seq<char>> {
    v.map_values(|x: Vec<char>| x@)
}

pub proof fn lemma_views_push(v: Seq<Vec<char>>, x: Vec<char>)
    ensures
        views(v.push(x)) == views(v).push(x@),
{
    assert(views(v.push(x)) =~= views(v).push(x@));
}

/// A line without the carriage return of a `\r\n` ending.
pub open spec fn strip_cr(l: Seq<char>) -> Seq<char> {
    if l.len() > 0 && l.last() == '\r' {
        l.drop_last()
    } else {
        l
    }
}

/// The lines of `s` from index `pos` on, as `str::lines` yields them: split
/// after each `\n`, the `\n` (and a `\r` just before it) removed, with no
/// empty line after a final `\n`.
pub open spec fn lines_from(s: Seq<char>, pos: int) -> Seq<Seq<char>>
    decreases s.len() - pos,
{
    if pos < 0 || pos >= s.len() {
        seq![]
    } else {
        match find_from(s, seq!['\n'], pos) {
            Some(j) => {
                proof {
                    lemma_find_from(s, seq!['\n'], pos);
                }
                seq![strip_cr(s.subrange(pos, j))] + lines_from(s, j + 1)
            },
            None => seq![s.subrange(pos, s.len() as int)],
        }
    }
}

/// `str::lines`.
pub open spec fn lines(s: Seq<char>) -> Seq<Seq<char>> {
    lines_from(s, 0)
}

pub fn strip_cr_exec(l: Vec<char>) -> (r: Vec<char>)
    ensures
        r@ == strip_cr(l@),
{
    let ghost l0 = l@;
    let mut l = l;
    if l.len() > 0 && l[l.len() - 1] == '\r' {
        l.pop();
        assert(l@ =~= strip_cr(l0));
    }
    l
}

/// The lines of `s` (`str::lines`).
pub fn lines_exec(s: &Vec<char>) -> (r: Vec<Vec<char>>)
    ensures
        views(r@) == lines(s@),
{
    let nl: Vec<char> = vec!['\n'];
    let mut out: Vec<Vec<char>> = Vec::new();
    let mut pos: usize = 0;
    assert(views(out@) =~= seq![]);
    while pos < s.len()
        invariant
            nl@ == seq!['\n'],
            pos <= s.len(),
            lines(s@) == views(out@) + lines_from(s@, pos as int),
        decreases s.len() - pos,
    {
        proof {
            lemma_find_from(s@, nl@, pos as int);
        }
        match find_from_exec(s, &nl, pos) {
            Some(j) => {
                let piece = slice(s, pos, j);
                let piece = strip_cr_exec(piece);
                let ghost out0 = out@;
                proof {
                    lemma_views_push(out@, piece);
                }
                out.push(piece);
                assert(views(out@) + lines_from(s@, j + 1) =~= views(out0) + lines_from(s@, pos as int)) by {
                    assert(lines_from(s@, pos as int) == seq![strip_cr(s@.subrange(pos as int, j as int))] + lines_from(s@, j + 1));
                }
                pos = j + 1;
            },
            None => {
                let piece = slice(s, pos, s.len());
                let ghost out0 = out@;
                proof {
                    lemma_views_push(out@, piece);
                }
                out.push(piece);
                assert(views(out@) + lines_from(s@, s.len() as int) =~= views(out0) + lines_from(s@, pos as int));
                pos = s.len();
            },
        }
    }
    assert(lines_from(s@, pos as int) =~= seq![]);
    assert(views(out@) + seq![] =~= views(out@));
    out
}

/// Byte length of a character's UTF-8 encoding.
pub open spec fn char_width(c: char) -> nat {
    if (c as u32) < 0x80 {
        1
    } else if (c as u32) < 0x800 {
        2
    } else if (c as u32) < 0x10000 {
        3
    } else {
        4
    }
}

/// Byte length of a string's UTF-8 encoding (`str::len`).
pub open spec fn utf8_len(s: Seq<char>) -> nat
    decreases s.len(),
{
    if s.len() == 0 {
        0
    } else {
        utf8_len(s.drop_last()) + char_width(s.last())
    }
}

pub proof fn lemma_utf8_len_bound(s: Seq<char>)
    ensures
        s.len() <= utf8_len(s) <= 4 * s.len(),
    decreases s.len(),
{
    if s.len() > 0 {
        lemma_utf8_len_bound(s.drop_last());
    }
}

pub proof fn lemma_utf8_len_concat(a: Seq<char>, b: Seq<char>)
    ensures
        utf8_len(a + b) == utf8_len(a) + utf8_len(b),
    decreases b.len(),
{
    if b.len() == 0 {
        assert(a + b =~= a);
    } else {
        lemma_utf8_len_concat(a, b.drop_last());
        assert((a + b).drop_last() =~= a + b.drop_last());
    }
}

pub fn char_width_exec(c: char) -> (r: u128)
    ensures
        r == char_width(c),
{
    if (c as u32) < 0x80 {
        1
    } else if (c as u32) < 0x800 {
        2
    } else if (c as u32) < 0x10000 {
        3
    } else {
        4
    }
}

/// Byte length of the UTF-8 encoding of `s`.
pub fn utf8_len_exec(s: &Vec<char>) -> (r: u128)
    ensures
        r == utf8_len(s@),
{
    let mut n: u128 = 0;
    let mut i: usize = 0;
    while i < s.len()
        invariant
            i <= s.len(),
            n == utf8_len(s@.take(i as int)),
            n <= 4 * i,
        decreases s.len() - i,
    {
        assert(s@.take(i + 1).drop_last() =~= s@.take(i as int));
        n = n + char_width_exec(s[i]);
        i = i + 1;
    }
    assert(s@.take(i as int) =~= s@);
    n
}

/// `str::replace` of every non-overlapping occurrence of `f` (non-empty),
/// scanning left to right from `pos`.
pub open spec fn replace_from(s: Seq<char>, f: Seq<char>, t: Seq<char>, pos: int) -> Seq<char>
    decreases s.len() - pos,
{
    if f.len() == 0 || pos < 0 || pos > s.len() {
        s
    } else {
        match find_from(s, f, pos) {
            Some(i) => {
                proof {
                    lemma_find_from(s, f, pos);
                }
                s.subrange(pos, i) + t + replace_from(s, f, t, i + f.len())
            },
            None => s.subrange(pos, s.len() as int),
        }
    }
}

pub open spec fn replace_all(s: Seq<char>, f: Seq<char>, t: Seq<char>) -> Seq<char> {
    replace_from(s, f, t, 0)
}

/// `s.replace(f, t)` for a non-empty pattern.
pub fn replace_exec(s: &Vec<char>, f: &Vec<char>, t: &Vec<char>) -> (r: Vec<char>)
    requires
        f.len() > 0,
    ensures
        r@ == replace_all(s@, f@, t@),
{
    let mut out: Vec<char> = Vec::new();
    let mut pos: usize = 0;
    loop
        invariant
            f.len() > 0,
            pos <= s.len(),
            replace_all(s@, f@, t@) == out@ + replace_from(s@, f@, t@, pos as int),
        decreases s.len() - pos,
    {
        proof {
            lemma_find_from(s@, f@, pos as int);
        }
        match find_from_exec(s, f, pos) {
            Some(i) => {
                let piece = slice(s, pos, i);
                let ghost before = out@;
                push_all(&mut out, &piece);
                push_all(&mut out, t);
                assert(out@ + replace_from(s@, f@, t@, (i + f.len()) as int) =~= before
                    + replace_from(s@, f@, t@, pos as int));
                pos = i + f.len();
            },
            None => {
                let piece = slice(s, pos, s.len());
                let ghost before = out@;
                push_all(&mut out, &piece);
                assert(out@ =~= before + replace_from(s@, f@, t@, pos as int));
                return out;
            },
        }
    }
}

/// Decimal digits of a natural number.
pub open spec fn decimal(n: nat) -> Seq<char>
    decreases n,
{
    if n < 10 {
        seq![digit_char(n)]
    } else {
        decimal(n / 10) + seq![digit_char(n % 10)]
    }
}

pub open spec fn digit_char(d: nat) -> char {
    ((d + 48) as u32) as char
}

/// Decimal rendering of an integer, with a leading `-` when negative.
pub open spec fn decimal_int(n: int) -> Seq<char> {
    if n < 0 {
        seq!['-'] + decimal((-n) as nat)
    } else {
        decimal(n as nat)
    }
}

/// Decimal digits of `n` (`n.to_string()`).
pub fn decimal_exec(n: u64) -> (r: Vec<char>)
    ensures
        r@ == decimal(n as nat),
    decreases n,
{
    if n < 10 {
        let c = char_from_ascii((n + 48) as u32);
        vec![c]
    } else {
        let mut r = decimal_exec(n / 10);
        let c = char_from_ascii((n % 10 + 48) as u32);
        r.push(c);
        r
    }
}

/// Decimal rendering of `n` (`n.to_string()`).
pub fn decimal_i64_exec(n: i64) -> (r: Vec<char>)
    ensures
        r@ == decimal_int(n as int),
{
    if n < 0 {
        let m: u64 = if n == i64::MIN {
            9223372036854775808u64
        } else {
            (-n) as u64
        };
        let d = decimal_exec(m);
        let mut r: Vec<char> = vec!['-'];
        push_all(&mut r, &d);
        r
    } else {
        decimal_exec(n as u64)
    }
}

/// Concatenation of the pieces with `sep` between them (`[..].join(sep)`).
pub open spec fn join(pieces: Seq<Seq<char>>, sep: Seq<char>) -> Seq<char>
    decreases pieces.len(),
{
    if pieces.len() == 0 {
        seq![]
    } else if pieces.len() == 1 {
        pieces[0]
    } else {
        join(pieces.drop_last(), sep) + sep + pieces.last()
    }
}

pub fn join_exec(pieces: &Vec<Vec<char>>, sep: &Vec<char>) -> (r: Vec<char>)
    ensures
        r@ == join(views(pieces@), sep@),
{
    let mut out: Vec<char> = Vec::new();
    let mut i: usize = 0;
    while i < pieces.len()
        invariant
            i <= pieces.len(),
            out@ == join(views(pieces@).take(i as int), sep@),
        decreases pieces.len() - i,
    {
        let ghost before = out@;
        if i > 0 {
            push_all(&mut out, sep);
        }
        push_all(&mut out, &pieces[i]);
        proof {
            let vs = views(pieces@);
            assert(vs.take(i + 1).drop_last() =~= vs.take(i as int));
            assert(vs.take(i + 1).last() == pieces@[i as int]@);
            if i == 0 {
                assert(out@ =~= vs.take(1)[0]);
            }
        }
        i = i + 1;
    }
    assert(views(pieces@).take(pieces.len() as int) =~= views(pieces@));
    out
}

/// The character sequence repeated `n` times (`str::repeat`).
pub open spec fn repeat(s: Seq<char>, n: nat) -> Seq<char>
    decreases n,
{
    if n == 0 {
        seq![]
    } else {
        repeat(s, (n - 1) as nat) + s
    }
}

pub fn repeat_exec(s: &Vec<char>, n: usize) -> (r: Vec<char>)
    ensures
        r@ == repeat(s@, n as nat),
{
    let mut out: Vec<char> = Vec::new();
    let mut i: usize = 0;
    while i < n
        invariant
            i <= n,
            out@ == repeat(s@, i as nat),
        decreases n - i,
    {
        push_all(&mut out, s);
        i = i + 1;
    }
    out
}


pub proof fn lemma_repeat_add(s: Seq<char>, a: nat, b: nat)
    ensures
        repeat(s, a + b) == repeat(s, a) + repeat(s, b),
    decreases b,
{
    if b == 0 {
        assert(repeat(s, a) + seq![] =~= repeat(s, a));
    } else {
        lemma_repeat_add(s, a, (b - 1) as nat);
        assert(repeat(s, a + b) == repeat(s, (a + b - 1) as nat) + s);
        assert(repeat(s, a) + repeat(s, b) =~= repeat(s, a) + repeat(s, (b - 1) as nat) + s);
    }
}

/// `c` repeated once per UTF-8 byte of `t` (`c.repeat(t.len())`).
pub fn repeat_per_byte(c: char, t: &Vec<char>) -> (r: Vec<char>)
    ensures
        r@ == repeat(seq![c], utf8_len(t@)),
{
    let mut r: Vec<char> = Vec::new();
    let mut i: usize = 0;
    while i < t.len()
        invariant
            i <= t.len(),
            r@ == repeat(seq![c], utf8_len(t@.take(i as int))),
        decreases t.len() - i,
    {
        let w = char_width_exec(t[i]);
        let mut k: u128 = 0;
        let ghost r0 = r@;
        while k < w
            invariant
                k <= w,
                r@ == r0 + repeat(seq![c], k as nat),
            decreases w - k,
        {
            r.push(c);
            k = k + 1;
            assert(r@ =~= r0 + repeat(seq![c], k as nat));
        }
        proof {
            assert(t@.take(i + 1).drop_last() =~= t@.take(i as int));
            lemma_repeat_add(seq![c], utf8_len(t@.take(i as int)), char_width(t@[i as int]));
        }
        i = i + 1;
    }
    assert(t@.take(t.len() as int) =~= t@);
    r
}


pub proof fn lemma_utf8_len_take_step(s: Seq<char>, k: int)
    requires
        0 <= k < s.len(),
    ensures
        utf8_len(s.take(k + 1)) == utf8_len(s.take(k)) + char_width(s[k]),
{
    assert(s.take(k + 1).drop_last() =~= s.take(k));
}

pub proof fn lemma_utf8_len_take_mono(s: Seq<char>, j: int, k: int)
    requires
        0 <= j < k <= s.len(),
    ensures
        utf8_len(s.take(j)) < utf8_len(s.take(k)),
    decreases k - j,
{
    lemma_utf8_len_take_step(s, k - 1);
    if j < k - 1 {
        lemma_utf8_len_take_mono(s, j, k - 1);
    }
}

/// Whether byte offset `n` falls on a character boundary of `s`.
pub open spec fn on_boundary(s: Seq<char>, n: int) -> bool {
    exists|k: int| 0 <= k <= s.len() && utf8_len(s.take(k)) == n
}

/// The character index at byte offset `n`.
pub open spec fn char_at_byte(s: Seq<char>, n: int) -> int {
    choose|k: int| 0 <= k <= s.len() && utf8_len(s.take(k)) == n
}

/// The character index at byte offset `n`, if that offset is a boundary.
pub fn char_index_at_byte(s: &Vec<char>, n: u128) -> (r: Option<usize>)
    ensures
        r matches Some(k) ==> k <= s.len() && utf8_len(s@.take(k as int)) == n && char_at_byte(s@, n as int) == k,
        r is None ==> !on_boundary(s@, n as int),
{
    let mut acc: u128 = 0;
    let mut k: usize = 0;
    while k < s.len() && acc < n
        invariant
            k <= s.len(),
            acc == utf8_len(s@.take(k as int)),
            acc <= 4 * k,
            forall|j: int| 0 <= j < k ==> utf8_len(s@.take(j)) < n,
        decreases s.len() - k,
    {
        proof {
            lemma_utf8_len_take_step(s@, k as int);
        }
        acc = acc + char_width_exec(s[k]);
        k = k + 1;
    }
    if acc == n {
        proof {
            assert forall|j: int| 0 <= j <= s.len() && utf8_len(s@.take(j)) == n implies j == k by {
                if j < k {
                } else if j > k {
                    lemma_utf8_len_take_mono(s@, k as int, j);
                }
            }
            assert(0 <= k <= s.len() && utf8_len(s@.take(k as int)) == n);
            let c = char_at_byte(s@, n as int);
            assert(0 <= c <= s.len() && utf8_len(s@.take(c)) == n);
        }
        Some(k)
    } else {
        proof {
            assert forall|j: int| 0 <= j <= s.len() implies utf8_len(s@.take(j)) != n by {
                if j < k {
                } else if j == k {
                } else {
                    lemma_utf8_len_take_mono(s@, k as int, j);
                }
            }
        }
        None
    }
}

/// `&s[..n]` followed by `suffix` when `s` is longer than `n` bytes, else `s`.
pub open spec fn cut_at_byte(s: Seq<char>, n: int, suffix: Seq<char>) -> Seq<char> {
    if utf8_len(s) > n {
        s.take(char_at_byte(s, n)) + suffix
    } else {
        s
    }
}

/// `s` cut to its first `n` bytes with `suffix` appended, when it is longer;
/// byte `n` must then fall on a character boundary (else slicing panics).
pub fn cut_at_byte_exec(s: &Vec<char>, n: u128, suffix: &str) -> (r: Vec<char>)
    requires
        utf8_len(s@) > n ==> on_boundary(s@, n as int),
    ensures
        r@ == cut_at_byte(s@, n as int, suffix@),
{
    let total = utf8_len_exec(s);
    if total > n {
        match char_index_at_byte(s, n) {
            Some(k) => {
                let mut r = slice(s, 0, k);
                push_str(&mut r, suffix);
                assert(s@.subrange(0, k as int) =~= s@.take(k as int));
                r
            },
            None => {
                slice(s, 0, s.len())
            },
        }
    } else {
        let r = slice(s, 0, s.len());
        assert(r@ =~= s@);
        r
    }
}


pub open spec fn skip_ws_from(s: Seq<char>, i: int) -> int
    decreases s.len() - i,
{
    if 0 <= i < s.len() && is_ws(s[i]) {
        skip_ws_from(s, i + 1)
    } else {
        i
    }
}

pub open spec fn word_end_from(s: Seq<char>, i: int) -> int
    decreases s.len() - i,
{
    if 0 <= i < s.len() && !is_ws(s[i]) {
        word_end_from(s, i + 1)
    } else {
        i
    }
}

pub proof fn lemma_skip_ws_from(s: Seq<char>, i: int)
    requires
        0 <= i <= s.len(),
    ensures
        i <= skip_ws_from(s, i) <= s.len(),
        forall|j: int| i <= j < skip_ws_from(s, i) ==> is_ws(s[j]),
        skip_ws_from(s, i) < s.len() ==> !is_ws(s[skip_ws_from(s, i)]),
    decreases s.len() - i,
{
    if i < s.len() && is_ws(s[i]) {
        lemma_skip_ws_from(s, i + 1);
    }
}

pub proof fn lemma_word_end_from(s: Seq<char>, i: int)
    requires
        0 <= i <= s.len(),
    ensures
        i <= word_end_from(s, i) <= s.len(),
        forall|j: int| i <= j < word_end_from(s, i) ==> !is_ws(s[j]),
        word_end_from(s, i) < s.len() ==> is_ws(s[word_end_from(s, i)]),
    decreases s.len() - i,
{
    if i < s.len() && !is_ws(s[i]) {
        lemma_word_end_from(s, i + 1);
    }
}

/// The whitespace-separated words of `s` from index `i` on
/// (`str::split_whitespace`).
pub open spec fn words_from(s: Seq<char>, i: int) -> Seq<Seq<char>>
    decreases s.len() - i,
{
    if i < 0 || i >= s.len() {
        seq![]
    } else {
        let a = skip_ws_from(s, i);
        if a >= s.len() {
            seq![]
        } else {
            proof {
                lemma_skip_ws_from(s, i);
                lemma_word_end_from(s, a);
            }
            let b = word_end_from(s, a);
            seq![s.subrange(a, b)] + words_from(s, b)
        }
    }
}

pub open spec fn words(s: Seq<char>) -> Seq<Seq<char>> {
    words_from(s, 0)
}

/// The whitespace-separated words of `s` (`str::split_whitespace`).
pub fn words_exec(s: &Vec<char>) -> (r: Vec<Vec<char>>)
    ensures
        views(r@) == words(s@),
{
    let mut out: Vec<Vec<char>> = Vec::new();
    let mut i: usize = 0;
    assert(views(out@) =~= seq![]);
    loop
        invariant
            i <= s.len(),
            words(s@) == views(out@) + words_from(s@, i as int),
        decreases s.len() - i,
    {
        proof {
            lemma_skip_ws_from(s@, i as int);
        }
        let mut a: usize = i;
        while a < s.len() && is_ws_exec(s[a])
            invariant
                i <= a <= s.len(),
                skip_ws_from(s@, i as int) == skip_ws_from(s@, a as int),
            decreases s.len() - a,
        {
            a = a + 1;
        }
        if a >= s.len() {
            assert(words_from(s@, i as int) =~= seq![]);
            assert(views(out@) + seq![] =~= views(out@));
            return out;
        }
        proof {
            lemma_word_end_from(s@, a as int);
        }
        let mut b: usize = a;
        while b < s.len() && !is_ws_exec(s[b])
            invariant
                a <= b <= s.len(),
                word_end_from(s@, a as int) == word_end_from(s@, b as int),
            decreases s.len() - b,
        {
            b = b + 1;
        }
        let w = slice(s, a, b);
        let ghost o0 = views(out@);
        proof {
            lemma_views_push(out@, w);
        }
        out.push(w);
        assert(views(out@) + words_from(s@, b as int) =~= o0 + words_from(s@, i as int));
        i = b;
    }
}

/// `s.trim_start_matches(p)`: every leading copy of a non-empty `p` removed.
pub open spec fn strip_prefixes(s: Seq<char>, p: Seq<char>) -> Seq<char>
    decreases s.len(),
{
    if p.len() > 0 && starts_with(s, p) {
        strip_prefixes(s.skip(p.len() as int), p)
    } else {
        s
    }
}

/// `s.trim_end_matches(c)`: every trailing `c` removed.
pub open spec fn strip_suffix_chars(s: Seq<char>, c: char) -> Seq<char>
    decreases s.len(),
{
    if s.len() > 0 && s.last() == c {
        strip_suffix_chars(s.drop_last(), c)
    } else {
        s
    }
}

pub fn strip_prefixes_exec(s: &Vec<char>, p: &Vec<char>) -> (r: Vec<char>)
    ensures
        r@ == strip_prefixes(s@, p@),
{
    let mut i: usize = 0;
    if p.len() == 0 {
        return slice(s, 0, s.len());
    }
    assert(s@.skip(0) =~= s@);
    loop
        invariant
            p.len() > 0,
            i <= s.len(),
            strip_prefixes(s@, p@) == strip_prefixes(s@.skip(i as int), p@),
        decreases s.len() - i,
    {
        if matches_at_exec(s, p, i) {
            assert(s@.skip(i as int).take(p.len() as int) =~= s@.subrange(i as int, i + p.len()));
            assert(s@.skip(i as int).skip(p.len() as int) =~= s@.skip(i + p.len()));
            i = i + p.len();
        } else {
            proof {
                if starts_with(s@.skip(i as int), p@) {
                    assert(s@.skip(i as int).take(p.len() as int) =~= s@.subrange(i as int, i + p.len()));
                }
            }
            let r = slice(s, i, s.len());
            assert(r@ =~= s@.skip(i as int));
            return r;
        }
    }
}

pub fn strip_suffix_chars_exec(s: &Vec<char>, c: char) -> (r: Vec<char>)
    ensures
        r@ == strip_suffix_chars(s@, c),
{
    let mut j: usize = s.len();
    assert(s@.take(j as int) =~= s@);
    while j > 0 && s[j - 1] == c
        invariant
            j <= s.len(),
            strip_suffix_chars(s@, c) == strip_suffix_chars(s@.take(j as int), c),
        decreases j,
    {
        assert(s@.take(j as int).drop_last() =~= s@.take(j - 1));
        j = j - 1;
    }
    let r = slice(s, 0, j);
    assert(r@ =~= s@.take(j as int));
    r
}

/// The text before the first `c` (`s.split(c).next()`).
pub open spec fn before_char(s: Seq<char>, c: char) -> Seq<char> {
    match find(s, seq![c]) {
        Some(i) => s.take(i),
        None => s,
    }
}

pub fn before_char_exec(s: &Vec<char>, c: char) -> (r: Vec<char>)
    ensures
        r@ == before_char(s@, c),
{
    let m: Vec<char> = vec![c];
    assert(m@ =~= seq![c]);
    proof {
        lemma_find(s@, m@);
    }
    match find_exec(s, &m) {
        Some(i) => {
            let r = slice(s, 0, i);
            assert(r@ =~= s@.take(i as int));
            r
        },
        None => slice(s, 0, s.len()),
    }
}


/// Copies of the character vectors `ls[i..j]`.
pub fn sub_views(ls: &Vec<Vec<char>>, i: usize, j: usize) -> (r: Vec<Vec<char>>)
    requires
        i <= j <= ls.len(),
    ensures
        views(r@) == views(ls@).subrange(i as int, j as int),
{
    let mut r: Vec<Vec<char>> = Vec::new();
    let mut k: usize = i;
    while k < j
        invariant
            i <= k <= j <= ls.len(),
            views(r@) == views(ls@).subrange(i as int, k as int),
        decreases j - k,
    {
        let c = slice(&ls[k], 0, ls[k].len());
        assert(c@ =~= ls@[k as int]@);
        proof {
            lemma_views_push(r@, c);
        }
        r.push(c);
        k = k + 1;
        assert(views(r@) =~= views(ls@).subrange(i as int, k as int));
    }
    r
}

/// `str::split` with a non-empty string pattern, from `start` on.
pub open spec fn split_from(s: Seq<char>, p: Seq<char>, start: int) -> Seq<Seq<char>>
    decreases s.len() + 1 - start,
{
    if start < 0 || start > s.len() || p.len() == 0 {
        seq![]
    } else {
        match find_from(s, p, start) {
            Some(j) => {
                proof {
                    lemma_find_from(s, p, start);
                }
                seq![s.subrange(start, j)] + split_from(s, p, j + p.len())
            },
            None => seq![s.subrange(start, s.len() as int)],
        }
    }
}

/// `str::split` with a non-empty string pattern.
pub open spec fn split(s: Seq<char>, p: Seq<char>) -> Seq<Seq<char>> {
    split_from(s, p, 0)
}

pub fn split_exec(s: &Vec<char>, p: &Vec<char>) -> (r: Vec<Vec<char>>)
    requires
        p@.len() > 0,
    ensures
        views(r@) == split(s@, p@),
{
    let mut out: Vec<Vec<char>> = Vec::new();
    let mut pos: usize = 0;
    assert(views(out@) =~= seq![]);
    loop
        invariant
            p@.len() > 0,
            pos <= s.len(),
            split(s@, p@) == views(out@) + split_from(s@, p@, pos as int),
        decreases s.len() + 1 - pos,
    {
        proof {
            lemma_find_from(s@, p@, pos as int);
        }
        match find_from_exec(s, p, pos) {
            Some(j) => {
                let piece = slice(s, pos, j);
                let ghost out0 = out@;
                proof {
                    lemma_views_push(out@, piece);
                }
                out.push(piece);
                assert(views(out@) + split_from(s@, p@, j + p@.len()) =~= views(out0) + split_from(s@, p@, pos as int));
                pos = j + p.len();
            },
            None => {
                let piece = slice(s, pos, s.len());
                let ghost out0 = out@;
                proof {
                    lemma_views_push(out@, piece);
                }
                out.push(piece);
                assert(views(out@) =~= views(out0) + split_from(s@, p@, pos as int));
                return out;
            },
        }
    }
}

/// `s.trim_end_matches(p)` with a non-empty string pattern: every
/// trailing `p` removed.
pub open spec fn strip_suffixes(s: Seq<char>, p: Seq<char>) -> Seq<char>
    decreases s.len(),
{
    if p.len() > 0 && ends_with(s, p) {
        strip_suffixes(s.take(s.len() - p.len()), p)
    } else {
        s
    }
}

pub fn strip_suffixes_exec(s: &Vec<char>, p: &Vec<char>) -> (r: Vec<char>)
    ensures
        r@ == strip_suffixes(s@, p@),
{
    let mut cur = slice(s, 0, s.len());
    assert(cur@ =~= s@);
    if p.len() == 0 {
        return cur;
    }
    while ends_with_exec(&cur, p)
        invariant
            p@.len() > 0,
            strip_suffixes(s@, p@) == strip_suffixes(cur@, p@),
        decreases cur@.len(),
    {
        let n = cur.len() - p.len();
        cur = slice(&cur, 0, n);
    }
    cur
}

/// What `str::to_lowercase` gives for a text: Unicode lower case, which
/// depends on the text alone.
pub uninterp spec fn unicode_lower(s: Seq<char>) -> Seq<char>;

/// Trusted: `str::to_lowercase`, the full Unicode lower case of the text
/// (named `unicode_lower`, not described).
#[verifier::external_body]
pub(crate) fn to_lowercase(s: &str) -> (r: String)
    ensures
        r@ == unicode_lower(s@),
{
    s.to_lowercase()
}

} // verus!
