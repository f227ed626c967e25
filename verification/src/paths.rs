//! Unix path decomposition as `std::path::Path` performs it: the file name,
//! its extension and stem, and joining.
use vstd::prelude::*;
use crate::text::{eq_vec, push_all, slice};

verus! {

/// Index of the last `c` in `s`, or -1 when there is none.
pub open spec fn last_index(s: Seq<char>, c: char) -> int
    decreases s.len(),
{
    if s.len() == 0 {
        -1
    } else if s.last() == c {
        s.len() - 1
    } else {
        last_index(s.drop_last(), c)
    }
}

pub proof fn lemma_last_index(s: Seq<char>, c: char)
    ensures
        -1 <= last_index(s, c) < s.len(),
        last_index(s, c) >= 0 ==> s[last_index(s, c)] == c,
        forall|j: int| last_index(s, c) < j < s.len() ==> s[j] != c,
    decreases s.len(),
{
    if s.len() > 0 && s.last() != c {
        lemma_last_index(s.drop_last(), c);
        assert forall|j: int| last_index(s, c) < j < s.len() implies s[j] != c by {
            if j < s.len() - 1 {
                assert(s[j] == s.drop_last()[j]);
            }
        }
    }
}

/// If `s[k] == c` and no later character is `c`, the last index is `k`.
pub proof fn lemma_last_index_at(s: Seq<char>, c: char, k: int)
    requires
        -1 <= k < s.len(),
        k >= 0 ==> s[k] == c,
        forall|j: int| k < j < s.len() ==> s[j] != c,
    ensures
        last_index(s, c) == k,
{
    lemma_last_index(s, c);
    let r = last_index(s, c);
    if r < k {
        assert(s[k] == c);
    } else if r > k {
        assert(s[r] != c);
    }
}

/// The last component of a path, skipping empty and `.` components, as
/// `Path::components` yields it.
pub open spec fn last_segment(s: Seq<char>) -> Option<Seq<char>>
    decreases s.len(),
{
    if s.len() == 0 {
        None
    } else if s.last() == '/' {
        last_segment(s.drop_last())
    } else {
        let k = last_index(s, '/');
        let seg = s.subrange(k + 1, s.len() as int);
        if seg == seq!['.'] {
            if k < 0 {
                None
            } else {
                proof {
                    lemma_last_index(s, '/');
                }
                last_segment(s.take(k))
            }
        } else {
            Some(seg)
        }
    }
}

/// `Path::file_name`: the last component, unless it is `..`.
pub open spec fn file_name(s: Seq<char>) -> Option<Seq<char>> {
    match last_segment(s) {
        Some(seg) => if seg == seq!['.', '.'] {
            None
        } else {
            Some(seg)
        },
        None => None,
    }
}

/// `Path::extension`: what follows the last `.` of the file name, when that
/// `.` is not its first character.
pub open spec fn extension(s: Seq<char>) -> Option<Seq<char>> {
    match file_name(s) {
        Some(f) => {
            let k = last_index(f, '.');
            if k <= 0 {
                None
            } else {
                Some(f.skip(k + 1))
            }
        },
        None => None,
    }
}

/// `Path::file_stem`: the file name without its extension.
pub open spec fn file_stem(s: Seq<char>) -> Option<Seq<char>> {
    match file_name(s) {
        Some(f) => {
            let k = last_index(f, '.');
            if k <= 0 {
                Some(f)
            } else {
                Some(f.take(k))
            }
        },
        None => None,
    }
}

/// `Path::join` on Unix: an absolute `p` replaces `base`; otherwise a `/` is
/// put between them unless `base` is empty or already ends with one.
pub open spec fn join_path(base: Seq<char>, p: Seq<char>) -> Seq<char> {
    if p.len() > 0 && p[0] == '/' {
        p
    } else if base.len() == 0 || base.last() == '/' {
        base + p
    } else {
        base + seq!['/'] + p
    }
}

/// Index of the last `c` among `s[..end]`.
pub fn last_index_exec(s: &Vec<char>, end: usize, c: char) -> (r: Option<usize>)
    requires
        end <= s.len(),
    ensures
        r matches Some(k) ==> last_index(s@.take(end as int), c) == k as int,
        r is None ==> last_index(s@.take(end as int), c) == -1,
{
    let mut j: usize = end;
    while j > 0
        invariant
            j <= end <= s.len(),
            forall|t: int| j <= t < end ==> s@[t] != c,
        decreases j,
    {
        if s[j - 1] == c {
            proof {
                lemma_last_index_at(s@.take(end as int), c, j - 1);
            }
            return Some(j - 1);
        }
        j = j - 1;
    }
    proof {
        lemma_last_index_at(s@.take(end as int), c, -1);
    }
    None
}

pub proof fn lemma_last_segment_take(s: Seq<char>, end: int)
    requires
        0 < end <= s.len(),
        s[end - 1] == '/',
    ensures
        last_segment(s.take(end)) == last_segment(s.take(end - 1)),
{
    assert(s.take(end).drop_last() =~= s.take(end - 1));
}

/// The last component of a path (see `last_segment`).
pub fn last_segment_exec(s: &Vec<char>) -> (r: Option<Vec<char>>)
    ensures
        r matches Some(v) ==> last_segment(s@) == Some(v@),
        r is None ==> last_segment(s@) is None,
{
    let mut end: usize = s.len();
    assert(s@.take(end as int) =~= s@);
    loop
        invariant
            end <= s.len(),
            last_segment(s@) == last_segment(s@.take(end as int)),
        decreases end,
    {
        if end == 0 {
            return None;
        }
        if s[end - 1] == '/' {
            proof {
                lemma_last_segment_take(s@, end as int);
            }
            end = end - 1;
        } else {
            let ghost t = s@.take(end as int);
            let k = last_index_exec(s, end, '/');
            proof {
                lemma_last_index(t, '/');
            }
            let start: usize = match k {
                Some(k) => k + 1,
                None => 0,
            };
            assert(t.subrange(start as int, t.len() as int) =~= s@.subrange(start as int, end as int));
            if end - start == 1 && s[start] == '.' {
                assert(s@.subrange(start as int, end as int) =~= seq!['.']);
                match k {
                    None => {
                        return None;
                    },
                    Some(kk) => {
                        assert(t.take(kk as int) =~= s@.take(kk as int));
                        end = kk;
                    },
                }
            } else {
                proof {
                    if s@.subrange(start as int, end as int) == seq!['.'] {
                        assert(s@.subrange(start as int, end as int)[0] == '.');
                    }
                }
                return Some(slice(s, start, end));
            }
        }
    }
}

/// The file name of a path (`Path::file_name`).
pub fn file_name_exec(s: &Vec<char>) -> (r: Option<Vec<char>>)
    ensures
        r matches Some(v) ==> file_name(s@) == Some(v@),
        r is None ==> file_name(s@) is None,
{
    let seg = match last_segment_exec(s) {
        Some(seg) => seg,
        None => {
            return None;
        },
    };
    let dots: Vec<char> = vec!['.', '.'];
    if eq_vec(&seg, &dots) {
        None
    } else {
        Some(seg)
    }
}

/// `Path::extension`.
pub fn extension_exec(s: &Vec<char>) -> (r: Option<Vec<char>>)
    ensures
        r matches Some(v) ==> extension(s@) == Some(v@),
        r is None ==> extension(s@) is None,
{
    match file_name_exec(s) {
        None => None,
        Some(f) => {
            proof {
                assert(f@.take(f.len() as int) =~= f@);
            }
            match last_index_exec(&f, f.len(), '.') {
                Some(k) => {
                    if k == 0 {
                        None
                    } else {
                        proof {
                            lemma_last_index(f@, '.');
                        }
                        Some(slice(&f, k + 1, f.len()))
                    }
                },
                None => None,
            }
        },
    }
}

/// `Path::file_stem`.
pub fn file_stem_exec(s: &Vec<char>) -> (r: Option<Vec<char>>)
    ensures
        r matches Some(v) ==> file_stem(s@) == Some(v@),
        r is None ==> file_stem(s@) is None,
{
    match file_name_exec(s) {
        None => None,
        Some(f) => {
            proof {
                assert(f@.take(f.len() as int) =~= f@);
            }
            match last_index_exec(&f, f.len(), '.') {
                Some(k) => {
                    if k == 0 {
                        Some(f)
                    } else {
                        proof {
                            lemma_last_index(f@, '.');
                        }
                        Some(slice(&f, 0, k))
                    }
                },
                None => Some(f),
            }
        },
    }
}

/// `Path::new(base).join(p)` rendered as text.
pub fn join_path_exec(base: &Vec<char>, p: &Vec<char>) -> (r: Vec<char>)
    ensures
        r@ == join_path(base@, p@),
{
    if p.len() > 0 && p[0] == '/' {
        return slice(p, 0, p.len());
    }
    let mut r = slice(base, 0, base.len());
    if !(base.len() == 0 || base[base.len() - 1] == '/') {
        r.push('/');
    }
    push_all(&mut r, p);
    r
}

/// A path whose file name ends in `.` and an extension `e` (after at least
/// one other character of the name) has extension `e`.
pub proof fn lemma_extension_of(a: Seq<char>, e: Seq<char>)
    requires
        a.len() > 0,
        a.last() != '/',
        e.len() > 0,
        forall|i: int| 0 <= i < e.len() ==> e[i] != '/' && e[i] != '.',
    ensures
        extension(a + seq!['.'] + e) == Some(e),
{
    let s = a + seq!['.'] + e;
    lemma_last_index(a, '/');
    let k = last_index(a, '/');
    assert(k < a.len() - 1) by {
        if k == a.len() - 1 {
            assert(a[k] == a.last());
        }
    }
    assert forall|j: int| k < j < s.len() implies s[j] != '/' by {
        if j < a.len() {
            assert(s[j] == a[j]);
        } else if j > a.len() {
            assert(s[j] == e[j - a.len() - 1]);
        }
    }
    if k >= 0 {
        assert(s[k] == a[k]);
    }
    lemma_last_index_at(s, '/', k);
    assert(s.last() == e.last());
    assert(s.last() != '/');
    let seg = s.subrange(k + 1, s.len() as int);
    assert(seg.len() >= 3);
    assert(seg != seq!['.']);
    assert(last_segment(s) == Some(seg));
    assert(seg.last() == e.last());
    assert(seg != seq!['.', '.']) by {
        if seg == seq!['.', '.'] {
            assert(seg.last() == '.');
        }
    }
    assert(file_name(s) == Some(seg));
    let d = a.len() - k - 1;
    assert(seg[d] == '.');
    assert forall|j: int| d < j < seg.len() implies seg[j] != '.' by {
        assert(seg[j] == e[j - d - 1]);
    }
    lemma_last_index_at(seg, '.', d);
    assert(seg.skip(d + 1) =~= e);
}

} // verus!
