//! Reading an authorization code out of the first line of an HTTP request.
//!
//! The line has the shape `METHOD /path?query HTTP/version`. The second
//! whitespace-separated word is split on `&`; the first piece that starts
//! with `code=` or holds `?code=` gives the code: everything after the
//! piece's first `=`, taken verbatim (no percent-decoding).
use vstd::prelude::*;

verus! {

/// Characters that separate the words of a request line: the Unicode
/// `White_Space` characters.
pub open spec fn is_blank(c: char) -> bool {
    ('\t' <= c && c <= '\r') || c == ' ' || c == '\u{85}' || c == '\u{A0}' || c == '\u{1680}'
        || ('\u{2000}' <= c && c <= '\u{200A}') || c == '\u{2028}' || c == '\u{2029}'
        || c == '\u{202F}' || c == '\u{205F}' || c == '\u{3000}'
}

/// Whether a line read arrived whole, with its final newline.
pub open spec fn is_complete_line(s: Seq<char>) -> bool {
    s.len() > 0 && s.last() == '\n'
}

/// Whether a line read arrived whole, with its final newline.
pub fn line_is_complete(s: &str) -> (r: bool)
    ensures
        r == is_complete_line(s@),
{
    let n = s.unicode_len();
    n > 0 && s.get_char(n - 1) == '\n'
}

/// First index at or after `i` that holds no blank (or the length).
pub open spec fn skip_blank(s: Seq<char>, i: int) -> int
    decreases s.len() - i,
{
    if 0 <= i < s.len() && is_blank(s[i]) {
        skip_blank(s, i + 1)
    } else {
        i
    }
}

/// First index at or after `i` that holds a blank (or the length).
pub open spec fn skip_word(s: Seq<char>, i: int) -> int
    decreases s.len() - i,
{
    if 0 <= i < s.len() && !is_blank(s[i]) {
        skip_word(s, i + 1)
    } else {
        i
    }
}

/// The second word of the line: the request target.
pub open spec fn target_of(s: Seq<char>) -> Option<Seq<char>> {
    let c = skip_blank(s, skip_word(s, skip_blank(s, 0)));
    if c >= s.len() {
        None
    } else {
        Some(s.subrange(c, skip_word(s, c)))
    }
}

/// First index at or after `i` that holds `x` (or the length).
pub open spec fn find_from(s: Seq<char>, i: int, x: char) -> int
    decreases s.len() - i,
{
    if 0 <= i < s.len() && s[i] != x {
        find_from(s, i + 1, x)
    } else {
        i
    }
}

pub open spec fn code_key() -> Seq<char> {
    seq!['c', 'o', 'd', 'e', '=']
}

/// Whether `code=` stands in `s` at index `k`.
pub open spec fn key_at(s: Seq<char>, k: int) -> bool {
    0 <= k && k + 5 <= s.len() && s.subrange(k, k + 5) == code_key()
}

/// Whether a query piece names the code: it starts with `code=` or holds `?code=`.
pub open spec fn names_code(p: Seq<char>) -> bool {
    key_at(p, 0) || exists|k: int| 0 <= k && #[trigger] key_at(p, k + 1) && p[k] == '?'
}

/// What follows the first `=` of a piece.
pub open spec fn value_of(p: Seq<char>) -> Seq<char> {
    p.subrange(find_from(p, 0, '=') + 1, p.len() as int)
}

/// The code carried by the pieces of `u` from the one that starts at `i` on.
pub open spec fn code_from(u: Seq<char>, i: int) -> Option<Seq<char>>
    decreases u.len() - i,
    via code_from_decreases
{
    if i < 0 || i > u.len() {
        None
    } else {
        let e = find_from(u, i, '&');
        let p = u.subrange(i, e);
        if names_code(p) {
            Some(value_of(p))
        } else if e >= u.len() {
            None
        } else {
            code_from(u, e + 1)
        }
    }
}

#[via_fn]
proof fn code_from_decreases(u: Seq<char>, i: int) {
    if 0 <= i <= u.len() {
        lemma_find_from_bounds(u, i, '&');
    }
}

/// The code that a request line carries, if any.
pub open spec fn code_in_line(s: Seq<char>) -> Option<Seq<char>> {
    match target_of(s) {
        Some(u) => code_from(u, 0),
        None => None,
    }
}

pub proof fn lemma_find_from_bounds(s: Seq<char>, i: int, x: char)
    requires
        0 <= i <= s.len(),
    ensures
        i <= find_from(s, i, x) <= s.len(),
        find_from(s, i, x) < s.len() ==> s[find_from(s, i, x)] == x,
        forall|k: int| i <= k < find_from(s, i, x) ==> s[k] != x,
    decreases s.len() - i,
{
    if i < s.len() && s[i] != x {
        lemma_find_from_bounds(s, i + 1, x);
    }
}

fn char_is_blank(c: char) -> (r: bool)
    ensures
        r == is_blank(c),
{
    ('\t' <= c && c <= '\r') || c == ' ' || c == '\u{85}' || c == '\u{A0}' || c == '\u{1680}'
        || ('\u{2000}' <= c && c <= '\u{200A}') || c == '\u{2028}' || c == '\u{2029}'
        || c == '\u{202F}' || c == '\u{205F}' || c == '\u{3000}'
}

fn skip_blank_exec(s: &str, n: usize, i: usize) -> (r: usize)
    requires
        n == s@.len(),
        i <= n,
    ensures
        r == skip_blank(s@, i as int),
        i <= r <= n,
{
    let mut j = i;
    while j < n && char_is_blank(s.get_char(j))
        invariant
            n == s@.len(),
            i <= j <= n,
            skip_blank(s@, j as int) == skip_blank(s@, i as int),
        decreases n - j,
    {
        j = j + 1;
    }
    j
}

fn skip_word_exec(s: &str, n: usize, i: usize) -> (r: usize)
    requires
        n == s@.len(),
        i <= n,
    ensures
        r == skip_word(s@, i as int),
        i <= r <= n,
{
    let mut j = i;
    while j < n && !char_is_blank(s.get_char(j))
        invariant
            n == s@.len(),
            i <= j <= n,
            skip_word(s@, j as int) == skip_word(s@, i as int),
        decreases n - j,
    {
        j = j + 1;
    }
    j
}

fn find_exec(s: &str, n: usize, i: usize, x: char) -> (r: usize)
    requires
        n == s@.len(),
        i <= n,
    ensures
        r == find_from(s@, i as int, x),
        i <= r <= n,
{
    let mut j = i;
    while j < n && s.get_char(j) != x
        invariant
            n == s@.len(),
            i <= j <= n,
            find_from(s@, j as int, x) == find_from(s@, i as int, x),
        decreases n - j,
    {
        j = j + 1;
    }
    j
}

/// Whether `code=` stands at index `k` of `s`, checked below the bound `e`.
fn key_exec(s: &str, e: usize, k: usize) -> (r: bool)
    requires
        e <= s@.len(),
    ensures
        r == (k + 5 <= e && s@.subrange(k as int, k + 5) == code_key()),
{
    if k > e || e - k < 5 {
        return false;
    }
    let r = s.get_char(k) == 'c' && s.get_char(k + 1) == 'o' && s.get_char(k + 2) == 'd'
        && s.get_char(k + 3) == 'e' && s.get_char(k + 4) == '=';
    proof {
        let w = s@.subrange(k as int, k + 5);
        if r {
            assert(w =~= code_key());
        }
        if w == code_key() {
            assert(w[0] == 'c' && w[1] == 'o' && w[2] == 'd' && w[3] == 'e' && w[4] == '=');
        }
    }
    r
}

/// Whether the piece `[i, e)` of `u` names the code.
fn piece_names_code(u: &str, i: usize, e: usize) -> (r: bool)
    requires
        i <= e <= u@.len(),
    ensures
        r == names_code(u@.subrange(i as int, e as int)),
{
    let ghost p = u@.subrange(i as int, e as int);
    let starts = key_exec(u, e, i);
    proof {
        if starts {
            assert(p.subrange(0, 5) =~= u@.subrange(i as int, i + 5));
        }
        if key_at(p, 0) {
            assert(p.subrange(0, 5) =~= u@.subrange(i as int, i + 5));
        }
    }
    if starts {
        return true;
    }
    let mut k = i;
    while k < e
        invariant
            i <= k <= e <= u@.len(),
            p == u@.subrange(i as int, e as int),
            !key_at(p, 0),
            forall|j: int| 0 <= j < k - i ==> !(#[trigger] key_at(p, j + 1) && p[j] == '?'),
        decreases e - k,
    {
        if u.get_char(k) == '?' && key_exec(u, e, k + 1) {
            proof {
                let j = k - i;
                assert(p.subrange(j + 1, j + 6) =~= u@.subrange(k + 1, k + 6));
                assert(key_at(p, j + 1) && p[j] == '?');
            }
            return true;
        }
        proof {
            let j = k - i;
            if key_at(p, j + 1) && p[j] == '?' {
                assert(p.subrange(j + 1, j + 6) =~= u@.subrange(k + 1, k + 6));
            }
        }
        k = k + 1;
    }
    proof {
        assert forall|j: int| 0 <= j && #[trigger] key_at(p, j + 1) implies p[j] != '?' by {
            assert(j < k - i);
        }
    }
    false
}

/// Reads the authorization code out of a request line.
///
/// Returns `None` where the line has no target or no piece of the target's
/// query names the code.
pub fn code_in_request_line(line: &str) -> (r: Option<String>)
    ensures
        match r {
            Some(c) => code_in_line(line@) == Some(c@),
            None => code_in_line(line@) is None,
        },
{
    let n = line.unicode_len();
    let a = skip_blank_exec(line, n, 0);
    let b = skip_word_exec(line, n, a);
    let c = skip_blank_exec(line, n, b);
    if c >= n {
        return None;
    }
    let d = skip_word_exec(line, n, c);
    let url = line.substring_char(c, d);
    let m = url.unicode_len();
    let ghost u = url@;
    assert(target_of(line@) == Some(u));
    let mut i: usize = 0;
    loop
        invariant
            u == url@,
            m == u.len(),
            i <= m,
            code_from(u, i as int) == code_from(u, 0),
            code_in_line(line@) == code_from(u, 0),
        decreases m - i,
    {
        let e = find_exec(url, m, i, '&');
        if piece_names_code(url, i, e) {
            let ghost p = u.subrange(i as int, e as int);
            let q = find_exec(url, m, i, '=');
            proof {
                lemma_piece_has_eq(u, i as int, e as int);
            }
            let v = url.substring_char(q + 1, e);
            proof {
                assert(v@ =~= value_of(p));
                assert(code_from(u, i as int) == Some(value_of(p)));
            }
            let r = String::from_str(v);
            assert(r@ == v@);
            return Some(r);
        }
        if e >= m {
            assert(code_from(u, i as int) is None);
            return None;
        }
        i = e + 1;
    }
}

/// Searching `u` from `i + j` finds what searching the piece `[i, e)` from `j`
/// finds, where the latter finds something.
proof fn lemma_find_shift(u: Seq<char>, i: int, e: int, j: int, x: char)
    requires
        0 <= i <= e <= u.len(),
        0 <= j <= e - i,
        find_from(u.subrange(i, e), j, x) < e - i,
    ensures
        find_from(u, i + j, x) == i + find_from(u.subrange(i, e), j, x),
    decreases e - i - j,
{
    let p = u.subrange(i, e);
    if j < p.len() && p[j] != x {
        lemma_find_shift(u, i, e, j + 1, x);
    }
}

/// A piece that names the code holds an `=`, which a search from the piece's
/// start finds.
proof fn lemma_piece_has_eq(u: Seq<char>, i: int, e: int)
    requires
        0 <= i <= e <= u.len(),
        names_code(u.subrange(i, e)),
    ensures
        find_from(u.subrange(i, e), 0, '=') < e - i,
        find_from(u, i, '=') == i + find_from(u.subrange(i, e), 0, '='),
{
    let p = u.subrange(i, e);
    lemma_find_from_bounds(p, 0, '=');
    let t: int = if key_at(p, 0) {
        4
    } else {
        let k = choose|k: int| 0 <= k && #[trigger] key_at(p, k + 1) && p[k] == '?';
        k + 5
    };
    assert(p.subrange(t - 4, t + 1)[4] == '=');
    assert(p[t] == '=');
    lemma_find_shift(u, i, e, 0, '=');
}

} // verus!
