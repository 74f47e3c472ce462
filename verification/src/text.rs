//! Character-level matching used by the command handlers.
//!
//! The commands form a small fixed grammar: optional edit-prefix group
//! (whitespace, `*`, whitespace), a keyword compared without regard to ASCII
//! case, whitespace runs, digit runs, and free-text captures. The spec
//! functions here define that grammar over `Seq<char>`, and the executable
//! functions are proved to decide it exactly.

use vstd::prelude::*;

verus! {

/// Whitespace, as the command grammar understands it.
pub open spec fn is_ws(c: char) -> bool {
    c == ' ' || c == '\t' || c == '\n' || c == '\r' || c == '\u{b}' || c == '\u{c}'
}

/// ASCII decimal digit.
pub open spec fn is_digit(c: char) -> bool {
    48 <= (c as u32) && (c as u32) <= 57
}

/// Word constituent for word-boundary tests: ASCII letters, digits, `_`.
pub open spec fn is_word(c: char) -> bool {
    ||| 97 <= (c as u32) && (c as u32) <= 122
    ||| 65 <= (c as u32) && (c as u32) <= 90
    ||| is_digit(c)
    ||| c == '_'
}

/// The code point of `c` with ASCII upper case folded to lower case.
pub open spec fn lower_u(c: char) -> int {
    if 65 <= (c as u32) && (c as u32) <= 90 {
        c as u32 + 32
    } else {
        c as u32 as int
    }
}

/// Character equality up to ASCII case.
pub open spec fn eq_ci(a: char, b: char) -> bool {
    lower_u(a) == lower_u(b)
}

/// `pat` occurs in `m` at position `i`, up to ASCII case.
pub open spec fn at_ci(m: Seq<char>, i: int, pat: Seq<char>) -> bool {
    &&& 0 <= i
    &&& i + pat.len() <= m.len()
    &&& forall|j: int| 0 <= j < pat.len() ==> eq_ci(#[trigger] m[i + j], pat[j])
}

/// `pat` occurs somewhere in `m`, up to ASCII case.
pub open spec fn contains_ci(m: Seq<char>, pat: Seq<char>) -> bool {
    exists|i: int| at_ci(m, i, pat)
}

/// `pat` occurs at `i` with no word constituent directly before or after:
/// the word-boundary occurrence test.
pub open spec fn word_at(m: Seq<char>, i: int, pat: Seq<char>) -> bool {
    &&& at_ci(m, i, pat)
    &&& (i == 0 || !is_word(m[i - 1]))
    &&& (i + pat.len() == m.len() || !is_word(m[i + pat.len()]))
}

/// `pat` occurs somewhere in `m` delimited by word boundaries.
pub open spec fn contains_word_ci(m: Seq<char>, pat: Seq<char>) -> bool {
    exists|i: int| word_at(m, i, pat)
}

/// `m` starts with `pat`, compared exactly (case matters).
pub open spec fn starts_with(m: Seq<char>, pat: Seq<char>) -> bool {
    pat.len() <= m.len() && forall|j: int| 0 <= j < pat.len() ==> #[trigger] m[j] == pat[j]
}

/// The optional leading edit group: one whitespace, `*`, one whitespace.
/// Messages edited in the client arrive with this prefix.
pub open spec fn has_edit_group(m: Seq<char>) -> bool {
    m.len() >= 3 && is_ws(m[0]) && m[1] == '*' && is_ws(m[2])
}

/// The end of the whitespace run of `m` that begins at `k`.
pub open spec fn ws_end_from(m: Seq<char>, k: int) -> int
    decreases m.len() - k
        when 0 <= k <= m.len()
{
    if k < m.len() && is_ws(m[k]) {
        ws_end_from(m, k + 1)
    } else {
        k
    }
}

pub proof fn lemma_ws_end_from(m: Seq<char>, k: int, e: int)
    requires
        0 <= k <= e <= m.len(),
        forall|t: int| k <= t < e ==> is_ws(#[trigger] m[t]),
        e < m.len() ==> !is_ws(m[e]),
    ensures
        ws_end_from(m, k) == e,
    decreases e - k,
{
    if k < e {
        assert(is_ws(m[k]));
        lemma_ws_end_from(m, k + 1, e);
    }
}

/// The `\s+(.+)$` tail of the command grammar at position `k`: at least one
/// whitespace character, then a nonempty capture running to the end of the
/// message. The capture cannot contain a newline; when everything after the
/// whitespace run is empty or holds a newline, the match can still hand the
/// last whitespace character (itself no newline) back to the capture, and no
/// more than that.
pub open spec fn rest_capture(m: Seq<char>, k: int) -> Option<Seq<char>>
    recommends
        0 <= k <= m.len(),
{
    let e = ws_end_from(m, k);
    if e == k {
        None
    } else if e < m.len() && (forall|t: int| e <= t < m.len() ==> m[t] != '\n') {
        Some(m.subrange(e, m.len() as int))
    } else if e == m.len() && e - k >= 2 && m[e - 1] != '\n' {
        Some(m.subrange(e - 1, m.len() as int))
    } else {
        None
    }
}

pub fn char_eq_ci(a: char, b: char) -> (r: bool)
    ensures
        r == eq_ci(a, b),
{
    let ua = a as u32;
    let ub = b as u32;
    let la = if 65 <= ua && ua <= 90 { ua + 32 } else { ua };
    let lb = if 65 <= ub && ub <= 90 { ub + 32 } else { ub };
    la == lb
}

pub fn char_is_ws(c: char) -> (r: bool)
    ensures
        r == is_ws(c),
{
    c == ' ' || c == '\t' || c == '\n' || c == '\r' || c == '\u{b}' || c == '\u{c}'
}

pub fn char_is_digit(c: char) -> (r: bool)
    ensures
        r == is_digit(c),
{
    let u = c as u32;
    48 <= u && u <= 57
}

pub fn char_is_word(c: char) -> (r: bool)
    ensures
        r == is_word(c),
{
    let u = c as u32;
    (97 <= u && u <= 122) || (65 <= u && u <= 90) || (48 <= u && u <= 57) || c == '_'
}

/// Decides `at_ci(s@, i, pat@)`.
pub fn match_at_ci(s: &str, i: usize, pat: &str) -> (r: bool)
    ensures
        r == at_ci(s@, i as int, pat@),
{
    let n = s.unicode_len();
    let p = pat.unicode_len();
    if i > n || p > n - i {
        return false;
    }
    let mut j: usize = 0;
    while j < p
        invariant
            i + p <= n,
            j <= p,
            n == s@.len(),
            p == pat@.len(),
            forall|t: int| 0 <= t < j ==> eq_ci(#[trigger] s@[i + t], pat@[t]),
        decreases p - j,
    {
        let a = s.get_char(i + j);
        let b = pat.get_char(j);
        if !char_eq_ci(a, b) {
            return false;
        }
        j += 1;
    }
    true
}

/// Character-wise string equality.
pub fn str_eq(a: &str, b: &str) -> (r: bool)
    ensures
        r == (a@ == b@),
{
    let n = a.unicode_len();
    let m = b.unicode_len();
    if n != m {
        return false;
    }
    let mut i: usize = 0;
    while i < n
        invariant
            i <= n,
            n == a@.len(),
            n == b@.len(),
            forall|t: int| 0 <= t < i ==> a@[t] == b@[t],
        decreases n - i,
    {
        if a.get_char(i) != b.get_char(i) {
            return false;
        }
        i += 1;
    }
    proof {
        assert(a@ =~= b@);
    }
    true
}

/// Decides `contains_ci(s@, pat@)`.
pub fn contains_ci_str(s: &str, pat: &str) -> (r: bool)
    ensures
        r == contains_ci(s@, pat@),
{
    let n = s.unicode_len();
    let p = pat.unicode_len();
    if p > n {
        return false;
    }
    if p == 0 {
        proof {
            assert(at_ci(s@, 0, pat@));
        }
        return true;
    }
    let mut i: usize = 0;
    while i <= n - p
        invariant
            0 < p <= n,
            i <= n - p + 1,
            n == s@.len(),
            p == pat@.len(),
            forall|t: int| 0 <= t < i ==> !at_ci(s@, t, pat@),
        decreases n - p + 1 - i,
    {
        if match_at_ci(s, i, pat) {
            return true;
        }
        i += 1;
    }
    false
}

/// Decides `contains_word_ci(s@, pat@)`.
pub fn contains_word_ci_str(s: &str, pat: &str) -> (r: bool)
    requires
        pat@.len() >= 1,
    ensures
        r == contains_word_ci(s@, pat@),
{
    let n = s.unicode_len();
    let p = pat.unicode_len();
    if p > n {
        return false;
    }
    let mut i: usize = 0;
    while i <= n - p
        invariant
            0 < p <= n,
            i <= n - p + 1,
            n == s@.len(),
            p == pat@.len(),
            forall|t: int| 0 <= t < i ==> !word_at(s@, t, pat@),
        decreases n - p + 1 - i,
    {
        if match_at_ci(s, i, pat) {
            let before_ok = i == 0 || !char_is_word(s.get_char(i - 1));
            let after_ok = i + p == n || !char_is_word(s.get_char(i + p));
            if before_ok && after_ok {
                proof {
                    assert(word_at(s@, i as int, pat@));
                }
                return true;
            }
        }
        i += 1;
    }
    false
}

/// Decides `starts_with(s@, pat@)`.
pub fn starts_with_str(s: &str, pat: &str) -> (r: bool)
    ensures
        r == starts_with(s@, pat@),
{
    let n = s.unicode_len();
    let p = pat.unicode_len();
    if p > n {
        return false;
    }
    let mut j: usize = 0;
    while j < p
        invariant
            p <= n,
            j <= p,
            n == s@.len(),
            p == pat@.len(),
            forall|t: int| 0 <= t < j ==> #[trigger] s@[t] == pat@[t],
        decreases p - j,
    {
        if s.get_char(j) != pat.get_char(j) {
            return false;
        }
        j += 1;
    }
    true
}

/// Decides `has_edit_group(s@)`.
pub fn has_edit_group_str(s: &str) -> (r: bool)
    ensures
        r == has_edit_group(s@),
{
    let n = s.unicode_len();
    if n < 3 {
        return false;
    }
    char_is_ws(s.get_char(0)) && s.get_char(1) == '*' && char_is_ws(s.get_char(2))
}

/// The end of the whitespace run that begins at `k`.
pub fn ws_run_end(s: &str, k: usize) -> (e: usize)
    requires
        k <= s@.len(),
    ensures
        k <= e <= s@.len(),
        forall|t: int| k <= t < e ==> is_ws(#[trigger] s@[t]),
        e < s@.len() ==> !is_ws(s@[e as int]),
        e as int == ws_end_from(s@, k as int),
{
    let n = s.unicode_len();
    let mut e: usize = k;
    while e < n
        invariant
            k <= e <= n,
            n == s@.len(),
            forall|t: int| k <= t < e ==> is_ws(#[trigger] s@[t]),
        decreases n - e,
    {
        if !char_is_ws(s.get_char(e)) {
            proof {
                lemma_ws_end_from(s@, k as int, e as int);
            }
            return e;
        }
        e += 1;
    }
    proof {
        lemma_ws_end_from(s@, k as int, e as int);
    }
    e
}

/// Where the `\s+(.+)$` capture at `k` starts, if that tail matches:
/// the executable side of `rest_capture`.
pub fn rest_capture_start(s: &str, k: usize) -> (r: Option<usize>)
    requires
        k <= s@.len(),
    ensures
        match r {
            Some(j) => k < j < s@.len() && rest_capture(s@, k as int) == Some(
                s@.subrange(j as int, s@.len() as int),
            ),
            None => rest_capture(s@, k as int) is None,
        },
{
    let n = s.unicode_len();
    let e = ws_run_end(s, k);
    if e == k {
        return None;
    }
    if e < n {
        if !has_char_from(s, e, '\n') {
            Some(e)
        } else {
            None
        }
    } else {
        if e - k >= 2 && s.get_char(e - 1) != '\n' {
            Some(e - 1)
        } else {
            None
        }
    }
}

/// Whether `c` occurs in `s` at or after position `from`.
pub fn has_char_from(s: &str, from: usize, c: char) -> (r: bool)
    requires
        from <= s@.len(),
    ensures
        r == exists|t: int| from <= t < s@.len() && s@[t] == c,
{
    let n = s.unicode_len();
    let mut i: usize = from;
    while i < n
        invariant
            from <= i <= n,
            n == s@.len(),
            forall|t: int| from <= t < i ==> s@[t] != c,
        decreases n - i,
    {
        if s.get_char(i) == c {
            return true;
        }
        i += 1;
    }
    false
}

/// Whether every character from `from` to the end is a decimal digit.
pub fn all_digits_to_end(s: &str, from: usize) -> (r: bool)
    ensures
        r == (from <= s@.len() && forall|t: int| from <= t < s@.len() ==> is_digit(
            #[trigger] s@[t],
        )),
{
    let n = s.unicode_len();
    if from > n {
        return false;
    }
    let mut i: usize = from;
    while i < n
        invariant
            from <= i <= n,
            n == s@.len(),
            forall|t: int| from <= t < i ==> is_digit(#[trigger] s@[t]),
        decreases n - i,
    {
        if !char_is_digit(s.get_char(i)) {
            return false;
        }
        i += 1;
    }
    true
}

} // verus!
