//! Character-level string utilities: substring matching for the
//! classifier, display-name derivation from executable paths, and the
//! label helper for checkable menu entries.

use vstd::prelude::*;

verus! {

/// `pat` occurs in `text` starting at character index `i`.
pub open spec fn matches_at(text: Seq<char>, pat: Seq<char>, i: int) -> bool {
    &&& 0 <= i
    &&& i + pat.len() <= text.len()
    &&& text.subrange(i, i + pat.len()) == pat
}

/// `pat` occurs somewhere in `text` (case-sensitive, by characters).
pub open spec fn contains_substr(text: Seq<char>, pat: Seq<char>) -> bool {
    exists|i: int| matches_at(text, pat, i)
}

/// Some entry of `pats` occurs in `name`.
pub open spec fn matches_any(name: Seq<char>, pats: Seq<String>) -> bool {
    exists|k: int| 0 <= k < pats.len() && contains_substr(name, pats[k]@)
}

/// Whether `pat` occurs in `text` starting exactly at `i`.
fn match_at(text: &str, pat: &str, i: usize, n: usize, m: usize) -> (r: bool)
    requires
        n == text@.len(),
        m == pat@.len(),
        i + m <= n,
    ensures
        r == matches_at(text@, pat@, i as int),
{
    let mut j: usize = 0;
    while j < m
        invariant
            j <= m,
            i + m <= n,
            n == text@.len(),
            m == pat@.len(),
            forall|k: int| 0 <= k < j ==> text@[i + k] == pat@[k],
        decreases m - j,
    {
        if text.get_char(i + j) != pat.get_char(j) {
            assert(!matches_at(text@, pat@, i as int)) by {
                if text@.subrange(i as int, i + m) == pat@ {
                    assert(text@.subrange(i as int, i + m)[j as int] == pat@[j as int]);
                }
            }
            return false;
        }
        j = j + 1;
    }
    assert(text@.subrange(i as int, i + m) =~= pat@);
    true
}

/// Whether `pat` occurs anywhere in `text`, comparing characters
/// case-sensitively.
pub fn str_contains(text: &str, pat: &str) -> (r: bool)
    ensures
        r == contains_substr(text@, pat@),
{
    let n = text.unicode_len();
    let m = pat.unicode_len();
    if m > n {
        assert(forall|i: int| !matches_at(text@, pat@, i));
        return false;
    }
    if m == 0 {
        assert(matches_at(text@, pat@, 0)) by {
            assert(text@.subrange(0, 0) =~= pat@);
        }
        return true;
    }
    let mut i: usize = 0;
    while i <= n - m
        invariant
            1 <= m <= n,
            n == text@.len(),
            m == pat@.len(),
            i <= n - m + 1,
            forall|k: int| 0 <= k < i ==> !matches_at(text@, pat@, k),
        decreases n - m + 1 - i,
    {
        if match_at(text, pat, i, n, m) {
            assert(matches_at(text@, pat@, i as int));
            return true;
        }
        i = i + 1;
    }
    assert(forall|k: int| !matches_at(text@, pat@, k)) by {
        assert(forall|k: int| k + m > n ==> !matches_at(text@, pat@, k));
    }
    false
}

/// Whether the two strings hold the same characters.
pub fn str_eq(a: &str, b: &str) -> (r: bool)
    ensures
        r == (a@ == b@),
{
    let n = a.unicode_len();
    if n != b.unicode_len() {
        return false;
    }
    let mut j: usize = 0;
    while j < n
        invariant
            j <= n,
            n == a@.len(),
            n == b@.len(),
            forall|k: int| 0 <= k < j ==> a@[k] == b@[k],
        decreases n - j,
    {
        if a.get_char(j) != b.get_char(j) {
            return false;
        }
        j = j + 1;
    }
    assert(a@ =~= b@);
    true
}

/// Whether some entry of `pats` occurs in `name`.
pub fn name_matches_any(name: &str, pats: &Vec<String>) -> (r: bool)
    ensures
        r == matches_any(name@, pats@),
{
    let mut k: usize = 0;
    while k < pats.len()
        invariant
            k <= pats@.len(),
            forall|t: int| 0 <= t < k ==> !contains_substr(name@, pats@[t]@),
        decreases pats@.len() - k,
    {
        if str_contains(name, pats[k].as_str()) {
            return true;
        }
        k = k + 1;
    }
    false
}

/// A path separator, for both separator conventions.
pub open spec fn is_sep(c: char) -> bool {
    c == '/' || c == '\\'
}

/// The index just after the last path separator of `s`, or 0 if `s` holds
/// none.
pub open spec fn last_sep_end(s: Seq<char>) -> int
    decreases s.len(),
{
    if s.len() == 0 {
        0
    } else if is_sep(s.last()) {
        s.len() as int
    } else {
        last_sep_end(s.drop_last())
    }
}

/// The index of the last `'.'` of `s`, or -1 if `s` holds none.
pub open spec fn last_dot(s: Seq<char>) -> int
    decreases s.len(),
{
    if s.len() == 0 {
        -1
    } else if s.last() == '.' {
        s.len() - 1
    } else {
        last_dot(s.drop_last())
    }
}

/// The display name a session derives from an executable path: the
/// component after the last separator, with the extension — everything
/// from the last non-leading `'.'` on — stripped.
pub open spec fn display_name(path: Seq<char>) -> Seq<char> {
    let base = path.subrange(last_sep_end(path), path.len() as int);
    if last_dot(base) > 0 {
        base.subrange(0, last_dot(base))
    } else {
        base
    }
}

/// Derive the display name of `path`.
pub fn display_name_of(path: &str) -> (r: String)
    ensures
        r@ == display_name(path@),
{
    let n = path.unicode_len();
    let mut cut: usize = 0;
    let mut has_dot: bool = false;
    let mut dot: usize = 0;
    let mut i: usize = 0;
    while i < n
        invariant
            i <= n,
            n == path@.len(),
            cut <= i,
            cut as int == last_sep_end(path@.take(i as int)),
            has_dot ==> cut <= dot < i,
            has_dot ==> dot as int == cut + last_dot(path@.subrange(cut as int, i as int)),
            !has_dot ==> last_dot(path@.subrange(cut as int, i as int)) == -1,
        decreases n - i,
    {
        let c = path.get_char(i);
        let ghost pre = path@.take(i as int);
        let ghost post = path@.take(i + 1);
        assert(post.drop_last() =~= pre);
        assert(post.last() == c);
        let ghost sub_pre = path@.subrange(cut as int, i as int);
        if c == '/' || c == '\\' {
            cut = i + 1;
            has_dot = false;
            assert(path@.subrange(cut as int, i + 1).len() == 0);
        } else {
            let ghost sub_post = path@.subrange(cut as int, i + 1);
            assert(sub_post.drop_last() =~= sub_pre);
            assert(sub_post.last() == c);
            if c == '.' {
                has_dot = true;
                dot = i;
            }
        }
        i = i + 1;
    }
    assert(path@.take(n as int) =~= path@);
    let ghost base = path@.subrange(cut as int, n as int);
    let stop: usize = if has_dot && dot > cut {
        dot
    } else {
        proof {
            if has_dot {
                assert(last_dot(base) == dot - cut);
            }
        }
        n
    };
    let stem = path.substring_char(cut, stop);
    proof {
        if has_dot && dot > cut {
            assert(base.subrange(0, last_dot(base)) =~= path@.subrange(cut as int, dot as int));
        }
    }
    stem.to_owned()
}

/// The label of a checkable menu entry: the check mark when `value` is
/// set, the cross otherwise, then the entry's name.
pub fn checkbox(name: &str, value: bool) -> (r: String)
    ensures
        r@ == "["@ + (if value { "\u{2714}"@ } else { "\u{2716}"@ }) + "] "@ + name@,
{
    let mut s = String::from_str("[");
    if value {
        s.append("\u{2714}");
    } else {
        s.append("\u{2716}");
    }
    s.append("] ");
    s.append(name);
    s
}

} // verus!
