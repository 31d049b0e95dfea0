//! Character-level helpers on strings, each proved against a spec function.
use vstd::prelude::*;
use vstd::string::*;

verus! {

/// `p` is a leading part of `s`.
pub open spec fn has_prefix(s: Seq<char>, p: Seq<char>) -> bool {
    p.len() <= s.len() && s.subrange(0, p.len() as int) == p
}

/// `s` with every trailing `/` removed.
pub open spec fn trim_trailing_slashes(s: Seq<char>) -> Seq<char>
    decreases s.len(),
{
    if s.len() > 0 && s.last() == '/' {
        trim_trailing_slashes(s.drop_last())
    } else {
        s
    }
}

/// ASCII case-insensitive equality of one character against a lower-case one.
pub open spec fn char_matches_lower(c: char, lower: char) -> bool {
    c == lower || ('a' <= lower && lower <= 'z' && c as u32 + 32 == lower as u32)
}

/// `s` spells the lower-case word `lower`, ignoring ASCII case.
pub open spec fn eq_ignore_case(s: Seq<char>, lower: Seq<char>) -> bool {
    s.len() == lower.len() && forall|i: int| 0 <= i < s.len() ==> char_matches_lower(#[trigger] s[i], lower[i])
}

/// Visible ASCII or a tab: what an HTTP header value may hold to be read as text.
pub open spec fn is_visible_ascii(s: Seq<char>) -> bool {
    forall|i: int| 0 <= i < s.len() ==> (' ' <= #[trigger] s[i] && s[i] <= '~') || s[i] == '\t'
}

/// Length of `s` once its trailing slashes are removed.
pub fn trimmed_len(s: &str) -> (n: usize)
    ensures
        n <= s@.len(),
        s@.subrange(0, n as int) == trim_trailing_slashes(s@),
{
    let mut n: usize = s.unicode_len();
    proof {
        assert(s@.subrange(0, n as int) =~= s@);
    }
    while n > 0 && s.get_char(n - 1) == '/'
        invariant
            n <= s@.len(),
            trim_trailing_slashes(s@.subrange(0, n as int)) == trim_trailing_slashes(s@),
        decreases n,
    {
        proof {
            assert(s@.subrange(0, n as int).drop_last() =~= s@.subrange(0, n - 1));
        }
        n = n - 1;
    }
    n
}

/// Whether `s` begins with `p`.
pub fn starts_with(s: &str, p: &str) -> (r: bool)
    ensures
        r == has_prefix(s@, p@),
{
    let sl = s.unicode_len();
    let pl = p.unicode_len();
    if pl > sl {
        return false;
    }
    let mut i: usize = 0;
    while i < pl
        invariant
            pl == p@.len(),
            sl == s@.len(),
            pl <= sl,
            i <= pl,
            forall|k: int| 0 <= k < i ==> s@[k] == p@[k],
        decreases pl - i,
    {
        if s.get_char(i) != p.get_char(i) {
            return false;
        }
        i = i + 1;
    }
    proof {
        assert(s@.subrange(0, p@.len() as int) =~= p@);
    }
    true
}

/// Whether `s` spells the lower-case word `lower`, ignoring ASCII case.
pub fn equals_ignore_case(s: &str, lower: &str) -> (r: bool)
    ensures
        r == eq_ignore_case(s@, lower@),
{
    let sl = s.unicode_len();
    let ll = lower.unicode_len();
    if sl != ll {
        return false;
    }
    let mut i: usize = 0;
    while i < sl
        invariant
            sl == s@.len(),
            ll == lower@.len(),
            sl == ll,
            i <= sl,
            forall|k: int| 0 <= k < i ==> char_matches_lower(s@[k], lower@[k]),
        decreases sl - i,
    {
        let c = s.get_char(i);
        let l = lower.get_char(i);
        let same = c == l || ('a' <= l && l <= 'z' && (c as u32) + 32 == l as u32);
        if !same {
            return false;
        }
        i = i + 1;
    }
    true
}

/// Whether every character of `s` is visible ASCII or a tab.
pub fn visible_ascii(s: &str) -> (r: bool)
    ensures
        r == is_visible_ascii(s@),
{
    let n = s.unicode_len();
    let mut i: usize = 0;
    while i < n
        invariant
            n == s@.len(),
            i <= n,
            forall|k: int| 0 <= k < i ==> (' ' <= #[trigger] s@[k] && s@[k] <= '~') || s@[k] == '\t',
        decreases n - i,
    {
        let c = s.get_char(i);
        if !((' ' <= c && c <= '~') || c == '\t') {
            return false;
        }
        i = i + 1;
    }
    true
}

} // verus!
