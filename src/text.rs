use vstd::prelude::*;
use vstd::string::StrSliceExecFns;

verus! {

/// Whitespace as `char::is_whitespace` counts it: the Unicode
/// `White_Space` property.
pub open spec fn is_space(c: char) -> bool {
    ('\u{9}' <= c && c <= '\u{D}') || c == ' ' || c == '\u{85}' || c == '\u{A0}'
        || c == '\u{1680}' || ('\u{2000}' <= c && c <= '\u{200A}') || c == '\u{2028}'
        || c == '\u{2029}' || c == '\u{202F}' || c == '\u{205F}' || c == '\u{3000}'
}

/// `t` is `s` without its leading and trailing whitespace.
pub open spec fn is_trim_of(t: Seq<char>, s: Seq<char>) -> bool {
    exists|i: int, j: int|
        {
            &&& 0 <= i <= j <= s.len()
            &&& t == s.subrange(i, j)
            &&& forall|k: int| 0 <= k < i ==> is_space(#[trigger] s[k])
            &&& forall|k: int| j <= k < s.len() ==> is_space(#[trigger] s[k])
            &&& t.len() > 0 ==> !is_space(t[0]) && !is_space(t[t.len() - 1])
        }
}

/// The characters of `s`, in order.
pub fn chars_of(s: &str) -> (r: Vec<char>)
    ensures
        r@ == s@,
{
    let n = s.unicode_len();
    let mut r: Vec<char> = Vec::new();
    let mut i: usize = 0;
    while i < n
        invariant
            n == s@.len(),
            i <= n,
            r@ == s@.subrange(0, i as int),
        decreases n - i,
    {
        r.push(s.get_char(i));
        i = i + 1;
        assert(r@ =~= s@.subrange(0, i as int));
    }
    assert(r@ =~= s@);
    r
}

/// The characters `t[from..to]` as a new vector.
pub fn slice_chars(t: &Vec<char>, from: usize, to: usize) -> (r: Vec<char>)
    requires
        from <= to <= t@.len(),
    ensures
        r@ == t@.subrange(from as int, to as int),
{
    let mut r: Vec<char> = Vec::new();
    let mut i: usize = from;
    while i < to
        invariant
            from <= i <= to <= t@.len(),
            r@ == t@.subrange(from as int, i as int),
        decreases to - i,
    {
        r.push(t[i]);
        i = i + 1;
        assert(r@ =~= t@.subrange(from as int, i as int));
    }
    r
}

/// Whether `t` holds the characters of `lit` starting at `start`.
pub fn matches_at(t: &Vec<char>, start: usize, lit: &str) -> (r: bool)
    ensures
        r == (start + lit@.len() <= t@.len() && t@.subrange(start as int, start + lit@.len())
            == lit@),
{
    let n = lit.unicode_len();
    let len = t.len();
    if n > len || start > len - n {
        return false;
    }
    let mut i: usize = 0;
    while i < n
        invariant
            n == lit@.len(),
            len == t@.len(),
            start + n <= len,
            i <= n,
            forall|k: int| 0 <= k < i ==> t@[start + k] == lit@[k],
        decreases n - i,
    {
        if t[start + i] != lit.get_char(i) {
            assert(t@.subrange(start as int, start + n)[i as int] != lit@[i as int]);
            return false;
        }
        i = i + 1;
    }
    assert(t@.subrange(start as int, start + n) =~= lit@);
    true
}

/// Whether `t` is exactly the characters of `lit`.
pub fn equals_text(t: &Vec<char>, lit: &str) -> (r: bool)
    ensures
        r == (t@ == lit@),
{
    let n = lit.unicode_len();
    if t.len() != n {
        return false;
    }
    let r = matches_at(t, 0, lit);
    assert(t@.subrange(0, n as int) =~= t@);
    r
}

fn is_space_char(c: char) -> (r: bool)
    ensures
        r == is_space(c),
{
    ('\u{9}' <= c && c <= '\u{D}') || c == ' ' || c == '\u{85}' || c == '\u{A0}'
        || c == '\u{1680}' || ('\u{2000}' <= c && c <= '\u{200A}') || c == '\u{2028}'
        || c == '\u{2029}' || c == '\u{202F}' || c == '\u{205F}' || c == '\u{3000}'
}

/// `t` without leading and trailing whitespace.
pub fn trim_spaces(t: &Vec<char>) -> (r: Vec<char>)
    ensures
        is_trim_of(r@, t@),
{
    let mut i: usize = 0;
    while i < t.len() && is_space_char(t[i])
        invariant
            i <= t@.len(),
            forall|k: int| 0 <= k < i ==> is_space(#[trigger] t@[k]),
        decreases t@.len() - i,
    {
        i = i + 1;
    }
    let mut j: usize = t.len();
    while j > i && is_space_char(t[j - 1])
        invariant
            i <= j <= t@.len(),
            forall|k: int| j <= k < t@.len() ==> is_space(#[trigger] t@[k]),
            i < t@.len() ==> !is_space(t@[i as int]),
        decreases j - i,
    {
        j = j - 1;
    }
    let r = slice_chars(t, i, j);
    assert(r@.len() > 0 ==> r@[0] == t@[i as int] && r@[r@.len() - 1] == t@[j - 1]);
    assert(is_trim_of(r@, t@)) by {
        assert(0 <= i <= j <= t@.len());
    }
    r
}

} // verus!
