//! Small string helpers with exact contracts.
use vstd::prelude::*;

verus! {

/// Compares two string slices by their characters.
pub fn str_eq(a: &str, b: &str) -> (r: bool)
    ensures
        r == (a@ == b@),
{
    let x = a.to_owned();
    let y = b.to_owned();
    x == y
}

/// `s` with every leading occurrence of `pattern` removed, one after the
/// other; an empty pattern removes nothing.
pub open spec fn strip_leading(s: Seq<char>, pattern: Seq<char>) -> Seq<char>
    decreases s.len(),
{
    if pattern.len() > 0 && pattern.len() <= s.len() && s.take(pattern.len() as int) == pattern {
        strip_leading(s.skip(pattern.len() as int), pattern)
    } else {
        s
    }
}

/// Law: putting a non-empty prefix in front of a text that does not itself
/// start with the prefix, and then stripping the prefix, gives the text back.
pub proof fn law_strip_added_prefix(prefix: Seq<char>, text: Seq<char>)
    requires
        prefix.len() > 0,
        !(prefix.len() <= text.len() && text.take(prefix.len() as int) == prefix),
    ensures
        strip_leading(prefix + text, prefix) == text,
{
    assert((prefix + text).take(prefix.len() as int) =~= prefix);
    assert((prefix + text).skip(prefix.len() as int) =~= text);
    assert(strip_leading(text, prefix) == text);
}

/// The characters of a string slice.
pub fn chars_of(s: &str) -> (r: Vec<char>)
    ensures
        r@ == s@,
{
    let n = s.unicode_len();
    let mut chars: Vec<char> = Vec::new();
    for i in 0..n
        invariant
            n == s@.len(),
            chars@ == s@.take(i as int),
    {
        chars.push(s.get_char(i));
        assert(chars@ =~= s@.take(i + 1));
    }
    assert(s@.take(n as int) =~= s@);
    chars
}

/// True when `chars[at..]` starts with `pattern`.
fn matches_at(chars: &Vec<char>, at: usize, pattern: &Vec<char>) -> (r: bool)
    requires
        at + pattern.len() <= chars.len(),
    ensures
        r == (chars@.skip(at as int).take(pattern.len() as int) == pattern@),
{
    let m = pattern.len();
    for j in 0..m
        invariant
            m == pattern.len(),
            at + m <= chars.len(),
            forall|k: int| 0 <= k < j ==> chars@[at + k] == pattern@[k],
    {
        if chars[at + j] != pattern[j] {
            assert(chars@.skip(at as int).take(m as int)[j as int] != pattern@[j as int]);
            return false;
        }
    }
    assert(chars@.skip(at as int).take(m as int) =~= pattern@);
    true
}

/// `s` with every leading occurrence of `pattern` removed
/// (`str::trim_start_matches` with a string pattern).
pub fn trim_start_matches(s: &str, pattern: &str) -> (r: String)
    ensures
        r@ == strip_leading(s@, pattern@),
{
    let chars = chars_of(s);
    let pattern_chars = chars_of(pattern);
    let n = chars.len();
    let m = pattern_chars.len();
    let mut at: usize = 0;
    assert(s@.skip(0) =~= s@);
    if m > 0 {
        while m <= n - at && matches_at(&chars, at, &pattern_chars)
            invariant
                n == s@.len(),
                m == pattern@.len(),
                m > 0,
                chars@ == s@,
                pattern_chars@ == pattern@,
                at <= n,
                strip_leading(s@, pattern@) == strip_leading(s@.skip(at as int), pattern@),
            decreases n - at,
        {
            assert(s@.skip(at as int).skip(m as int) =~= s@.skip(at + m));
            at = at + m;
        }
    }
    assert(s@.subrange(at as int, n as int) =~= s@.skip(at as int));
    s.substring_char(at, n).to_owned()
}

} // verus!
