//! Character-level string operations used by the parsers of this crate.
use vstd::prelude::*;

verus! {

/// Compares two string slices character by character.
pub fn str_equals(a: &str, b: &str) -> (r: bool)
    ensures
        r == (a@ == b@),
{
    let n = a.unicode_len();
    if n != b.unicode_len() {
        return false;
    }
    let mut i: usize = 0;
    while i < n
        invariant
            n == a@.len(),
            n == b@.len(),
            i <= n,
            forall|j: int| 0 <= j < i ==> a@[j] == b@[j],
        decreases n - i,
    {
        if a.get_char(i) != b.get_char(i) {
            return false;
        }
        i = i + 1;
    }
    assert(a@ =~= b@);
    true
}

/// Returns the rest of `s` after `prefix`, or `None` when `s` does not start
/// with `prefix`.
pub fn strip_prefix<'a>(s: &'a str, prefix: &str) -> (r: Option<&'a str>)
    ensures
        match r {
            Some(rest) => prefix@.is_prefix_of(s@) && rest@ == s@.skip(prefix@.len() as int),
            None => !prefix@.is_prefix_of(s@),
        },
{
    let n = s.unicode_len();
    let m = prefix.unicode_len();
    if m > n {
        return None;
    }
    let mut i: usize = 0;
    while i < m
        invariant
            n == s@.len(),
            m == prefix@.len(),
            m <= n,
            i <= m,
            forall|j: int| 0 <= j < i ==> prefix@[j] == s@[j],
        decreases m - i,
    {
        if s.get_char(i) != prefix.get_char(i) {
            assert(s@.subrange(0, m as int)[i as int] != prefix@[i as int]);
            return None;
        }
        i = i + 1;
    }
    assert(prefix@ =~= s@.subrange(0, m as int));
    let rest = s.substring_char(m, n);
    assert(rest@ =~= s@.skip(m as int));
    Some(rest)
}

/// Splits `s` around the first occurrence of `c`; `None` when `c` does not
/// occur in `s`.
pub fn split_once<'a>(s: &'a str, c: char) -> (r: Option<(&'a str, &'a str)>)
    ensures
        match s@.index_of_first(c) {
            Some(k) => r matches Some((before, after)) && before@ == s@.take(k) && after@
                == s@.skip(k + 1),
            None => r is None,
        },
{
    let n = s.unicode_len();
    let mut i: usize = 0;
    while i < n
        invariant
            n == s@.len(),
            i <= n,
            forall|j: int| 0 <= j < i ==> s@[j] != c,
        decreases n - i,
    {
        if s.get_char(i) == c {
            proof {
                s@.index_of_first_ensures(c);
                let k = s@.index_of_first(c)->0;
                assert(k == i as int) by {
                    if k < i as int {
                        assert(s@[k] != c);
                    } else if k > i as int {
                        assert(s@[i as int] == c);
                    }
                }
            }
            let before = s.substring_char(0, i);
            let after = s.substring_char(i + 1, n);
            assert(before@ =~= s@.take(i as int));
            assert(after@ =~= s@.skip(i + 1));
            return Some((before, after));
        }
        i = i + 1;
    }
    proof {
        s@.index_of_first_ensures(c);
        if s@.contains(c) {
            let j = choose|j: int| 0 <= j < s@.len() && s@[j] == c;
            assert(s@[j] != c);
        }
    }
    None
}

/// Whether every character of `s` is ASCII.
pub open spec fn is_ascii_chars(s: Seq<char>) -> bool {
    forall|i: int| 0 <= i < s.len() ==> (#[trigger] s[i] as u32) < 128
}

/// The lowercase of an ASCII character: 'A' to 'Z' become 'a' to 'z', every
/// other character stays.
pub open spec fn ascii_lower_char(c: char) -> char {
    if 65 <= c as u32 <= 90 {
        (c as u32 + 32) as char
    } else {
        c
    }
}

/// The ASCII lowercase of a string, character by character.
pub open spec fn ascii_lowercase(s: Seq<char>) -> Seq<char> {
    s.map_values(|c: char| ascii_lower_char(c))
}

/// ASCII lowercasing keeps a string ASCII, and lowercasing it again changes
/// nothing.
pub proof fn lemma_ascii_lowercase_idempotent(s: Seq<char>)
    requires
        is_ascii_chars(s),
    ensures
        is_ascii_chars(ascii_lowercase(s)),
        ascii_lowercase(ascii_lowercase(s)) == ascii_lowercase(s),
{
    let l = ascii_lowercase(s);
    assert forall|i: int| 0 <= i < l.len() implies (#[trigger] l[i] as u32) < 128 && ascii_lower_char(l[i]) == l[i] by {
        let c = s[i];
        assert((c as u32) < 128);
        if 65 <= c as u32 <= 90 {
            assert(l[i] as u32 == c as u32 + 32);
        }
    }
    assert(ascii_lowercase(l) =~= l);
}

/// What `str::to_lowercase` returns for a string: its lowercase mapping as
/// the Unicode tables define it, the same on every machine and in every locale.
pub uninterp spec fn lowercase(s: Seq<char>) -> Seq<char>;

/// Calls `str::to_lowercase`. The contract ties the result to the argument
/// through the name `lowercase`; the Unicode case tables themselves are not
/// written out here. Of an ASCII string it states the result: the Unicode
/// lowercase mapping, by which std documents the method, takes 'A' to 'Z' to
/// 'a' to 'z' and keeps every other ASCII character.
#[verifier::external_body]
pub(crate) fn to_lowercase(s: &str) -> (r: String)
    ensures
        r@ == lowercase(s@),
        is_ascii_chars(s@) ==> r@ == ascii_lowercase(s@),
{
    s.to_lowercase()
}

} // verus!
