//! URL validation: a request URL must be an absolute URL with a supported
//! scheme. The accepted shape is `http://` or `https://` followed by a
//! non-empty authority, with every character a visible ASCII character
//! (no spaces, no control characters). An empty string, a string without
//! a scheme, or one with a forbidden character is rejected.

use vstd::prelude::*;

verus! {

/// A character that may appear in a URL: visible ASCII.
pub open spec fn url_char(c: char) -> bool {
    '!' <= c && c <= '~'
}

/// Whether `p` is a prefix of `s`.
pub open spec fn starts_with(s: Seq<char>, p: Seq<char>) -> bool {
    s.len() >= p.len() && s.subrange(0, p.len() as int) == p
}

/// Whether `s` is a well-formed absolute URL: a supported scheme
/// (`http://` or `https://`), a non-empty authority right after it, and
/// only visible ASCII characters throughout.
pub open spec fn url_wf(s: Seq<char>) -> bool {
    &&& (forall|i: int| 0 <= i < s.len() ==> url_char(#[trigger] s[i]))
    &&& {
        ||| (starts_with(s, "http://"@) && s.len() > "http://"@.len() && s[
            "http://"@.len() as int
        ] != '/')
        ||| (starts_with(s, "https://"@) && s.len() > "https://"@.len() && s[
            "https://"@.len() as int
        ] != '/')
    }
}

/// Whether `p` is a prefix of `s`, character by character.
pub fn has_prefix(s: &str, p: &str) -> (r: bool)
    ensures
        r == starts_with(s@, p@),
{
    let n = s.unicode_len();
    let m = p.unicode_len();
    if n < m {
        return false;
    }
    let mut i: usize = 0;
    while i < m
        invariant
            i <= m,
            m <= n,
            n == s@.len(),
            m == p@.len(),
            forall|j: int| 0 <= j < i ==> s@[j] == p@[j],
        decreases m - i,
    {
        if s.get_char(i) != p.get_char(i) {
            proof {
                if starts_with(s@, p@) {
                    assert(s@.subrange(0, p@.len() as int)[i as int] == p@[i as int]);
                }
            }
            return false;
        }
        i = i + 1;
    }
    assert(s@.subrange(0, p@.len() as int) =~= p@);
    true
}

/// Decides `url_wf` for a URL given as text.
pub fn check_url(s: &str) -> (r: bool)
    ensures
        r == url_wf(s@),
{
    proof {
        reveal_strlit("http://");
        reveal_strlit("https://");
    }
    let n = s.unicode_len();
    let mut i: usize = 0;
    while i < n
        invariant
            i <= n,
            n == s@.len(),
            forall|j: int| 0 <= j < i ==> url_char(#[trigger] s@[j]),
        decreases n - i,
    {
        let c = s.get_char(i);
        if !('!' <= c && c <= '~') {
            assert(!url_char(s@[i as int]));
            return false;
        }
        i = i + 1;
    }
    if has_prefix(s, "http://") {
        proof {
            assert(s@.subrange(0, 7)[4] == s@[4]);
            if starts_with(s@, "https://"@) {
                assert(s@.subrange(0, 8)[4] == s@[4]);
            }
        }
        n > 7 && s.get_char(7) != '/'
    } else if has_prefix(s, "https://") {
        n > 8 && s.get_char(8) != '/'
    } else {
        false
    }
}

} // verus!
