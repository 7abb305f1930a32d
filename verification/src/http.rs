//! Decisions of the HTTP front door.

use vstd::prelude::*;

verus! {

/// The address of the development server behind a URL: the URL without a leading
/// `http://` or, failing that, `https://`.
pub open spec fn spec_proxy_target(url: Seq<char>) -> Seq<char> {
    if url.len() >= 7 && url.subrange(0, 7) == "http://"@ {
        url.subrange(7, url.len() as int)
    } else if url.len() >= 8 && url.subrange(0, 8) == "https://"@ {
        url.subrange(8, url.len() as int)
    } else {
        url
    }
}

/// Whether `s` starts with `prefix`.
pub fn starts_with(s: &str, prefix: &str) -> (r: bool)
    ensures
        r == (prefix@.len() <= s@.len() && s@.subrange(0, prefix@.len() as int) == prefix@),
{
    let n = s.unicode_len();
    let m = prefix.unicode_len();
    if m > n {
        return false;
    }
    let mut i: usize = 0;
    while i < m
        invariant
            n == s@.len(),
            m == prefix@.len(),
            m <= n,
            i <= m,
            forall|k: int| 0 <= k < i ==> s@[k] == prefix@[k],
        decreases m - i,
    {
        if s.get_char(i) != prefix.get_char(i) {
            assert(s@.subrange(0, m as int)[i as int] != prefix@[i as int]);
            return false;
        }
        i = i + 1;
    }
    assert(s@.subrange(0, m as int) =~= prefix@);
    true
}

/// The address of the development server behind `url`.
pub fn proxy_target(url: &str) -> (r: &str)
    ensures
        r@ == spec_proxy_target(url@),
{
    proof {
        reveal_strlit("http://");
        reveal_strlit("https://");
    }
    let n = url.unicode_len();
    if starts_with(url, "http://") {
        url.substring_char(7, n)
    } else if starts_with(url, "https://") {
        url.substring_char(8, n)
    } else {
        url
    }
}

} // verus!
