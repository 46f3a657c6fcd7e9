//! Extraction of a download URL from an HTML interstitial page.
//!
//! Some download-info replies lead to a page that carries the final URL
//! textually, as an anchor of the form `href='http(s)://...'`.  The extractor
//! finds the leftmost such anchor and returns the quoted URL: the characters
//! from the scheme up to, not including, the next single quote, of which
//! there must be at least one after the scheme.

use vstd::prelude::*;
use vstd::string::StrSliceExecFns;

verus! {

/// The characters of `p` occur in `s` starting at index `i`.
pub open spec fn has_str_at(s: Seq<char>, i: int, p: Seq<char>) -> bool {
    0 <= i && i + p.len() <= s.len() && s.subrange(i, i + p.len()) == p
}

/// Length of the URL scheme found at index `j`: 8 for `https://`, 7 for
/// `http://`, 0 for neither.
pub open spec fn scheme_len_at(s: Seq<char>, j: int) -> int {
    if has_str_at(s, j, "https://"@) {
        8
    } else if has_str_at(s, j, "http://"@) {
        7
    } else {
        0
    }
}

/// Index of the first single quote at or after `k`, if any.
pub open spec fn first_quote_at_or_after(s: Seq<char>, k: int) -> Option<int>
    decreases s.len() - k,
    when 0 <= k <= s.len()
{
    if k >= s.len() {
        None
    } else if s[k] == '\'' {
        Some(k)
    } else {
        first_quote_at_or_after(s, k + 1)
    }
}

/// The URL captured by an anchor starting at index `i`, if a full anchor
/// stands there: `href='`, then a scheme, then at least one character before
/// the closing quote.
pub open spec fn anchor_match_at(s: Seq<char>, i: int) -> Option<Seq<char>> {
    if has_str_at(s, i, "href='"@) {
        let j = i + 6;
        let sl = scheme_len_at(s, j);
        if sl > 0 {
            match first_quote_at_or_after(s, j + sl) {
                Some(q) => if q > j + sl {
                    Some(s.subrange(j, q))
                } else {
                    None
                },
                None => None,
            }
        } else {
            None
        }
    } else {
        None
    }
}

/// The URL of the leftmost full anchor at or after index `i`, if any.
pub open spec fn find_anchor_from(s: Seq<char>, i: int) -> Option<Seq<char>>
    decreases s.len() - i,
    when 0 <= i <= s.len()
{
    if i >= s.len() {
        None
    } else if anchor_match_at(s, i) is Some {
        anchor_match_at(s, i)
    } else {
        find_anchor_from(s, i + 1)
    }
}

/// The URL the extractor finds in a page text: the leftmost full anchor's
/// capture.
pub open spec fn extracted_href(s: Seq<char>) -> Option<Seq<char>> {
    find_anchor_from(s, 0)
}

/// Whether the characters of `pat` occur in `s` at index `i`.
fn chars_match_at(s: &str, n: usize, i: usize, pat: &str) -> (b: bool)
    requires
        n == s@.len(),
        i <= n,
    ensures
        b == has_str_at(s@, i as int, pat@),
{
    let m = pat.unicode_len();
    if m > n - i {
        return false;
    }
    let mut k: usize = 0;
    while k < m
        invariant
            n == s@.len(),
            m == pat@.len(),
            i + m <= n,
            k <= m,
            forall|t: int| 0 <= t < k ==> s@[i + t] == pat@[t],
        decreases m - k,
    {
        if s.get_char(i + k) != pat.get_char(k) {
            proof {
                assert(s@.subrange(i as int, i + m as int)[k as int] == s@[i + k]);
            }
            return false;
        }
        k += 1;
    }
    proof {
        assert(s@.subrange(i as int, i + m as int) =~= pat@);
    }
    true
}

/// The capture bounds of a full anchor starting at index `i`, if one stands
/// there.
fn anchor_at(s: &str, n: usize, i: usize) -> (r: Option<(usize, usize)>)
    requires
        n == s@.len(),
        i < n,
    ensures
        match r {
            Some(ab) => {
                &&& anchor_match_at(s@, i as int) == Some(
                    s@.subrange(ab.0 as int, ab.1 as int),
                )
                &&& i <= ab.0 <= ab.1 <= n
            },
            None => anchor_match_at(s@, i as int) is None,
        },
{
    proof {
        reveal_strlit("href='");
        reveal_strlit("https://");
        reveal_strlit("http://");
    }
    if !chars_match_at(s, n, i, "href='") {
        return None;
    }
    let j = i + 6;
    let sl: usize = if chars_match_at(s, n, j, "https://") {
        8
    } else if chars_match_at(s, n, j, "http://") {
        7
    } else {
        return None;
    };
    let start = j + sl;
    let mut k: usize = start;
    while k < n
        invariant
            n == s@.len(),
            i < n,
            has_str_at(s@, i as int, "href='"@),
            "href='"@.len() == 6,
            j == i + 6,
            sl == scheme_len_at(s@, j as int),
            sl > 0,
            start == j + sl,
            start <= k <= n,
            first_quote_at_or_after(s@, start as int) == first_quote_at_or_after(s@, k as int),
        decreases n - k,
    {
        if s.get_char(k) == '\'' {
            proof {
                assert(first_quote_at_or_after(s@, k as int) == Some(k as int));
            }
            if k > start {
                return Some((j, k));
            } else {
                return None;
            }
        }
        proof {
            assert(first_quote_at_or_after(s@, k as int) == first_quote_at_or_after(
                s@,
                k as int + 1,
            ));
        }
        k += 1;
    }
    proof {
        assert(first_quote_at_or_after(s@, n as int) is None);
    }
    None
}

/// Find the leftmost anchor of the form `href='http(s)://...'` in a page
/// text and return its URL verbatim, if there is one.
pub fn extract_href_url(body: &str) -> (r: Option<String>)
    ensures
        match extracted_href(body@) {
            Some(u) => r matches Some(found) && found@ == u,
            None => r is None,
        },
{
    let n = body.unicode_len();
    let mut i: usize = 0;
    while i < n
        invariant
            n == body@.len(),
            i <= n,
            find_anchor_from(body@, 0) == find_anchor_from(body@, i as int),
        decreases n - i,
    {
        match anchor_at(body, n, i) {
            Some(ab) => {
                let url = body.substring_char(ab.0, ab.1);
                return Some(String::from_str(url));
            },
            None => {
                proof {
                    assert(find_anchor_from(body@, i as int) == find_anchor_from(
                        body@,
                        i as int + 1,
                    ));
                }
                i = i + 1;
            },
        }
    }
    None
}

} // verus!
