//! An interactive OAuth2 Authorization Code flow with PKCE for a desktop
//! application: PKCE verifier/challenge generation, authorization-URL
//! construction, parsing of the loopback callback request, and parsing of
//! the token endpoint's response, each with a verified contract.

use vstd::prelude::*;

pub mod callback;
pub mod codec;
pub mod config;
pub mod flow;
pub mod json;
pub mod jwt;
pub mod pkce;
pub mod token;
pub mod url;

verus! {

/// First index `j >= from` at which `c` occurs in `s`, or `s.len()` if none.
pub open spec fn find_char(s: Seq<char>, from: int, c: char) -> int
    decreases s.len() - from,
{
    if from < 0 || from >= s.len() {
        s.len() as int
    } else if s[from] == c {
        from
    } else {
        find_char(s, from + 1, c)
    }
}

pub proof fn lemma_find_char_bounds(s: Seq<char>, from: int, c: char)
    requires
        0 <= from <= s.len(),
    ensures
        from <= find_char(s, from, c) <= s.len(),
    decreases s.len() - from,
{
    if from < s.len() && s[from] != c {
        lemma_find_char_bounds(s, from + 1, c);
    }
}

/// Exec counterpart of `find_char`.
pub fn find_char_at(s: &str, from: usize, c: char) -> (r: usize)
    requires
        from <= s@.len(),
    ensures
        r == find_char(s@, from as int, c),
        from <= r <= s@.len(),
{
    let n: usize = s.unicode_len();
    let mut i: usize = from;
    while i < n
        invariant
            from <= i <= n,
            n == s@.len(),
            find_char(s@, from as int, c) == find_char(s@, i as int, c),
        decreases n - i,
    {
        if s.get_char(i) == c {
            return i;
        }
        i = i + 1;
    }
    n
}

} // verus!
