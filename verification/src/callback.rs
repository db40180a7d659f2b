//! The loopback callback: extracting the `code` query parameter from the
//! first line of the inbound HTTP request, and the fixed HTTP 200 response
//! the browser is shown.

use vstd::prelude::*;
use crate::{find_char, find_char_at};
use crate::codec::hex_lower_digit;

verus! {

/// Unicode whitespace, as `char::is_whitespace` reports it.
pub open spec fn is_space(c: char) -> bool {
    c == ' ' || c == '\t' || c == '\n' || c == '\u{b}' || c == '\u{c}' || c == '\r'
        || c == '\u{85}' || c == '\u{a0}' || c == '\u{1680}'
        || ('\u{2000}' <= c && c <= '\u{200a}') || c == '\u{2028}' || c == '\u{2029}'
        || c == '\u{202f}' || c == '\u{205f}' || c == '\u{3000}'
}

/// Exec counterpart of `is_space`.
#[verifier::when_used_as_spec(is_space)]
pub fn is_space_exec(c: char) -> (r: bool)
    ensures
        r == is_space(c),
{
    c == ' ' || c == '\t' || c == '\n' || c == '\u{b}' || c == '\u{c}' || c == '\r'
        || c == '\u{85}' || c == '\u{a0}' || c == '\u{1680}'
        || ('\u{2000}' <= c && c <= '\u{200a}') || c == '\u{2028}' || c == '\u{2029}'
        || c == '\u{202f}' || c == '\u{205f}' || c == '\u{3000}'
}

/// First index `j >= from` holding a non-whitespace character, or `s.len()`.
pub open spec fn skip_spaces(s: Seq<char>, from: int) -> int
    decreases s.len() - from,
{
    if from < 0 || from >= s.len() {
        s.len() as int
    } else if is_space(s[from]) {
        skip_spaces(s, from + 1)
    } else {
        from
    }
}

/// First index `j >= from` holding a whitespace character, or `s.len()`.
pub open spec fn skip_token(s: Seq<char>, from: int) -> int
    decreases s.len() - from,
{
    if from < 0 || from >= s.len() {
        s.len() as int
    } else if is_space(s[from]) {
        from
    } else {
        skip_token(s, from + 1)
    }
}

/// The second whitespace-separated token of `s`, or `None` where `s` has
/// fewer than two tokens.
pub open spec fn second_token_of(s: Seq<char>) -> Option<Seq<char>> {
    let a = skip_spaces(s, 0);
    let b = skip_token(s, a);
    let c = skip_spaces(s, b);
    if c >= s.len() {
        None
    } else {
        Some(s.subrange(c, skip_token(s, c)))
    }
}

/// The value of the first `key=value` pair of the `&`-separated query `q`
/// whose key is `code`; the empty sequence where no such pair exists or the
/// matching pair has no `=`. The value ends at the pair's next `=` if it
/// holds a second one.
pub open spec fn code_from_query(q: Seq<char>) -> Seq<char>
    decreases q.len(),
    via code_from_query_decreases
{
    let amp = find_char(q, 0, '&');
    let kv = q.subrange(0, amp);
    let eq = find_char(kv, 0, '=');
    if kv.subrange(0, eq) == "code"@ {
        if eq >= kv.len() {
            Seq::empty()
        } else {
            kv.subrange(eq + 1, find_char(kv, eq + 1, '='))
        }
    } else if amp >= q.len() {
        Seq::empty()
    } else {
        code_from_query(q.subrange(amp + 1, q.len() as int))
    }
}

#[via_fn]
proof fn code_from_query_decreases(q: Seq<char>) {
    crate::lemma_find_char_bounds(q, 0, '&');
}

/// The authorization code carried by an HTTP request line: the `code` query
/// value of the second whitespace-separated token; empty where the line has
/// fewer than two tokens, the path has no query, or the query has no `code`.
pub open spec fn query_code_of(line: Seq<char>) -> Seq<char> {
    match second_token_of(line) {
        None => Seq::empty(),
        Some(path) => {
            let qm = find_char(path, 0, '?');
            if qm >= path.len() {
                Seq::empty()
            } else {
                code_from_query(path.subrange(qm + 1, path.len() as int))
            }
        },
    }
}

/// Exec counterpart of `skip_spaces`.
fn skip_spaces_exec(s: &str, from: usize) -> (r: usize)
    requires
        from <= s@.len(),
    ensures
        r == skip_spaces(s@, from as int),
        from <= r <= s@.len(),
{
    let n: usize = s.unicode_len();
    let mut i: usize = from;
    while i < n
        invariant
            from <= i <= n,
            n == s@.len(),
            skip_spaces(s@, from as int) == skip_spaces(s@, i as int),
        decreases n - i,
    {
        if !is_space_exec(s.get_char(i)) {
            return i;
        }
        i = i + 1;
    }
    n
}

/// Exec counterpart of `skip_token`.
fn skip_token_exec(s: &str, from: usize) -> (r: usize)
    requires
        from <= s@.len(),
    ensures
        r == skip_token(s@, from as int),
        from <= r <= s@.len(),
{
    let n: usize = s.unicode_len();
    let mut i: usize = from;
    while i < n
        invariant
            from <= i <= n,
            n == s@.len(),
            skip_token(s@, from as int) == skip_token(s@, i as int),
        decreases n - i,
    {
        if is_space_exec(s.get_char(i)) {
            return i;
        }
        i = i + 1;
    }
    n
}

/// Walks the `&`-separated pairs of `q` and returns the first `code` value.
fn code_from_query_exec(q: &str) -> (r: String)
    ensures
        r@ == code_from_query(q@),
{
    let mut rest: String = q.to_owned();
    loop
        invariant
            code_from_query(q@) == code_from_query(rest@),
        decreases rest@.len(),
    {
        let m: usize = rest.unicode_len();
        let amp = find_char_at(rest.as_str(), 0, '&');
        let kv = rest.as_str().substring_char(0, amp);
        let kl: usize = kv.unicode_len();
        let eq = find_char_at(kv, 0, '=');
        let key = kv.substring_char(0, eq).to_owned();
        if key == String::from_str("code") {
            if eq == kl {
                return String::new();
            }
            let vend = find_char_at(kv, eq + 1, '=');
            return kv.substring_char(eq + 1, vend).to_owned();
        }
        if amp == m {
            return String::new();
        }
        let next = rest.as_str().substring_char(amp + 1, m).to_owned();
        rest = next;
    }
}

/// Extracts the `code` query parameter's value from an HTTP request line of
/// the form `METHOD PATH VERSION`; returns the empty string where the line
/// is malformed or carries no code.
pub fn extract_query_code(request_line: &str) -> (r: String)
    ensures
        r@ == query_code_of(request_line@),
{
    let n: usize = request_line.unicode_len();
    let a = skip_spaces_exec(request_line, 0);
    let b = skip_token_exec(request_line, a);
    let c = skip_spaces_exec(request_line, b);
    if c == n {
        return String::new();
    }
    let d = skip_token_exec(request_line, c);
    let path = request_line.substring_char(c, d);
    let m: usize = path.unicode_len();
    let qm = find_char_at(path, 0, '?');
    if qm == m {
        return String::new();
    }
    let query = path.substring_char(qm + 1, m);
    code_from_query_exec(query)
}

/// The static HTML page the browser is shown after the callback.
pub open spec fn success_page() -> Seq<char> {
    "<html><body><h1>Login Successful</h1>You can close this window.</body></html>"@
}

/// The decimal digits of `n`, most significant first.
pub open spec fn dec_digits_of(n: nat) -> Seq<char>
    decreases n,
{
    if n < 10 {
        seq![hex_lower_digit(n as int)]
    } else {
        dec_digits_of(n / 10) + seq![hex_lower_digit((n % 10) as int)]
    }
}

/// An HTTP 200 response carrying `body` as `text/html`, with a
/// `Content-Length` header counting the body's characters (the page served
/// here is ASCII, so characters are bytes).
pub open spec fn http_ok_response_of(body: Seq<char>) -> Seq<char> {
    "HTTP/1.1 200 OK\r\nContent-Type: text/html\r\nContent-Length: "@
        + dec_digits_of(body.len()) + "\r\n\r\n"@ + body
}

/// The full response written back over the callback connection.
pub fn callback_response() -> (r: String)
    ensures
        r@ == http_ok_response_of(success_page()),
{
    let mut s = String::from_str("HTTP/1.1 200 OK\r\nContent-Type: text/html\r\nContent-Length: ");
    s.append("77");
    s.append("\r\n\r\n");
    s.append("<html><body><h1>Login Successful</h1>You can close this window.</body></html>");
    proof {
        reveal_strlit("<html><body><h1>Login Successful</h1>You can close this window.</body></html>");
        reveal_strlit("77");
        assert(success_page().len() == 77);
        assert(dec_digits_of(7nat) =~= seq!['7']);
        assert(dec_digits_of(77nat) =~= seq!['7', '7']);
        assert(dec_digits_of(77nat) =~= "77"@);
        assert(s@ =~= http_ok_response_of(success_page()));
    }
    s
}

} // verus!
