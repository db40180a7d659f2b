//! Byte-level encodings the flow relies on: lowercase hex, base64url with
//! and without padding, percent-encoding for URL query values, and the
//! SHA-256 digest and random bytes behind PKCE.

use vstd::prelude::*;
use base64::Engine;
use rand::Rng;
use sha2::Digest;

verus! {

/// The sixteen lowercase hexadecimal digit characters, by value.
pub open spec fn hex_lower_digit(v: int) -> char {
    if v == 0 { '0' } else if v == 1 { '1' } else if v == 2 { '2' }
    else if v == 3 { '3' } else if v == 4 { '4' } else if v == 5 { '5' }
    else if v == 6 { '6' } else if v == 7 { '7' } else if v == 8 { '8' }
    else if v == 9 { '9' } else if v == 10 { 'a' } else if v == 11 { 'b' }
    else if v == 12 { 'c' } else if v == 13 { 'd' } else if v == 14 { 'e' }
    else { 'f' }
}

/// The sixteen uppercase hexadecimal digit characters, by value.
pub open spec fn hex_upper_digit(v: int) -> char {
    if v == 0 { '0' } else if v == 1 { '1' } else if v == 2 { '2' }
    else if v == 3 { '3' } else if v == 4 { '4' } else if v == 5 { '5' }
    else if v == 6 { '6' } else if v == 7 { '7' } else if v == 8 { '8' }
    else if v == 9 { '9' } else if v == 10 { 'A' } else if v == 11 { 'B' }
    else if v == 12 { 'C' } else if v == 13 { 'D' } else if v == 14 { 'E' }
    else { 'F' }
}

pub open spec fn is_hex_lower_char(c: char) -> bool {
    ('0' <= c && c <= '9') || ('a' <= c && c <= 'f')
}

/// Lowercase hexadecimal encoding: two digits for each byte, in order.
pub open spec fn hex_of(b: Seq<u8>) -> Seq<char>
    decreases b.len(),
{
    if b.len() == 0 {
        Seq::empty()
    } else {
        seq![hex_lower_digit(b[0] as int / 16), hex_lower_digit(b[0] as int % 16)]
            + hex_of(b.drop_first())
    }
}

pub proof fn lemma_hex_of_len(b: Seq<u8>)
    ensures
        hex_of(b).len() == 2 * b.len(),
    decreases b.len(),
{
    if b.len() > 0 {
        lemma_hex_of_len(b.drop_first());
    }
}

pub proof fn lemma_hex_of_chars(b: Seq<u8>)
    ensures
        forall|i: int| 0 <= i < hex_of(b).len() ==> is_hex_lower_char(#[trigger] hex_of(b)[i]),
    decreases b.len(),
{
    if b.len() > 0 {
        let rest = b.drop_first();
        lemma_hex_of_chars(rest);
        assert forall|i: int| 0 <= i < hex_of(b).len()
            implies is_hex_lower_char(#[trigger] hex_of(b)[i]) by {
            if i >= 2 {
                assert(hex_of(b)[i] == hex_of(rest)[i - 2]);
            }
        }
    }
}

/// Every lowercase hex digit is an ASCII character.
pub proof fn lemma_hex_lower_is_ascii(s: Seq<char>)
    requires
        forall|i: int| 0 <= i < s.len() ==> is_hex_lower_char(#[trigger] s[i]),
    ensures
        vstd::utf8::is_ascii_chars(s),
{
}

/// The 64 symbols of the URL-safe base64 alphabet, by value.
pub open spec fn b64url_alphabet() -> Seq<char> {
    "ABCDEFGHIJKLMNOPQRSTUVWXYZabcdefghijklmnopqrstuvwxyz0123456789-_"@
}

pub open spec fn b64url_char(v: int) -> char {
    b64url_alphabet()[v]
}

pub open spec fn is_b64url_char(c: char) -> bool {
    ('A' <= c && c <= 'Z') || ('a' <= c && c <= 'z') || ('0' <= c && c <= '9')
        || c == '-' || c == '_'
}

/// Base64 with the URL-safe alphabet and no trailing `=` padding: each group
/// of three bytes becomes four symbols; a final group of one or two bytes
/// becomes two or three symbols.
pub open spec fn b64url_nopad_of(b: Seq<u8>) -> Seq<char>
    decreases b.len(),
{
    if b.len() == 0 {
        Seq::empty()
    } else if b.len() == 1 {
        let x = b[0] as int;
        seq![b64url_char(x / 4), b64url_char((x % 4) * 16)]
    } else if b.len() == 2 {
        let x = b[0] as int;
        let y = b[1] as int;
        seq![
            b64url_char(x / 4),
            b64url_char((x % 4) * 16 + y / 16),
            b64url_char((y % 16) * 4),
        ]
    } else {
        let x = b[0] as int;
        let y = b[1] as int;
        let z = b[2] as int;
        seq![
            b64url_char(x / 4),
            b64url_char((x % 4) * 16 + y / 16),
            b64url_char((y % 16) * 4 + z / 64),
            b64url_char(z % 64),
        ] + b64url_nopad_of(b.skip(3))
    }
}

pub proof fn lemma_b64url_nopad_len(b: Seq<u8>)
    ensures
        b64url_nopad_of(b).len() == (4 * b.len() + 2) / 3,
    decreases b.len(),
{
    if b.len() > 2 {
        lemma_b64url_nopad_len(b.skip(3));
    }
}

pub proof fn lemma_b64url_char_valid(v: int)
    requires
        0 <= v < 64,
    ensures
        is_b64url_char(b64url_char(v)),
        b64url_char(v) != '=',
{
    reveal_strlit("ABCDEFGHIJKLMNOPQRSTUVWXYZabcdefghijklmnopqrstuvwxyz0123456789-_");
}

/// Every symbol of a base64url-no-pad encoding is in the URL-safe alphabet;
/// in particular none is an `=` padding character.
pub proof fn lemma_b64url_nopad_chars(b: Seq<u8>)
    ensures
        forall|i: int| 0 <= i < b64url_nopad_of(b).len()
            ==> is_b64url_char(#[trigger] b64url_nopad_of(b)[i])
                && b64url_nopad_of(b)[i] != '=',
    decreases b.len(),
{
    if b.len() == 0 {
    } else if b.len() == 1 {
        let x = b[0] as int;
        lemma_b64url_char_valid(x / 4);
        lemma_b64url_char_valid((x % 4) * 16);
    } else if b.len() == 2 {
        let x = b[0] as int;
        let y = b[1] as int;
        lemma_b64url_char_valid(x / 4);
        lemma_b64url_char_valid((x % 4) * 16 + y / 16);
        lemma_b64url_char_valid((y % 16) * 4);
    } else {
        let x = b[0] as int;
        let y = b[1] as int;
        let z = b[2] as int;
        lemma_b64url_char_valid(x / 4);
        lemma_b64url_char_valid((x % 4) * 16 + y / 16);
        lemma_b64url_char_valid((y % 16) * 4 + z / 64);
        lemma_b64url_char_valid(z % 64);
        let rest = b.skip(3);
        lemma_b64url_nopad_chars(rest);
        assert forall|i: int| 0 <= i < b64url_nopad_of(b).len()
            implies is_b64url_char(#[trigger] b64url_nopad_of(b)[i])
                && b64url_nopad_of(b)[i] != '=' by {
            if i >= 4 {
                assert(b64url_nopad_of(b)[i] == b64url_nopad_of(rest)[i - 4]);
            }
        }
    }
}

/// The characters that URL query-value encoding leaves as they are.
pub open spec fn is_unreserved(c: char) -> bool {
    ('A' <= c && c <= 'Z') || ('a' <= c && c <= 'z') || ('0' <= c && c <= '9')
        || c == '-' || c == '.' || c == '_' || c == '~'
}

/// Percent-encoding of one ASCII character.
pub open spec fn percent_encode_char(c: char) -> Seq<char> {
    if is_unreserved(c) {
        seq![c]
    } else {
        seq!['%', hex_upper_digit(c as int / 16), hex_upper_digit(c as int % 16)]
    }
}

/// Percent-encoding of an ASCII string: unreserved characters stand as they
/// are, every other character becomes `%` and two uppercase hex digits.
pub open spec fn percent_encode_of(s: Seq<char>) -> Seq<char>
    decreases s.len(),
{
    if s.len() == 0 {
        Seq::empty()
    } else {
        percent_encode_char(s[0]) + percent_encode_of(s.drop_first())
    }
}

/// A string of unreserved characters is its own percent-encoding.
pub proof fn lemma_percent_encode_unreserved(s: Seq<char>)
    requires
        forall|i: int| 0 <= i < s.len() ==> is_unreserved(#[trigger] s[i]),
    ensures
        percent_encode_of(s) == s,
    decreases s.len(),
{
    if s.len() == 0 {
        assert(percent_encode_of(s) =~= s);
    } else {
        lemma_percent_encode_unreserved(s.drop_first());
        assert(percent_encode_of(s) =~= s);
    }
}

/// Relies on hex::encode: each input byte becomes two lowercase hex digits,
/// in order.
#[verifier::external_body]
pub(crate) fn hex_encode(data: &[u8]) -> (r: String)
    ensures
        r@ == hex_of(data@),
{
    hex::encode(data)
}

/// Relies on base64's URL_SAFE_NO_PAD engine: base64 over the URL-safe
/// alphabet, without trailing `=` padding.
#[verifier::external_body]
pub(crate) fn b64url_nopad_encode(data: &[u8]) -> (r: String)
    ensures
        r@ == b64url_nopad_of(data@),
{
    base64::engine::general_purpose::URL_SAFE_NO_PAD.encode(data)
}

/// What base64's URL_SAFE engine decodes a given string to, `None` where it
/// rejects the string; a function of the string alone.
pub uninterp spec fn b64url_pad_decode(s: Seq<char>) -> Option<Seq<u8>>;

/// Relies on base64's URL_SAFE engine (canonical `=` padding required):
/// which strings decode, and to what bytes, depends on the string alone.
#[verifier::external_body]
pub(crate) fn b64url_pad_decode_exec(s: &str) -> (r: Option<Vec<u8>>)
    ensures
        r is Some <==> b64url_pad_decode(s@) is Some,
        r matches Some(v) ==> b64url_pad_decode(s@) matches Some(w) && v@ == w,
{
    match base64::engine::general_purpose::URL_SAFE.decode(s.as_bytes()) {
        Ok(v) => Some(v),
        Err(_) => None,
    }
}

/// The SHA-256 digest of a byte sequence; a function of the bytes alone.
pub uninterp spec fn sha256_of(data: Seq<u8>) -> Seq<u8>;

/// Relies on sha2::Sha256::digest: the digest depends on the input bytes
/// alone and is always 32 bytes long.
#[verifier::external_body]
pub(crate) fn sha256(data: &[u8]) -> (r: Vec<u8>)
    ensures
        r@ == sha256_of(data@),
        r@.len() == 32,
{
    sha2::Sha256::digest(data).to_vec()
}

/// Relies on rand::rng's fill_bytes: fills a buffer from the thread-local
/// cryptographically secure generator; nothing is promised of the values.
#[verifier::external_body]
pub(crate) fn random_bytes_64() -> (r: Vec<u8>)
    ensures
        r@.len() == 64,
{
    let mut buf = [0u8; 64];
    rand::rng().fill_bytes(&mut buf);
    buf.to_vec()
}

/// Relies on urlencoding::encode: percent-encodes every byte except ASCII
/// alphanumerics and `-`, `.`, `_`, `~`, with uppercase hex digits.
#[verifier::external_body]
pub(crate) fn percent_encode(s: &str) -> (r: String)
    ensures
        s.is_ascii() ==> r@ == percent_encode_of(s@),
{
    urlencoding::encode(s).into_owned()
}

} // verus!
