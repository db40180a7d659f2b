//! PKCE verifier/challenge generation: 64 random bytes, hex-encoded into a
//! 128-character verifier, whose SHA-256 digest, base64url-encoded without
//! padding, is the S256 challenge.

use vstd::prelude::*;
use crate::codec::{
    b64url_nopad_encode, b64url_nopad_of, hex_encode, is_b64url_char, is_hex_lower_char,
    lemma_b64url_nopad_chars, lemma_b64url_nopad_len, lemma_hex_lower_is_ascii,
    lemma_hex_of_chars, lemma_hex_of_len, random_bytes_64, sha256, sha256_of,
};

verus! {

/// The bytes of an ASCII string, character by character.
pub open spec fn ascii_bytes_of(s: Seq<char>) -> Seq<u8> {
    Seq::new(s.len(), |i: int| s[i] as u8)
}

/// The PKCE S256 challenge a verifier string derives: the SHA-256 digest of
/// the verifier's ASCII bytes, base64url-encoded without padding.
pub open spec fn pkce_challenge_of(verifier: Seq<char>) -> Seq<char> {
    b64url_nopad_of(sha256_of(ascii_bytes_of(verifier)))
}

/// Generates a PKCE pair: a random 128-character lowercase-hex verifier and
/// its derived S256 challenge, a 43-character base64url string without
/// `=` padding.
pub fn generate_pkce() -> (r: (String, String))
    ensures
        r.0@.len() == 128,
        forall|i: int| 0 <= i < r.0@.len() ==> is_hex_lower_char(#[trigger] r.0@[i]),
        r.1@ == pkce_challenge_of(r.0@),
        r.1@.len() == 43,
        forall|i: int|
            0 <= i < r.1@.len() ==> is_b64url_char(#[trigger] r.1@[i]) && r.1@[i] != '=',
{
    let random = random_bytes_64();
    let verifier = hex_encode(random.as_slice());
    proof {
        lemma_hex_of_len(random@);
        lemma_hex_of_chars(random@);
        lemma_hex_lower_is_ascii(verifier@);
        vstd::utf8::is_ascii_chars_encode_utf8(verifier@);
        assert(vstd::utf8::encode_utf8(verifier@) =~= ascii_bytes_of(verifier@));
    }
    let digest = sha256(verifier.as_str().as_bytes());
    let challenge = b64url_nopad_encode(digest.as_slice());
    proof {
        lemma_b64url_nopad_len(digest@);
        lemma_b64url_nopad_chars(digest@);
    }
    (verifier, challenge)
}

} // verus!
