//! Identity-token claim decoding: an identity token is three dot-separated
//! segments; the middle one, right-padded with `=` to a multiple of four and
//! base64url-decoded, must be a JSON document.

use vstd::prelude::*;
use crate::{find_char, find_char_at};
use crate::codec::{b64url_pad_decode, b64url_pad_decode_exec};
use crate::json::{json_parse_check, json_parse_ok};

verus! {

/// The middle of the three dot-separated segments of `t`, or `None` where
/// `t` does not have exactly three.
pub open spec fn jwt_payload_segment(t: Seq<char>) -> Option<Seq<char>> {
    let d1 = find_char(t, 0, '.');
    if d1 >= t.len() {
        None
    } else {
        let d2 = find_char(t, d1 + 1, '.');
        if d2 >= t.len() {
            None
        } else if find_char(t, d2 + 1, '.') < t.len() {
            None
        } else {
            Some(t.subrange(d1 + 1, d2))
        }
    }
}

/// `s` right-padded with `=` to the next multiple of four in length.
pub open spec fn pad_base64(s: Seq<char>) -> Seq<char> {
    s + Seq::new(((4 - s.len() % 4) % 4) as nat, |i: int| '=')
}

/// The decoded claims payload of an identity token: the padded middle
/// segment must base64url-decode and the bytes must parse as JSON; `None`
/// on any failure.
pub open spec fn jwt_payload_of(t: Seq<char>) -> Option<Seq<u8>> {
    match jwt_payload_segment(t) {
        None => None,
        Some(p) => match b64url_pad_decode(pad_base64(p)) {
            None => None,
            Some(bytes) => if json_parse_ok(bytes) {
                Some(bytes)
            } else {
                None
            },
        },
    }
}

/// Decodes the claims payload of an identity token, returning the payload's
/// JSON text as bytes; `None` where the token does not have exactly three
/// segments, the padded middle segment does not base64url-decode, or the
/// decoded bytes are not JSON.
pub fn parse_jwt_claims(token: &str) -> (r: Option<Vec<u8>>)
    ensures
        r is Some <==> jwt_payload_of(token@) is Some,
        r matches Some(v) ==> jwt_payload_of(token@) matches Some(w) && v@ == w,
{
    let n: usize = token.unicode_len();
    let d1 = find_char_at(token, 0, '.');
    if d1 == n {
        return None;
    }
    let d2 = find_char_at(token, d1 + 1, '.');
    if d2 == n {
        return None;
    }
    let d3 = find_char_at(token, d2 + 1, '.');
    if d3 < n {
        return None;
    }
    let payload = token.substring_char(d1 + 1, d2);
    let mut padded = payload.to_owned();
    let rem: usize = payload.unicode_len() % 4;
    proof {
        reveal_strlit("=");
        reveal_strlit("==");
        reveal_strlit("===");
    }
    if rem == 1 {
        padded.append("===");
    } else if rem == 2 {
        padded.append("==");
    } else if rem == 3 {
        padded.append("=");
    }
    proof {
        assert(padded@ =~= pad_base64(payload@));
    }
    let decoded = match b64url_pad_decode_exec(padded.as_str()) {
        Some(v) => v,
        None => return None,
    };
    if json_parse_check(decoded.as_slice()) {
        Some(decoded)
    } else {
        None
    }
}

} // verus!
