//! The authorization URL: `{issuer}/oauth/authorize?` followed by a fixed,
//! ordered set of nine query parameters, each value percent-encoded.

use vstd::prelude::*;
use crate::codec::{
    is_hex_lower_char, lemma_percent_encode_unreserved, percent_encode, percent_encode_of,
};
use crate::config::Config;
use crate::pkce::{generate_pkce, pkce_challenge_of};

verus! {

/// The query string of the authorization request: the nine parameters, in
/// order, each value percent-encoded.
pub open spec fn authorize_query_of(
    client_id: Seq<char>,
    redirect_uri: Seq<char>,
    scope: Seq<char>,
    challenge: Seq<char>,
    verifier: Seq<char>,
) -> Seq<char> {
    "response_type="@ + percent_encode_of("code"@)
        + "&client_id="@ + percent_encode_of(client_id)
        + "&redirect_uri="@ + percent_encode_of(redirect_uri)
        + "&scope="@ + percent_encode_of(scope)
        + "&code_challenge="@ + percent_encode_of(challenge)
        + "&code_challenge_method="@ + percent_encode_of("S256"@)
        + "&state="@ + percent_encode_of(verifier)
        + "&id_token_add_organizations="@ + percent_encode_of("true"@)
        + "&codex_cli_simplified_flow="@ + percent_encode_of("true"@)
}

/// The full authorization URL for a given configuration, redirect URI and
/// PKCE pair.
pub open spec fn authorize_url_of(
    issuer: Seq<char>,
    client_id: Seq<char>,
    redirect_uri: Seq<char>,
    scope: Seq<char>,
    challenge: Seq<char>,
    verifier: Seq<char>,
) -> Seq<char> {
    issuer + "/oauth/authorize?"@
        + authorize_query_of(client_id, redirect_uri, scope, challenge, verifier)
}

/// A lowercase-hex verifier consists of unreserved characters only, so the
/// `state` query value sent in the URL is the verifier itself: decoding the
/// `state` parameter gives back exactly the verifier.
pub proof fn lemma_state_equals_verifier(verifier: Seq<char>)
    requires
        forall|i: int| 0 <= i < verifier.len() ==> is_hex_lower_char(#[trigger] verifier[i]),
    ensures
        percent_encode_of(verifier) == verifier,
{
    lemma_percent_encode_unreserved(verifier);
}

/// Generates a PKCE pair and builds the authorization URL around it;
/// returns `(verifier, url)`.
pub fn redirect_url_builder(auth_redirect_url: &str, config: &Config) -> (r: (String, String))
    ensures
        r.0@.len() == 128,
        forall|i: int| 0 <= i < r.0@.len() ==> is_hex_lower_char(#[trigger] r.0@[i]),
        auth_redirect_url.is_ascii() && config.gpt_client_id.is_ascii()
            && config.gpt_scope.is_ascii() ==> r.1@ == authorize_url_of(
            config.gpt_oauth_issuer@,
            config.gpt_client_id@,
            auth_redirect_url@,
            config.gpt_scope@,
            pkce_challenge_of(r.0@),
            r.0@,
        ),
{
    let (verifier, challenge) = generate_pkce();
    proof {
        reveal_strlit("code");
        reveal_strlit("S256");
        reveal_strlit("true");
        assert(vstd::utf8::is_ascii_chars("code"@));
        assert(vstd::utf8::is_ascii_chars("S256"@));
        assert(vstd::utf8::is_ascii_chars("true"@));
        assert(vstd::utf8::is_ascii_chars(verifier@));
        assert(vstd::utf8::is_ascii_chars(challenge@));
    }
    let mut url = String::new();
    url.append(config.gpt_oauth_issuer.as_str());
    url.append("/oauth/authorize?");
    url.append("response_type=");
    let v = percent_encode("code");
    url.append(v.as_str());
    url.append("&client_id=");
    let v = percent_encode(config.gpt_client_id.as_str());
    url.append(v.as_str());
    url.append("&redirect_uri=");
    let v = percent_encode(auth_redirect_url);
    url.append(v.as_str());
    url.append("&scope=");
    let v = percent_encode(config.gpt_scope.as_str());
    url.append(v.as_str());
    url.append("&code_challenge=");
    let v = percent_encode(challenge.as_str());
    url.append(v.as_str());
    url.append("&code_challenge_method=");
    let v = percent_encode("S256");
    url.append(v.as_str());
    url.append("&state=");
    let v = percent_encode(verifier.as_str());
    url.append(v.as_str());
    url.append("&id_token_add_organizations=");
    let v = percent_encode("true");
    url.append(v.as_str());
    url.append("&codex_cli_simplified_flow=");
    let v = percent_encode("true");
    url.append(v.as_str());
    proof {
        if auth_redirect_url.is_ascii() && config.gpt_client_id.is_ascii()
            && config.gpt_scope.is_ascii() {
            assert(url@ =~= authorize_url_of(
                config.gpt_oauth_issuer@,
                config.gpt_client_id@,
                auth_redirect_url@,
                config.gpt_scope@,
                pkce_challenge_of(verifier@),
                verifier@,
            ));
        }
    }
    (verifier, url)
}

} // verus!
