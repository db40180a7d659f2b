//! The token exchange, minus its network call: the form body and endpoint
//! URL of the POST, and the parsing of the token endpoint's response down
//! to the account identifier inside the identity token's claims.

use vstd::prelude::*;
use crate::codec::{percent_encode, percent_encode_of};
use crate::config::Config;
use crate::json::{json_nested_str, json_nested_str_exec, json_top_str, json_top_str_exec};
use crate::jwt::{jwt_payload_of, parse_jwt_claims};

verus! {

/// The tokens the flow returns to its caller.
#[derive(Debug, Clone)]
pub struct TokenData {
    pub id_token: String,
    pub access_token: String,
    pub refresh_token: String,
    pub account_id: String,
}

/// The mathematical content of a `TokenData`.
pub struct TokenDataView {
    pub id_token: Seq<char>,
    pub access_token: Seq<char>,
    pub refresh_token: Seq<char>,
    pub account_id: Seq<char>,
}

impl View for TokenData {
    type V = TokenDataView;

    open spec fn view(&self) -> TokenDataView {
        TokenDataView {
            id_token: self.id_token@,
            access_token: self.access_token@,
            refresh_token: self.refresh_token@,
            account_id: self.account_id@,
        }
    }
}

/// The namespaced outer key under which the provider stores its account
/// claims.
pub open spec fn account_claim_namespace() -> Seq<char> {
    "https://api.openai.com/auth"@
}

/// The inner claim naming the account identifier.
pub open spec fn account_claim_field() -> Seq<char> {
    "chatgpt_account_id"@
}

/// The account identifier inside a decoded claims payload; empty where the
/// nested claim is missing.
pub open spec fn account_id_of(claims: Seq<u8>) -> Seq<char> {
    json_nested_str(claims, account_claim_namespace(), account_claim_field())
}

/// The token endpoint of an issuer.
pub open spec fn token_endpoint_of(issuer: Seq<char>) -> Seq<char> {
    issuer + "/oauth/token"@
}

/// The form-encoded body of the token-exchange POST.
pub open spec fn token_request_body_of(
    code: Seq<char>,
    redirect_uri: Seq<char>,
    client_id: Seq<char>,
    verifier: Seq<char>,
) -> Seq<char> {
    "grant_type=authorization_code&code="@ + percent_encode_of(code)
        + "&redirect_uri="@ + percent_encode_of(redirect_uri)
        + "&client_id="@ + percent_encode_of(client_id)
        + "&code_verifier="@ + percent_encode_of(verifier)
}

/// The URL the token-exchange POST goes to.
pub fn token_endpoint_url(config: &Config) -> (r: String)
    ensures
        r@ == token_endpoint_of(config.gpt_oauth_issuer@),
{
    let mut url = config.gpt_oauth_issuer.clone();
    url.append("/oauth/token");
    url
}

/// Builds the form-encoded body of the token-exchange POST.
pub fn token_request_body(
    code: &str,
    code_verifier: &str,
    auth_redirect_url: &str,
    config: &Config,
) -> (r: String)
    ensures
        code.is_ascii() && auth_redirect_url.is_ascii() && config.gpt_client_id.is_ascii()
            && code_verifier.is_ascii() ==> r@ == token_request_body_of(
            code@,
            auth_redirect_url@,
            config.gpt_client_id@,
            code_verifier@,
        ),
{
    let mut body = String::from_str("grant_type=authorization_code&code=");
    let v = percent_encode(code);
    body.append(v.as_str());
    body.append("&redirect_uri=");
    let v = percent_encode(auth_redirect_url);
    body.append(v.as_str());
    body.append("&client_id=");
    let v = percent_encode(config.gpt_client_id.as_str());
    body.append(v.as_str());
    body.append("&code_verifier=");
    let v = percent_encode(code_verifier);
    body.append(v.as_str());
    proof {
        if code.is_ascii() && auth_redirect_url.is_ascii() && config.gpt_client_id.is_ascii()
            && code_verifier.is_ascii() {
            assert(body@ =~= token_request_body_of(
                code@,
                auth_redirect_url@,
                config.gpt_client_id@,
                code_verifier@,
            ));
        }
    }
    body
}

/// What the token endpoint's answer amounts to: `None` unless the status is
/// 200, the body is JSON with string values under `id_token` and
/// `access_token`, and the identity token's claims decode; `refresh_token`
/// defaults to empty, and a missing nested account claim leaves
/// `account_id` empty without failing the exchange.
pub open spec fn token_response_of(status: u16, body: Seq<char>) -> Option<TokenDataView> {
    if status != 200 {
        None
    } else {
        match json_top_str(body, "id_token"@) {
            None => None,
            Some(id) => match json_top_str(body, "access_token"@) {
                None => None,
                Some(at) => match jwt_payload_of(id) {
                    None => None,
                    Some(claims) => Some(TokenDataView {
                        id_token: id,
                        access_token: at,
                        refresh_token: match json_top_str(body, "refresh_token"@) {
                            None => Seq::empty(),
                            Some(rt) => rt,
                        },
                        account_id: account_id_of(claims),
                    }),
                },
            },
        }
    }
}

/// Parses the token endpoint's response into `TokenData`, exactly as
/// `token_response_of` describes it.
pub fn parse_token_response(status: u16, body: &str) -> (r: Option<TokenData>)
    ensures
        r is Some <==> token_response_of(status, body@) is Some,
        r matches Some(t) ==> token_response_of(status, body@) matches Some(v) && t@ == v,
{
    if status != 200 {
        return None;
    }
    let id_token = match json_top_str_exec(body, "id_token") {
        Some(s) => s,
        None => return None,
    };
    let access_token = match json_top_str_exec(body, "access_token") {
        Some(s) => s,
        None => return None,
    };
    let refresh_token = match json_top_str_exec(body, "refresh_token") {
        Some(s) => s,
        None => String::new(),
    };
    let claims = match parse_jwt_claims(id_token.as_str()) {
        Some(c) => c,
        None => return None,
    };
    let account_id = json_nested_str_exec(
        claims.as_slice(),
        "https://api.openai.com/auth",
        "chatgpt_account_id",
    );
    Some(TokenData { id_token, access_token, refresh_token, account_id })
}

} // verus!
