use base64::Engine;
use oauth_pkce::config::Config;
use oauth_pkce::jwt::parse_jwt_claims;
use oauth_pkce::token::{parse_token_response, token_endpoint_url, token_request_body};

fn test_config() -> Config {
    Config {
        gpt_oauth_issuer: String::from("https://auth.example.com"),
        gpt_client_id: String::from("app_EMoamEEZ73f0CkXaXp7hrann"),
        gpt_scope: String::from("openid profile email offline_access"),
    }
}

/// A three-segment token whose payload is the given JSON text.
fn make_token(payload_json: &str) -> String {
    let header = base64::engine::general_purpose::URL_SAFE_NO_PAD.encode(b"{\"alg\":\"none\"}");
    let payload = base64::engine::general_purpose::URL_SAFE_NO_PAD.encode(payload_json.as_bytes());
    format!("{}.{}.sig", header, payload)
}

const ACCOUNT_PAYLOAD: &str = "{\"https://api.openai.com/auth\":{\"chatgpt_account_id\":\"acct_1\"}}";

#[test]
fn claims_of_well_formed_token_decode() {
    let token = make_token(ACCOUNT_PAYLOAD);
    let claims = parse_jwt_claims(&token).unwrap();
    assert_eq!(claims, ACCOUNT_PAYLOAD.as_bytes());
}

#[test]
fn two_segment_token_fails_to_decode() {
    let payload = base64::engine::general_purpose::URL_SAFE_NO_PAD.encode(ACCOUNT_PAYLOAD.as_bytes());
    let token = format!("header.{}", payload);
    assert!(parse_jwt_claims(&token).is_none());
}

#[test]
fn four_segment_token_fails_to_decode() {
    let token = format!("{}.extra", make_token(ACCOUNT_PAYLOAD));
    assert!(parse_jwt_claims(&token).is_none());
}

#[test]
fn non_base64_payload_fails_to_decode() {
    assert!(parse_jwt_claims("aaa.!!!.ccc").is_none());
}

#[test]
fn empty_payload_segment_fails_to_decode() {
    assert!(parse_jwt_claims("h..s").is_none());
}

#[test]
fn payload_needing_three_pad_chars_fails_to_decode() {
    assert!(parse_jwt_claims("h.a.s").is_none());
}

#[test]
fn non_json_payload_fails_to_decode() {
    let payload = base64::engine::general_purpose::URL_SAFE_NO_PAD.encode(b"not json");
    let token = format!("h.{}.s", payload);
    assert!(parse_jwt_claims(&token).is_none());
}

#[test]
fn exchange_parses_a_full_response() {
    let id_token = make_token(ACCOUNT_PAYLOAD);
    let body = format!(
        "{{\"id_token\": \"{}\", \"access_token\": \"tok\", \"refresh_token\": \"ref\"}}",
        id_token
    );
    let data = parse_token_response(200, &body).unwrap();
    assert_eq!(data.id_token, id_token);
    assert_eq!(data.access_token, "tok");
    assert_eq!(data.refresh_token, "ref");
    assert_eq!(data.account_id, "acct_1");
}

#[test]
fn exchange_defaults_refresh_token_to_empty() {
    let id_token = make_token(ACCOUNT_PAYLOAD);
    let body = format!("{{\"id_token\": \"{}\", \"access_token\": \"tok\"}}", id_token);
    let data = parse_token_response(200, &body).unwrap();
    assert_eq!(data.refresh_token, "");
}

#[test]
fn exchange_tolerates_missing_account_claim() {
    let id_token = make_token("{\"sub\": \"user\"}");
    let body = format!(
        "{{\"id_token\": \"{}\", \"access_token\": \"tok\", \"refresh_token\": \"ref\"}}",
        id_token
    );
    let data = parse_token_response(200, &body).unwrap();
    assert_eq!(data.account_id, "");
}

#[test]
fn exchange_fails_on_non_200_status() {
    let id_token = make_token(ACCOUNT_PAYLOAD);
    let body = format!(
        "{{\"id_token\": \"{}\", \"access_token\": \"tok\", \"refresh_token\": \"ref\"}}",
        id_token
    );
    assert!(parse_token_response(401, &body).is_none());
}

#[test]
fn exchange_fails_without_id_token() {
    let body = "{\"access_token\": \"tok\", \"refresh_token\": \"ref\"}";
    assert!(parse_token_response(200, body).is_none());
}

#[test]
fn exchange_fails_without_access_token() {
    let id_token = make_token(ACCOUNT_PAYLOAD);
    let body = format!("{{\"id_token\": \"{}\"}}", id_token);
    assert!(parse_token_response(200, &body).is_none());
}

#[test]
fn exchange_fails_on_undecodable_id_token() {
    let body = "{\"id_token\": \"only.two\", \"access_token\": \"tok\"}";
    assert!(parse_token_response(200, body).is_none());
}

#[test]
fn exchange_fails_on_unparseable_body() {
    assert!(parse_token_response(200, "not json at all").is_none());
}

#[test]
fn token_endpoint_is_issuer_oauth_token() {
    let cfg = test_config();
    assert_eq!(token_endpoint_url(&cfg), "https://auth.example.com/oauth/token");
}

#[test]
fn token_request_body_is_exact() {
    let cfg = test_config();
    let body = token_request_body("XYZ", "abc123", "http://localhost:1455/auth/callback", &cfg);
    assert_eq!(
        body,
        "grant_type=authorization_code&code=XYZ\
         &redirect_uri=http%3A%2F%2Flocalhost%3A1455%2Fauth%2Fcallback\
         &client_id=app_EMoamEEZ73f0CkXaXp7hrann&code_verifier=abc123"
    );
}
