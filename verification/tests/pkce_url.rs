use base64::Engine;
use oauth_pkce::config::Config;
use oauth_pkce::pkce::generate_pkce;
use oauth_pkce::url::redirect_url_builder;
use sha2::Digest;

fn test_config() -> Config {
    Config {
        gpt_oauth_issuer: String::from("https://auth.example.com"),
        gpt_client_id: String::from("app_EMoamEEZ73f0CkXaXp7hrann"),
        gpt_scope: String::from("openid profile email offline_access"),
    }
}

#[test]
fn pkce_verifier_is_128_hex_chars() {
    let (verifier, _challenge) = generate_pkce();
    assert_eq!(verifier.len(), 128);
    assert!(verifier.chars().all(|c| c.is_ascii_hexdigit() && !c.is_ascii_uppercase()));
}

#[test]
fn pkce_challenge_is_base64url_of_sha256_of_verifier() {
    let (verifier, challenge) = generate_pkce();
    let digest = sha2::Sha256::digest(verifier.as_bytes());
    let expected = base64::engine::general_purpose::URL_SAFE_NO_PAD.encode(digest);
    assert_eq!(challenge, expected);
}

#[test]
fn pkce_challenge_is_padless_base64url() {
    let (_verifier, challenge) = generate_pkce();
    assert_eq!(challenge.len(), 43);
    assert!(!challenge.contains('='));
    assert!(challenge
        .chars()
        .all(|c| c.is_ascii_alphanumeric() || c == '-' || c == '_'));
}

#[test]
fn pkce_pairs_differ_between_calls() {
    let (v1, _) = generate_pkce();
    let (v2, _) = generate_pkce();
    assert_ne!(v1, v2);
}

#[test]
fn authorize_url_has_the_nine_parameters_in_order() {
    let cfg = test_config();
    let redirect = "http://localhost:1455/auth/callback";
    let (verifier, url) = redirect_url_builder(redirect, &cfg);
    let prefix = "https://auth.example.com/oauth/authorize?";
    assert!(url.starts_with(prefix));
    let query = &url[prefix.len()..];
    let pairs: Vec<(&str, &str)> = query
        .split('&')
        .map(|kv| {
            let mut it = kv.splitn(2, '=');
            (it.next().unwrap(), it.next().unwrap())
        })
        .collect();
    let keys: Vec<&str> = pairs.iter().map(|p| p.0).collect();
    assert_eq!(
        keys,
        vec![
            "response_type",
            "client_id",
            "redirect_uri",
            "scope",
            "code_challenge",
            "code_challenge_method",
            "state",
            "id_token_add_organizations",
            "codex_cli_simplified_flow",
        ]
    );
    assert_eq!(pairs[0].1, "code");
    assert_eq!(pairs[1].1, "app_EMoamEEZ73f0CkXaXp7hrann");
    assert_eq!(pairs[2].1, urlencoding::encode(redirect));
    assert_eq!(pairs[3].1, urlencoding::encode(&cfg.gpt_scope));
    assert_eq!(pairs[5].1, "S256");
    assert_eq!(pairs[7].1, "true");
    assert_eq!(pairs[8].1, "true");
    // the state parameter decodes to the verifier itself
    assert_eq!(urlencoding::decode(pairs[6].1).unwrap(), verifier);
    // the challenge parameter matches the verifier
    let digest = sha2::Sha256::digest(verifier.as_bytes());
    let expected = base64::engine::general_purpose::URL_SAFE_NO_PAD.encode(digest);
    assert_eq!(pairs[4].1, expected);
}
