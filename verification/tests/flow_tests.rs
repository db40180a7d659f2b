use base64::Engine;
use oauth_pkce::config::Config;
use oauth_pkce::flow::{FlowSession, FlowState};

fn test_config() -> Config {
    Config {
        gpt_oauth_issuer: String::from("https://auth.example.com"),
        gpt_client_id: String::from("app_EMoamEEZ73f0CkXaXp7hrann"),
        gpt_scope: String::from("openid profile email offline_access"),
    }
}

const ACCOUNT_PAYLOAD: &str = "{\"https://api.openai.com/auth\":{\"chatgpt_account_id\":\"acct_1\"}}";

fn make_token(payload_json: &str) -> String {
    let header = base64::engine::general_purpose::URL_SAFE_NO_PAD.encode(b"{\"alg\":\"none\"}");
    let payload = base64::engine::general_purpose::URL_SAFE_NO_PAD.encode(payload_json.as_bytes());
    format!("{}.{}.sig", header, payload)
}

#[test]
fn flow_runs_end_to_end_on_its_compute_side() {
    let mut session = FlowSession::new(
        test_config(),
        String::from("http://localhost:1455/auth/callback"),
    );
    assert!(matches!(session.state, FlowState::Idle));

    let url = session.build_url();
    assert!(matches!(session.state, FlowState::UrlBuilt));
    assert!(url.starts_with("https://auth.example.com/oauth/authorize?"));
    assert!(url.contains(&format!("state={}", session.verifier)));

    session.browser_opened(true);
    assert!(matches!(session.state, FlowState::BrowserOpened));

    let resp = session
        .callback_request(Some("GET /auth/callback?code=XYZ HTTP/1.1"))
        .unwrap();
    assert!(matches!(session.state, FlowState::CodeReceived));
    assert_eq!(session.code, "XYZ");
    assert!(resp.starts_with("HTTP/1.1 200 OK\r\n"));
    assert!(resp.contains("Login Successful"));

    let (endpoint, body) = session.token_request();
    assert_eq!(endpoint, "https://auth.example.com/oauth/token");
    assert!(body.contains("code=XYZ"));
    assert!(body.contains(&format!("code_verifier={}", session.verifier)));

    let id_token = make_token(ACCOUNT_PAYLOAD);
    let response_body = format!(
        "{{\"id_token\": \"{}\", \"access_token\": \"tok\", \"refresh_token\": \"ref\"}}",
        id_token
    );
    let data = session.exchange_response(200, &response_body).unwrap();
    assert!(matches!(session.state, FlowState::Done));
    assert_eq!(data.account_id, "acct_1");
    assert_eq!(data.access_token, "tok");
}

#[test]
fn failed_browser_launch_aborts_the_flow() {
    let mut session = FlowSession::new(test_config(), String::from("http://localhost:1455/cb"));
    session.build_url();
    session.browser_opened(false);
    assert!(matches!(session.state, FlowState::Failed));
}

#[test]
fn failed_accept_aborts_the_flow() {
    let mut session = FlowSession::new(test_config(), String::from("http://localhost:1455/cb"));
    session.build_url();
    session.browser_opened(true);
    let resp = session.callback_request(None);
    assert!(resp.is_none());
    assert!(matches!(session.state, FlowState::Failed));
}

#[test]
fn rejected_exchange_fails_the_flow() {
    let mut session = FlowSession::new(test_config(), String::from("http://localhost:1455/cb"));
    session.build_url();
    session.browser_opened(true);
    session.callback_request(Some("GET /cb?code=BAD HTTP/1.1"));
    let data = session.exchange_response(401, "{}");
    assert!(data.is_none());
    assert!(matches!(session.state, FlowState::Failed));
}
