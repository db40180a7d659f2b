//! The flow orchestrator's decisions, separated from its I/O: a linear
//! state machine `Idle -> UrlBuilt -> BrowserOpened -> CodeReceived ->
//! Done`, where any step's failure moves straight to `Failed`. The caller
//! performs the browser launch, the listener accept and the token POST, and
//! feeds their outcomes back in.

use vstd::prelude::*;
use crate::callback::{callback_response, extract_query_code, http_ok_response_of, query_code_of, success_page};
use crate::codec::is_hex_lower_char;
use crate::config::Config;
use crate::pkce::pkce_challenge_of;
use crate::token::{
    parse_token_response, token_endpoint_of, token_endpoint_url, token_request_body,
    token_request_body_of, token_response_of, TokenData,
};
use crate::url::{authorize_url_of, redirect_url_builder};

verus! {

#[derive(Clone, Copy, PartialEq, Eq, Structural)]
pub enum FlowState {
    Idle,
    UrlBuilt,
    BrowserOpened,
    CodeReceived,
    Done,
    Failed,
}

/// One run of the flow: the fixed configuration and redirect URI, the PKCE
/// verifier bound to this run, the authorization code once received, and
/// where the run stands. The same `verifier` field feeds both the `state`
/// parameter of the authorization URL and the `code_verifier` field of the
/// token exchange, which binds the callback to the request that opened it.
pub struct FlowSession {
    pub config: Config,
    pub redirect_uri: String,
    pub verifier: String,
    pub code: String,
    pub state: FlowState,
}

impl FlowSession {
    /// A fresh run that has done nothing yet.
    pub fn new(config: Config, redirect_uri: String) -> (s: FlowSession)
        ensures
            s.state == FlowState::Idle,
            s.config == config,
            s.redirect_uri == redirect_uri,
    {
        FlowSession {
            config,
            redirect_uri,
            verifier: String::new(),
            code: String::new(),
            state: FlowState::Idle,
        }
    }

    /// Generates this run's PKCE pair and builds the authorization URL the
    /// caller is to open in the browser.
    pub fn build_url(&mut self) -> (url: String)
        requires
            old(self).state == FlowState::Idle,
        ensures
            final(self).state == FlowState::UrlBuilt,
            final(self).config == old(self).config,
            final(self).redirect_uri == old(self).redirect_uri,
            final(self).verifier@.len() == 128,
            forall|i: int|
                0 <= i < final(self).verifier@.len()
                    ==> is_hex_lower_char(#[trigger] final(self).verifier@[i]),
            final(self).redirect_uri.is_ascii() && final(self).config.gpt_client_id.is_ascii()
                && final(self).config.gpt_scope.is_ascii() ==> url@ == authorize_url_of(
                final(self).config.gpt_oauth_issuer@,
                final(self).config.gpt_client_id@,
                final(self).redirect_uri@,
                final(self).config.gpt_scope@,
                pkce_challenge_of(final(self).verifier@),
                final(self).verifier@,
            ),
    {
        let (verifier, url) = redirect_url_builder(self.redirect_uri.as_str(), &self.config);
        self.verifier = verifier;
        self.state = FlowState::UrlBuilt;
        url
    }

    /// Records whether the browser launch succeeded; a failed launch aborts
    /// the flow.
    pub fn browser_opened(&mut self, ok: bool)
        requires
            old(self).state == FlowState::UrlBuilt,
        ensures
            final(self).state == if ok {
                FlowState::BrowserOpened
            } else {
                FlowState::Failed
            },
            final(self).config == old(self).config,
            final(self).redirect_uri == old(self).redirect_uri,
            final(self).verifier == old(self).verifier,
    {
        self.state = if ok {
            FlowState::BrowserOpened
        } else {
            FlowState::Failed
        };
    }

    /// Takes the first line of the one inbound callback request, or `None`
    /// where accepting or reading it failed. On a line, extracts the
    /// authorization code and hands back the HTTP response to write; on a
    /// failure, aborts the flow.
    pub fn callback_request(&mut self, request_line: Option<&str>) -> (resp: Option<String>)
        requires
            old(self).state == FlowState::BrowserOpened,
        ensures
            final(self).config == old(self).config,
            final(self).redirect_uri == old(self).redirect_uri,
            final(self).verifier == old(self).verifier,
            match request_line {
                None => final(self).state == FlowState::Failed && resp is None,
                Some(line) => final(self).state == FlowState::CodeReceived
                    && final(self).code@ == query_code_of(line@)
                    && (resp matches Some(r) && r@ == http_ok_response_of(success_page())),
            },
    {
        match request_line {
            None => {
                self.state = FlowState::Failed;
                None
            },
            Some(line) => {
                self.code = extract_query_code(line);
                self.state = FlowState::CodeReceived;
                Some(callback_response())
            },
        }
    }

    /// The POST the caller is to send to the token endpoint: its URL and
    /// its form-encoded body, with this run's code and verifier.
    pub fn token_request(&self) -> (r: (String, String))
        requires
            self.state == FlowState::CodeReceived,
        ensures
            r.0@ == token_endpoint_of(self.config.gpt_oauth_issuer@),
            self.code.is_ascii() && self.redirect_uri.is_ascii()
                && self.config.gpt_client_id.is_ascii() && self.verifier.is_ascii()
                ==> r.1@ == token_request_body_of(
                self.code@,
                self.redirect_uri@,
                self.config.gpt_client_id@,
                self.verifier@,
            ),
    {
        let url = token_endpoint_url(&self.config);
        let body = token_request_body(
            self.code.as_str(),
            self.verifier.as_str(),
            self.redirect_uri.as_str(),
            &self.config,
        );
        (url, body)
    }

    /// Takes the token endpoint's status and body and finishes the flow:
    /// tokens on success, nothing on any failure.
    pub fn exchange_response(&mut self, status: u16, body: &str) -> (r: Option<TokenData>)
        requires
            old(self).state == FlowState::CodeReceived,
        ensures
            r is Some <==> token_response_of(status, body@) is Some,
            r matches Some(t) ==> token_response_of(status, body@) matches Some(v) && t@ == v,
            final(self).state == if r is Some {
                FlowState::Done
            } else {
                FlowState::Failed
            },
    {
        let r = parse_token_response(status, body);
        self.state = if r.is_some() {
            FlowState::Done
        } else {
            FlowState::Failed
        };
        r
    }
}

} // verus!
