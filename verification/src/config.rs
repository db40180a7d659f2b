//! Provider configuration: the issuer base URL, the client identifier and
//! the requested scope.

use vstd::prelude::*;

verus! {

pub struct Config {
    pub gpt_oauth_issuer: String,
    pub gpt_client_id: String,
    pub gpt_scope: String,
}

} // verus!
