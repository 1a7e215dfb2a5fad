use vstd::prelude::*;
use vstd::string::*;

verus! {

/// Client identifier registered with the identity provider.
pub const CLIENT_ID: &'static str = "Iv1.b507a08c87ecfe98";

/// Endpoint that hands out device and user codes.
pub const DEVICE_CODE_URL: &'static str = "https://github.com/login/device/code";

/// Endpoint that is polled for the access token.
pub const ACCESS_TOKEN_URL: &'static str = "https://github.com/login/oauth/access_token";

/// Scope asked for with the device code.
pub const SCOPE: &'static str = "read:user";

/// Per-request timeout of the HTTP client, in seconds.
pub const REQUEST_TIMEOUT_SECS: u64 = 10;

/// User-agent header sent with every request.
pub const USER_AGENT: &'static str = "Rust OAuth Device Flow";

/// Who the flow talks to: the client's identity and the two endpoints.
pub struct ProviderConfig {
    pub client_id: String,
    pub device_code_url: String,
    pub token_url: String,
    pub scope: String,
}

impl ProviderConfig {
    /// The provider this flow is registered with.
    pub fn github() -> (r: ProviderConfig)
        ensures
            r.client_id@ == CLIENT_ID@,
            r.device_code_url@ == DEVICE_CODE_URL@,
            r.token_url@ == ACCESS_TOKEN_URL@,
            r.scope@ == SCOPE@,
    {
        ProviderConfig {
            client_id: String::from_str(CLIENT_ID),
            device_code_url: String::from_str(DEVICE_CODE_URL),
            token_url: String::from_str(ACCESS_TOKEN_URL),
            scope: String::from_str(SCOPE),
        }
    }
}

} // verus!
