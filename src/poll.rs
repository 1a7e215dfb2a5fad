use vstd::prelude::*;
use vstd::string::*;

use crate::config::ProviderConfig;
use crate::error::FlowError;
use crate::grant::{
    device_code_outcome, is_success, is_success_status, DeviceCodeFields, DeviceCodeGrant,
    DeviceCodeReply,
};

verus! {

/// Grant type of the device authorization flow.
pub const DEVICE_CODE_GRANT_TYPE: &'static str = "urn:ietf:params:oauth:grant-type:device_code";

/// Error code of a poll made before the user approved.
pub const AUTHORIZATION_PENDING: &'static str = "authorization_pending";

/// Error code of a poll made after the grant lapsed.
pub const EXPIRED_TOKEN: &'static str = "expired_token";

/// Description used when the provider reports an error without one.
pub const NO_DESCRIPTION: &'static str = "No description";

/// Description used when a reply holds neither a token nor an error.
pub const UNKNOWN_RESPONSE: &'static str = "Unknown error response";

/// The fields of a decoded token-endpoint reply, each present or not.
pub struct TokenFields {
    pub access_token: Option<String>,
    pub error: Option<String>,
    pub error_description: Option<String>,
}

/// What came back from one poll of the token endpoint.
pub enum TokenReply {
    /// No reply: the transport failed, with its description.
    Transport(String),
    /// A reply: its status, its body as text, and the body decoded as JSON
    /// (or why it could not be).
    Response { status: u16, body: String, fields: Result<TokenFields, String> },
}

/// What the polling loop does after a reply.
#[derive(Debug, PartialEq, Eq)]
pub enum PollAction {
    /// Sleep this many seconds, then poll again with the same grant.
    Wait { secs: u64 },
    /// Stop: the token, or the error that ends the flow.
    Finish(Result<String, FlowError>),
}

/// The body sent to the token endpoint, and where.
#[derive(Debug, Clone, PartialEq, Eq)]
pub struct TokenRequest {
    pub url: String,
    pub client_id: String,
    pub device_code: String,
    pub grant_type: String,
}

/// `a` ends the flow with a provider error whose description is `desc`.
pub open spec fn is_provider_error(a: PollAction, desc: Seq<char>) -> bool {
    &&& a is Finish
    &&& a->Finish_0 is Err
    &&& a->Finish_0->Err_0 is Provider
    &&& a->Finish_0->Err_0->Provider_0@ == desc
}

/// What decoded token fields call for. A token ends the flow with success,
/// whatever else the reply holds. A pending authorization waits `interval`
/// seconds. A lapsed grant ends with `Expired`. Any other error code ends with
/// the provider's description, or a fixed text when it gave none; so does a
/// reply with neither a token nor an error.
pub open spec fn fields_action(interval: u64, f: TokenFields, a: PollAction) -> bool {
    match f.access_token {
        Some(token) => a == PollAction::Finish(Ok(token)),
        None => match f.error {
            Some(code) => {
                if code@ == AUTHORIZATION_PENDING@ {
                    a == PollAction::Wait { secs: interval }
                } else if code@ == EXPIRED_TOKEN@ {
                    a == PollAction::Finish(Err(FlowError::Expired))
                } else {
                    match f.error_description {
                        Some(desc) => a == PollAction::Finish(Err(FlowError::Provider(desc))),
                        None => is_provider_error(a, NO_DESCRIPTION@),
                    }
                }
            },
            None => is_provider_error(a, UNKNOWN_RESPONSE@),
        },
    }
}

/// What a reply of the token endpoint calls for, when the grant asks for
/// `interval` seconds between polls. Only a pending authorization continues
/// the loop; a failed transport, a status outside 2xx and an undecodable body
/// each end it.
pub open spec fn poll_outcome(interval: u64, reply: TokenReply, a: PollAction) -> bool {
    match reply {
        TokenReply::Transport(msg) => a == PollAction::Finish(Err(FlowError::Transport(msg))),
        TokenReply::Response { status, body, fields } => {
            if !is_success_status(status) {
                a == PollAction::Finish(Err(FlowError::Rejected { status, body }))
            } else {
                match fields {
                    Err(msg) => a == PollAction::Finish(Err(FlowError::Parse(msg))),
                    Ok(f) => fields_action(interval, f, a),
                }
            }
        },
    }
}

/// The request that polls for the token of `grant`: its device code and no
/// other, with the configured client, sent to the configured token endpoint.
pub open spec fn is_token_request(config: ProviderConfig, grant: DeviceCodeGrant, r: TokenRequest) -> bool {
    &&& r.url == config.token_url
    &&& r.client_id == config.client_id
    &&& r.device_code == grant.device_code
    &&& r.grant_type@ == DEVICE_CODE_GRANT_TYPE@
}

/// Builds the body of a poll for `grant`.
pub fn token_request(config: &ProviderConfig, grant: &DeviceCodeGrant) -> (r: TokenRequest)
    ensures
        is_token_request(*config, *grant, r),
{
    TokenRequest {
        url: config.token_url.clone(),
        client_id: config.client_id.clone(),
        device_code: grant.device_code.clone(),
        grant_type: String::from_str(DEVICE_CODE_GRANT_TYPE),
    }
}

fn provider_error(desc: &str) -> (a: PollAction)
    ensures
        is_provider_error(a, desc@),
{
    PollAction::Finish(Err(FlowError::Provider(String::from_str(desc))))
}

/// Decides what decoded token fields call for.
pub fn action_for_fields(interval: u64, f: TokenFields) -> (a: PollAction)
    ensures
        fields_action(interval, f, a),
{
    let TokenFields { access_token, error, error_description } = f;
    match access_token {
        Some(token) => PollAction::Finish(Ok(token)),
        None => match error {
            Some(code) => {
                if code == String::from_str(AUTHORIZATION_PENDING) {
                    PollAction::Wait { secs: interval }
                } else if code == String::from_str(EXPIRED_TOKEN) {
                    PollAction::Finish(Err(FlowError::Expired))
                } else {
                    match error_description {
                        Some(desc) => PollAction::Finish(Err(FlowError::Provider(desc))),
                        None => provider_error(NO_DESCRIPTION),
                    }
                }
            },
            None => provider_error(UNKNOWN_RESPONSE),
        },
    }
}

/// One step of the polling loop: from the grant being polled and the reply
/// to the last poll, whether to wait and poll again or to stop, and with what.
pub fn next_action(grant: &DeviceCodeGrant, reply: TokenReply) -> (a: PollAction)
    ensures
        poll_outcome(grant.interval, reply, a),
{
    match reply {
        TokenReply::Transport(msg) => PollAction::Finish(Err(FlowError::Transport(msg))),
        TokenReply::Response { status, body, fields } => {
            if !is_success(status) {
                PollAction::Finish(Err(FlowError::Rejected { status, body }))
            } else {
                match fields {
                    Err(msg) => PollAction::Finish(Err(FlowError::Parse(msg))),
                    Ok(f) => action_for_fields(grant.interval, f),
                }
            }
        },
    }
}

/// A successful reply that holds an access token ends the flow at once with
/// that token: no wait comes before it.
pub proof fn lemma_token_ends_flow(
    interval: u64,
    status: u16,
    body: String,
    f: TokenFields,
    a: PollAction,
)
    requires
        is_success_status(status),
        f.access_token is Some,
        poll_outcome(interval, TokenReply::Response { status, body, fields: Ok(f) }, a),
    ensures
        a == PollAction::Finish(Ok(f.access_token->Some_0)),
        !(a is Wait),
{
}

/// A pending authorization makes the loop wait exactly the grant's interval
/// and poll again; it never ends the flow.
pub proof fn lemma_pending_waits_interval(
    grant: DeviceCodeGrant,
    status: u16,
    body: String,
    f: TokenFields,
    a: PollAction,
)
    requires
        is_success_status(status),
        f.access_token is None,
        f.error is Some,
        f.error->Some_0@ == AUTHORIZATION_PENDING@,
        poll_outcome(grant.interval, TokenReply::Response { status, body, fields: Ok(f) }, a),
    ensures
        a == (PollAction::Wait { secs: grant.interval }),
        !(a is Finish),
{
}

/// A lapsed grant ends the flow with `Expired` on its first report: the loop
/// stops and makes no further request.
pub proof fn lemma_expired_ends_flow(
    interval: u64,
    status: u16,
    body: String,
    f: TokenFields,
    a: PollAction,
)
    requires
        is_success_status(status),
        f.access_token is None,
        f.error is Some,
        f.error->Some_0@ == EXPIRED_TOKEN@,
        poll_outcome(interval, TokenReply::Response { status, body, fields: Ok(f) }, a),
    ensures
        a == PollAction::Finish(Err(FlowError::Expired)),
{
    reveal_strlit("expired_token");
    reveal_strlit("authorization_pending");
    assert(EXPIRED_TOKEN@.len() != AUTHORIZATION_PENDING@.len());
}

/// Any other error code ends the flow with a provider error that carries the
/// provider's description verbatim, or the fixed text when there is none.
pub proof fn lemma_other_error_reported(
    interval: u64,
    status: u16,
    body: String,
    f: TokenFields,
    a: PollAction,
)
    requires
        is_success_status(status),
        f.access_token is None,
        f.error is Some,
        f.error->Some_0@ != AUTHORIZATION_PENDING@,
        f.error->Some_0@ != EXPIRED_TOKEN@,
        poll_outcome(interval, TokenReply::Response { status, body, fields: Ok(f) }, a),
    ensures
        f.error_description is Some ==> a == PollAction::Finish(
            Err(FlowError::Provider(f.error_description->Some_0)),
        ),
        f.error_description is None ==> is_provider_error(a, NO_DESCRIPTION@),
{
}

/// A status outside 2xx, at either endpoint, ends the flow with an error that
/// carries that status and the body text as they came.
pub proof fn lemma_rejection_reported(
    status: u16,
    body: String,
    device_fields: Result<DeviceCodeFields, String>,
    token_fields: Result<TokenFields, String>,
    interval: u64,
    g: Result<DeviceCodeGrant, FlowError>,
    a: PollAction,
)
    requires
        !is_success_status(status),
        device_code_outcome(DeviceCodeReply::Response { status, body, fields: device_fields }, g),
        poll_outcome(interval, TokenReply::Response { status, body, fields: token_fields }, a),
    ensures
        g == Err::<DeviceCodeGrant, FlowError>(FlowError::Rejected { status, body }),
        a == PollAction::Finish(Err(FlowError::Rejected { status, body })),
{
}

/// Polls are bound to the grant they are built from: with an earlier and a
/// later grant at hand, each poll carries its own grant's device code, so two
/// grants with different codes never yield the same poll body.
pub proof fn lemma_poll_bound_to_grant(
    config: ProviderConfig,
    stale: DeviceCodeGrant,
    fresh: DeviceCodeGrant,
    r_stale: TokenRequest,
    r_fresh: TokenRequest,
)
    requires
        is_token_request(config, stale, r_stale),
        is_token_request(config, fresh, r_fresh),
    ensures
        r_stale.device_code == stale.device_code,
        r_fresh.device_code == fresh.device_code,
        stale.device_code@ != fresh.device_code@ ==> r_stale.device_code@ != r_fresh.device_code@,
{
}

} // verus!
