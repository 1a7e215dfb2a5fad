use vstd::prelude::*;
use vstd::string::*;

use crate::config::ProviderConfig;
use crate::error::FlowError;

verus! {

/// Whether an HTTP status code reports success (the 2xx class).
pub open spec fn is_success_status(status: u16) -> bool {
    200 <= status && status <= 299
}

/// Tells a 2xx status from any other.
pub fn is_success(status: u16) -> (r: bool)
    ensures
        r == is_success_status(status),
{
    200 <= status && status <= 299
}

/// The device and user codes handed out for one run of the flow.
///
/// Made once from the provider's reply and never changed: every poll of the
/// token endpoint carries this grant's `device_code`.
#[derive(Debug, Clone, PartialEq, Eq)]
pub struct DeviceCodeGrant {
    /// Secret that names the authorization request; never shown to the user.
    pub device_code: String,
    /// Short code the user types at the verification page.
    pub user_code: String,
    /// Page the user visits to approve the request.
    pub verification_uri: String,
    /// Least number of seconds between two polls.
    pub interval: u64,
    /// Seconds until the grant lapses, when the provider says.
    pub expires_in: Option<u64>,
}

/// The fields of a decoded device-code reply, each present or not.
pub struct DeviceCodeFields {
    pub device_code: Option<String>,
    pub user_code: Option<String>,
    pub verification_uri: Option<String>,
    pub interval: Option<u64>,
    pub expires_in: Option<u64>,
}

/// What came back from the device-code endpoint.
pub enum DeviceCodeReply {
    /// No reply: the transport failed, with its description.
    Transport(String),
    /// A reply: its status, its body as text, and the body decoded as JSON
    /// (or why it could not be).
    Response { status: u16, body: String, fields: Result<DeviceCodeFields, String> },
}

/// The body sent to the device-code endpoint, and where.
#[derive(Debug, Clone, PartialEq, Eq)]
pub struct DeviceCodeRequest {
    pub url: String,
    pub client_id: String,
    pub scope: String,
}

/// Text of the parse error for a required field that a reply lacks.
pub open spec fn missing_field_message(name: Seq<char>) -> Seq<char> {
    "missing field `"@ + name + "`"@
}

/// `r` is the parse error for the required field `name`.
pub open spec fn is_missing_field(r: Result<DeviceCodeGrant, FlowError>, name: Seq<char>) -> bool {
    &&& r is Err
    &&& r->Err_0 is Parse
    &&& r->Err_0->Parse_0@ == missing_field_message(name)
}

/// What decoded device-code fields yield: the grant, field for field, when
/// every required field is there; else the parse error for the first one
/// missing, in the order device code, user code, verification page, interval.
pub open spec fn grant_outcome(f: DeviceCodeFields, r: Result<DeviceCodeGrant, FlowError>) -> bool {
    if f.device_code is None {
        is_missing_field(r, "device_code"@)
    } else if f.user_code is None {
        is_missing_field(r, "user_code"@)
    } else if f.verification_uri is None {
        is_missing_field(r, "verification_uri"@)
    } else if f.interval is None {
        is_missing_field(r, "interval"@)
    } else {
        r == Ok::<DeviceCodeGrant, FlowError>(
            DeviceCodeGrant {
                device_code: f.device_code->Some_0,
                user_code: f.user_code->Some_0,
                verification_uri: f.verification_uri->Some_0,
                interval: f.interval->Some_0,
                expires_in: f.expires_in,
            },
        )
    }
}

/// What a reply of the device-code endpoint yields. Nothing here is retried:
/// a failed transport, a status outside 2xx and an undecodable body each end
/// the flow before it starts.
pub open spec fn device_code_outcome(reply: DeviceCodeReply, r: Result<DeviceCodeGrant, FlowError>) -> bool {
    match reply {
        DeviceCodeReply::Transport(msg) => r == Err::<DeviceCodeGrant, FlowError>(
            FlowError::Transport(msg),
        ),
        DeviceCodeReply::Response { status, body, fields } => {
            if !is_success_status(status) {
                r == Err::<DeviceCodeGrant, FlowError>(FlowError::Rejected { status, body })
            } else {
                match fields {
                    Err(msg) => r == Err::<DeviceCodeGrant, FlowError>(FlowError::Parse(msg)),
                    Ok(f) => grant_outcome(f, r),
                }
            }
        },
    }
}

fn missing_field(name: &str) -> (r: Result<DeviceCodeGrant, FlowError>)
    ensures
        is_missing_field(r, name@),
{
    let msg = String::from_str("missing field `").concat(name).concat("`");
    Err(FlowError::Parse(msg))
}

/// Builds the grant from decoded fields, or reports the first required field
/// that is missing.
pub fn grant_from_fields(f: DeviceCodeFields) -> (r: Result<DeviceCodeGrant, FlowError>)
    ensures
        grant_outcome(f, r),
{
    let DeviceCodeFields { device_code, user_code, verification_uri, interval, expires_in } = f;
    let device_code = match device_code {
        Some(v) => v,
        None => return missing_field("device_code"),
    };
    let user_code = match user_code {
        Some(v) => v,
        None => return missing_field("user_code"),
    };
    let verification_uri = match verification_uri {
        Some(v) => v,
        None => return missing_field("verification_uri"),
    };
    let interval = match interval {
        Some(v) => v,
        None => return missing_field("interval"),
    };
    Ok(DeviceCodeGrant { device_code, user_code, verification_uri, interval, expires_in })
}

/// Turns the device-code endpoint's reply into the grant of this flow, or
/// into the error that stops it.
pub fn grant_from_reply(reply: DeviceCodeReply) -> (r: Result<DeviceCodeGrant, FlowError>)
    ensures
        device_code_outcome(reply, r),
{
    match reply {
        DeviceCodeReply::Transport(msg) => Err(FlowError::Transport(msg)),
        DeviceCodeReply::Response { status, body, fields } => {
            if !is_success(status) {
                Err(FlowError::Rejected { status, body })
            } else {
                match fields {
                    Err(msg) => Err(FlowError::Parse(msg)),
                    Ok(f) => grant_from_fields(f),
                }
            }
        },
    }
}

/// The request that asks for a device code: the configured client and scope,
/// sent to the configured device-code endpoint.
pub fn device_code_request(config: &ProviderConfig) -> (r: DeviceCodeRequest)
    ensures
        r.url == config.device_code_url,
        r.client_id == config.client_id,
        r.scope == config.scope,
{
    DeviceCodeRequest {
        url: config.device_code_url.clone(),
        client_id: config.client_id.clone(),
        scope: config.scope.clone(),
    }
}

/// The page to open for the user: the verification page with the user code
/// as its `user_code` query parameter.
pub fn browser_url(grant: &DeviceCodeGrant) -> (r: String)
    ensures
        r@ == grant.verification_uri@ + "?user_code="@ + grant.user_code@,
{
    grant.verification_uri.clone().concat("?user_code=").concat(grant.user_code.as_str())
}

/// A well-formed device-code reply yields a grant whose fields are exactly
/// the decoded ones; a reply without a device code, or without a user code,
/// is a parse error.
pub proof fn lemma_grant_matches_reply(
    status: u16,
    body: String,
    f: DeviceCodeFields,
    r: Result<DeviceCodeGrant, FlowError>,
)
    requires
        is_success_status(status),
        device_code_outcome(DeviceCodeReply::Response { status, body, fields: Ok(f) }, r),
    ensures
        f.device_code is None ==> r is Err && r->Err_0 is Parse,
        f.user_code is None ==> r is Err && r->Err_0 is Parse,
        f.device_code is Some && f.user_code is Some && f.verification_uri is Some
            && f.interval is Some ==> {
            &&& r is Ok
            &&& r->Ok_0.device_code == f.device_code->Some_0
            &&& r->Ok_0.user_code == f.user_code->Some_0
            &&& r->Ok_0.verification_uri == f.verification_uri->Some_0
            &&& r->Ok_0.interval == f.interval->Some_0
            &&& r->Ok_0.expires_in == f.expires_in
        },
{
}

} // verus!
