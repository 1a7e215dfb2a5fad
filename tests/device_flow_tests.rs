use device_flow::config::{ProviderConfig, ACCESS_TOKEN_URL, CLIENT_ID, DEVICE_CODE_URL, SCOPE};
use device_flow::error::FlowError;
use device_flow::grant::{
    browser_url, device_code_request, grant_from_fields, grant_from_reply, is_success,
    DeviceCodeFields, DeviceCodeGrant, DeviceCodeReply,
};
use device_flow::poll::{
    action_for_fields, next_action, token_request, PollAction, TokenFields, TokenReply,
    DEVICE_CODE_GRANT_TYPE,
};

fn s(v: &str) -> String {
    v.to_string()
}

fn full_fields() -> DeviceCodeFields {
    DeviceCodeFields {
        device_code: Some(s("D")),
        user_code: Some(s("ABCD-1234")),
        verification_uri: Some(s("https://example.com/device")),
        interval: Some(5),
        expires_in: Some(900),
    }
}

fn grant(code: &str, interval: u64) -> DeviceCodeGrant {
    DeviceCodeGrant {
        device_code: s(code),
        user_code: s("ABCD-1234"),
        verification_uri: s("https://example.com/device"),
        interval,
        expires_in: Some(900),
    }
}

fn ok_device(fields: DeviceCodeFields) -> DeviceCodeReply {
    DeviceCodeReply::Response { status: 200, body: s("{}"), fields: Ok(fields) }
}

fn token_fields(access: Option<&str>, error: Option<&str>, desc: Option<&str>) -> TokenFields {
    TokenFields {
        access_token: access.map(s),
        error: error.map(s),
        error_description: desc.map(s),
    }
}

fn ok_token(fields: TokenFields) -> TokenReply {
    TokenReply::Response { status: 200, body: s("{}"), fields: Ok(fields) }
}

#[test]
fn grant_fields_match_reply() {
    let g = grant_from_reply(ok_device(full_fields())).unwrap();
    assert_eq!(g.device_code, "D");
    assert_eq!(g.user_code, "ABCD-1234");
    assert_eq!(g.verification_uri, "https://example.com/device");
    assert_eq!(g.interval, 5);
    assert_eq!(g.expires_in, Some(900));
}

#[test]
fn grant_without_expiry_is_accepted() {
    let mut f = full_fields();
    f.expires_in = None;
    let g = grant_from_fields(f).unwrap();
    assert_eq!(g.expires_in, None);
    assert_eq!(g.interval, 5);
}

#[test]
fn missing_device_code_is_parse_error() {
    let mut f = full_fields();
    f.device_code = None;
    assert_eq!(
        grant_from_reply(ok_device(f)),
        Err(FlowError::Parse(s("missing field `device_code`")))
    );
}

#[test]
fn missing_user_code_is_parse_error() {
    let mut f = full_fields();
    f.user_code = None;
    assert_eq!(
        grant_from_reply(ok_device(f)),
        Err(FlowError::Parse(s("missing field `user_code`")))
    );
}

#[test]
fn missing_uri_and_interval_are_parse_errors() {
    let mut f = full_fields();
    f.verification_uri = None;
    assert_eq!(
        grant_from_fields(f),
        Err(FlowError::Parse(s("missing field `verification_uri`")))
    );
    let mut f = full_fields();
    f.interval = None;
    assert_eq!(grant_from_fields(f), Err(FlowError::Parse(s("missing field `interval`"))));
}

#[test]
fn device_code_undecodable_body_is_parse_error() {
    let reply = DeviceCodeReply::Response {
        status: 200,
        body: s("not json"),
        fields: Err(s("expected value at line 1 column 1")),
    };
    assert_eq!(
        grant_from_reply(reply),
        Err(FlowError::Parse(s("expected value at line 1 column 1")))
    );
}

#[test]
fn device_code_transport_failure() {
    let reply = DeviceCodeReply::Transport(s("dns error"));
    assert_eq!(grant_from_reply(reply), Err(FlowError::Transport(s("dns error"))));
}

#[test]
fn device_code_rejected_carries_status_and_body() {
    let reply = DeviceCodeReply::Response {
        status: 404,
        body: s("Not Found"),
        fields: Err(s("expected value")),
    };
    assert_eq!(
        grant_from_reply(reply),
        Err(FlowError::Rejected { status: 404, body: s("Not Found") })
    );
}

#[test]
fn token_rejected_carries_status_and_body() {
    let reply = TokenReply::Response {
        status: 500,
        body: s("server down"),
        fields: Ok(token_fields(Some("T"), None, None)),
    };
    assert_eq!(
        next_action(&grant("D", 5), reply),
        PollAction::Finish(Err(FlowError::Rejected { status: 500, body: s("server down") }))
    );
}

#[test]
fn success_status_bounds() {
    assert!(!is_success(199));
    assert!(is_success(200));
    assert!(is_success(204));
    assert!(is_success(299));
    assert!(!is_success(300));
    assert!(!is_success(404));
}

#[test]
fn access_token_returned_at_once() {
    let a = next_action(&grant("D", 5), ok_token(token_fields(Some("T"), None, None)));
    assert_eq!(a, PollAction::Finish(Ok(s("T"))));
}

#[test]
fn access_token_wins_over_error() {
    let f = token_fields(Some("T"), Some("authorization_pending"), None);
    assert_eq!(action_for_fields(5, f), PollAction::Finish(Ok(s("T"))));
}

#[test]
fn pending_waits_interval() {
    let f = token_fields(None, Some("authorization_pending"), None);
    assert_eq!(next_action(&grant("D", 7), ok_token(f)), PollAction::Wait { secs: 7 });
}

#[test]
fn expired_token_ends_flow() {
    let f = token_fields(None, Some("expired_token"), Some("too late"));
    assert_eq!(next_action(&grant("D", 5), ok_token(f)), PollAction::Finish(Err(FlowError::Expired)));
}

#[test]
fn slow_down_carries_description() {
    let f = token_fields(None, Some("slow_down"), Some("Too many requests"));
    assert_eq!(
        next_action(&grant("D", 5), ok_token(f)),
        PollAction::Finish(Err(FlowError::Provider(s("Too many requests"))))
    );
}

#[test]
fn unknown_error_without_description_uses_placeholder() {
    let f = token_fields(None, Some("access_denied"), None);
    assert_eq!(
        next_action(&grant("D", 5), ok_token(f)),
        PollAction::Finish(Err(FlowError::Provider(s("No description"))))
    );
}

#[test]
fn reply_without_token_or_error() {
    let f = token_fields(None, None, None);
    assert_eq!(
        next_action(&grant("D", 5), ok_token(f)),
        PollAction::Finish(Err(FlowError::Provider(s("Unknown error response"))))
    );
}

#[test]
fn token_undecodable_body_is_parse_error() {
    let reply = TokenReply::Response { status: 200, body: s("<html>"), fields: Err(s("bad json")) };
    assert_eq!(
        next_action(&grant("D", 5), reply),
        PollAction::Finish(Err(FlowError::Parse(s("bad json"))))
    );
}

#[test]
fn token_transport_failure() {
    let reply = TokenReply::Transport(s("connection refused"));
    assert_eq!(
        next_action(&grant("D", 5), reply),
        PollAction::Finish(Err(FlowError::Transport(s("connection refused"))))
    );
}

#[test]
fn provider_config_constants() {
    let c = ProviderConfig::github();
    assert_eq!(c.client_id, CLIENT_ID);
    assert_eq!(c.client_id, "Iv1.b507a08c87ecfe98");
    assert_eq!(c.device_code_url, DEVICE_CODE_URL);
    assert_eq!(c.token_url, ACCESS_TOKEN_URL);
    assert_eq!(c.scope, SCOPE);
}

#[test]
fn device_code_request_uses_config() {
    let r = device_code_request(&ProviderConfig::github());
    assert_eq!(r.url, "https://github.com/login/device/code");
    assert_eq!(r.client_id, "Iv1.b507a08c87ecfe98");
    assert_eq!(r.scope, "read:user");
}

#[test]
fn poll_uses_only_its_own_grant() {
    let config = ProviderConfig::github();
    let stale = grant("OLD", 5);
    let fresh = grant("NEW", 5);
    let r_fresh = token_request(&config, &fresh);
    let r_stale = token_request(&config, &stale);
    assert_eq!(r_stale.device_code, "OLD");
    assert_eq!(r_fresh.device_code, "NEW");
    assert_eq!(r_stale.url, "https://github.com/login/oauth/access_token");
    assert_eq!(r_stale.grant_type, DEVICE_CODE_GRANT_TYPE);
    assert_eq!(r_stale.grant_type, "urn:ietf:params:oauth:grant-type:device_code");
}

#[test]
fn two_device_code_requests_give_independent_grants() {
    let first = grant_from_reply(ok_device(full_fields())).unwrap();
    let mut f = full_fields();
    f.device_code = Some(s("D2"));
    let second = grant_from_reply(ok_device(f)).unwrap();
    assert_eq!(first.device_code, "D");
    assert_eq!(second.device_code, "D2");
    let config = ProviderConfig::github();
    assert_eq!(token_request(&config, &first).device_code, "D");
}

#[test]
fn browser_url_adds_user_code() {
    assert_eq!(
        browser_url(&grant("D", 5)),
        "https://example.com/device?user_code=ABCD-1234"
    );
}

#[test]
fn end_to_end_one_wait_then_token() {
    let g = grant_from_reply(ok_device(full_fields())).unwrap();
    let config = ProviderConfig::github();
    let mut replies = vec![
        ok_token(token_fields(None, Some("authorization_pending"), None)),
        ok_token(token_fields(Some("gho_xyz"), None, None)),
    ]
    .into_iter();
    let mut waits: Vec<u64> = Vec::new();
    let mut polls = 0;
    let result = loop {
        let req = token_request(&config, &g);
        assert_eq!(req.device_code, "D");
        polls += 1;
        match next_action(&g, replies.next().unwrap()) {
            PollAction::Wait { secs } => waits.push(secs),
            PollAction::Finish(r) => break r,
        }
    };
    assert_eq!(result, Ok(s("gho_xyz")));
    assert_eq!(waits, vec![5]);
    assert_eq!(polls, 2);
}
