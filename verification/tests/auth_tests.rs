use git_pilot::auth::{
    device_code_info, device_code_request, poll_interval_secs, poll_step, token_poll_form,
    CopilotTokenManager, CopilotTokenResponse, DeviceCodeResponse, OAuthTokenResponse, PollStep,
};
use std::cell::Cell;

fn answer(access_token: Option<&str>, error: Option<&str>) -> OAuthTokenResponse {
    OAuthTokenResponse {
        access_token: access_token.map(|s| s.to_string()),
        token_type: None,
        error: error.map(|s| s.to_string()),
    }
}

#[test]
fn poll_answers_decide_the_next_step() {
    assert!(matches!(poll_step(answer(Some("tok"), None)), PollStep::Authorized(t) if t == "tok"));
    assert!(matches!(poll_step(answer(None, Some("authorization_pending"))), PollStep::Pending));
    assert!(matches!(poll_step(answer(None, Some("slow_down"))), PollStep::SlowDown));
    assert!(matches!(
        poll_step(answer(None, Some("expired_token"))),
        PollStep::Failed(m) if m == "OAuth error: expired_token"
    ));
    assert!(matches!(
        poll_step(answer(None, None)),
        PollStep::Failed(m) if m == "unexpected OAuth response"
    ));
    assert_eq!(poll_interval_secs(1), 5);
    assert_eq!(poll_interval_secs(9), 9);
}

#[test]
fn requests_of_the_device_flow() {
    let r = device_code_request();
    assert_eq!(r.client_id, "Iv1.b507a08c87ecfe98");
    assert_eq!(r.scope, "read:user");
    let form = token_poll_form("dev-code");
    assert_eq!(form[1], ("device_code".to_string(), "dev-code".to_string()));
    assert_eq!(form[2].1, "urn:ietf:params:oauth:grant-type:device_code");
    let info = device_code_info(&DeviceCodeResponse {
        device_code: "d".to_string(),
        user_code: "WXYZ-0000".to_string(),
        verification_uri: "https://example.test/login/device".to_string(),
        interval: 5,
    });
    assert_eq!(info.user_code, "WXYZ-0000");
}

#[test]
fn token_is_fetched_only_when_missing_or_expiring() {
    let calls = Cell::new(0);
    let mut manager = CopilotTokenManager::new("oauth".to_string());
    assert!(manager.needs_refresh(0));
    let fetch = |oauth: String| {
        calls.set(calls.get() + 1);
        assert_eq!(oauth, "oauth");
        Ok(CopilotTokenResponse { token: "jwt-1".to_string(), expires_at: 1_000 })
    };
    assert_eq!(manager.get_token(100, fetch), Ok("jwt-1".to_string()));
    assert_eq!(calls.get(), 1);
    // valid until 300 seconds before expiry
    assert!(!manager.needs_refresh(699));
    let unused = |_: String| -> Result<CopilotTokenResponse, String> { panic!("not fetched") };
    assert_eq!(manager.get_token(699, unused), Ok("jwt-1".to_string()));
    assert!(manager.needs_refresh(700));
    let failing = |_: String| -> Result<CopilotTokenResponse, String> { Err("offline".to_string()) };
    assert_eq!(manager.get_token(700, failing), Err("offline".to_string()));
    // a failed fetch keeps the old token
    let again = |_: String| Ok(CopilotTokenResponse { token: "jwt-2".to_string(), expires_at: 5_000 });
    assert_eq!(manager.get_token(700, again), Ok("jwt-2".to_string()));
    assert!(!manager.needs_refresh(4_699));
}
