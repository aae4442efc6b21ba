use copilot_auth::credential::CopilotCredential;
use copilot_auth::device_flow::{
    DeviceCodeReply, DeviceFlowClient, FlowRequest, FlowState, PollOutcome, TokenReply,
    EMPTY_ANSWER, SLOW_DOWN_STEP,
};
use copilot_auth::error::CopilotError;
use copilot_auth::oauth::{
    classify_error, CopilotOAuthState, GitHubAccessTokenResponse, GitHubDeviceCodeResponse,
    TokenErrorKind,
};

fn device_code(expires_in: u64, interval: u64) -> GitHubDeviceCodeResponse {
    GitHubDeviceCodeResponse {
        device_code: "D1".to_string(),
        user_code: "ABCD-1234".to_string(),
        verification_uri: "https://github.com/login/device".to_string(),
        expires_in,
        interval,
    }
}

fn answer(
    access_token: Option<&str>,
    error: Option<&str>,
    error_description: Option<&str>,
    interval: Option<u64>,
) -> TokenReply {
    TokenReply::Answer(GitHubAccessTokenResponse {
        access_token: access_token.map(|s| s.to_string()),
        token_type: access_token.map(|_| "bearer".to_string()),
        scope: None,
        error: error.map(|s| s.to_string()),
        error_description: error_description.map(|s| s.to_string()),
        interval,
    })
}

fn pending() -> TokenReply {
    answer(None, Some("authorization_pending"), None, None)
}

fn started(now: u64, expires_in: u64, interval: u64) -> DeviceFlowClient {
    let mut client = DeviceFlowClient::new("octocat".to_string());
    let shown = client.start(DeviceCodeReply::Issued(device_code(expires_in, interval)), now);
    assert_eq!(shown, Ok(device_code(expires_in, interval)));
    client
}

fn held(client: &DeviceFlowClient) -> CopilotOAuthState {
    client.state().held().expect("the flow holds its codes").clone()
}

#[test]
fn new_flow_is_idle() {
    let client = DeviceFlowClient::new("octocat".to_string());
    assert_eq!(*client.state(), FlowState::Idle);
    assert_eq!(client.github_user(), "octocat");
    assert!(!client.state().is_active());
    assert!(!client.state().is_terminal());
    assert!(client.state().held().is_none());
}

#[test]
fn start_sets_deadline_to_now_plus_expires_in() {
    let client = started(1_700_000_000, 900, 5);
    assert_eq!(
        *client.state(),
        FlowState::AwaitingUserCode(CopilotOAuthState {
            device_code: "D1".to_string(),
            user_code: "ABCD-1234".to_string(),
            verification_uri: "https://github.com/login/device".to_string(),
            expires_at: 1_700_000_900,
            interval: 5,
        })
    );
    assert!(client.state().is_active());
}

#[test]
fn start_with_zero_lifetime_and_zero_interval() {
    let client = started(42, 0, 0);
    assert_eq!(held(&client).expires_at, 42);
    assert_eq!(held(&client).interval, 0);
}

#[test]
fn start_reaches_largest_deadline() {
    let client = started(u64::MAX - 900, 900, 5);
    assert_eq!(held(&client).expires_at, u64::MAX);
}

#[test]
fn start_refuses_deadline_beyond_u64() {
    let mut client = DeviceFlowClient::new("octocat".to_string());
    let outcome = client.start(DeviceCodeReply::Issued(device_code(901, 5)), u64::MAX - 900);
    assert_eq!(outcome, Err(CopilotError::ProtocolError));
    assert_eq!(*client.state(), FlowState::Idle);
}

#[test]
fn start_unreachable_is_network_error_and_stays_idle() {
    let mut client = DeviceFlowClient::new("octocat".to_string());
    assert_eq!(client.start(DeviceCodeReply::Unreachable, 10), Err(CopilotError::NetworkError));
    assert_eq!(*client.state(), FlowState::Idle);
    let again = client.start(DeviceCodeReply::Issued(device_code(900, 5)), 11);
    assert_eq!(again, Ok(device_code(900, 5)));
}

#[test]
fn start_malformed_is_protocol_error_and_stays_idle() {
    let mut client = DeviceFlowClient::new("octocat".to_string());
    assert_eq!(client.start(DeviceCodeReply::Malformed, 10), Err(CopilotError::ProtocolError));
    assert_eq!(*client.state(), FlowState::Idle);
}

#[test]
fn start_twice_is_invalid_state() {
    let mut client = started(100, 900, 5);
    let before = held(&client);
    let outcome = client.start(DeviceCodeReply::Issued(device_code(10, 1)), 200);
    assert_eq!(outcome, Err(CopilotError::InvalidState));
    assert_eq!(*client.state(), FlowState::AwaitingUserCode(before));
}

#[test]
fn three_pending_polls_then_token_succeeds() {
    let mut client = started(1000, 900, 5);
    for step in 0..3u64 {
        let outcome = client.poll_once(pending(), 1005 + 5 * step);
        assert_eq!(outcome, Ok(PollOutcome::Wait(5)));
        assert!(matches!(client.state(), FlowState::Polling(_)));
    }
    let outcome = client.poll_once(answer(Some("ghu_xxx"), None, None, None), 1020);
    assert_eq!(
        outcome,
        Ok(PollOutcome::Authorized(CopilotCredential {
            github_token: "ghu_xxx".to_string(),
            github_user: "octocat".to_string(),
            created_at: 1020,
        }))
    );
    assert_eq!(*client.state(), FlowState::Succeeded);
    assert!(client.state().is_terminal());
    assert!(client.state().held().is_none());
}

#[test]
fn slow_down_with_interval_ten_waits_ten() {
    let mut client = started(1000, 900, 5);
    let outcome = client.poll_once(answer(None, Some("slow_down"), None, Some(10)), 1005);
    assert_eq!(outcome, Ok(PollOutcome::Wait(10)));
    assert_eq!(held(&client).interval, 10);
    assert_eq!(client.poll_once(pending(), 1015), Ok(PollOutcome::Wait(10)));
}

#[test]
fn slow_down_without_interval_adds_the_step() {
    assert_eq!(SLOW_DOWN_STEP, 5);
    let mut client = started(1000, 900, 7);
    let outcome = client.poll_once(answer(None, Some("slow_down"), None, None), 1005);
    assert_eq!(outcome, Ok(PollOutcome::Wait(12)));
    let outcome = client.poll_once(answer(None, Some("slow_down"), None, None), 1020);
    assert_eq!(outcome, Ok(PollOutcome::Wait(17)));
    assert_eq!(held(&client).interval, 17);
    assert_eq!(held(&client).expires_at, 1900);
}

#[test]
fn slow_down_ignores_a_shorter_interval_from_the_server() {
    let mut client = started(1000, 900, 5);
    let outcome = client.poll_once(answer(None, Some("slow_down"), None, Some(7)), 1005);
    assert_eq!(outcome, Ok(PollOutcome::Wait(10)));
}

#[test]
fn slow_down_takes_a_longer_interval_from_the_server() {
    let mut client = started(1000, 900, 5);
    let outcome = client.poll_once(answer(None, Some("slow_down"), None, Some(60)), 1005);
    assert_eq!(outcome, Ok(PollOutcome::Wait(60)));
}

#[test]
fn slow_down_stops_at_largest_interval() {
    let mut client = started(1000, 900, u64::MAX - 2);
    let outcome = client.poll_once(answer(None, Some("slow_down"), None, None), 1005);
    assert_eq!(outcome, Ok(PollOutcome::Wait(u64::MAX)));
    let outcome = client.poll_once(answer(None, Some("slow_down"), None, Some(3)), 1006);
    assert_eq!(outcome, Ok(PollOutcome::Wait(u64::MAX)));
}

#[test]
fn poll_at_deadline_expires_even_with_token() {
    let mut client = started(1000, 900, 5);
    let outcome = client.poll_once(answer(Some("ghu_xxx"), None, None, None), 1900);
    assert_eq!(outcome, Err(CopilotError::FlowExpired));
    assert_eq!(*client.state(), FlowState::Expired);
}

#[test]
fn poll_just_before_deadline_takes_token() {
    let mut client = started(1000, 900, 5);
    let outcome = client.poll_once(answer(Some("ghu_xxx"), None, None, None), 1899);
    assert!(matches!(outcome, Ok(PollOutcome::Authorized(_))));
    assert_eq!(*client.state(), FlowState::Succeeded);
}

#[test]
fn poll_after_deadline_expires_after_slow_downs() {
    let mut client = started(1000, 900, 5);
    for step in 0..4u64 {
        let reply = answer(None, Some("slow_down"), None, Some(1000 * (step + 1)));
        assert!(client.poll_once(reply, 1001 + step).is_ok());
    }
    assert_eq!(held(&client).expires_at, 1900);
    assert_eq!(client.poll_once(pending(), 2500), Err(CopilotError::FlowExpired));
    assert_eq!(*client.state(), FlowState::Expired);
}

#[test]
fn transport_failure_after_deadline_is_expired() {
    let mut client = started(1000, 900, 5);
    let outcome = client.poll_once(TokenReply::TransportFailure("timeout".to_string()), 5000);
    assert_eq!(outcome, Err(CopilotError::FlowExpired));
}

#[test]
fn expired_token_error_expires_the_flow() {
    let mut client = started(1000, 900, 5);
    let outcome = client.poll_once(answer(None, Some("expired_token"), None, None), 1005);
    assert_eq!(outcome, Err(CopilotError::FlowExpired));
    assert_eq!(*client.state(), FlowState::Expired);
}

#[test]
fn access_denied_denies_the_flow() {
    let mut client = started(1000, 900, 5);
    let outcome = client.poll_once(answer(None, Some("access_denied"), Some("no"), None), 1005);
    assert_eq!(outcome, Err(CopilotError::UserDenied));
    assert_eq!(*client.state(), FlowState::Denied);
}

#[test]
fn unknown_error_fails_with_description() {
    let mut client = started(1000, 900, 5);
    let reply = answer(None, Some("incorrect_client_credentials"), Some("bad client"), None);
    let outcome = client.poll_once(reply, 1005);
    assert_eq!(outcome, Err(CopilotError::FlowFailed("bad client".to_string())));
    assert_eq!(*client.state(), FlowState::Failed);
}

#[test]
fn unknown_error_without_description_fails_with_code() {
    let mut client = started(1000, 900, 5);
    let outcome = client.poll_once(answer(None, Some("unsupported_grant_type"), None, None), 1005);
    assert_eq!(outcome, Err(CopilotError::FlowFailed("unsupported_grant_type".to_string())));
}

#[test]
fn transport_failure_fails_with_its_reason() {
    let mut client = started(1000, 900, 5);
    let outcome = client.poll_once(TokenReply::TransportFailure("timeout".to_string()), 1005);
    assert_eq!(outcome, Err(CopilotError::FlowFailed("timeout".to_string())));
    assert_eq!(*client.state(), FlowState::Failed);
}

#[test]
fn empty_answer_fails_the_flow() {
    let mut client = started(1000, 900, 5);
    let outcome = client.poll_once(answer(None, None, None, None), 1005);
    assert_eq!(outcome, Err(CopilotError::FlowFailed(EMPTY_ANSWER.to_string())));
    assert_eq!(*client.state(), FlowState::Failed);
}

#[test]
fn empty_token_does_not_count_as_token() {
    let mut client = started(1000, 900, 5);
    let reply = answer(Some(""), Some("authorization_pending"), None, None);
    assert_eq!(client.poll_once(reply, 1005), Ok(PollOutcome::Wait(5)));
}

#[test]
fn token_wins_over_error() {
    let mut client = started(1000, 900, 5);
    let reply = answer(Some("ghu_both"), Some("access_denied"), None, None);
    let outcome = client.poll_once(reply, 1005);
    assert_eq!(
        outcome,
        Ok(PollOutcome::Authorized(CopilotCredential {
            github_token: "ghu_both".to_string(),
            github_user: "octocat".to_string(),
            created_at: 1005,
        }))
    );
}

#[test]
fn poll_before_start_is_invalid_state() {
    let mut client = DeviceFlowClient::new("octocat".to_string());
    assert_eq!(client.poll_once(pending(), 5), Err(CopilotError::InvalidState));
    assert_eq!(*client.state(), FlowState::Idle);
}

#[test]
fn poll_after_each_ending_is_invalid_state() {
    let endings = vec![
        (answer(Some("ghu_xxx"), None, None, None), FlowState::Succeeded),
        (answer(None, Some("expired_token"), None, None), FlowState::Expired),
        (answer(None, Some("access_denied"), None, None), FlowState::Denied),
        (answer(None, Some("other"), None, None), FlowState::Failed),
    ];
    for (reply, ending) in endings {
        let mut client = started(1000, 900, 5);
        let _ = client.poll_once(reply, 1005);
        assert_eq!(*client.state(), ending);
        let again = client.poll_once(answer(Some("ghu_late"), None, None, None), 1006);
        assert_eq!(again, Err(CopilotError::InvalidState));
        assert_eq!(*client.state(), ending);
    }
}

#[test]
fn cancel_releases_the_held_state() {
    let mut client = started(1000, 900, 5);
    assert!(client.cancel());
    assert_eq!(*client.state(), FlowState::Cancelled);
    assert!(client.state().held().is_none());
    assert_eq!(client.poll_once(pending(), 1005), Err(CopilotError::InvalidState));
    assert!(!client.cancel());
    assert_eq!(*client.state(), FlowState::Cancelled);
}

#[test]
fn cancel_of_idle_flow_blocks_start() {
    let mut client = DeviceFlowClient::new("octocat".to_string());
    assert!(client.cancel());
    let outcome = client.start(DeviceCodeReply::Issued(device_code(900, 5)), 10);
    assert_eq!(outcome, Err(CopilotError::InvalidState));
}

#[test]
fn cancel_keeps_a_finished_flow() {
    let mut client = started(1000, 900, 5);
    let _ = client.poll_once(answer(Some("ghu_xxx"), None, None, None), 1005);
    assert!(!client.cancel());
    assert_eq!(*client.state(), FlowState::Succeeded);
}

#[test]
fn interval_never_decreases_over_a_flow() {
    let mut client = started(0, 10_000, 5);
    let replies = vec![
        pending(),
        answer(None, Some("slow_down"), None, Some(3)),
        pending(),
        answer(None, Some("slow_down"), None, Some(40)),
        answer(None, Some("slow_down"), None, None),
        pending(),
    ];
    let expected = [5u64, 10, 10, 40, 45, 45];
    let mut last = 5u64;
    for (step, reply) in replies.into_iter().enumerate() {
        let outcome = client.poll_once(reply, step as u64);
        assert_eq!(outcome, Ok(PollOutcome::Wait(expected[step])));
        assert!(expected[step] >= last);
        last = expected[step];
    }
}

#[test]
fn error_codes_are_read_by_exact_spelling() {
    let kind = |code: &str| classify_error(&code.to_string());
    assert_eq!(kind("authorization_pending"), TokenErrorKind::AuthorizationPending);
    assert_eq!(kind("slow_down"), TokenErrorKind::SlowDown);
    assert_eq!(kind("expired_token"), TokenErrorKind::ExpiredToken);
    assert_eq!(kind("access_denied"), TokenErrorKind::AccessDenied);
    assert_eq!(kind("Slow_Down"), TokenErrorKind::Other);
    assert_eq!(kind(""), TokenErrorKind::Other);
}

#[test]
fn held_state_from_response() {
    let state = CopilotOAuthState::from_response(&device_code(900, 5), 100).unwrap();
    assert_eq!(state.expires_at, 1000);
    assert_eq!(state.interval, 5);
    assert_eq!(state.device_code, "D1");
    assert_eq!(state.user_code, "ABCD-1234");
    assert_eq!(state.verification_uri, "https://github.com/login/device");
    assert!(!state.is_expired(999));
    assert!(state.is_expired(1000));
    assert_eq!(CopilotOAuthState::from_response(&device_code(1, 5), u64::MAX), None);
}

#[test]
fn has_token_needs_a_populated_token() {
    let response = |token: Option<&str>| GitHubAccessTokenResponse {
        access_token: token.map(|s| s.to_string()),
        token_type: None,
        scope: None,
        error: None,
        error_description: None,
        interval: None,
    };
    assert!(response(Some("ghu_xxx")).has_token());
    assert!(!response(Some("")).has_token());
    assert!(!response(None).has_token());
}

#[test]
fn request_follows_the_flow() {
    let mut client = DeviceFlowClient::new("octocat".to_string());
    assert_eq!(client.request(), FlowRequest::DeviceCode);
    let _ = client.start(DeviceCodeReply::Unreachable, 999);
    assert_eq!(client.request(), FlowRequest::DeviceCode);
    let _ = client.start(DeviceCodeReply::Issued(device_code(900, 5)), 1000);
    assert_eq!(client.request(), FlowRequest::Token("D1".to_string()));
    let _ = client.poll_once(answer(None, Some("slow_down"), None, Some(10)), 1005);
    assert_eq!(client.request(), FlowRequest::Token("D1".to_string()));
    assert_eq!(client.state().request(), FlowRequest::Token("D1".to_string()));
    let _ = client.poll_once(answer(Some("ghu_xxx"), None, None, None), 1015);
    assert_eq!(client.request(), FlowRequest::Nothing);
}

#[test]
fn cancelled_flow_asks_for_nothing() {
    let mut client = started(1000, 900, 5);
    client.cancel();
    assert_eq!(client.request(), FlowRequest::Nothing);
}
