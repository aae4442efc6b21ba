use copilot_auth::credential::CopilotCredential;
use copilot_auth::device_flow::{
    DeviceCodeReply, FlowRequest, FlowState, PollOutcome, TokenReply,
};
use copilot_auth::error::CopilotError;
use copilot_auth::oauth::{GitHubAccessTokenResponse, GitHubDeviceCodeResponse};
use copilot_auth::registry::FlowRegistry;

fn issued(device_code: &str) -> DeviceCodeReply {
    DeviceCodeReply::Issued(GitHubDeviceCodeResponse {
        device_code: device_code.to_string(),
        user_code: "ABCD-1234".to_string(),
        verification_uri: "https://github.com/login/device".to_string(),
        expires_in: 900,
        interval: 5,
    })
}

fn reply(access_token: Option<&str>, error: Option<&str>) -> TokenReply {
    TokenReply::Answer(GitHubAccessTokenResponse {
        access_token: access_token.map(|s| s.to_string()),
        token_type: None,
        scope: None,
        error: error.map(|s| s.to_string()),
        error_description: None,
        interval: None,
    })
}

#[test]
fn empty_registry_knows_no_flow() {
    let mut registry = FlowRegistry::new();
    assert_eq!(registry.state("octocat"), None);
    assert_eq!(registry.start("octocat", issued("D1"), 0), Err(CopilotError::InvalidState));
    assert_eq!(
        registry.poll_once("octocat", reply(None, Some("authorization_pending")), 0),
        Err(CopilotError::InvalidState)
    );
    assert!(!registry.cancel("octocat"));
    assert!(!registry.release("octocat"));
}

#[test]
fn begin_opens_an_idle_flow() {
    let mut registry = FlowRegistry::new();
    assert_eq!(registry.begin("octocat"), Ok(()));
    assert_eq!(registry.state("octocat"), Some(FlowState::Idle));
    assert_eq!(registry.begin("octocat"), Ok(()));
    assert_eq!(registry.state("octocat"), Some(FlowState::Idle));
}

#[test]
fn second_flow_for_a_waiting_user_is_refused() {
    let mut registry = FlowRegistry::new();
    assert_eq!(registry.begin("octocat"), Ok(()));
    assert!(registry.start("octocat", issued("D1"), 1000).is_ok());
    let waiting = registry.state("octocat");
    assert_eq!(registry.begin("octocat"), Err(CopilotError::FlowAlreadyInProgress));
    assert_eq!(registry.state("octocat"), waiting);
    assert_eq!(
        registry.poll_once("octocat", reply(None, Some("authorization_pending")), 1005),
        Ok(PollOutcome::Wait(5))
    );
    assert_eq!(registry.begin("octocat"), Err(CopilotError::FlowAlreadyInProgress));
    assert_eq!(registry.begin("hubot"), Ok(()));
}

#[test]
fn finished_flow_gives_way_to_a_new_one() {
    let mut registry = FlowRegistry::new();
    assert_eq!(registry.begin("octocat"), Ok(()));
    assert!(registry.start("octocat", issued("D1"), 1000).is_ok());
    assert_eq!(
        registry.poll_once("octocat", reply(None, Some("access_denied")), 1005),
        Err(CopilotError::UserDenied)
    );
    assert_eq!(registry.state("octocat"), Some(FlowState::Denied));
    assert_eq!(registry.begin("octocat"), Ok(()));
    assert_eq!(registry.state("octocat"), Some(FlowState::Idle));
}

#[test]
fn flows_of_two_users_do_not_touch() {
    let mut registry = FlowRegistry::new();
    assert_eq!(registry.begin("octocat"), Ok(()));
    assert_eq!(registry.begin("hubot"), Ok(()));
    assert!(registry.start("octocat", issued("D1"), 1000).is_ok());
    assert!(registry.start("hubot", issued("D2"), 2000).is_ok());
    let outcome = registry.poll_once("hubot", reply(Some("ghu_bot"), None), 2005);
    assert_eq!(
        outcome,
        Ok(PollOutcome::Authorized(CopilotCredential {
            github_token: "ghu_bot".to_string(),
            github_user: "hubot".to_string(),
            created_at: 2005,
        }))
    );
    assert_eq!(registry.state("hubot"), Some(FlowState::Succeeded));
    match registry.state("octocat") {
        Some(FlowState::AwaitingUserCode(held)) => {
            assert_eq!(held.device_code, "D1");
            assert_eq!(held.expires_at, 1900);
        }
        other => panic!("expected a waiting flow, got {:?}", other),
    }
}

#[test]
fn cancel_frees_the_user_for_a_new_flow() {
    let mut registry = FlowRegistry::new();
    assert_eq!(registry.begin("octocat"), Ok(()));
    assert!(registry.start("octocat", issued("D1"), 1000).is_ok());
    assert!(registry.cancel("octocat"));
    assert_eq!(registry.state("octocat"), Some(FlowState::Cancelled));
    assert!(!registry.cancel("octocat"));
    assert_eq!(registry.begin("octocat"), Ok(()));
}

#[test]
fn release_drops_only_flows_that_do_not_wait() {
    let mut registry = FlowRegistry::new();
    assert_eq!(registry.begin("octocat"), Ok(()));
    assert_eq!(registry.begin("hubot"), Ok(()));
    assert!(registry.start("octocat", issued("D1"), 1000).is_ok());
    assert!(!registry.release("octocat"));
    assert!(registry.state("octocat").is_some());
    assert!(registry.release("hubot"));
    assert_eq!(registry.state("hubot"), None);
    assert!(registry.cancel("octocat"));
    assert!(registry.release("octocat"));
    assert_eq!(registry.state("octocat"), None);
}

#[test]
fn registry_tells_the_request_of_each_user() {
    let mut registry = FlowRegistry::new();
    assert_eq!(registry.request("octocat"), FlowRequest::Nothing);
    assert_eq!(registry.begin("octocat"), Ok(()));
    assert_eq!(registry.begin("hubot"), Ok(()));
    assert_eq!(registry.request("octocat"), FlowRequest::DeviceCode);
    assert!(registry.start("hubot", issued("D2"), 2000).is_ok());
    assert_eq!(registry.request("hubot"), FlowRequest::Token("D2".to_string()));
    assert_eq!(registry.request("octocat"), FlowRequest::DeviceCode);
    assert!(registry.cancel("hubot"));
    assert_eq!(registry.request("hubot"), FlowRequest::Nothing);
}
