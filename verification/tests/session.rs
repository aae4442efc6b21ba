use copilot_auth::config::{CopilotConfig, CopilotConfigInput};
use copilot_auth::credential::{CopilotCredential, CredentialStore};
use copilot_auth::error::CopilotError;
use copilot_auth::proxy::{ProxyCommand, ProxyFacade, ProxyLaunch};
use copilot_auth::session::{current_status, SessionManager};
use copilot_auth::status::{
    endpoint_for, CopilotApiDetection, CopilotApiInstallResult, CopilotStatus,
};
use copilot_auth::text::{copy_opt_text, copy_texts, decimal_string, text_is};

fn credential(user: &str, token: &str) -> CopilotCredential {
    CopilotCredential {
        github_token: token.to_string(),
        github_user: user.to_string(),
        created_at: 1700,
    }
}

fn config(port: u16, token: &str) -> CopilotConfig {
    CopilotConfig {
        enabled: true,
        port,
        account_type: "business".to_string(),
        github_token: token.to_string(),
        rate_limit: Some(20),
        rate_limit_wait: true,
    }
}

#[test]
fn default_status_has_the_documented_values() {
    assert_eq!(
        CopilotStatus::default(),
        CopilotStatus {
            running: false,
            port: 4141,
            endpoint: "http://localhost:4141".to_string(),
            authenticated: false,
        }
    );
}

#[test]
fn endpoint_is_localhost_with_the_port() {
    assert_eq!(endpoint_for(4141), "http://localhost:4141");
    assert_eq!(endpoint_for(0), "http://localhost:0");
    assert_eq!(endpoint_for(65535), "http://localhost:65535");
    assert_eq!(endpoint_for(1024), "http://localhost:1024");
}

#[test]
fn decimal_string_writes_numerals() {
    for n in [0u16, 7, 9, 10, 99, 100, 101, 1000, 4141, 9999, 10000, 65535] {
        assert_eq!(decimal_string(n), n.to_string());
    }
}

#[test]
fn text_helpers_copy_and_compare() {
    assert!(text_is(&"slow_down".to_string(), "slow_down"));
    assert!(!text_is(&"slow_down".to_string(), "slow_dow"));
    assert!(!text_is(&String::new(), "x"));
    assert_eq!(copy_opt_text(&Some("a".to_string())), Some("a".to_string()));
    assert_eq!(copy_opt_text(&None), None);
    let paths = vec!["/usr/bin/node".to_string(), String::new(), "/opt/node".to_string()];
    assert_eq!(copy_texts(&paths), paths);
    assert_eq!(copy_texts(&Vec::new()), Vec::<String>::new());
}

#[test]
fn status_follows_config_store_and_facade() {
    let mut store = CredentialStore::new();
    let mut facade = ProxyFacade::new();
    let settings = config(8080, "");
    let user = Some("octocat".to_string());
    let status = current_status(&settings, &store, &facade, &user);
    assert_eq!(
        status,
        CopilotStatus {
            running: false,
            port: 8080,
            endpoint: "http://localhost:8080".to_string(),
            authenticated: false,
        }
    );
    store.save(credential("octocat", "ghu_one"));
    let _ = facade.start(&settings, &credential("octocat", "ghu_one"));
    let status = current_status(&settings, &store, &facade, &user);
    assert_eq!(
        status,
        CopilotStatus {
            running: true,
            port: 8080,
            endpoint: "http://localhost:8080".to_string(),
            authenticated: true,
        }
    );
    assert!(!current_status(&settings, &store, &facade, &None).authenticated);
    assert!(!current_status(&settings, &store, &facade, &Some("hubot".to_string())).authenticated);
}

#[test]
fn new_session_holds_the_defaults() {
    let session = SessionManager::new();
    assert_eq!(*session.config(), CopilotConfig::default());
    assert_eq!(*session.active_user(), None);
    let status = session.status(&CredentialStore::new(), &ProxyFacade::new());
    assert_eq!(status, CopilotStatus::default());
}

#[test]
fn apply_config_stores_valid_settings() {
    let mut session = SessionManager::new();
    assert_eq!(session.apply_config(config(9000, "")), Ok(()));
    assert_eq!(*session.config(), config(9000, ""));
}

#[test]
fn apply_config_refuses_invalid_settings_and_keeps_the_old() {
    let mut session = SessionManager::new();
    assert_eq!(session.apply_config(config(9000, "")), Ok(()));
    assert_eq!(session.apply_config(config(80, "")), Err(CopilotError::InvalidConfig));
    assert_eq!(*session.config(), config(9000, ""));
    let mut unknown = config(9001, "");
    unknown.account_type = "team".to_string();
    assert_eq!(session.apply_config(unknown), Err(CopilotError::InvalidConfig));
    assert_eq!(*session.config(), config(9000, ""));
}

#[test]
fn apply_port_70000_fails_and_leaves_everything_untouched() {
    let mut session = SessionManager::new();
    let mut store = CredentialStore::new();
    session.record_login(&mut store, credential("octocat", "ghu_one"));
    assert_eq!(session.apply_config(config(9000, "")), Ok(()));
    let mut input = CopilotConfigInput::empty();
    input.port = Some(70000);
    assert_eq!(session.apply_input(&input), Err(CopilotError::InvalidConfig));
    assert_eq!(*session.config(), config(9000, ""));
    assert_eq!(*session.active_user(), Some("octocat".to_string()));
    assert_eq!(store.load("octocat"), Ok(credential("octocat", "ghu_one")));
}

#[test]
fn apply_input_fills_in_the_defaults() {
    let mut session = SessionManager::new();
    assert_eq!(session.apply_config(config(9000, "ghp_manual")), Ok(()));
    let mut input = CopilotConfigInput::empty();
    input.enabled = Some(true);
    assert_eq!(session.apply_input(&input), Ok(()));
    let mut expected = CopilotConfig::default();
    expected.enabled = true;
    assert_eq!(*session.config(), expected);
}

#[test]
fn record_login_saves_and_authenticates() {
    let mut session = SessionManager::new();
    let mut store = CredentialStore::new();
    let facade = ProxyFacade::new();
    assert!(!session.status(&store, &facade).authenticated);
    session.record_login(&mut store, credential("octocat", "ghu_one"));
    assert_eq!(*session.active_user(), Some("octocat".to_string()));
    assert_eq!(store.load("octocat"), Ok(credential("octocat", "ghu_one")));
    assert!(session.status(&store, &facade).authenticated);
    store.delete("octocat");
    assert!(!session.status(&store, &facade).authenticated);
}

#[test]
fn start_launches_with_the_stored_token_and_the_policy() {
    let mut facade = ProxyFacade::new();
    assert!(!facade.is_running());
    let outcome = facade.start(&config(8080, ""), &credential("octocat", "ghu_one"));
    assert_eq!(
        outcome,
        Ok(ProxyCommand::Spawn(ProxyLaunch {
            port: 8080,
            account_type: "business".to_string(),
            github_token: "ghu_one".to_string(),
            rate_limit: Some(20),
            rate_limit_wait: true,
        }))
    );
    assert!(facade.is_running());
}

#[test]
fn start_prefers_a_token_set_by_hand() {
    let mut facade = ProxyFacade::new();
    let outcome = facade.start(&config(8080, "ghp_manual"), &credential("octocat", "ghu_one"));
    match outcome {
        Ok(ProxyCommand::Spawn(launch)) => assert_eq!(launch.github_token, "ghp_manual"),
        other => panic!("expected a launch, got {:?}", other),
    }
}

#[test]
fn start_twice_launches_once() {
    let mut facade = ProxyFacade::new();
    let settings = config(8080, "");
    assert!(matches!(
        facade.start(&settings, &credential("octocat", "ghu_one")),
        Ok(ProxyCommand::Spawn(_))
    ));
    assert_eq!(facade.start(&settings, &credential("octocat", "ghu_one")), Ok(ProxyCommand::Nothing));
    assert!(facade.is_running());
}

#[test]
fn start_refuses_invalid_settings() {
    let mut facade = ProxyFacade::new();
    let outcome = facade.start(&config(80, ""), &credential("octocat", "ghu_one"));
    assert_eq!(outcome, Err(CopilotError::InvalidConfig));
    assert!(!facade.is_running());
}

#[test]
fn stop_of_a_stopped_proxy_succeeds() {
    let mut facade = ProxyFacade::new();
    assert_eq!(facade.stop(), Ok(ProxyCommand::Nothing));
    assert!(!facade.is_running());
    let _ = facade.start(&config(8080, ""), &credential("octocat", "ghu_one"));
    assert_eq!(facade.stop(), Ok(ProxyCommand::Terminate));
    assert_eq!(facade.stop(), Ok(ProxyCommand::Nothing));
    assert!(!facade.is_running());
}

#[test]
fn note_exit_marks_the_proxy_stopped() {
    let mut facade = ProxyFacade::new();
    let _ = facade.start(&config(8080, ""), &credential("octocat", "ghu_one"));
    facade.note_exit();
    assert!(!facade.is_running());
    assert_eq!(facade.stop(), Ok(ProxyCommand::Nothing));
}

#[test]
fn detection_and_install_result_clone_field_for_field() {
    let detection = CopilotApiDetection {
        installed: true,
        version: Some("0.5.1".to_string()),
        copilot_bin: Some("/usr/local/bin/copilot-api".to_string()),
        npx_bin: None,
        npm_bin: Some("/usr/bin/npm".to_string()),
        node_bin: Some("/usr/bin/node".to_string()),
        node_version: Some("v20.11.0".to_string()),
        bunx_bin: None,
        node_available: true,
        checked_node_paths: vec!["/usr/bin/node".to_string(), "/opt/node".to_string()],
        checked_copilot_paths: vec![],
    };
    assert_eq!(detection.clone(), detection);
    let result = CopilotApiInstallResult {
        success: false,
        message: "npm not found".to_string(),
        version: None,
    };
    assert_eq!(result.clone(), result);
    let status = CopilotStatus::derive(true, 5000, true);
    assert_eq!(status.clone(), status);
}
