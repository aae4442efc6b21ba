//! User-editable proxy settings: their defaults, the form in which they
//! arrive, and their validation.

use vstd::prelude::*;
use crate::error::{CopilotError, ErrorView};
use crate::text::{copy_opt_text, opt_text, text_is};

verus! {

/// The port the proxy listens on when none is configured.
pub const DEFAULT_PORT: u16 = 4141;

/// The lowest port that the proxy may listen on: the first unprivileged one.
pub const LOWEST_PORT: u16 = 1024;

/// The account type when none is configured.
pub const DEFAULT_ACCOUNT_TYPE: &'static str = "individual";

/// The port used when the configuration names none.
pub fn default_copilot_port() -> (port: u16)
    ensures
        port == DEFAULT_PORT,
{
    DEFAULT_PORT
}

/// The settings of the proxy: whether it should run, where it listens, the
/// kind of account, a token set by hand (empty where there is none), and the
/// rate-limit policy that is handed on to the proxy as it is.
#[derive(Debug, PartialEq, Eq)]
pub struct CopilotConfig {
    pub enabled: bool,
    pub port: u16,
    pub account_type: String,
    pub github_token: String,
    pub rate_limit: Option<u16>,
    pub rate_limit_wait: bool,
}

/// Settings with their texts as character sequences.
pub struct ConfigView {
    pub enabled: bool,
    pub port: u16,
    pub account_type: Seq<char>,
    pub github_token: Seq<char>,
    pub rate_limit: Option<u16>,
    pub rate_limit_wait: bool,
}

impl View for CopilotConfig {
    type V = ConfigView;

    open spec fn view(&self) -> ConfigView {
        ConfigView {
            enabled: self.enabled,
            port: self.port,
            account_type: self.account_type@,
            github_token: self.github_token@,
            rate_limit: self.rate_limit,
            rate_limit_wait: self.rate_limit_wait,
        }
    }
}

/// The settings that hold where nothing was configured.
pub open spec fn default_config() -> ConfigView {
    ConfigView {
        enabled: false,
        port: DEFAULT_PORT,
        account_type: DEFAULT_ACCOUNT_TYPE@,
        github_token: Seq::<char>::empty(),
        rate_limit: None,
        rate_limit_wait: false,
    }
}

/// A port that the proxy may listen on: an unprivileged TCP port.
pub open spec fn allowed_port(port: int) -> bool {
    LOWEST_PORT <= port <= u16::MAX
}

/// One of the account types that the proxy knows.
pub open spec fn recognized_account_type(account_type: Seq<char>) -> bool {
    account_type == "individual"@ || account_type == "business"@ || account_type == "enterprise"@
}

/// Settings that may be applied: the port is allowed and the account type
/// is recognized.
pub open spec fn valid_config(config: ConfigView) -> bool {
    allowed_port(config.port as int) && recognized_account_type(config.account_type)
}

impl Clone for CopilotConfig {
    fn clone(&self) -> (copy: Self)
        ensures
            copy@ == self@,
    {
        CopilotConfig {
            enabled: self.enabled,
            port: self.port,
            account_type: self.account_type.clone(),
            github_token: self.github_token.clone(),
            rate_limit: self.rate_limit,
            rate_limit_wait: self.rate_limit_wait,
        }
    }
}

impl Default for CopilotConfig {
    fn default() -> (config: Self)
        ensures
            config@ == default_config(),
            valid_config(config@),
    {
        CopilotConfig {
            enabled: false,
            port: DEFAULT_PORT,
            account_type: DEFAULT_ACCOUNT_TYPE.to_owned(),
            github_token: String::new(),
            rate_limit: None,
            rate_limit_wait: false,
        }
    }
}

/// Whether `account_type` is one that the proxy knows.
pub fn is_recognized_account_type(account_type: &String) -> (recognized: bool)
    ensures
        recognized == recognized_account_type(account_type@),
{
    text_is(account_type, "individual") || text_is(account_type, "business") || text_is(
        account_type,
        "enterprise",
    )
}

impl CopilotConfig {
    /// Whether the settings may be applied.
    pub fn is_valid(&self) -> (valid: bool)
        ensures
            valid == valid_config(self@),
    {
        self.port >= LOWEST_PORT && is_recognized_account_type(&self.account_type)
    }

    /// Accepts the settings, or refuses them with `InvalidConfig`.
    pub fn validate(&self) -> (outcome: Result<(), CopilotError>)
        ensures
            outcome is Ok <==> valid_config(self@),
            outcome is Err ==> outcome->Err_0@ == ErrorView::InvalidConfig,
    {
        if self.is_valid() {
            Ok(())
        } else {
            Err(CopilotError::InvalidConfig)
        }
    }
}

/// Settings as they arrive from outside: every field may be missing, and the
/// port is whatever number was written, in range or not.
#[derive(Debug, PartialEq, Eq)]
pub struct CopilotConfigInput {
    pub enabled: Option<bool>,
    pub port: Option<u32>,
    pub account_type: Option<String>,
    pub github_token: Option<String>,
    pub rate_limit: Option<u16>,
    pub rate_limit_wait: Option<bool>,
}

/// Arriving settings with their texts as character sequences.
pub struct ConfigInputView {
    pub enabled: Option<bool>,
    pub port: Option<u32>,
    pub account_type: Option<Seq<char>>,
    pub github_token: Option<Seq<char>>,
    pub rate_limit: Option<u16>,
    pub rate_limit_wait: Option<bool>,
}

impl View for CopilotConfigInput {
    type V = ConfigInputView;

    open spec fn view(&self) -> ConfigInputView {
        ConfigInputView {
            enabled: self.enabled,
            port: self.port,
            account_type: opt_text(self.account_type),
            github_token: opt_text(self.github_token),
            rate_limit: self.rate_limit,
            rate_limit_wait: self.rate_limit_wait,
        }
    }
}

impl Clone for CopilotConfigInput {
    fn clone(&self) -> (copy: Self)
        ensures
            copy@ == self@,
    {
        CopilotConfigInput {
            enabled: self.enabled,
            port: self.port,
            account_type: copy_opt_text(&self.account_type),
            github_token: copy_opt_text(&self.github_token),
            rate_limit: self.rate_limit,
            rate_limit_wait: self.rate_limit_wait,
        }
    }
}

/// The port that arriving settings ask for: the one written, or the default.
pub open spec fn asked_port(input: ConfigInputView) -> int {
    match input.port {
        Some(port) => port as int,
        None => DEFAULT_PORT as int,
    }
}

/// The account type that arriving settings ask for: the one written, or the
/// default.
pub open spec fn asked_account_type(input: ConfigInputView) -> Seq<char> {
    match input.account_type {
        Some(account_type) => account_type,
        None => DEFAULT_ACCOUNT_TYPE@,
    }
}

/// Arriving settings that can be applied: what they ask for is a valid
/// configuration.
pub open spec fn acceptable(input: ConfigInputView) -> bool {
    allowed_port(asked_port(input)) && recognized_account_type(asked_account_type(input))
}

/// The settings that arriving settings stand for: each field as written, and
/// its default where it is missing.
pub open spec fn filled(input: ConfigInputView) -> ConfigView
    recommends
        acceptable(input),
{
    ConfigView {
        enabled: match input.enabled {
            Some(enabled) => enabled,
            None => false,
        },
        port: asked_port(input) as u16,
        account_type: asked_account_type(input),
        github_token: match input.github_token {
            Some(token) => token,
            None => Seq::<char>::empty(),
        },
        rate_limit: input.rate_limit,
        rate_limit_wait: match input.rate_limit_wait {
            Some(wait) => wait,
            None => false,
        },
    }
}

impl CopilotConfigInput {
    /// Arriving settings in which every field is missing.
    pub fn empty() -> (input: Self)
        ensures
            input@ == (ConfigInputView {
                enabled: None,
                port: None,
                account_type: None,
                github_token: None,
                rate_limit: None,
                rate_limit_wait: None,
            }),
    {
        CopilotConfigInput {
            enabled: None,
            port: None,
            account_type: None,
            github_token: None,
            rate_limit: None,
            rate_limit_wait: None,
        }
    }
}

impl CopilotConfig {
    /// Builds the settings that `input` stands for, with the default in place
    /// of each missing field. Refuses with `InvalidConfig` a port that is not
    /// allowed and an account type that is not recognized.
    pub fn from_input(input: &CopilotConfigInput) -> (outcome: Result<CopilotConfig, CopilotError>)
        ensures
            match outcome {
                Ok(config) => acceptable(input@) && config@ == filled(input@) && valid_config(
                    config@,
                ),
                Err(error) => !acceptable(input@) && error@ == ErrorView::InvalidConfig,
            },
    {
        let port: u16 = match input.port {
            Some(asked) => {
                if asked < LOWEST_PORT as u32 || asked > u16::MAX as u32 {
                    return Err(CopilotError::InvalidConfig);
                }
                asked as u16
            },
            None => DEFAULT_PORT,
        };
        let account_type = match &input.account_type {
            Some(asked) => asked.clone(),
            None => DEFAULT_ACCOUNT_TYPE.to_owned(),
        };
        if !is_recognized_account_type(&account_type) {
            return Err(CopilotError::InvalidConfig);
        }
        let github_token = match &input.github_token {
            Some(token) => token.clone(),
            None => String::new(),
        };
        Ok(
            CopilotConfig {
                enabled: match input.enabled {
                    Some(enabled) => enabled,
                    None => false,
                },
                port,
                account_type,
                github_token,
                rate_limit: input.rate_limit,
                rate_limit_wait: match input.rate_limit_wait {
                    Some(wait) => wait,
                    None => false,
                },
            },
        )
    }
}

/// Arriving settings in which nothing is written stand for the default
/// settings, and these can be applied.
pub proof fn lemma_empty_input_is_default(input: ConfigInputView)
    requires
        input.enabled is None,
        input.port is None,
        input.account_type is None,
        input.github_token is None,
        input.rate_limit is None,
        input.rate_limit_wait is None,
    ensures
        acceptable(input),
        filled(input) == default_config(),
        valid_config(default_config()),
{
}

} // verus!
