//! The core's side of the proxy process: whether it takes the process to be
//! running, and what the host has to do when a start or a stop is asked for.
//!
//! Spawning and terminating a process is the host's work. `start` and `stop`
//! decide whether there is anything to do, and with what the process is
//! launched.

use vstd::prelude::*;
use crate::config::{valid_config, ConfigView, CopilotConfig};
use crate::credential::{CopilotCredential, CredentialView};
use crate::error::{view_result, CopilotError, ErrorView};

verus! {

/// What a proxy process is launched with. The rate-limit policy is that of
/// the configuration, unchanged.
#[derive(Debug, PartialEq, Eq)]
pub struct ProxyLaunch {
    pub port: u16,
    pub account_type: String,
    pub github_token: String,
    pub rate_limit: Option<u16>,
    pub rate_limit_wait: bool,
}

/// A launch with its texts as character sequences.
pub struct LaunchView {
    pub port: u16,
    pub account_type: Seq<char>,
    pub github_token: Seq<char>,
    pub rate_limit: Option<u16>,
    pub rate_limit_wait: bool,
}

impl View for ProxyLaunch {
    type V = LaunchView;

    open spec fn view(&self) -> LaunchView {
        LaunchView {
            port: self.port,
            account_type: self.account_type@,
            github_token: self.github_token@,
            rate_limit: self.rate_limit,
            rate_limit_wait: self.rate_limit_wait,
        }
    }
}

/// The token that the proxy runs with: the one set by hand in the
/// configuration where that is not empty, the stored credential's otherwise.
pub open spec fn launch_token(config: ConfigView, credential: CredentialView) -> Seq<char> {
    if config.github_token.len() > 0 {
        config.github_token
    } else {
        credential.github_token
    }
}

/// What the proxy is launched with under `config` for `credential`.
pub open spec fn launch_of(config: ConfigView, credential: CredentialView) -> LaunchView {
    LaunchView {
        port: config.port,
        account_type: config.account_type,
        github_token: launch_token(config, credential),
        rate_limit: config.rate_limit,
        rate_limit_wait: config.rate_limit_wait,
    }
}

/// What the host has to do after a start or a stop was asked for.
#[derive(Debug, PartialEq, Eq)]
pub enum ProxyCommand {
    /// Nothing: the process is already as it was asked to be.
    Nothing,
    /// Launch a process with this.
    Spawn(ProxyLaunch),
    /// End the running process.
    Terminate,
}

/// A command with its texts as character sequences.
pub enum CommandView {
    Nothing,
    Spawn(LaunchView),
    Terminate,
}

impl View for ProxyCommand {
    type V = CommandView;

    open spec fn view(&self) -> CommandView {
        match self {
            ProxyCommand::Nothing => CommandView::Nothing,
            ProxyCommand::Spawn(launch) => CommandView::Spawn(launch@),
            ProxyCommand::Terminate => CommandView::Terminate,
        }
    }
}

/// Whether the process runs after a start was asked for, and what the start
/// returns. A configuration that is not valid is refused and changes
/// nothing; a start while the process runs asks nothing of the host.
pub open spec fn proxy_start(running: bool, config: ConfigView, credential: CredentialView) -> (
    bool,
    Result<CommandView, ErrorView>,
) {
    if !valid_config(config) {
        (running, Err(ErrorView::InvalidConfig))
    } else if running {
        (true, Ok(CommandView::Nothing))
    } else {
        (true, Ok(CommandView::Spawn(launch_of(config, credential))))
    }
}

/// Whether the process runs after a stop was asked for, and what the stop
/// returns: it never fails, and it asks nothing of the host where nothing
/// runs.
pub open spec fn proxy_stop(running: bool) -> (bool, Result<CommandView, ErrorView>) {
    (
        false,
        Ok(
            if running {
                CommandView::Terminate
            } else {
                CommandView::Nothing
            },
        ),
    )
}

/// The core's record of the proxy process.
pub struct ProxyFacade {
    running: bool,
}

impl ProxyFacade {
    /// Whether the core takes the process to be running.
    pub closed spec fn running(&self) -> bool {
        self.running
    }

    /// The record of a process that does not run.
    pub fn new() -> (facade: Self)
        ensures
            !facade.running(),
    {
        ProxyFacade { running: false }
    }

    /// Whether the process is taken to be running.
    pub fn is_running(&self) -> (running: bool)
        ensures
            running == self.running(),
    {
        self.running
    }

    /// Asks for the proxy to run under `config` for `credential`.
    pub fn start(&mut self, config: &CopilotConfig, credential: &CopilotCredential) -> (outcome:
        Result<ProxyCommand, CopilotError>)
        ensures
            final(self).running() == proxy_start(old(self).running(), config@, credential@).0,
            view_result(outcome) == proxy_start(old(self).running(), config@, credential@).1,
    {
        if !config.is_valid() {
            return Err(CopilotError::InvalidConfig);
        }
        if self.running {
            return Ok(ProxyCommand::Nothing);
        }
        let github_token = if config.github_token.as_str().is_empty() {
            credential.github_token.clone()
        } else {
            config.github_token.clone()
        };
        self.running = true;
        Ok(
            ProxyCommand::Spawn(
                ProxyLaunch {
                    port: config.port,
                    account_type: config.account_type.clone(),
                    github_token,
                    rate_limit: config.rate_limit,
                    rate_limit_wait: config.rate_limit_wait,
                },
            ),
        )
    }

    /// Asks for the proxy to stop. Where nothing runs this succeeds and asks
    /// nothing of the host.
    pub fn stop(&mut self) -> (outcome: Result<ProxyCommand, CopilotError>)
        ensures
            final(self).running() == proxy_stop(old(self).running()).0,
            view_result(outcome) == proxy_stop(old(self).running()).1,
    {
        if self.running {
            self.running = false;
            Ok(ProxyCommand::Terminate)
        } else {
            Ok(ProxyCommand::Nothing)
        }
    }

    /// Takes note that the process ended by itself.
    pub fn note_exit(&mut self)
        ensures
            !final(self).running(),
    {
        self.running = false;
    }
}

/// A stop always succeeds and leaves the process stopped; a stop of a
/// stopped process asks nothing of the host, so stopping twice is as good
/// as stopping once.
pub proof fn lemma_stop_is_idempotent(running: bool)
    ensures
        proxy_stop(running).1 is Ok,
        !proxy_stop(running).0,
        proxy_stop(false) == (false, Ok::<CommandView, ErrorView>(CommandView::Nothing)),
        proxy_stop(proxy_stop(running).0) == (
            false,
            Ok::<CommandView, ErrorView>(CommandView::Nothing),
        ),
{
}

/// A start while the process runs changes nothing and asks nothing of the
/// host, so starting twice launches one process.
pub proof fn lemma_start_is_idempotent(
    running: bool,
    config: ConfigView,
    credential: CredentialView,
)
    requires
        valid_config(config),
    ensures
        proxy_start(running, config, credential).0,
        proxy_start(proxy_start(running, config, credential).0, config, credential) == (
            true,
            Ok::<CommandView, ErrorView>(CommandView::Nothing),
        ),
{
}

/// A launch carries the rate-limit policy, the port and the account type of
/// the configuration as they are, and the token set by hand takes the place
/// of the stored one only where it is not empty.
pub proof fn lemma_launch_passes_policy_through(config: ConfigView, credential: CredentialView)
    ensures
        launch_of(config, credential).rate_limit == config.rate_limit,
        launch_of(config, credential).rate_limit_wait == config.rate_limit_wait,
        launch_of(config, credential).port == config.port,
        launch_of(config, credential).account_type == config.account_type,
        config.github_token.len() == 0 ==> launch_of(config, credential).github_token
            == credential.github_token,
        config.github_token.len() > 0 ==> launch_of(config, credential).github_token
            == config.github_token,
{
}

} // verus!
