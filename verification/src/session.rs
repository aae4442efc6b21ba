//! The session: the configuration in force, the account in use, and the
//! status that follows from them.

use vstd::prelude::*;
use crate::config::{acceptable, filled, valid_config, ConfigView, CopilotConfig,
    CopilotConfigInput};
use crate::credential::{loaded, saved, CopilotCredential, CredentialStore, CredentialView};
use crate::error::{CopilotError, ErrorView};
use crate::keyed::Key;
use crate::proxy::ProxyFacade;
use crate::status::{status_of, CopilotStatus};
use crate::text::opt_text;

verus! {

/// Whether the account in use is authenticated: a load of its credential
/// succeeds. Without an account in use nothing is authenticated.
pub open spec fn authenticated(active_user: Option<Key>, store: Map<Key, CredentialView>) -> bool {
    match active_user {
        Some(user) => loaded(store, user) is Ok,
        None => false,
    }
}

/// Derives the status of the proxy: `running` from the facade, the port and
/// the endpoint from the configuration, and `authenticated` from a load of
/// the active user's credential. Nothing is changed.
pub fn current_status(
    config: &CopilotConfig,
    store: &CredentialStore,
    facade: &ProxyFacade,
    active_user: &Option<String>,
) -> (status: CopilotStatus)
    requires
        store.wf(),
    ensures
        status@ == status_of(
            facade.running(),
            config.port,
            authenticated(opt_text(*active_user), store@),
        ),
{
    let stored = match active_user {
        Some(user) => store.load(user.as_str()).is_ok(),
        None => false,
    };
    CopilotStatus::derive(facade.is_running(), config.port, stored)
}

/// A session as the contracts see it.
pub struct SessionView {
    pub config: ConfigView,
    pub active_user: Option<Key>,
}

/// Holds the configuration in force and the account in use. The
/// configuration it holds is valid at all times.
pub struct SessionManager {
    config: CopilotConfig,
    active_user: Option<String>,
}

impl View for SessionManager {
    type V = SessionView;

    closed spec fn view(&self) -> SessionView {
        SessionView { config: self.config@, active_user: opt_text(self.active_user) }
    }
}

impl SessionManager {
    #[verifier::type_invariant]
    spec fn holds_valid_config(self) -> bool {
        valid_config(self.config@)
    }

    /// A session with the default configuration and no account in use.
    pub fn new() -> (session: Self)
        ensures
            session@ == (SessionView {
                config: crate::config::default_config(),
                active_user: None,
            }),
    {
        SessionManager { config: CopilotConfig::default(), active_user: None }
    }

    /// The configuration in force. It is valid.
    pub fn config(&self) -> (config: &CopilotConfig)
        ensures
            config@ == self@.config,
            valid_config(config@),
    {
        proof {
            use_type_invariant(self);
        }
        &self.config
    }

    /// The account in use, if there is one.
    pub fn active_user(&self) -> (user: &Option<String>)
        ensures
            opt_text(*user) == self@.active_user,
    {
        &self.active_user
    }

    /// Puts `new_config` in force if it is valid. Refuses it with
    /// `InvalidConfig` otherwise, and then the session stays as it was. The
    /// proxy process is not touched either way.
    pub fn apply_config(&mut self, new_config: CopilotConfig) -> (outcome: Result<
        (),
        CopilotError,
    >)
        ensures
            match outcome {
                Ok(_) => valid_config(new_config@) && final(self)@ == (SessionView {
                    config: new_config@,
                    active_user: old(self)@.active_user,
                }),
                Err(error) => !valid_config(new_config@) && error@ == ErrorView::InvalidConfig
                    && final(self)@ == old(self)@,
            },
    {
        if new_config.is_valid() {
            self.config = new_config;
            Ok(())
        } else {
            Err(CopilotError::InvalidConfig)
        }
    }

    /// Puts in force the settings that `input` stands for, with the default
    /// in place of each missing field. Refuses with `InvalidConfig` a port
    /// that is not allowed and an account type that is not recognized, and
    /// then the session stays as it was.
    pub fn apply_input(&mut self, input: &CopilotConfigInput) -> (outcome: Result<
        (),
        CopilotError,
    >)
        ensures
            match outcome {
                Ok(_) => acceptable(input@) && final(self)@ == (SessionView {
                    config: filled(input@),
                    active_user: old(self)@.active_user,
                }),
                Err(error) => !acceptable(input@) && error@ == ErrorView::InvalidConfig
                    && final(self)@ == old(self)@,
            },
    {
        match CopilotConfig::from_input(input) {
            Ok(config) => {
                self.config = config;
                Ok(())
            },
            Err(error) => Err(error),
        }
    }

    /// Takes in the credential that a flow ended with: it is saved under its
    /// user, and that user is the account in use from now on.
    pub fn record_login(&mut self, store: &mut CredentialStore, credential: CopilotCredential)
        requires
            old(store).wf(),
        ensures
            final(store).wf(),
            final(store)@ == saved(old(store)@, credential@),
            final(self)@ == (SessionView {
                config: old(self)@.config,
                active_user: Some(credential@.github_user),
            }),
            authenticated(final(self)@.active_user, final(store)@),
    {
        proof {
            use_type_invariant(&*self);
        }
        self.active_user = Some(credential.github_user.clone());
        store.save(credential);
    }

    /// The status of the proxy under the configuration in force, for the
    /// account in use.
    pub fn status(&self, store: &CredentialStore, facade: &ProxyFacade) -> (status: CopilotStatus)
        requires
            store.wf(),
        ensures
            status@ == status_of(
                facade.running(),
                self@.config.port,
                authenticated(self@.active_user, store@),
            ),
    {
        current_status(&self.config, store, facade, &self.active_user)
    }
}

} // verus!
