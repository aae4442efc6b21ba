//! The messages of the device authorization grant and the state that a
//! flow holds while it waits for the user.

use vstd::prelude::*;
use crate::text::{copy_opt_text, opt_text, text_is};

verus! {

/// What the authorization server issues when a flow starts: the code that
/// the device polls with, the code that the user types in, where to type it,
/// for how many seconds the codes are good, and the least number of seconds
/// between two polls.
#[derive(Debug, PartialEq, Eq)]
pub struct GitHubDeviceCodeResponse {
    pub device_code: String,
    pub user_code: String,
    pub verification_uri: String,
    pub expires_in: u64,
    pub interval: u64,
}

/// A device-code response with its texts as character sequences.
pub struct DeviceCodeView {
    pub device_code: Seq<char>,
    pub user_code: Seq<char>,
    pub verification_uri: Seq<char>,
    pub expires_in: u64,
    pub interval: u64,
}

impl View for GitHubDeviceCodeResponse {
    type V = DeviceCodeView;

    open spec fn view(&self) -> DeviceCodeView {
        DeviceCodeView {
            device_code: self.device_code@,
            user_code: self.user_code@,
            verification_uri: self.verification_uri@,
            expires_in: self.expires_in,
            interval: self.interval,
        }
    }
}

impl Clone for GitHubDeviceCodeResponse {
    fn clone(&self) -> (copy: Self)
        ensures
            copy@ == self@,
    {
        GitHubDeviceCodeResponse {
            device_code: self.device_code.clone(),
            user_code: self.user_code.clone(),
            verification_uri: self.verification_uri.clone(),
            expires_in: self.expires_in,
            interval: self.interval,
        }
    }
}

/// The server's answer to one poll. Either `access_token` is populated, or
/// `error` names why no token was issued; `interval` comes with the error
/// `slow_down`.
#[derive(Debug, PartialEq, Eq)]
pub struct GitHubAccessTokenResponse {
    pub access_token: Option<String>,
    pub token_type: Option<String>,
    pub scope: Option<String>,
    pub error: Option<String>,
    pub error_description: Option<String>,
    pub interval: Option<u64>,
}

/// A token response with its texts as character sequences.
pub struct AccessTokenView {
    pub access_token: Option<Seq<char>>,
    pub token_type: Option<Seq<char>>,
    pub scope: Option<Seq<char>>,
    pub error: Option<Seq<char>>,
    pub error_description: Option<Seq<char>>,
    pub interval: Option<u64>,
}

impl View for GitHubAccessTokenResponse {
    type V = AccessTokenView;

    open spec fn view(&self) -> AccessTokenView {
        AccessTokenView {
            access_token: opt_text(self.access_token),
            token_type: opt_text(self.token_type),
            scope: opt_text(self.scope),
            error: opt_text(self.error),
            error_description: opt_text(self.error_description),
            interval: self.interval,
        }
    }
}

impl Clone for GitHubAccessTokenResponse {
    fn clone(&self) -> (copy: Self)
        ensures
            copy@ == self@,
    {
        GitHubAccessTokenResponse {
            access_token: copy_opt_text(&self.access_token),
            token_type: copy_opt_text(&self.token_type),
            scope: copy_opt_text(&self.scope),
            error: copy_opt_text(&self.error),
            error_description: copy_opt_text(&self.error_description),
            interval: self.interval,
        }
    }
}

/// The token that a response carries: its `access_token`, if that is present
/// and not empty.
pub open spec fn token_of(response: AccessTokenView) -> Option<Seq<char>> {
    match response.access_token {
        Some(token) => if token.len() > 0 {
            Some(token)
        } else {
            None
        },
        None => None,
    }
}

/// What an error code of the token endpoint asks of the flow.
#[derive(Clone, Copy, Debug, PartialEq, Eq, Structural)]
pub enum TokenErrorKind {
    /// The user has not finished yet: poll again after the interval.
    AuthorizationPending,
    /// The device polls too fast: poll again after a longer interval.
    SlowDown,
    /// The device code is no longer good.
    ExpiredToken,
    /// The user refused.
    AccessDenied,
    /// Any other code.
    Other,
}

/// The kind of an error code, by its exact spelling.
pub open spec fn error_kind(code: Seq<char>) -> TokenErrorKind {
    if code == "authorization_pending"@ {
        TokenErrorKind::AuthorizationPending
    } else if code == "slow_down"@ {
        TokenErrorKind::SlowDown
    } else if code == "expired_token"@ {
        TokenErrorKind::ExpiredToken
    } else if code == "access_denied"@ {
        TokenErrorKind::AccessDenied
    } else {
        TokenErrorKind::Other
    }
}

/// Tells the kind of an error code of the token endpoint.
pub fn classify_error(code: &String) -> (kind: TokenErrorKind)
    ensures
        kind == error_kind(code@),
{
    if text_is(code, "authorization_pending") {
        TokenErrorKind::AuthorizationPending
    } else if text_is(code, "slow_down") {
        TokenErrorKind::SlowDown
    } else if text_is(code, "expired_token") {
        TokenErrorKind::ExpiredToken
    } else if text_is(code, "access_denied") {
        TokenErrorKind::AccessDenied
    } else {
        TokenErrorKind::Other
    }
}

impl GitHubAccessTokenResponse {
    /// Whether the response carries a token.
    pub fn has_token(&self) -> (populated: bool)
        ensures
            populated == token_of(self@).is_some(),
    {
        match &self.access_token {
            Some(token) => !token.as_str().is_empty(),
            None => false,
        }
    }
}

/// What a flow holds while it waits for the user: the codes, the time (epoch
/// seconds) from which the codes are no longer good, and the number of
/// seconds to wait before the next poll.
#[derive(Debug, PartialEq, Eq)]
pub struct CopilotOAuthState {
    pub device_code: String,
    pub user_code: String,
    pub verification_uri: String,
    pub expires_at: u64,
    pub interval: u64,
}

/// A flow's held state with its texts as character sequences.
pub struct OAuthStateView {
    pub device_code: Seq<char>,
    pub user_code: Seq<char>,
    pub verification_uri: Seq<char>,
    pub expires_at: u64,
    pub interval: u64,
}

impl View for CopilotOAuthState {
    type V = OAuthStateView;

    open spec fn view(&self) -> OAuthStateView {
        OAuthStateView {
            device_code: self.device_code@,
            user_code: self.user_code@,
            verification_uri: self.verification_uri@,
            expires_at: self.expires_at,
            interval: self.interval,
        }
    }
}

impl Clone for CopilotOAuthState {
    fn clone(&self) -> (copy: Self)
        ensures
            copy@ == self@,
    {
        CopilotOAuthState {
            device_code: self.device_code.clone(),
            user_code: self.user_code.clone(),
            verification_uri: self.verification_uri.clone(),
            expires_at: self.expires_at,
            interval: self.interval,
        }
    }
}

/// The state that a flow holds after `response` arrived at time `now`: the
/// codes of the response, with the deadline `now + expires_in`. There is none
/// where that deadline is not a `u64`.
pub open spec fn opened(response: DeviceCodeView, now: u64) -> Option<OAuthStateView> {
    if now + response.expires_in <= u64::MAX {
        Some(
            OAuthStateView {
                device_code: response.device_code,
                user_code: response.user_code,
                verification_uri: response.verification_uri,
                expires_at: (now + response.expires_in) as u64,
                interval: response.interval,
            },
        )
    } else {
        None
    }
}

impl CopilotOAuthState {
    /// The state to hold for a response that arrived at time `now`.
    pub fn from_response(response: &GitHubDeviceCodeResponse, now: u64) -> (state: Option<Self>)
        ensures
            match state {
                Some(held) => opened(response@, now) == Some(held@),
                None => opened(response@, now).is_none(),
            },
    {
        match now.checked_add(response.expires_in) {
            Some(expires_at) => Some(
                CopilotOAuthState {
                    device_code: response.device_code.clone(),
                    user_code: response.user_code.clone(),
                    verification_uri: response.verification_uri.clone(),
                    expires_at,
                    interval: response.interval,
                },
            ),
            None => None,
        }
    }

    /// Whether the codes are no longer good at time `now`.
    pub fn is_expired(&self, now: u64) -> (expired: bool)
        ensures
            expired == (now >= self.expires_at),
    {
        now >= self.expires_at
    }
}

} // verus!
