//! The device authorization flow of one user as a state machine.
//!
//! The client never talks to the network and never reads a clock. Its owner
//! sends each request, and hands the reply and the current time (epoch
//! seconds) to `start` or `poll_once`, which decide what the flow becomes
//! and what the owner is told.

use vstd::prelude::*;
use crate::credential::{CopilotCredential, CredentialView};
use crate::error::{view_result, CopilotError, ErrorView};
use crate::oauth::{classify_error, error_kind, opened, token_of, AccessTokenView,
    CopilotOAuthState, DeviceCodeView, GitHubAccessTokenResponse, GitHubDeviceCodeResponse,
    OAuthStateView, TokenErrorKind};

verus! {

/// The number of seconds by which `slow_down` lengthens the poll interval.
pub const SLOW_DOWN_STEP: u64 = 5;

/// The reason reported for a token response that holds neither a token nor
/// an error code.
pub const EMPTY_ANSWER: &'static str = "token response holds neither a token nor an error";

/// Where a flow stands. The two waiting states hold the codes, the deadline
/// and the poll interval; every other state holds nothing.
#[derive(Debug, PartialEq, Eq)]
pub enum FlowState {
    /// No device code was requested yet.
    Idle,
    /// The codes were issued and no poll was made yet.
    AwaitingUserCode(CopilotOAuthState),
    /// At least one poll was made and the user has not decided.
    Polling(CopilotOAuthState),
    /// A token was issued.
    Succeeded,
    /// The codes ran out.
    Expired,
    /// The user refused.
    Denied,
    /// The flow broke off for another reason.
    Failed,
    /// The owner gave the flow up.
    Cancelled,
}

/// A flow state with its texts as character sequences.
pub enum FlowStateView {
    Idle,
    AwaitingUserCode(OAuthStateView),
    Polling(OAuthStateView),
    Succeeded,
    Expired,
    Denied,
    Failed,
    Cancelled,
}

impl View for FlowState {
    type V = FlowStateView;

    open spec fn view(&self) -> FlowStateView {
        match self {
            FlowState::Idle => FlowStateView::Idle,
            FlowState::AwaitingUserCode(held) => FlowStateView::AwaitingUserCode(held@),
            FlowState::Polling(held) => FlowStateView::Polling(held@),
            FlowState::Succeeded => FlowStateView::Succeeded,
            FlowState::Expired => FlowStateView::Expired,
            FlowState::Denied => FlowStateView::Denied,
            FlowState::Failed => FlowStateView::Failed,
            FlowState::Cancelled => FlowStateView::Cancelled,
        }
    }
}

impl FlowStateView {
    /// What the flow holds while it waits for the user.
    pub open spec fn held(self) -> Option<OAuthStateView> {
        match self {
            FlowStateView::AwaitingUserCode(held) => Some(held),
            FlowStateView::Polling(held) => Some(held),
            _ => None,
        }
    }

    /// The flow waits for the user: it may be polled.
    pub open spec fn active(self) -> bool {
        self.held().is_some()
    }

    /// The flow is over: nothing changes it any more.
    pub open spec fn terminal(self) -> bool {
        self is Succeeded || self is Expired || self is Denied || self is Failed
            || self is Cancelled
    }
}

impl FlowState {
    /// Whether the flow waits for the user.
    pub fn is_active(&self) -> (active: bool)
        ensures
            active == self@.active(),
    {
        match self {
            FlowState::AwaitingUserCode(_) => true,
            FlowState::Polling(_) => true,
            _ => false,
        }
    }

    /// Whether the flow is over.
    pub fn is_terminal(&self) -> (terminal: bool)
        ensures
            terminal == self@.terminal(),
    {
        match self {
            FlowState::Idle => false,
            FlowState::AwaitingUserCode(_) => false,
            FlowState::Polling(_) => false,
            _ => true,
        }
    }

    /// What the flow holds while it waits for the user.
    pub fn held(&self) -> (held: Option<&CopilotOAuthState>)
        ensures
            match held {
                Some(state) => self@.held() == Some(state@),
                None => self@.held().is_none(),
            },
    {
        match self {
            FlowState::AwaitingUserCode(state) => Some(state),
            FlowState::Polling(state) => Some(state),
            _ => None,
        }
    }
}

impl FlowState {
    /// The request that the owner has to send next.
    pub fn request(&self) -> (request: FlowRequest)
        ensures
            request@ == request_of(self@),
    {
        match self {
            FlowState::Idle => FlowRequest::DeviceCode,
            FlowState::AwaitingUserCode(held) => FlowRequest::Token(held.device_code.clone()),
            FlowState::Polling(held) => FlowRequest::Token(held.device_code.clone()),
            _ => FlowRequest::Nothing,
        }
    }
}

impl Clone for FlowState {
    fn clone(&self) -> (copy: Self)
        ensures
            copy@ == self@,
    {
        match self {
            FlowState::Idle => FlowState::Idle,
            FlowState::AwaitingUserCode(held) => FlowState::AwaitingUserCode(held.clone()),
            FlowState::Polling(held) => FlowState::Polling(held.clone()),
            FlowState::Succeeded => FlowState::Succeeded,
            FlowState::Expired => FlowState::Expired,
            FlowState::Denied => FlowState::Denied,
            FlowState::Failed => FlowState::Failed,
            FlowState::Cancelled => FlowState::Cancelled,
        }
    }
}

/// How the request for a device code ended.
#[derive(Debug, PartialEq, Eq)]
pub enum DeviceCodeReply {
    /// The server could not be reached.
    Unreachable,
    /// The server answered, and the answer is no device-code response.
    Malformed,
    /// The server issued the codes.
    Issued(GitHubDeviceCodeResponse),
}

/// A device-code reply with its texts as character sequences.
pub enum DeviceCodeReplyView {
    Unreachable,
    Malformed,
    Issued(DeviceCodeView),
}

impl View for DeviceCodeReply {
    type V = DeviceCodeReplyView;

    open spec fn view(&self) -> DeviceCodeReplyView {
        match self {
            DeviceCodeReply::Unreachable => DeviceCodeReplyView::Unreachable,
            DeviceCodeReply::Malformed => DeviceCodeReplyView::Malformed,
            DeviceCodeReply::Issued(response) => DeviceCodeReplyView::Issued(response@),
        }
    }
}

/// How one token-exchange request ended.
#[derive(Debug, PartialEq, Eq)]
pub enum TokenReply {
    /// The request did not get through; the text says why.
    TransportFailure(String),
    /// The server answered.
    Answer(GitHubAccessTokenResponse),
}

/// A token reply with its texts as character sequences.
pub enum TokenReplyView {
    TransportFailure(Seq<char>),
    Answer(AccessTokenView),
}

impl View for TokenReply {
    type V = TokenReplyView;

    open spec fn view(&self) -> TokenReplyView {
        match self {
            TokenReply::TransportFailure(reason) => TokenReplyView::TransportFailure(reason@),
            TokenReply::Answer(response) => TokenReplyView::Answer(response@),
        }
    }
}

/// What a poll that did not end the flow in failure tells the owner.
#[derive(Debug, PartialEq, Eq)]
pub enum PollOutcome {
    /// The flow succeeded with this credential.
    Authorized(CopilotCredential),
    /// Wait this many seconds, then poll again.
    Wait(u64),
}

/// A poll outcome with its texts as character sequences.
pub enum PollOutcomeView {
    Authorized(CredentialView),
    Wait(u64),
}

impl View for PollOutcome {
    type V = PollOutcomeView;

    open spec fn view(&self) -> PollOutcomeView {
        match self {
            PollOutcome::Authorized(credential) => PollOutcomeView::Authorized(credential@),
            PollOutcome::Wait(seconds) => PollOutcomeView::Wait(*seconds),
        }
    }
}

/// The request that the owner of a flow has to send next.
#[derive(Debug, PartialEq, Eq)]
pub enum FlowRequest {
    /// The request for a device code: the flow has not started.
    DeviceCode,
    /// One token-exchange request with this device code: the flow waits.
    Token(String),
    /// None: the flow is over.
    Nothing,
}

/// A request with its text as a character sequence.
pub enum FlowRequestView {
    DeviceCode,
    Token(Seq<char>),
    Nothing,
}

impl View for FlowRequest {
    type V = FlowRequestView;

    open spec fn view(&self) -> FlowRequestView {
        match self {
            FlowRequest::DeviceCode => FlowRequestView::DeviceCode,
            FlowRequest::Token(device_code) => FlowRequestView::Token(device_code@),
            FlowRequest::Nothing => FlowRequestView::Nothing,
        }
    }
}

/// What one reply means for a waiting flow.
pub enum PollVerdict {
    /// The deadline has passed, or the server says the codes ran out.
    Expired,
    /// The server issued this token.
    Authorized(Seq<char>),
    /// The user has not decided yet.
    Pending,
    /// The server asks for slower polls, perhaps naming an interval.
    SlowDown(Option<u64>),
    /// The user refused.
    Denied,
    /// Anything else, with its description.
    Failed(Seq<char>),
}

/// The meaning of `reply`, received at time `now`, for a flow that holds
/// `held`. The deadline is looked at first: from `expires_at` on every reply
/// means `Expired`, whatever it holds. Before the deadline a populated token
/// wins over an error code, and an error code is read by its kind. An unknown
/// code fails the flow with the server's description, or with the code itself
/// where there is none.
pub open spec fn verdict(held: OAuthStateView, reply: TokenReplyView, now: u64) -> PollVerdict {
    if now >= held.expires_at {
        PollVerdict::Expired
    } else {
        match reply {
            TokenReplyView::TransportFailure(reason) => PollVerdict::Failed(reason),
            TokenReplyView::Answer(response) => match token_of(response) {
                Some(token) => PollVerdict::Authorized(token),
                None => match response.error {
                    None => PollVerdict::Failed(EMPTY_ANSWER@),
                    Some(code) => match error_kind(code) {
                        TokenErrorKind::AuthorizationPending => PollVerdict::Pending,
                        TokenErrorKind::SlowDown => PollVerdict::SlowDown(response.interval),
                        TokenErrorKind::ExpiredToken => PollVerdict::Expired,
                        TokenErrorKind::AccessDenied => PollVerdict::Denied,
                        TokenErrorKind::Other => PollVerdict::Failed(
                            match response.error_description {
                                Some(description) => description,
                                None => code,
                            },
                        ),
                    },
                },
            },
        }
    }
}

/// The poll interval after a `slow_down`: the old one plus the step, or the
/// interval that the server asked for where that is longer. The sum stops at
/// `u64::MAX`.
pub open spec fn slowed(interval: u64, asked: Option<u64>) -> u64 {
    let stepped = if interval + SLOW_DOWN_STEP <= u64::MAX {
        (interval + SLOW_DOWN_STEP) as u64
    } else {
        u64::MAX
    };
    match asked {
        Some(seconds) => if seconds > stepped {
            seconds
        } else {
            stepped
        },
        None => stepped,
    }
}

/// A flow as the contracts see it: whose it is, and where it stands.
pub struct FlowView {
    pub github_user: Seq<char>,
    pub state: FlowStateView,
}

impl FlowView {
    /// The same flow in another state.
    pub open spec fn moved(self, state: FlowStateView) -> FlowView {
        FlowView { github_user: self.github_user, state }
    }
}

/// What `start` makes of a flow and what it returns, for the reply to the
/// device-code request that arrived at time `now`.
///
/// Only an idle flow can start. An unreachable server and a malformed answer
/// leave it idle, so that the request can be sent again. Issued codes are
/// held with the deadline `now + expires_in`; a response whose deadline is
/// not a `u64` counts as malformed.
pub open spec fn start_step(flow: FlowView, reply: DeviceCodeReplyView, now: u64) -> (
    FlowView,
    Result<DeviceCodeView, ErrorView>,
) {
    if !(flow.state is Idle) {
        (flow, Err(ErrorView::InvalidState))
    } else {
        match reply {
            DeviceCodeReplyView::Unreachable => (flow, Err(ErrorView::NetworkError)),
            DeviceCodeReplyView::Malformed => (flow, Err(ErrorView::ProtocolError)),
            DeviceCodeReplyView::Issued(response) => match opened(response, now) {
                Some(held) => (flow.moved(FlowStateView::AwaitingUserCode(held)), Ok(response)),
                None => (flow, Err(ErrorView::ProtocolError)),
            },
        }
    }
}

/// What `poll_once` makes of a flow and what it returns, for the reply to
/// one token-exchange request that arrived at time `now`.
///
/// A flow that does not wait for the user is left as it is and the poll is
/// refused with `InvalidState`. A waiting flow goes where the verdict on the
/// reply sends it: it ends, or it stays in `Polling` and the owner is told
/// how long to wait.
pub open spec fn poll_step(flow: FlowView, reply: TokenReplyView, now: u64) -> (
    FlowView,
    Result<PollOutcomeView, ErrorView>,
) {
    match flow.state.held() {
        None => (flow, Err(ErrorView::InvalidState)),
        Some(held) => match verdict(held, reply, now) {
            PollVerdict::Expired => (
                flow.moved(FlowStateView::Expired),
                Err(ErrorView::FlowExpired),
            ),
            PollVerdict::Authorized(token) => (
                flow.moved(FlowStateView::Succeeded),
                Ok(
                    PollOutcomeView::Authorized(
                        CredentialView {
                            github_token: token,
                            github_user: flow.github_user,
                            created_at: now,
                        },
                    ),
                ),
            ),
            PollVerdict::Pending => (
                flow.moved(FlowStateView::Polling(held)),
                Ok(PollOutcomeView::Wait(held.interval)),
            ),
            PollVerdict::SlowDown(asked) => (
                flow.moved(
                    FlowStateView::Polling(
                        OAuthStateView {
                            device_code: held.device_code,
                            user_code: held.user_code,
                            verification_uri: held.verification_uri,
                            expires_at: held.expires_at,
                            interval: slowed(held.interval, asked),
                        },
                    ),
                ),
                Ok(PollOutcomeView::Wait(slowed(held.interval, asked))),
            ),
            PollVerdict::Denied => (flow.moved(FlowStateView::Denied), Err(ErrorView::UserDenied)),
            PollVerdict::Failed(reason) => (
                flow.moved(FlowStateView::Failed),
                Err(ErrorView::FlowFailed(reason)),
            ),
        },
    }
}

/// The request that a flow asks its owner to send: the device-code request
/// while it is idle, a token exchange with the device code it holds while it
/// waits, and none once it is over.
pub open spec fn request_of(state: FlowStateView) -> FlowRequestView {
    match state {
        FlowStateView::Idle => FlowRequestView::DeviceCode,
        FlowStateView::AwaitingUserCode(held) => FlowRequestView::Token(held.device_code),
        FlowStateView::Polling(held) => FlowRequestView::Token(held.device_code),
        _ => FlowRequestView::Nothing,
    }
}

/// What `cancel` makes of a flow: one that is not over becomes `Cancelled`
/// and holds nothing any more, one that is over stays as it is.
pub open spec fn cancel_step(flow: FlowView) -> FlowView {
    if flow.state.terminal() {
        flow
    } else {
        flow.moved(FlowStateView::Cancelled)
    }
}

/// The device flow of one user.
pub struct DeviceFlowClient {
    github_user: String,
    state: FlowState,
}

impl View for DeviceFlowClient {
    type V = FlowView;

    closed spec fn view(&self) -> FlowView {
        FlowView { github_user: self.github_user@, state: self.state@ }
    }
}

impl DeviceFlowClient {
    /// An idle flow for `github_user`.
    pub fn new(github_user: String) -> (client: Self)
        ensures
            client@ == (FlowView { github_user: github_user@, state: FlowStateView::Idle }),
    {
        DeviceFlowClient { github_user, state: FlowState::Idle }
    }

    /// The user whose flow this is.
    pub fn github_user(&self) -> (user: &String)
        ensures
            user@ == self@.github_user,
    {
        &self.github_user
    }

    /// Where the flow stands.
    pub fn state(&self) -> (state: &FlowState)
        ensures
            state@ == self@.state,
    {
        &self.state
    }

    /// The request that the owner has to send next; its reply goes to
    /// `start` or to `poll_once`.
    pub fn request(&self) -> (request: FlowRequest)
        ensures
            request@ == request_of(self@.state),
    {
        self.state.request()
    }

    /// Takes the reply to the device-code request, received at time `now`.
    ///
    /// On issued codes the flow waits for the user from now on, and the
    /// response comes back for display. See `start_step` for every case.
    pub fn start(&mut self, reply: DeviceCodeReply, now: u64) -> (outcome: Result<
        GitHubDeviceCodeResponse,
        CopilotError,
    >)
        ensures
            final(self)@ == start_step(old(self)@, reply@, now).0,
            view_result(outcome) == start_step(old(self)@, reply@, now).1,
    {
        match &self.state {
            FlowState::Idle => {},
            _ => {
                return Err(CopilotError::InvalidState);
            },
        }
        match reply {
            DeviceCodeReply::Unreachable => Err(CopilotError::NetworkError),
            DeviceCodeReply::Malformed => Err(CopilotError::ProtocolError),
            DeviceCodeReply::Issued(response) => {
                match CopilotOAuthState::from_response(&response, now) {
                    Some(held) => {
                        self.state = FlowState::AwaitingUserCode(held);
                        Ok(response)
                    },
                    None => Err(CopilotError::ProtocolError),
                }
            },
        }
    }

    /// Takes the reply to one token-exchange request, received at time `now`.
    ///
    /// Returns the credential when the server issued a token before the
    /// deadline, the number of seconds to wait when the flow goes on, and the
    /// error that ends the flow otherwise. See `poll_step` for every case.
    pub fn poll_once(&mut self, reply: TokenReply, now: u64) -> (outcome: Result<
        PollOutcome,
        CopilotError,
    >)
        ensures
            final(self)@ == poll_step(old(self)@, reply@, now).0,
            view_result(outcome) == poll_step(old(self)@, reply@, now).1,
    {
        let mut taken = FlowState::Idle;
        core::mem::swap(&mut self.state, &mut taken);
        let mut held = match taken {
            FlowState::AwaitingUserCode(held) => held,
            FlowState::Polling(held) => held,
            other => {
                self.state = other;
                return Err(CopilotError::InvalidState);
            },
        };
        if held.is_expired(now) {
            self.state = FlowState::Expired;
            return Err(CopilotError::FlowExpired);
        }
        let response = match reply {
            TokenReply::TransportFailure(reason) => {
                self.state = FlowState::Failed;
                return Err(CopilotError::FlowFailed(reason));
            },
            TokenReply::Answer(response) => response,
        };
        let GitHubAccessTokenResponse { access_token, error, error_description, interval, .. } =
            response;
        match access_token {
            Some(token) => {
                if !token.as_str().is_empty() {
                    self.state = FlowState::Succeeded;
                    return Ok(
                        PollOutcome::Authorized(
                            CopilotCredential {
                                github_token: token,
                                github_user: self.github_user.clone(),
                                created_at: now,
                            },
                        ),
                    );
                }
            },
            None => {},
        }
        let code = match error {
            Some(code) => code,
            None => {
                self.state = FlowState::Failed;
                return Err(CopilotError::FlowFailed(EMPTY_ANSWER.to_owned()));
            },
        };
        match classify_error(&code) {
            TokenErrorKind::AuthorizationPending => {
                let wait = held.interval;
                self.state = FlowState::Polling(held);
                Ok(PollOutcome::Wait(wait))
            },
            TokenErrorKind::SlowDown => {
                let stepped = held.interval.saturating_add(SLOW_DOWN_STEP);
                let wait = match interval {
                    Some(seconds) => if seconds > stepped {
                        seconds
                    } else {
                        stepped
                    },
                    None => stepped,
                };
                held.interval = wait;
                self.state = FlowState::Polling(held);
                Ok(PollOutcome::Wait(wait))
            },
            TokenErrorKind::ExpiredToken => {
                self.state = FlowState::Expired;
                Err(CopilotError::FlowExpired)
            },
            TokenErrorKind::AccessDenied => {
                self.state = FlowState::Denied;
                Err(CopilotError::UserDenied)
            },
            TokenErrorKind::Other => {
                self.state = FlowState::Failed;
                match error_description {
                    Some(description) => Err(CopilotError::FlowFailed(description)),
                    None => Err(CopilotError::FlowFailed(code)),
                }
            },
        }
    }

    /// Gives the flow up. A flow that is not over becomes `Cancelled` and
    /// lets go of what it held; a flow that is over stays as it is. Returns
    /// whether this call cancelled the flow.
    pub fn cancel(&mut self) -> (cancelled: bool)
        ensures
            final(self)@ == cancel_step(old(self)@),
            cancelled == !old(self)@.state.terminal(),
    {
        if self.state.is_terminal() {
            false
        } else {
            self.state = FlowState::Cancelled;
            true
        }
    }
}

/// The flow after a run of polls, each a reply with the time at which it
/// arrived, taken in order.
pub open spec fn poll_run(flow: FlowView, polls: Seq<(TokenReplyView, u64)>) -> FlowView
    decreases polls.len(),
{
    if polls.len() == 0 {
        flow
    } else {
        poll_step(poll_run(flow, polls.drop_last()), polls.last().0, polls.last().1).0
    }
}

/// What the last poll of a run returns.
pub open spec fn last_outcome(flow: FlowView, polls: Seq<(TokenReplyView, u64)>) -> Result<
    PollOutcomeView,
    ErrorView,
>
    recommends
        polls.len() > 0,
{
    poll_step(poll_run(flow, polls.drop_last()), polls.last().0, polls.last().1).1
}

/// The deadline of a started flow is the time of the start plus the
/// lifetime that the server gave the codes.
pub proof fn lemma_deadline_from_start(flow: FlowView, response: DeviceCodeView, now: u64)
    requires
        flow.state is Idle,
        now + response.expires_in <= u64::MAX,
    ensures
        start_step(flow, DeviceCodeReplyView::Issued(response), now).1 == Ok::<
            DeviceCodeView,
            ErrorView,
        >(response),
        start_step(flow, DeviceCodeReplyView::Issued(response), now).0.state.held().is_some(),
        start_step(
            flow,
            DeviceCodeReplyView::Issued(response),
            now,
        ).0.state.held().unwrap().expires_at == now + response.expires_in,
        start_step(
            flow,
            DeviceCodeReplyView::Issued(response),
            now,
        ).0.state.held().unwrap().interval == response.interval,
{
}

/// Every token exchange of a flow is made with the device code that the
/// server issued at its start.
pub proof fn lemma_polls_use_issued_code(
    flow: FlowView,
    response: DeviceCodeView,
    now: u64,
    polls: Seq<(TokenReplyView, u64)>,
)
    requires
        flow.state is Idle,
        opened(response, now).is_some(),
    ensures
        ({
            let waiting = start_step(flow, DeviceCodeReplyView::Issued(response), now).0;
            &&& request_of(flow.state) == FlowRequestView::DeviceCode
            &&& request_of(waiting.state) == FlowRequestView::Token(response.device_code)
            &&& poll_run(waiting, polls).state.active() ==> request_of(
                poll_run(waiting, polls).state,
            ) == FlowRequestView::Token(response.device_code)
            &&& !poll_run(waiting, polls).state.active() ==> request_of(
                poll_run(waiting, polls).state,
            ) == FlowRequestView::Nothing
        }),
{
    let waiting = start_step(flow, DeviceCodeReplyView::Issued(response), now).0;
    lemma_run_keeps_deadline(waiting, polls);
}

/// From the deadline on, a poll of a waiting flow ends it as `Expired`,
/// whatever the reply holds: no token is accepted late.
pub proof fn lemma_poll_after_deadline_expires(flow: FlowView, reply: TokenReplyView, now: u64)
    requires
        flow.state.held().is_some(),
        now >= flow.state.held().unwrap().expires_at,
    ensures
        poll_step(flow, reply, now).0 == flow.moved(FlowStateView::Expired),
        poll_step(flow, reply, now).1 == Err::<PollOutcomeView, ErrorView>(ErrorView::FlowExpired),
{
}

/// A poll never shortens the interval and never moves the deadline or the
/// codes: while the flow waits, it holds the codes and the deadline it began
/// with, and an interval that is at least the earlier one.
pub proof fn lemma_poll_never_speeds_up(flow: FlowView, reply: TokenReplyView, now: u64)
    requires
        flow.state.held().is_some(),
        poll_step(flow, reply, now).0.state.held().is_some(),
    ensures
        poll_step(flow, reply, now).0.state is Polling,
        poll_step(flow, reply, now).0.state.held().unwrap().interval
            >= flow.state.held().unwrap().interval,
        poll_step(flow, reply, now).0.state.held().unwrap().expires_at
            == flow.state.held().unwrap().expires_at,
        poll_step(flow, reply, now).0.state.held().unwrap().device_code
            == flow.state.held().unwrap().device_code,
        poll_step(flow, reply, now).1 == Ok::<PollOutcomeView, ErrorView>(
            PollOutcomeView::Wait(poll_step(flow, reply, now).0.state.held().unwrap().interval),
        ),
{
}

/// A `slow_down` lengthens the interval by the step at least, and to what
/// the server asked for at least. Left out are intervals so close to
/// `u64::MAX` that the step does not fit.
pub proof fn lemma_slow_down_lengthens(interval: u64, asked: Option<u64>)
    requires
        interval + SLOW_DOWN_STEP <= u64::MAX,
    ensures
        slowed(interval, asked) >= interval + SLOW_DOWN_STEP,
        asked.is_some() ==> slowed(interval, asked) >= asked.unwrap(),
        slowed(interval, asked) == interval + SLOW_DOWN_STEP || asked == Some(
            slowed(interval, asked),
        ),
{
}

/// Whatever the interval, a `slow_down` does not shorten it.
pub proof fn lemma_slow_down_never_shortens(interval: u64, asked: Option<u64>)
    ensures
        slowed(interval, asked) >= interval,
        asked.is_some() ==> slowed(interval, asked) >= asked.unwrap(),
{
}

/// A flow that is over stays as it is, whatever is asked of it: a start and
/// a poll are refused, and a cancel changes nothing.
pub proof fn lemma_terminal_is_final(
    flow: FlowView,
    device_reply: DeviceCodeReplyView,
    token_reply: TokenReplyView,
    now: u64,
)
    requires
        flow.state.terminal(),
    ensures
        start_step(flow, device_reply, now) == (
            flow,
            Err::<DeviceCodeView, ErrorView>(ErrorView::InvalidState),
        ),
        poll_step(flow, token_reply, now) == (
            flow,
            Err::<PollOutcomeView, ErrorView>(ErrorView::InvalidState),
        ),
        cancel_step(flow) == flow,
        request_of(flow.state) == FlowRequestView::Nothing,
{
}

/// A flow that has not started cannot be polled, and stays idle.
pub proof fn lemma_idle_flow_refuses_polls(flow: FlowView, reply: TokenReplyView, now: u64)
    requires
        flow.state is Idle,
    ensures
        poll_step(flow, reply, now) == (
            flow,
            Err::<PollOutcomeView, ErrorView>(ErrorView::InvalidState),
        ),
{
}

/// How far a flow has come: idle, codes issued, polled, over.
pub open spec fn stage(state: FlowStateView) -> nat {
    match state {
        FlowStateView::Idle => 0,
        FlowStateView::AwaitingUserCode(_) => 1,
        FlowStateView::Polling(_) => 2,
        _ => 3,
    }
}

/// A flow only moves forward: from idle to waiting for the first poll, to
/// polling, to one of its endings. No call takes it back, and none changes
/// whose flow it is.
pub proof fn lemma_flow_only_advances(
    flow: FlowView,
    device_reply: DeviceCodeReplyView,
    token_reply: TokenReplyView,
    now: u64,
)
    ensures
        stage(start_step(flow, device_reply, now).0.state) >= stage(flow.state),
        stage(poll_step(flow, token_reply, now).0.state) >= stage(flow.state),
        stage(cancel_step(flow).state) >= stage(flow.state),
        stage(start_step(flow, device_reply, now).0.state) <= 1 || !(flow.state is Idle),
        flow.state.active() ==> stage(poll_step(flow, token_reply, now).0.state) >= 2,
        start_step(flow, device_reply, now).0.github_user == flow.github_user,
        poll_step(flow, token_reply, now).0.github_user == flow.github_user,
        cancel_step(flow).github_user == flow.github_user,
{
}

/// Each way in which a poll ends a flow is reported by exactly one outcome:
/// the credential for `Succeeded`, `FlowExpired` for `Expired`, `UserDenied`
/// for `Denied` and `FlowFailed` for `Failed`.
pub proof fn lemma_one_outcome_per_ending(flow: FlowView, reply: TokenReplyView, now: u64)
    requires
        flow.state.held().is_some(),
    ensures
        ({
            let (after, outcome) = poll_step(flow, reply, now);
            &&& after.github_user == flow.github_user
            &&& after.state is Succeeded <==> outcome is Ok && outcome->Ok_0 is Authorized
            &&& after.state is Polling <==> outcome is Ok && outcome->Ok_0 is Wait
            &&& after.state is Expired <==> outcome == Err::<PollOutcomeView, ErrorView>(
                ErrorView::FlowExpired,
            )
            &&& after.state is Denied <==> outcome == Err::<PollOutcomeView, ErrorView>(
                ErrorView::UserDenied,
            )
            &&& after.state is Failed <==> outcome is Err && outcome->Err_0 is FlowFailed
            &&& !(after.state is Idle) && !(after.state is AwaitingUserCode) && !(after.state
                is Cancelled)
        }),
{
}

/// Throughout a run of polls a waiting flow keeps its deadline and its
/// codes, and its interval never gets shorter, however many `slow_down`
/// replies it meets.
pub proof fn lemma_run_keeps_deadline(flow: FlowView, polls: Seq<(TokenReplyView, u64)>)
    requires
        flow.state.held().is_some(),
    ensures
        poll_run(flow, polls).github_user == flow.github_user,
        !(poll_run(flow, polls).state is Idle),
        poll_run(flow, polls).state.held().is_some() ==> {
            let before = flow.state.held().unwrap();
            let after = poll_run(flow, polls).state.held().unwrap();
            &&& after.expires_at == before.expires_at
            &&& after.interval >= before.interval
            &&& after.device_code == before.device_code
            &&& after.user_code == before.user_code
            &&& after.verification_uri == before.verification_uri
        },
    decreases polls.len(),
{
    if polls.len() > 0 {
        lemma_run_keeps_deadline(flow, polls.drop_last());
    }
}

/// In a run of polls of a flow with deadline `expires_at`, a poll that
/// arrives at the deadline or later never returns a credential and never
/// asks the owner to wait: it is refused.
pub proof fn lemma_no_success_after_deadline(flow: FlowView, polls: Seq<(TokenReplyView, u64)>)
    requires
        flow.state.held().is_some(),
        polls.len() > 0,
        polls.last().1 >= flow.state.held().unwrap().expires_at,
    ensures
        last_outcome(flow, polls) is Err,
        !(poll_run(flow, polls).state is Polling),
        poll_run(flow, polls.drop_last()).state.held().is_some() ==> last_outcome(flow, polls)
            == Err::<PollOutcomeView, ErrorView>(ErrorView::FlowExpired) && poll_run(
            flow,
            polls,
        ).state is Expired,
{
    lemma_run_keeps_deadline(flow, polls.drop_last());
}

} // verus!
