//! The flows in progress, one per user at most.
//!
//! A second flow for a user whose flow still waits for authorization is
//! refused, so that two polls never race for one user. Flows of different
//! users do not touch each other.

use vstd::prelude::*;
use crate::device_flow::{cancel_step, poll_step, request_of, start_step, DeviceCodeReply,
    DeviceCodeReplyView, DeviceFlowClient, FlowRequest, FlowRequestView, FlowState, FlowStateView,
    FlowView, PollOutcome, PollOutcomeView, TokenReply, TokenReplyView};
use crate::error::{view_result, CopilotError, ErrorView};
use crate::keyed::{as_map, distinct_keys, lemma_absent, lemma_entry_at, lemma_push, lemma_remove,
    lemma_replace, Key};
use crate::oauth::{opened, DeviceCodeView, GitHubDeviceCodeResponse};

verus! {

/// The flows of a registry by user.
pub type Flows = Map<Key, FlowView>;

/// The user has a flow that waits for authorization.
pub open spec fn in_progress(flows: Flows, user: Key) -> bool {
    flows.contains_key(user) && flows[user].state.active()
}

/// An idle flow of `user`.
pub open spec fn idle_flow(user: Key) -> FlowView {
    FlowView { github_user: user, state: FlowStateView::Idle }
}

/// What `begin` makes of the registry and what it returns: a user whose flow
/// waits is refused with `FlowAlreadyInProgress`; any other user gets a new
/// idle flow, in place of a flow that is over or was never started.
pub open spec fn begun(flows: Flows, user: Key) -> (Flows, Result<(), ErrorView>) {
    if in_progress(flows, user) {
        (flows, Err(ErrorView::FlowAlreadyInProgress))
    } else {
        (flows.insert(user, idle_flow(user)), Ok(()))
    }
}

/// What `start` makes of the registry and what it returns: the user's flow
/// takes the reply as `start_step` says; a user without a flow is refused
/// with `InvalidState`.
pub open spec fn started(flows: Flows, user: Key, reply: DeviceCodeReplyView, now: u64) -> (
    Flows,
    Result<DeviceCodeView, ErrorView>,
) {
    if flows.contains_key(user) {
        (
            flows.insert(user, start_step(flows[user], reply, now).0),
            start_step(flows[user], reply, now).1,
        )
    } else {
        (flows, Err(ErrorView::InvalidState))
    }
}

/// What `poll_once` makes of the registry and what it returns: the user's
/// flow takes the reply as `poll_step` says; a user without a flow is
/// refused with `InvalidState`.
pub open spec fn polled(flows: Flows, user: Key, reply: TokenReplyView, now: u64) -> (
    Flows,
    Result<PollOutcomeView, ErrorView>,
) {
    if flows.contains_key(user) {
        (
            flows.insert(user, poll_step(flows[user], reply, now).0),
            poll_step(flows[user], reply, now).1,
        )
    } else {
        (flows, Err(ErrorView::InvalidState))
    }
}

/// What `cancel` makes of the registry: the user's flow is cancelled as
/// `cancel_step` says; without a flow nothing changes.
pub open spec fn cancelled(flows: Flows, user: Key) -> Flows {
    if flows.contains_key(user) {
        flows.insert(user, cancel_step(flows[user]))
    } else {
        flows
    }
}

/// Every flow stands under the user whose flow it is.
pub open spec fn keyed_by_user(flows: Flows) -> bool {
    forall|user: Key| #[trigger] flows.contains_key(user) ==> flows[user].github_user == user
}

/// The flows of all users.
pub struct FlowRegistry {
    flows: Vec<DeviceFlowClient>,
}

impl View for FlowRegistry {
    type V = Flows;

    closed spec fn view(&self) -> Flows {
        as_map(self.entries())
    }
}

impl FlowRegistry {
    /// The flows as pairs of user and flow, in storage order.
    spec fn entries(&self) -> Seq<(Key, FlowView)> {
        Seq::new(self.flows@.len(), |i: int| (self.flows@[i]@.github_user, self.flows@[i]@))
    }

    /// No user has two flows.
    pub closed spec fn wf(&self) -> bool {
        distinct_keys(self.entries())
    }

    /// In a well-formed registry every flow stands under its own user.
    pub proof fn lemma_keyed_by_user(&self)
        requires
            self.wf(),
        ensures
            keyed_by_user(self@),
    {
        let entries = self.entries();
        assert forall|user: Key| #[trigger] self@.contains_key(user) implies self@[user].github_user
            == user by {
            let p = crate::keyed::position_of(entries, user);
            lemma_entry_at(entries, p);
        }
    }

    /// A registry without flows.
    pub fn new() -> (registry: Self)
        ensures
            registry.wf(),
            registry@ == Map::<Key, FlowView>::empty(),
    {
        let registry = FlowRegistry { flows: Vec::new() };
        assert(registry@ =~= Map::<Key, FlowView>::empty());
        registry
    }

    /// The position of the flow of `user`, if there is one.
    fn find(&self, user: &String) -> (found: Option<usize>)
        requires
            self.wf(),
        ensures
            match found {
                Some(i) => i < self.flows@.len() && self.entries()[i as int].0 == user@
                    && self@.contains_key(user@) && self@[user@] == self.flows@[i as int]@,
                None => !self@.contains_key(user@),
            },
    {
        let mut i: usize = 0;
        while i < self.flows.len()
            invariant
                self.wf(),
                i <= self.flows@.len(),
                forall|k: int| 0 <= k < i ==> self.entries()[k].0 != user@,
            decreases self.flows@.len() - i,
        {
            if *self.flows[i].github_user() == *user {
                proof {
                    lemma_entry_at(self.entries(), i as int);
                }
                return Some(i);
            }
            i += 1;
        }
        proof {
            lemma_absent(self.entries(), user@);
        }
        None
    }

    /// Puts `flow` at position `i` in place of the flow that was taken out
    /// there.
    fn put_back(&mut self, i: usize, flow: DeviceFlowClient, Ghost(before): Ghost<
        Seq<(Key, FlowView)>,
    >)
        requires
            distinct_keys(before),
            i < before.len(),
            old(self).entries() == before.remove(i as int),
            flow@.github_user == before[i as int].0,
        ensures
            final(self).wf(),
            final(self)@ == as_map(before).insert(before[i as int].0, flow@),
    {
        assert(self.entries().len() == before.len() - 1);
        let ghost rest = self.entries();
        self.flows.insert(i, flow);
        proof {
            lemma_replace(before, i as int, flow@);
            assert forall|k: int| 0 <= k < before.len() implies #[trigger] self.entries()[k]
                == before.update(i as int, (before[i as int].0, flow@))[k] by {
                if k < i {
                    assert(self.flows@[k] == old(self).flows@[k]);
                    assert(rest[k] == before[k]);
                } else if k > i {
                    assert(self.flows@[k] == old(self).flows@[k - 1]);
                    assert(rest[k - 1] == before[k]);
                }
            }
            assert(self.entries() =~= before.update(i as int, (before[i as int].0, flow@)));
        }
    }

    /// Opens an idle flow for `github_user`, in place of a flow of that user
    /// that is over or was never started. Refuses with
    /// `FlowAlreadyInProgress` where the user's flow waits for authorization,
    /// and then leaves that flow as it is.
    pub fn begin(&mut self, github_user: &str) -> (outcome: Result<(), CopilotError>)
        requires
            old(self).wf(),
        ensures
            final(self).wf(),
            final(self)@ == begun(old(self)@, github_user@).0,
            view_result(outcome) == begun(old(self)@, github_user@).1,
    {
        let ghost before = self.entries();
        let user = github_user.to_owned();
        match self.find(&user) {
            Some(i) => {
                if self.flows[i].state().is_active() {
                    return Err(CopilotError::FlowAlreadyInProgress);
                }
                self.flows.set(i, DeviceFlowClient::new(user));
                proof {
                    lemma_replace(before, i as int, idle_flow(github_user@));
                    assert(self.entries() =~= before.update(
                        i as int,
                        (github_user@, idle_flow(github_user@)),
                    ));
                }
                Ok(())
            },
            None => {
                self.flows.push(DeviceFlowClient::new(user));
                proof {
                    lemma_push(before, github_user@, idle_flow(github_user@));
                    assert(self.entries() =~= before.push(
                        (github_user@, idle_flow(github_user@)),
                    ));
                }
                Ok(())
            },
        }
    }

    /// Hands the reply to the device-code request, received at time `now`,
    /// to the flow of `github_user`.
    pub fn start(&mut self, github_user: &str, reply: DeviceCodeReply, now: u64) -> (outcome:
        Result<GitHubDeviceCodeResponse, CopilotError>)
        requires
            old(self).wf(),
        ensures
            final(self).wf(),
            final(self)@ == started(old(self)@, github_user@, reply@, now).0,
            view_result(outcome) == started(old(self)@, github_user@, reply@, now).1,
    {
        let ghost before = self.entries();
        let user = github_user.to_owned();
        match self.find(&user) {
            Some(i) => {
                let mut flow = self.flows.remove(i);
                assert(self.entries() =~= before.remove(i as int));
                let outcome = flow.start(reply, now);
                self.put_back(i, flow, Ghost(before));
                outcome
            },
            None => Err(CopilotError::InvalidState),
        }
    }

    /// Hands the reply to one token-exchange request, received at time
    /// `now`, to the flow of `github_user`.
    pub fn poll_once(&mut self, github_user: &str, reply: TokenReply, now: u64) -> (outcome:
        Result<PollOutcome, CopilotError>)
        requires
            old(self).wf(),
        ensures
            final(self).wf(),
            final(self)@ == polled(old(self)@, github_user@, reply@, now).0,
            view_result(outcome) == polled(old(self)@, github_user@, reply@, now).1,
    {
        let ghost before = self.entries();
        let user = github_user.to_owned();
        match self.find(&user) {
            Some(i) => {
                let mut flow = self.flows.remove(i);
                assert(self.entries() =~= before.remove(i as int));
                let outcome = flow.poll_once(reply, now);
                self.put_back(i, flow, Ghost(before));
                outcome
            },
            None => Err(CopilotError::InvalidState),
        }
    }

    /// Gives up the flow of `github_user`. Returns whether this call
    /// cancelled a flow: it does not where the user has none, or one that is
    /// over.
    pub fn cancel(&mut self, github_user: &str) -> (cancelled_now: bool)
        requires
            old(self).wf(),
        ensures
            final(self).wf(),
            final(self)@ == cancelled(old(self)@, github_user@),
            cancelled_now == (old(self)@.contains_key(github_user@) && !old(
                self,
            )@[github_user@].state.terminal()),
    {
        let ghost before = self.entries();
        let user = github_user.to_owned();
        match self.find(&user) {
            Some(i) => {
                let mut flow = self.flows.remove(i);
                assert(self.entries() =~= before.remove(i as int));
                let cancelled_now = flow.cancel();
                self.put_back(i, flow, Ghost(before));
                cancelled_now
            },
            None => false,
        }
    }

    /// Where the flow of `github_user` stands, if the user has one.
    pub fn state(&self, github_user: &str) -> (state: Option<FlowState>)
        requires
            self.wf(),
        ensures
            match state {
                Some(found) => self@.contains_key(github_user@) && found@
                    == self@[github_user@].state,
                None => !self@.contains_key(github_user@),
            },
    {
        let user = github_user.to_owned();
        match self.find(&user) {
            Some(i) => Some(self.flows[i].state().clone()),
            None => None,
        }
    }

    /// The request to send next for `github_user`: that of the user's flow,
    /// and none where the user has no flow.
    pub fn request(&self, github_user: &str) -> (request: FlowRequest)
        requires
            self.wf(),
        ensures
            request@ == if self@.contains_key(github_user@) {
                request_of(self@[github_user@].state)
            } else {
                FlowRequestView::Nothing
            },
    {
        let user = github_user.to_owned();
        match self.find(&user) {
            Some(i) => self.flows[i].request(),
            None => FlowRequest::Nothing,
        }
    }

    /// Drops the flow of `github_user` from the registry, unless it waits for
    /// authorization. Returns whether a flow was dropped.
    pub fn release(&mut self, github_user: &str) -> (released: bool)
        requires
            old(self).wf(),
        ensures
            final(self).wf(),
            released == (old(self)@.contains_key(github_user@) && !in_progress(
                old(self)@,
                github_user@,
            )),
            final(self)@ == if released {
                old(self)@.remove(github_user@)
            } else {
                old(self)@
            },
    {
        let ghost before = self.entries();
        let user = github_user.to_owned();
        match self.find(&user) {
            Some(i) => {
                if self.flows[i].state().is_active() {
                    return false;
                }
                self.flows.remove(i);
                proof {
                    lemma_remove(before, i as int);
                    assert(self.entries() =~= before.remove(i as int));
                }
                true
            },
            None => false,
        }
    }
}

/// While a user's flow waits for authorization, a second flow for that user
/// is refused and the first stays as it is.
pub proof fn lemma_second_flow_is_refused(flows: Flows, user: Key)
    requires
        in_progress(flows, user),
    ensures
        begun(flows, user) == (flows, Err::<(), ErrorView>(ErrorView::FlowAlreadyInProgress)),
{
}

/// A flow that was begun and whose codes were issued blocks the next
/// `begin` for its user, until it is over.
pub proof fn lemma_started_flow_blocks_begin(
    flows: Flows,
    user: Key,
    response: DeviceCodeView,
    now: u64,
)
    requires
        !in_progress(flows, user),
        opened(response, now).is_some(),
    ensures
        ({
            let opened_flows = begun(flows, user).0;
            let waiting = started(opened_flows, user, DeviceCodeReplyView::Issued(response), now).0;
            &&& begun(flows, user).1 == Ok::<(), ErrorView>(())
            &&& in_progress(waiting, user)
            &&& begun(waiting, user).1 == Err::<(), ErrorView>(ErrorView::FlowAlreadyInProgress)
        }),
{
}

/// What happens to one user's flow leaves the flows of all other users as
/// they are.
pub proof fn lemma_flows_are_independent(
    flows: Flows,
    user: Key,
    other: Key,
    device_reply: DeviceCodeReplyView,
    token_reply: TokenReplyView,
    now: u64,
)
    requires
        other != user,
    ensures
        begun(flows, user).0.contains_key(other) == flows.contains_key(other),
        started(flows, user, device_reply, now).0.contains_key(other) == flows.contains_key(other),
        polled(flows, user, token_reply, now).0.contains_key(other) == flows.contains_key(other),
        cancelled(flows, user).contains_key(other) == flows.contains_key(other),
        flows.contains_key(other) ==> {
            &&& begun(flows, user).0[other] == flows[other]
            &&& started(flows, user, device_reply, now).0[other] == flows[other]
            &&& polled(flows, user, token_reply, now).0[other] == flows[other]
            &&& cancelled(flows, user)[other] == flows[other]
        },
{
}

} // verus!
