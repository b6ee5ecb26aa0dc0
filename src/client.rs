use vstd::prelude::*;
use crate::authorization::{Authorization, StaticTokenAuthorizer};
use crate::error::{ApiResponseError, EscError, is_auth_denied, is_auth_denied_status};
use crate::token::Token;

verus! {

/// The handle through which every API operation is issued: a base URL and
/// the credentials that each request carries.
pub struct Client<A: Authorization> {
    pub authorization: A,
    pub base_url: String,
}

impl<A: Authorization> Client<A> {
    pub fn new(authorization: A, base_url: String) -> (r: Self)
        ensures
            r.authorization == authorization,
            r.base_url == base_url,
    {
        Client { authorization, base_url }
    }

    /// The full URL of a request: the base URL followed by the path, which
    /// the caller has already percent-encoded.
    pub fn url_for(&self, path: &str) -> (r: String)
        ensures
            r@ == self.base_url@ + path@,
    {
        let mut url = self.base_url.clone();
        url.append(path);
        url
    }

    /// The header value to attach to the next exchange.
    pub fn authorization_header(&self) -> (r: String)
        ensures
            r@ == self.authorization.header_view(),
    {
        self.authorization.authorization_header()
    }

    /// Asks the credentials to renew themselves.
    pub fn refresh(&mut self) -> (refreshed: bool)
        ensures
            !refreshed ==> final(self).authorization.header_view()
                == old(self).authorization.header_view(),
            !old(self).authorization.renewable() ==> !refreshed,
            final(self).authorization.renewable() == old(self).authorization.renewable(),
            final(self).base_url == old(self).base_url,
    {
        self.authorization.refresh()
    }
}

/// A client whose credentials are one fixed token and cannot be renewed.
pub fn static_token_client(token: Token) -> (r: Client<StaticTokenAuthorizer>)
    ensures
        r.authorization.token == token,
        r.base_url@ == Seq::<char>::empty(),
{
    Client { authorization: StaticTokenAuthorizer { token }, base_url: String::new() }
}

/// Where one logical call stands.
#[derive(Clone, Debug, PartialEq, Eq)]
pub enum CallStage {
    /// Nothing sent yet.
    Ready,
    /// The first exchange is under way.
    AwaitingReply,
    /// The first exchange was refused for its credentials, which are being
    /// renewed; the refusal is kept to be returned if renewal fails.
    Refreshing(ApiResponseError),
    /// The one retry is under way.
    AwaitingRetry,
    /// The call has its result.
    Finished,
}

/// What happened since the last step.
#[derive(Debug)]
pub enum CallEvent<T> {
    /// The call is to start.
    Begin,
    /// An exchange completed with this outcome.
    Replied(core::result::Result<T, EscError>),
    /// A refresh of the credentials completed, reporting whether it produced
    /// a new header.
    Refreshed(bool),
}

/// What the caller is to do next.
#[derive(Debug)]
pub enum CallAction<T> {
    /// Perform one exchange with the current authorization header.
    Send,
    /// Refresh the credentials.
    Refresh,
    /// Return this result.
    Finish(core::result::Result<T, EscError>),
    /// The event did not fit the stage; nothing to do.
    Wait,
}

/// The retry policy of a call: send; on a refusal for the credentials,
/// refresh them and, if that produced a new header, send exactly once more.
pub open spec fn call_next<T>(stage: CallStage, event: CallEvent<T>) -> (CallStage, CallAction<T>) {
    match (stage, event) {
        (CallStage::Ready, CallEvent::Begin) => (CallStage::AwaitingReply, CallAction::Send),
        (CallStage::AwaitingReply, CallEvent::Replied(outcome)) => match outcome {
            Err(EscError::ApiResponse(e)) if is_auth_denied_status(e.status_code) => (
                CallStage::Refreshing(e),
                CallAction::Refresh,
            ),
            _ => (CallStage::Finished, CallAction::Finish(outcome)),
        },
        (CallStage::Refreshing(e), CallEvent::Refreshed(refreshed)) => if refreshed {
            (CallStage::AwaitingRetry, CallAction::Send)
        } else {
            (CallStage::Finished, CallAction::Finish(Err(EscError::ApiResponse(e))))
        },
        (CallStage::AwaitingRetry, CallEvent::Replied(outcome)) => (
            CallStage::Finished,
            CallAction::Finish(outcome),
        ),
        (stage, _) => (stage, CallAction::Wait),
    }
}

impl CallStage {
    /// Moves the call on by one event.
    pub fn step<T>(self, event: CallEvent<T>) -> (r: (CallStage, CallAction<T>))
        ensures
            r == call_next(self, event),
    {
        match (self, event) {
            (CallStage::Ready, CallEvent::Begin) => (CallStage::AwaitingReply, CallAction::Send),
            (CallStage::AwaitingReply, CallEvent::Replied(outcome)) => match outcome {
                Err(EscError::ApiResponse(e)) => {
                    if is_auth_denied(e.status_code) {
                        (CallStage::Refreshing(e), CallAction::Refresh)
                    } else {
                        (CallStage::Finished, CallAction::Finish(Err(EscError::ApiResponse(e))))
                    }
                },
                other => (CallStage::Finished, CallAction::Finish(other)),
            },
            (CallStage::Refreshing(e), CallEvent::Refreshed(refreshed)) => {
                if refreshed {
                    (CallStage::AwaitingRetry, CallAction::Send)
                } else {
                    (CallStage::Finished, CallAction::Finish(Err(EscError::ApiResponse(e))))
                }
            },
            (CallStage::AwaitingRetry, CallEvent::Replied(outcome)) => (
                CallStage::Finished,
                CallAction::Finish(outcome),
            ),
            (stage, _) => (stage, CallAction::Wait),
        }
    }
}

/// The number of exchanges that a call issues from `stage` on, given the
/// events that follow.
pub open spec fn exchanges_issued<T>(stage: CallStage, events: Seq<CallEvent<T>>) -> nat
    decreases events.len(),
{
    if events.len() == 0 {
        0
    } else {
        let (next, action) = call_next(stage, events[0]);
        (if action is Send { 1nat } else { 0nat }) + exchanges_issued(next, events.drop_first())
    }
}

/// The exchanges a call may still issue from a stage.
pub open spec fn exchanges_left(stage: CallStage) -> nat {
    match stage {
        CallStage::Ready => 2,
        CallStage::AwaitingReply => 1,
        CallStage::Refreshing(_) => 1,
        CallStage::AwaitingRetry => 0,
        CallStage::Finished => 0,
    }
}

/// The exchanges a call may still issue from a stage when no refresh succeeds.
pub open spec fn exchanges_left_without_renewal(stage: CallStage) -> nat {
    match stage {
        CallStage::Ready => 1,
        _ => 0,
    }
}

/// Whether no event in the sequence reports a successful refresh.
pub open spec fn no_successful_refresh<T>(events: Seq<CallEvent<T>>) -> bool {
    forall|i: int| 0 <= i < events.len() ==> !(#[trigger] events[i] matches CallEvent::Refreshed(true))
}

/// Whatever events arrive, a call issues at most as many exchanges as its
/// stage leaves: at most two in all.
pub proof fn lemma_exchanges_bounded<T>(stage: CallStage, events: Seq<CallEvent<T>>)
    ensures
        exchanges_issued(stage, events) <= exchanges_left(stage),
        stage == CallStage::Ready ==> exchanges_issued(stage, events) <= 2,
    decreases events.len(),
{
    if events.len() > 0 {
        lemma_exchanges_bounded(call_next(stage, events[0]).0, events.drop_first());
    }
}

/// Where no refresh succeeds (the credentials are static, say), a call
/// issues at most one exchange: it never retries.
pub proof fn lemma_no_retry_without_renewal<T>(stage: CallStage, events: Seq<CallEvent<T>>)
    requires
        no_successful_refresh(events),
    ensures
        exchanges_issued(stage, events) <= exchanges_left_without_renewal(stage),
        stage == CallStage::Ready ==> exchanges_issued(stage, events) <= 1,
    decreases events.len(),
{
    if events.len() > 0 {
        let rest = events.drop_first();
        assert forall|i: int| 0 <= i < rest.len() implies !(#[trigger] rest[i] matches CallEvent::Refreshed(true)) by {
            assert(rest[i] == events[i + 1]);
        }
        assert(!(events[0] matches CallEvent::Refreshed(true)));
        lemma_no_retry_without_renewal(call_next(stage, events[0]).0, rest);
    }
}

/// When the first exchange is refused for its credentials and the refresh
/// succeeds, the call sends exactly once more, returns the second outcome,
/// and then sends nothing further.
pub proof fn lemma_retry_returns_second_outcome<T>(
    refusal: ApiResponseError,
    second: core::result::Result<T, EscError>,
)
    requires
        is_auth_denied_status(refusal.status_code),
    ensures
        ({
            let (s1, a1) = call_next(CallStage::Ready, CallEvent::<T>::Begin);
            let (s2, a2) = call_next(s1, CallEvent::<T>::Replied(Err(EscError::ApiResponse(refusal))));
            let (s3, a3) = call_next(s2, CallEvent::<T>::Refreshed(true));
            let (s4, a4) = call_next(s3, CallEvent::Replied(second));
            &&& a1 is Send
            &&& a2 is Refresh
            &&& a3 is Send
            &&& a4 == CallAction::Finish(second)
            &&& s4 == CallStage::Finished
            &&& forall|e: CallEvent<T>| #[trigger] call_next(s4, e) == (CallStage::Finished, CallAction::<T>::Wait)
        }),
{
}

/// When the refresh fails, the call issues its one exchange and returns the
/// refusal exactly as received.
pub proof fn lemma_failed_refresh_returns_refusal<T>(refusal: ApiResponseError)
    requires
        is_auth_denied_status(refusal.status_code),
    ensures
        ({
            let (s1, a1) = call_next(CallStage::Ready, CallEvent::<T>::Begin);
            let (s2, a2) = call_next(s1, CallEvent::<T>::Replied(Err(EscError::ApiResponse(refusal))));
            let (s3, a3) = call_next(s2, CallEvent::<T>::Refreshed(false));
            &&& a1 is Send
            &&& a2 is Refresh
            &&& a3 == CallAction::<T>::Finish(Err(EscError::ApiResponse(refusal)))
            &&& s3 == CallStage::Finished
            &&& forall|e: CallEvent<T>| #[trigger] call_next(s3, e) == (CallStage::Finished, CallAction::<T>::Wait)
        }),
{
}

/// Any outcome other than a refusal for the credentials (a success, a
/// transport or decode failure, any other status) is returned as it is,
/// after one exchange and without consulting the credentials.
pub proof fn lemma_other_outcomes_are_final<T>(first: core::result::Result<T, EscError>)
    requires
        !(first matches Err(EscError::ApiResponse(e)) && is_auth_denied_status(e.status_code)),
    ensures
        ({
            let (s1, a1) = call_next(CallStage::Ready, CallEvent::<T>::Begin);
            let (s2, a2) = call_next(s1, CallEvent::Replied(first));
            &&& a1 is Send
            &&& a2 == CallAction::Finish(first)
            &&& s2 == CallStage::Finished
        }),
{
}

} // verus!
