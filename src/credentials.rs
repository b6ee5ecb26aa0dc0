use vstd::prelude::*;
use crate::error::{ApiResponseError, is_success, is_success_status};
use crate::text::{decimal, str_eq, to_decimal};
use crate::token::Token;

verus! {

/// An exchange that the identity endpoint is asked to perform.
#[derive(Clone, Debug, PartialEq, Eq)]
pub enum Grant {
    /// Trade a refresh token for an access token. `from_cache` tells whether
    /// the refresh token was read from local storage rather than supplied by
    /// the caller.
    Refresh { refresh_token: String, from_cache: bool },
    /// Trade an email and a password for a token pair.
    Password { email: String, password: String },
}

impl Grant {
    /// An identical copy.
    pub fn duplicate(&self) -> (r: Grant)
        ensures
            r == *self,
    {
        match self {
            Grant::Refresh { refresh_token, from_cache } => Grant::Refresh {
                refresh_token: refresh_token.clone(),
                from_cache: *from_cache,
            },
            Grant::Password { email, password } => Grant::Password {
                email: email.clone(),
                password: password.clone(),
            },
        }
    }
}

/// How the identity endpoint answered an exchange.
#[derive(Clone, Debug, PartialEq, Eq)]
pub enum IdentityReply {
    /// Credentials were granted; the token's refresh token is the one the
    /// endpoint returned, if any.
    Granted(Token),
    /// The exchange needs a one-time passcode.
    OtpRequired,
    /// The exchange was refused (bad password, expired or revoked token).
    Rejected(ApiResponseError),
    /// The endpoint could not be reached.
    Unreachable(String),
}

/// Why no token could be obtained.
#[derive(Clone, Debug, PartialEq, Eq)]
pub enum TokenError {
    /// The session may not prompt and no refresh token was at hand.
    CannotPrompt,
    /// A one-time passcode is required and none can be asked for.
    OtpUnavailable,
    /// The one-time passcode that was sent was not accepted.
    OtpRejected,
    /// The identity endpoint refused the exchange.
    Rejected(ApiResponseError),
    /// The identity endpoint could not be reached.
    Transport(String),
    /// The refresh token could not be written to local storage.
    StorageFailed,
}

/// Where the acquisition of a token stands.
#[derive(Clone, Debug, PartialEq, Eq)]
pub enum LoginStage {
    /// Nothing done yet; holds the refresh token the caller supplied, if any.
    Start(Option<String>),
    /// Local storage is being read for a refresh token.
    LoadingCache,
    /// The user is being asked for an email and a password.
    AwaitingCredentials,
    /// An exchange is under way; `otp_sent` tells whether it carries a
    /// one-time passcode.
    Exchanging { grant: Grant, otp_sent: bool },
    /// The user is being asked for a one-time passcode, to repeat the grant.
    AwaitingOtp(Grant),
    /// The token's refresh token is being written to local storage.
    Saving(Token),
    /// The acquisition has its result.
    Finished,
}

/// What happened since the last step.
#[derive(Clone, Debug, PartialEq, Eq)]
pub enum LoginEvent {
    Begin,
    /// Local storage held this refresh token, or none.
    CacheLoaded(Option<String>),
    CredentialsEntered { email: String, password: String },
    /// The user gave this passcode, or declined.
    OtpEntered(Option<String>),
    /// The identity endpoint answered.
    Replied(IdentityReply),
    /// Writing to local storage succeeded, or not.
    Saved(bool),
}

/// What the caller is to do next.
#[derive(Debug, PartialEq, Eq)]
pub enum LoginAction {
    /// Read the refresh token of the active profile from local storage.
    LoadCache,
    /// Ask the user for an email and a password.
    PromptCredentials,
    /// Ask the user for a one-time passcode.
    PromptOtp,
    /// Perform this exchange against the identity endpoint.
    Exchange { grant: Grant, otp: Option<String> },
    /// Write this refresh token to local storage.
    Save(String),
    /// Return this result.
    Finish(core::result::Result<Token, TokenError>),
    /// The event did not fit the stage; nothing to do.
    Wait,
}

/// The token that a granted exchange yields: when the endpoint returned no
/// new refresh token, a refresh grant keeps the one it used.
pub open spec fn granted_token(grant: Grant, token: Token) -> Token {
    match (grant, token.refresh_token) {
        (Grant::Refresh { refresh_token, .. }, None) => Token {
            refresh_token: Some(refresh_token),
            ..token
        },
        _ => token,
    }
}

/// After a grant: save the refresh token if there is one, else return.
pub open spec fn after_grant(token: Token) -> (LoginStage, LoginAction) {
    match token.refresh_token {
        Some(rt) => (LoginStage::Saving(token), LoginAction::Save(rt)),
        None => (LoginStage::Finished, LoginAction::Finish(Ok(token))),
    }
}

pub open spec fn finish(err: TokenError) -> (LoginStage, LoginAction) {
    (LoginStage::Finished, LoginAction::Finish(Err(err)))
}

/// The decision order of the credential lifecycle.
///
/// A refresh token supplied by the caller is exchanged first; otherwise the
/// one in local storage; otherwise, in an interactive session, the user
/// signs in with a password. A refused stored token falls back to signing
/// in when the session is interactive. A request for a one-time passcode is
/// answered once, by prompting, in an interactive session only. Every
/// granted refresh token is saved before the token is returned.
pub open spec fn login_next(interactive: bool, stage: LoginStage, event: LoginEvent) -> (LoginStage, LoginAction) {
    match (stage, event) {
        (LoginStage::Start(supplied), LoginEvent::Begin) => match supplied {
            Some(rt) => {
                let grant = Grant::Refresh { refresh_token: rt, from_cache: false };
                (LoginStage::Exchanging { grant, otp_sent: false }, LoginAction::Exchange { grant, otp: None })
            },
            None => (LoginStage::LoadingCache, LoginAction::LoadCache),
        },
        (LoginStage::LoadingCache, LoginEvent::CacheLoaded(cached)) => match cached {
            Some(rt) => {
                let grant = Grant::Refresh { refresh_token: rt, from_cache: true };
                (LoginStage::Exchanging { grant, otp_sent: false }, LoginAction::Exchange { grant, otp: None })
            },
            None => if interactive {
                (LoginStage::AwaitingCredentials, LoginAction::PromptCredentials)
            } else {
                finish(TokenError::CannotPrompt)
            },
        },
        (LoginStage::AwaitingCredentials, LoginEvent::CredentialsEntered { email, password }) => {
            let grant = Grant::Password { email, password };
            (LoginStage::Exchanging { grant, otp_sent: false }, LoginAction::Exchange { grant, otp: None })
        },
        (LoginStage::Exchanging { grant, otp_sent }, LoginEvent::Replied(reply)) => match reply {
            IdentityReply::Granted(token) => after_grant(granted_token(grant, token)),
            IdentityReply::OtpRequired => if otp_sent {
                finish(TokenError::OtpRejected)
            } else if interactive {
                (LoginStage::AwaitingOtp(grant), LoginAction::PromptOtp)
            } else {
                finish(TokenError::OtpUnavailable)
            },
            IdentityReply::Rejected(e) => if interactive && grant matches Grant::Refresh { from_cache: true, .. } {
                (LoginStage::AwaitingCredentials, LoginAction::PromptCredentials)
            } else {
                finish(TokenError::Rejected(e))
            },
            IdentityReply::Unreachable(msg) => finish(TokenError::Transport(msg)),
        },
        (LoginStage::AwaitingOtp(grant), LoginEvent::OtpEntered(code)) => match code {
            Some(otp) => (
                LoginStage::Exchanging { grant, otp_sent: true },
                LoginAction::Exchange { grant, otp: Some(otp) },
            ),
            None => finish(TokenError::OtpUnavailable),
        },
        (LoginStage::Saving(token), LoginEvent::Saved(ok)) => if ok {
            (LoginStage::Finished, LoginAction::Finish(Ok(token)))
        } else {
            finish(TokenError::StorageFailed)
        },
        (stage, _) => (stage, LoginAction::Wait),
    }
}

/// One acquisition of a token, for a session that may or may not prompt.
#[derive(Clone, Debug, PartialEq, Eq)]
pub struct LoginFlow {
    pub interactive: bool,
    pub stage: LoginStage,
}

fn start_exchange(grant: Grant) -> (r: (LoginStage, LoginAction))
    ensures
        r == (LoginStage::Exchanging { grant, otp_sent: false }, LoginAction::Exchange { grant, otp: None }),
{
    let copy = grant.duplicate();
    (LoginStage::Exchanging { grant, otp_sent: false }, LoginAction::Exchange { grant: copy, otp: None })
}

fn exec_after_grant(grant: Grant, token: Token) -> (r: (LoginStage, LoginAction))
    ensures
        r == after_grant(granted_token(grant, token)),
{
    let token = match (grant, token.refresh_token) {
        (Grant::Refresh { refresh_token, .. }, None) => Token {
            access_token: token.access_token,
            refresh_token: Some(refresh_token),
            expires_at: token.expires_at,
        },
        (_, refresh_token) => Token {
            access_token: token.access_token,
            refresh_token,
            expires_at: token.expires_at,
        },
    };
    match &token.refresh_token {
        Some(rt) => {
            let saved = rt.clone();
            (LoginStage::Saving(token), LoginAction::Save(saved))
        },
        None => (LoginStage::Finished, LoginAction::Finish(Ok(token))),
    }
}

impl LoginFlow {
    /// A flow that starts from the refresh token the caller supplied, if any.
    pub fn new(refresh_token: Option<String>, interactive: bool) -> (r: LoginFlow)
        ensures
            r == (LoginFlow { interactive, stage: LoginStage::Start(refresh_token) }),
    {
        LoginFlow { interactive, stage: LoginStage::Start(refresh_token) }
    }

    /// Moves the flow on by one event and says what to do next.
    pub fn step(&mut self, event: LoginEvent) -> (action: LoginAction)
        ensures
            final(self).interactive == old(self).interactive,
            (final(self).stage, action) == login_next(old(self).interactive, old(self).stage, event),
    {
        let interactive = self.interactive;
        let mut stage = LoginStage::Finished;
        core::mem::swap(&mut stage, &mut self.stage);
        let (next, action) = match (stage, event) {
            (LoginStage::Start(supplied), LoginEvent::Begin) => match supplied {
                Some(rt) => start_exchange(Grant::Refresh { refresh_token: rt, from_cache: false }),
                None => (LoginStage::LoadingCache, LoginAction::LoadCache),
            },
            (LoginStage::LoadingCache, LoginEvent::CacheLoaded(cached)) => match cached {
                Some(rt) => start_exchange(Grant::Refresh { refresh_token: rt, from_cache: true }),
                None => {
                    if interactive {
                        (LoginStage::AwaitingCredentials, LoginAction::PromptCredentials)
                    } else {
                        (LoginStage::Finished, LoginAction::Finish(Err(TokenError::CannotPrompt)))
                    }
                },
            },
            (LoginStage::AwaitingCredentials, LoginEvent::CredentialsEntered { email, password }) => {
                start_exchange(Grant::Password { email, password })
            },
            (LoginStage::Exchanging { grant, otp_sent }, LoginEvent::Replied(reply)) => match reply {
                IdentityReply::Granted(token) => exec_after_grant(grant, token),
                IdentityReply::OtpRequired => {
                    if otp_sent {
                        (LoginStage::Finished, LoginAction::Finish(Err(TokenError::OtpRejected)))
                    } else if interactive {
                        (LoginStage::AwaitingOtp(grant), LoginAction::PromptOtp)
                    } else {
                        (LoginStage::Finished, LoginAction::Finish(Err(TokenError::OtpUnavailable)))
                    }
                },
                IdentityReply::Rejected(e) => {
                    let stored = match &grant {
                        Grant::Refresh { from_cache, .. } => *from_cache,
                        Grant::Password { .. } => false,
                    };
                    if interactive && stored {
                        (LoginStage::AwaitingCredentials, LoginAction::PromptCredentials)
                    } else {
                        (LoginStage::Finished, LoginAction::Finish(Err(TokenError::Rejected(e))))
                    }
                },
                IdentityReply::Unreachable(msg) => {
                    (LoginStage::Finished, LoginAction::Finish(Err(TokenError::Transport(msg))))
                },
            },
            (LoginStage::AwaitingOtp(grant), LoginEvent::OtpEntered(code)) => match code {
                Some(otp) => {
                    let copy = grant.duplicate();
                    (
                        LoginStage::Exchanging { grant, otp_sent: true },
                        LoginAction::Exchange { grant: copy, otp: Some(otp) },
                    )
                },
                None => (LoginStage::Finished, LoginAction::Finish(Err(TokenError::OtpUnavailable))),
            },
            (LoginStage::Saving(token), LoginEvent::Saved(ok)) => {
                if ok {
                    (LoginStage::Finished, LoginAction::Finish(Ok(token)))
                } else {
                    (LoginStage::Finished, LoginAction::Finish(Err(TokenError::StorageFailed)))
                }
            },
            (stage, _) => (stage, LoginAction::Wait),
        };
        self.stage = next;
        action
    }
}

/// A session that may not prompt never asks the user for anything.
pub proof fn lemma_noninteractive_never_prompts(stage: LoginStage, event: LoginEvent)
    ensures
        !(login_next(false, stage, event).1 matches LoginAction::PromptCredentials),
        !(login_next(false, stage, event).1 matches LoginAction::PromptOtp),
{
}

/// A token that carries a refresh token is returned only once that refresh
/// token has been saved.
pub proof fn lemma_saved_before_returned(interactive: bool, stage: LoginStage, event: LoginEvent, token: Token)
    requires
        login_next(interactive, stage, event).1 == LoginAction::Finish(Ok(token)),
        token.refresh_token is Some,
    ensures
        stage == LoginStage::Saving(token),
        event == LoginEvent::Saved(true),
{
}

/// The error code by which the identity endpoint asks for a one-time passcode.
pub open spec fn otp_challenge_code() -> Seq<char> {
    "mfa_required"@
}

/// How an answer of the identity endpoint is read, given its status, its raw
/// body, the error code found in the body (if any) and the token found in
/// the body (if any): a 2xx answer grants the token it carries; a 403 whose
/// error code is the passcode challenge asks for a passcode; anything else
/// is a refusal that keeps the status and the body.
pub open spec fn identity_reply_of(
    status_code: u16,
    body: String,
    error_code: Option<String>,
    token: Option<Token>,
) -> IdentityReply {
    if is_success_status(status_code) && token is Some {
        IdentityReply::Granted(token.unwrap())
    } else if status_code == 403 && error_code is Some && error_code.unwrap()@ == otp_challenge_code() {
        IdentityReply::OtpRequired
    } else {
        IdentityReply::Rejected(ApiResponseError { status_code, body })
    }
}

pub fn identity_reply(
    status_code: u16,
    body: String,
    error_code: Option<String>,
    token: Option<Token>,
) -> (r: IdentityReply)
    ensures
        r == identity_reply_of(status_code, body, error_code, token),
{
    if is_success(status_code) {
        if let Some(t) = token {
            return IdentityReply::Granted(t);
        }
    }
    let challenged = match &error_code {
        Some(code) => status_code == 403 && str_eq(code.as_str(), "mfa_required"),
        None => false,
    };
    if challenged {
        IdentityReply::OtpRequired
    } else {
        IdentityReply::Rejected(ApiResponseError { status_code, body })
    }
}

impl TokenError {
    /// What the user is told.
    pub open spec fn message_spec(&self) -> Seq<char> {
        match self {
            TokenError::CannotPrompt => "non-interactive session and no refresh token available: cannot prompt for credentials"@,
            TokenError::OtpUnavailable => "a one-time passcode is required but cannot be prompted for"@,
            TokenError::OtpRejected => "the one-time passcode was not accepted"@,
            TokenError::Rejected(e) => "the identity provider refused: status "@ + decimal(e.status_code as nat) + ": "@ + e.body@,
            TokenError::Transport(m) => "cannot reach the identity provider: "@ + m@,
            TokenError::StorageFailed => "cannot save the refresh token"@,
        }
    }

    pub fn message(&self) -> (r: String)
        ensures
            r@ == self.message_spec(),
    {
        match self {
            TokenError::CannotPrompt => String::from_str("non-interactive session and no refresh token available: cannot prompt for credentials"),
            TokenError::OtpUnavailable => String::from_str("a one-time passcode is required but cannot be prompted for"),
            TokenError::OtpRejected => String::from_str("the one-time passcode was not accepted"),
            TokenError::Rejected(e) => {
                let mut text = String::from_str("the identity provider refused: status ");
                let code = to_decimal(e.status_code);
                text.append(code.as_str());
                text.append(": ");
                text.append(e.body.as_str());
                text
            },
            TokenError::Transport(m) => String::from_str("cannot reach the identity provider: ").concat(m.as_str()),
            TokenError::StorageFailed => String::from_str("cannot save the refresh token"),
        }
    }
}

} // verus!
