use vstd::prelude::*;
use crate::text::{decimal, to_decimal};

verus! {

/// The server's answer to a request that it refused.
#[derive(Clone, Debug, PartialEq, Eq)]
pub struct ApiResponseError {
    pub status_code: u16,
    /// The response body, exactly as received.
    pub body: String,
}

/// What can go wrong with one request.
#[derive(Clone, Debug, PartialEq, Eq)]
pub enum EscError {
    /// The HTTP stack failed: name resolution, connection, TLS, timeout or cancellation.
    Transport(String),
    /// The server answered with a status outside the 2xx range.
    ApiResponse(ApiResponseError),
    /// A 2xx body did not have the expected shape.
    Decode(String),
}

pub type Result<T> = core::result::Result<T, EscError>;

/// Statuses in the 2xx range.
pub open spec fn is_success_status(status_code: u16) -> bool {
    200 <= status_code <= 299
}

/// Statuses that say the credentials were refused.
pub open spec fn is_auth_denied_status(status_code: u16) -> bool {
    status_code == 401 || status_code == 403
}

pub fn is_success(status_code: u16) -> (r: bool)
    ensures
        r == is_success_status(status_code),
{
    200 <= status_code && status_code <= 299
}

pub fn is_auth_denied(status_code: u16) -> (r: bool)
    ensures
        r == is_auth_denied_status(status_code),
{
    status_code == 401 || status_code == 403
}

impl EscError {
    pub open spec fn is_authorization_failure_spec(&self) -> bool {
        match self {
            EscError::ApiResponse(e) => is_auth_denied_status(e.status_code),
            _ => false,
        }
    }

    /// Whether a refresh of the credentials may cure this error.
    pub fn is_authorization_failure(&self) -> (r: bool)
        ensures
            r == self.is_authorization_failure_spec(),
    {
        match self {
            EscError::ApiResponse(e) => is_auth_denied(e.status_code),
            _ => false,
        }
    }
}

/// Sorts a completed HTTP exchange: a 2xx status hands the body on for
/// decoding, any other status becomes an `ApiResponse` error that keeps the
/// status and the body unchanged.
pub fn classify_response(status_code: u16, body: String) -> (r: Result<String>)
    ensures
        is_success_status(status_code) ==> r == Ok::<String, EscError>(body),
        !is_success_status(status_code) ==> r == Err::<String, EscError>(
            EscError::ApiResponse(ApiResponseError { status_code, body }),
        ),
{
    if is_success(status_code) {
        Ok(body)
    } else {
        Err(EscError::ApiResponse(ApiResponseError { status_code, body }))
    }
}

impl EscError {
    /// What the user is told: a transport failure reads as a connectivity
    /// problem, a refusal shows its status and body, a decode failure reads
    /// as an unexpected response without the parser's details.
    pub open spec fn message_spec(&self) -> Seq<char> {
        match self {
            EscError::Transport(m) => "cannot reach the server: "@ + m@,
            EscError::ApiResponse(e) => "status "@ + decimal(e.status_code as nat) + ": "@ + e.body@,
            EscError::Decode(_) => "unexpected server response"@,
        }
    }

    pub fn message(&self) -> (r: String)
        ensures
            r@ == self.message_spec(),
    {
        match self {
            EscError::Transport(m) => String::from_str("cannot reach the server: ").concat(m.as_str()),
            EscError::ApiResponse(e) => {
                let mut text = String::from_str("status ");
                let code = to_decimal(e.status_code);
                text.append(code.as_str());
                text.append(": ");
                text.append(e.body.as_str());
                text
            },
            EscError::Decode(_) => String::from_str("unexpected server response"),
        }
    }
}

} // verus!
