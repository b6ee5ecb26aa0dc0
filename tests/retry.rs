use esc_client::authorization::{Authorization, StaticAuthorization, StaticTokenAuthorizer};
use esc_client::client::{static_token_client, CallAction, CallEvent, CallStage, Client};
use esc_client::error::{classify_response, is_auth_denied, is_success, ApiResponseError, EscError};
use esc_client::schemas::ResourceIdentifier;
use esc_client::Token;

fn refusal(status_code: u16, body: &str) -> EscError {
    EscError::ApiResponse(ApiResponseError { status_code, body: body.to_string() })
}

fn decode_identifier(body: String) -> Result<ResourceIdentifier, EscError> {
    let value: serde_json::Value =
        serde_json::from_str(&body).map_err(|e| EscError::Decode(e.to_string()))?;
    match value.get("id").and_then(|v| v.as_str()) {
        Some(id) => Ok(ResourceIdentifier { id: id.to_string() }),
        None => Err(EscError::Decode("missing field `id`".to_string())),
    }
}

/// Runs a call against scripted exchanges and refresh answers; returns the
/// result and the number of exchanges issued.
fn run_call<T>(
    mut replies: Vec<Result<T, EscError>>,
    mut refreshes: Vec<bool>,
) -> (Result<T, EscError>, usize) {
    replies.reverse();
    refreshes.reverse();
    let mut exchanges = 0;
    let mut stage = CallStage::Ready;
    let mut event = CallEvent::Begin;
    loop {
        let (next, action) = stage.step(event);
        stage = next;
        event = match action {
            CallAction::Send => {
                exchanges += 1;
                CallEvent::Replied(replies.pop().expect("no scripted reply left"))
            }
            CallAction::Refresh => CallEvent::Refreshed(refreshes.pop().expect("no scripted refresh left")),
            CallAction::Finish(r) => return (r, exchanges),
            CallAction::Wait => panic!("event did not fit the stage"),
        };
    }
}

#[test]
fn unauthorized_then_refresh_then_ok_decodes_second_reply() {
    let first: Result<ResourceIdentifier, EscError> =
        classify_response(401, "unauthorized".to_string()).and_then(decode_identifier);
    let second = classify_response(200, "{\"id\":\"abc\"}".to_string()).and_then(decode_identifier);
    let (result, exchanges) = run_call(vec![first, second], vec![true]);
    assert_eq!(result, Ok(ResourceIdentifier { id: "abc".to_string() }));
    assert_eq!(exchanges, 2);
}

#[test]
fn server_error_is_returned_without_refresh() {
    let first: Result<String, EscError> = classify_response(500, "{\"error\":\"internal\"}".to_string());
    // No refresh answer is scripted: asking for one would panic.
    let (result, exchanges) = run_call(vec![first], vec![]);
    assert_eq!(result, Err(refusal(500, "{\"error\":\"internal\"}")));
    assert_eq!(exchanges, 1);
}

#[test]
fn successful_refresh_gives_second_outcome_even_if_it_fails() {
    let (result, exchanges) =
        run_call::<String>(vec![Err(refusal(401, "a")), Err(refusal(401, "b"))], vec![true]);
    assert_eq!(result, Err(refusal(401, "b")));
    assert_eq!(exchanges, 2);
}

#[test]
fn failed_refresh_returns_first_refusal() {
    let (result, exchanges) = run_call::<String>(vec![Err(refusal(403, "denied \u{e9}"))], vec![false]);
    assert_eq!(result, Err(refusal(403, "denied \u{e9}")));
    assert_eq!(exchanges, 1);
}

#[test]
fn transport_and_decode_errors_are_final() {
    let (r1, n1) = run_call::<String>(vec![Err(EscError::Transport("timeout".to_string()))], vec![]);
    assert_eq!(r1, Err(EscError::Transport("timeout".to_string())));
    assert_eq!(n1, 1);
    let (r2, n2) = run_call::<String>(vec![Err(EscError::Decode("bad".to_string()))], vec![]);
    assert_eq!(r2, Err(EscError::Decode("bad".to_string())));
    assert_eq!(n2, 1);
}

#[test]
fn finished_call_ignores_further_events() {
    let (stage, action) = CallStage::Finished.step::<u8>(CallEvent::Begin);
    assert_eq!(stage, CallStage::Finished);
    assert!(matches!(action, CallAction::Wait));
    let (stage, action) = CallStage::Ready.step::<u8>(CallEvent::Refreshed(true));
    assert_eq!(stage, CallStage::Ready);
    assert!(matches!(action, CallAction::Wait));
}

#[test]
fn static_token_client_never_retries() {
    let mut client = static_token_client(Token::new("tok".to_string(), None, None));
    assert_eq!(client.base_url, "");
    let mut stage = CallStage::Ready;
    let mut event = CallEvent::Begin;
    let mut exchanges = 0;
    let result: Result<String, EscError> = loop {
        let (next, action) = stage.step(event);
        stage = next;
        event = match action {
            CallAction::Send => {
                exchanges += 1;
                assert_eq!(client.authorization_header(), "Bearer tok");
                CallEvent::Replied(Err(refusal(401, "expired")))
            }
            CallAction::Refresh => CallEvent::Refreshed(client.refresh()),
            CallAction::Finish(r) => break r,
            CallAction::Wait => panic!("event did not fit the stage"),
        };
    };
    assert_eq!(exchanges, 1);
    assert_eq!(result, Err(refusal(401, "expired")));
}

#[test]
fn static_authorizers_never_refresh() {
    let mut a = StaticTokenAuthorizer { token: Token::new("x".to_string(), Some("r".to_string()), Some(10)) };
    assert!(!a.refresh());
    assert!(!a.refresh());
    assert_eq!(a.authorization_header(), "Bearer x");
    let mut b = StaticAuthorization { authorization_header: "Bearer y".to_string() };
    assert!(!b.refresh());
    assert_eq!(b.authorization_header(), "Bearer y");
}

#[test]
fn header_read_twice_is_identical() {
    let a = StaticTokenAuthorizer { token: Token::new("abc.def".to_string(), None, None) };
    let first = a.authorization_header();
    let second = a.authorization_header();
    assert_eq!(first, second);
    assert_eq!(first, "Bearer abc.def");
}

#[test]
fn client_url_joins_base_and_path() {
    let client = Client::new(StaticAuthorization { authorization_header: "h".to_string() }, "https://api.example.com".to_string());
    assert_eq!(client.url_for("/mesdb/v1/clusters"), "https://api.example.com/mesdb/v1/clusters");
}

#[test]
fn classification_of_statuses() {
    assert_eq!(classify_response(204, String::new()), Ok(String::new()));
    assert_eq!(classify_response(299, "b".to_string()), Ok("b".to_string()));
    assert_eq!(classify_response(300, "b".to_string()), Err(refusal(300, "b")));
    assert_eq!(classify_response(199, "b".to_string()), Err(refusal(199, "b")));
    assert!(is_success(200) && !is_success(404));
    assert!(is_auth_denied(401) && is_auth_denied(403) && !is_auth_denied(404));
    assert!(refusal(401, "").is_authorization_failure());
    assert!(!refusal(500, "").is_authorization_failure());
    assert!(!EscError::Transport("t".to_string()).is_authorization_failure());
}

#[test]
fn error_messages() {
    assert_eq!(refusal(500, "{\"error\":\"internal\"}").message(), "status 500: {\"error\":\"internal\"}");
    assert_eq!(refusal(7, "").message(), "status 7: ");
    assert_eq!(EscError::Transport("timed out".to_string()).message(), "cannot reach the server: timed out");
    assert_eq!(EscError::Decode("expected `,` at line 1".to_string()).message(), "unexpected server response");
}
