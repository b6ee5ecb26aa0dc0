use esc_client::credentials::{Grant, IdentityReply, LoginAction, LoginEvent, LoginFlow, LoginStage, TokenError};
use esc_client::error::ApiResponseError;
use esc_client::Token;

fn granted(access: &str, refresh: Option<&str>) -> IdentityReply {
    IdentityReply::Granted(Token::new(access.to_string(), refresh.map(|r| r.to_string()), Some(3600)))
}

fn password(email: &str, pw: &str) -> Grant {
    Grant::Password { email: email.to_string(), password: pw.to_string() }
}

#[test]
fn password_login_returns_bearer_token_and_saves_refresh_token() {
    let mut flow = LoginFlow::new(None, true);
    assert_eq!(flow.step(LoginEvent::Begin), LoginAction::LoadCache);
    assert_eq!(flow.step(LoginEvent::CacheLoaded(None)), LoginAction::PromptCredentials);
    let action = flow.step(LoginEvent::CredentialsEntered { email: "a@b.c".to_string(), password: "pw".to_string() });
    assert_eq!(action, LoginAction::Exchange { grant: password("a@b.c", "pw"), otp: None });
    let action = flow.step(LoginEvent::Replied(granted("acc", Some("ref"))));
    assert_eq!(action, LoginAction::Save("ref".to_string()));
    match flow.step(LoginEvent::Saved(true)) {
        LoginAction::Finish(Ok(token)) => {
            assert_eq!(token.authorization_header(), "Bearer acc");
            assert_eq!(token.refresh_token(), Some(&"ref".to_string()));
        }
        other => panic!("unexpected {:?}", other),
    }
    assert_eq!(flow.stage, LoginStage::Finished);
}

#[test]
fn otp_challenge_is_answered_once_interactively() {
    let mut flow = LoginFlow::new(None, true);
    flow.step(LoginEvent::Begin);
    flow.step(LoginEvent::CacheLoaded(None));
    flow.step(LoginEvent::CredentialsEntered { email: "a@b.c".to_string(), password: "pw".to_string() });
    assert_eq!(flow.step(LoginEvent::Replied(IdentityReply::OtpRequired)), LoginAction::PromptOtp);
    let action = flow.step(LoginEvent::OtpEntered(Some("123456".to_string())));
    assert_eq!(action, LoginAction::Exchange { grant: password("a@b.c", "pw"), otp: Some("123456".to_string()) });
    assert_eq!(flow.step(LoginEvent::Replied(granted("acc2", Some("ref2")))), LoginAction::Save("ref2".to_string()));
    match flow.step(LoginEvent::Saved(true)) {
        LoginAction::Finish(Ok(token)) => assert_eq!(token.authorization_header(), "Bearer acc2"),
        other => panic!("unexpected {:?}", other),
    }
}

#[test]
fn noninteractive_without_any_refresh_token_cannot_prompt() {
    let mut flow = LoginFlow::new(None, false);
    assert_eq!(flow.step(LoginEvent::Begin), LoginAction::LoadCache);
    let action = flow.step(LoginEvent::CacheLoaded(None));
    assert_eq!(action, LoginAction::Finish(Err(TokenError::CannotPrompt)));
    assert_eq!(flow.stage, LoginStage::Finished);
}

#[test]
fn supplied_refresh_token_is_exchanged_first() {
    let mut flow = LoginFlow::new(Some("given".to_string()), false);
    let action = flow.step(LoginEvent::Begin);
    assert_eq!(
        action,
        LoginAction::Exchange { grant: Grant::Refresh { refresh_token: "given".to_string(), from_cache: false }, otp: None }
    );
    // The endpoint returns no new refresh token: the one used is kept and saved.
    assert_eq!(flow.step(LoginEvent::Replied(granted("acc", None))), LoginAction::Save("given".to_string()));
    match flow.step(LoginEvent::Saved(true)) {
        LoginAction::Finish(Ok(token)) => {
            assert_eq!(token.access_token, "acc");
            assert_eq!(token.refresh_token, Some("given".to_string()));
        }
        other => panic!("unexpected {:?}", other),
    }
}

#[test]
fn noninteractive_otp_challenge_fails_at_once() {
    let mut flow = LoginFlow::new(Some("given".to_string()), false);
    flow.step(LoginEvent::Begin);
    assert_eq!(
        flow.step(LoginEvent::Replied(IdentityReply::OtpRequired)),
        LoginAction::Finish(Err(TokenError::OtpUnavailable))
    );
}

#[test]
fn rejected_cached_token_falls_back_to_login_when_interactive() {
    let mut flow = LoginFlow::new(None, true);
    flow.step(LoginEvent::Begin);
    let action = flow.step(LoginEvent::CacheLoaded(Some("old".to_string())));
    assert_eq!(
        action,
        LoginAction::Exchange { grant: Grant::Refresh { refresh_token: "old".to_string(), from_cache: true }, otp: None }
    );
    let refused = ApiResponseError { status_code: 400, body: "invalid_grant".to_string() };
    assert_eq!(flow.step(LoginEvent::Replied(IdentityReply::Rejected(refused))), LoginAction::PromptCredentials);
}

#[test]
fn rejected_cached_token_is_final_when_noninteractive() {
    let mut flow = LoginFlow::new(None, false);
    flow.step(LoginEvent::Begin);
    flow.step(LoginEvent::CacheLoaded(Some("old".to_string())));
    let refused = ApiResponseError { status_code: 400, body: "invalid_grant".to_string() };
    assert_eq!(
        flow.step(LoginEvent::Replied(IdentityReply::Rejected(refused.clone()))),
        LoginAction::Finish(Err(TokenError::Rejected(refused)))
    );
}

#[test]
fn rejected_password_and_unreachable_endpoint_are_final() {
    let mut flow = LoginFlow::new(None, true);
    flow.step(LoginEvent::Begin);
    flow.step(LoginEvent::CacheLoaded(None));
    flow.step(LoginEvent::CredentialsEntered { email: "a@b.c".to_string(), password: "bad".to_string() });
    let refused = ApiResponseError { status_code: 401, body: "wrong password".to_string() };
    assert_eq!(
        flow.step(LoginEvent::Replied(IdentityReply::Rejected(refused.clone()))),
        LoginAction::Finish(Err(TokenError::Rejected(refused)))
    );

    let mut flow = LoginFlow::new(Some("t".to_string()), true);
    flow.step(LoginEvent::Begin);
    assert_eq!(
        flow.step(LoginEvent::Replied(IdentityReply::Unreachable("dns".to_string()))),
        LoginAction::Finish(Err(TokenError::Transport("dns".to_string())))
    );
}

#[test]
fn second_otp_challenge_and_declined_otp_fail() {
    let mut flow = LoginFlow::new(Some("t".to_string()), true);
    flow.step(LoginEvent::Begin);
    flow.step(LoginEvent::Replied(IdentityReply::OtpRequired));
    flow.step(LoginEvent::OtpEntered(Some("000000".to_string())));
    assert_eq!(
        flow.step(LoginEvent::Replied(IdentityReply::OtpRequired)),
        LoginAction::Finish(Err(TokenError::OtpRejected))
    );

    let mut flow = LoginFlow::new(Some("t".to_string()), true);
    flow.step(LoginEvent::Begin);
    flow.step(LoginEvent::Replied(IdentityReply::OtpRequired));
    assert_eq!(flow.step(LoginEvent::OtpEntered(None)), LoginAction::Finish(Err(TokenError::OtpUnavailable)));
}

#[test]
fn failed_save_and_token_without_refresh_token() {
    let mut flow = LoginFlow::new(None, true);
    flow.step(LoginEvent::Begin);
    flow.step(LoginEvent::CacheLoaded(None));
    flow.step(LoginEvent::CredentialsEntered { email: "a@b.c".to_string(), password: "pw".to_string() });
    flow.step(LoginEvent::Replied(granted("acc", Some("r"))));
    assert_eq!(flow.step(LoginEvent::Saved(false)), LoginAction::Finish(Err(TokenError::StorageFailed)));

    let mut flow = LoginFlow::new(None, true);
    flow.step(LoginEvent::Begin);
    flow.step(LoginEvent::CacheLoaded(None));
    flow.step(LoginEvent::CredentialsEntered { email: "a@b.c".to_string(), password: "pw".to_string() });
    match flow.step(LoginEvent::Replied(granted("acc", None))) {
        LoginAction::Finish(Ok(token)) => assert_eq!(token.refresh_token, None),
        other => panic!("unexpected {:?}", other),
    }
}

#[test]
fn out_of_order_events_are_ignored() {
    let mut flow = LoginFlow::new(None, true);
    assert_eq!(flow.step(LoginEvent::Saved(true)), LoginAction::Wait);
    assert_eq!(flow.stage, LoginStage::Start(None));
}

#[test]
fn token_error_messages() {
    assert_eq!(
        TokenError::CannotPrompt.message(),
        "non-interactive session and no refresh token available: cannot prompt for credentials"
    );
    assert_eq!(
        TokenError::Rejected(ApiResponseError { status_code: 401, body: "no".to_string() }).message(),
        "the identity provider refused: status 401: no"
    );
    assert_eq!(TokenError::Transport("dns".to_string()).message(), "cannot reach the identity provider: dns");
    assert_eq!(TokenError::StorageFailed.message(), "cannot save the refresh token");
}
