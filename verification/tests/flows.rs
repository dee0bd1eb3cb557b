use auth_service::config::AuthConfig;
use auth_service::domain::{
    AuthAPIError, BannedTokenStoreError, Email, EmailClientError, LoginAttemptStoreError,
    LoginAttemptSummary, Password, RecaptchaError, Secret, TwoFACodeStoreError, UnexpectedCause,
    User, UserStoreError,
};
use auth_service::routes::delete_account::{
    advance_delete_account, begin_delete_account, DeleteAccountAction, DeleteAccountEvent,
    DeleteAccountState,
};
use auth_service::routes::login::{
    advance_login, begin_login, refuse_login, LoginAction, LoginEvent, LoginState,
};
use auth_service::routes::logout::{
    advance_logout, begin_logout, LogoutAction, LogoutEvent, LogoutState,
};
use auth_service::routes::signup::{
    advance_signup, begin_signup, SignupAction, SignupEvent, SignupState,
};
use auth_service::routes::verify_2fa::{
    advance_verify_2fa, begin_verify_2fa, Verify2FAAction, Verify2FAEvent, Verify2FAState,
};
use auth_service::routes::verify_token::{
    advance_verify_token, begin_verify_token, VerifyTokenAction, VerifyTokenEvent,
    VerifyTokenState,
};
use auth_service::routes::{
    DeleteAccountRequest, LoginRequest, LoginResponse, SignupRequest, Verify2FARequest,
    VerifyTokenRequest,
};
use auth_service::utils::auth::generate_auth_token_at;

const SECOND: u128 = 1_000_000_000;

fn auth() -> AuthConfig {
    AuthConfig {
        jwt_secret: "secret".to_string(),
        jwt_cookie_name: "jwt".to_string(),
        token_ttl_seconds: 600,
    }
}

fn login_request(token: Option<&str>) -> LoginRequest {
    LoginRequest {
        email: "flow@example.com".to_string(),
        password: Secret::new("Password123!".to_string()),
        recaptcha_token: token.map(|t| t.to_string()),
    }
}

fn summary(failed_attempts: u32) -> LoginEvent {
    LoginEvent::Summary {
        summary: Ok(LoginAttemptSummary {
            failed_attempts,
            requires_recaptcha: failed_attempts >= 3,
            last_attempt: Some(1),
        }),
    }
}

fn user(requires_2fa: bool) -> User {
    User::new(
        Email::parse(Secret::new("flow@example.com".to_string())).unwrap(),
        Password::from_hash("$hash".to_string()),
        requires_2fa,
    )
}

fn refused(action: &LoginAction, error: AuthAPIError) -> bool {
    matches!(action, LoginAction::Respond { cookie: None, answer: Err(e) } if *e == error)
}

#[test]
fn login_steps_come_in_order_without_second_factor() {
    let (state, action) = begin_login(login_request(None));
    assert!(matches!(state, LoginState::AwaitingSummary { .. }));
    match &action {
        LoginAction::ReadSummary { email } => {
            assert_eq!(email.as_ref().expose_secret(), "flow@example.com")
        }
        _ => panic!("the tracker should be asked first"),
    }
    let (state, action) = advance_login(state, summary(2), &auth(), 0);
    assert!(matches!(state, LoginState::AwaitingValidation { .. }));
    match &action {
        LoginAction::ValidateUser { email, password } => {
            assert_eq!(email.as_ref().expose_secret(), "flow@example.com");
            assert_eq!(password.as_ref().expose_secret(), "Password123!");
        }
        _ => panic!("the password should be checked next"),
    }
    let (state, action) =
        advance_login(state, LoginEvent::Validated { validated: Ok(()) }, &auth(), 0);
    assert!(matches!(state, LoginState::AwaitingUser { .. }));
    assert!(matches!(action, LoginAction::GetUser { .. }));
    let (state, action) =
        advance_login(state, LoginEvent::UserRead { user: Ok(user(false)) }, &auth(), 0);
    assert!(matches!(state, LoginState::AwaitingRecord { user: Some(_) }));
    assert!(matches!(action, LoginAction::RecordAttempt { success: true, .. }));
    let now = 1_000 * SECOND;
    let (state, action) =
        advance_login(state, LoginEvent::Recorded { recorded: Ok(()) }, &auth(), now);
    assert!(matches!(state, LoginState::Done));
    match action {
        LoginAction::Respond { cookie: Some(cookie), answer } => {
            assert!(matches!(answer, Ok((200, LoginResponse::RegularAuth))));
            assert_eq!(cookie.name, "jwt");
            assert_eq!(cookie.value, {
                let email = Email::parse(Secret::new("flow@example.com".to_string())).unwrap();
                generate_auth_token_at(&email, &auth(), 1_000).unwrap()
            });
        }
        _ => panic!("the session should be open"),
    }
}

#[test]
fn login_steps_come_in_order_with_second_factor() {
    let (state, _) = begin_login(login_request(Some("tok")));
    let (state, action) = advance_login(state, summary(3), &auth(), 0);
    assert!(matches!(state, LoginState::AwaitingVerification { .. }));
    match &action {
        LoginAction::VerifyRecaptcha { token } => assert_eq!(token.as_str(), "tok"),
        _ => panic!("the verifier should be asked"),
    }
    let (state, action) =
        advance_login(state, LoginEvent::Verified { verified: Ok(()) }, &auth(), 0);
    assert!(matches!(action, LoginAction::ValidateUser { .. }));
    let (state, _) = advance_login(state, LoginEvent::Validated { validated: Ok(()) }, &auth(), 0);
    let (state, _) =
        advance_login(state, LoginEvent::UserRead { user: Ok(user(true)) }, &auth(), 0);
    let (state, action) =
        advance_login(state, LoginEvent::Recorded { recorded: Ok(()) }, &auth(), 0);
    let (id, code) = match (&state, &action) {
        (
            LoginState::AwaitingChallengeStored { login_attempt_id, code, .. },
            LoginAction::StoreChallenge { email, login_attempt_id: issued, code: sent },
        ) => {
            assert_eq!(email.as_ref().expose_secret(), "flow@example.com");
            assert_eq!(login_attempt_id, issued);
            assert_eq!(code, sent);
            (issued.clone(), sent.clone())
        }
        _ => panic!("the challenge should be stored"),
    };
    let (state, action) =
        advance_login(state, LoginEvent::ChallengeStored { stored: Ok(()) }, &auth(), 0);
    assert!(matches!(state, LoginState::AwaitingCodeSent { .. }));
    match &action {
        LoginAction::SendCode { email, subject, body } => {
            assert_eq!(email.as_ref().expose_secret(), "flow@example.com");
            assert_eq!(subject, "Your 2FA Code");
            assert_eq!(
                body,
                &format!("Your two-factor authentication code is: {}", code.as_ref())
            );
        }
        _ => panic!("the code should be sent"),
    }
    let (state, action) = advance_login(state, LoginEvent::CodeSent { sent: Ok(()) }, &auth(), 0);
    assert!(matches!(state, LoginState::Done));
    match action {
        LoginAction::Respond {
            cookie: None,
            answer: Ok((206, LoginResponse::TwoFactorAuth(response))),
        } => {
            assert_eq!(response.message, "2FA required");
            assert_eq!(response.login_attempt_id, id.as_ref());
        }
        _ => panic!("the second factor should be pending"),
    }
}

#[test]
fn login_refusals() {
    // malformed input: nothing is asked
    let mut request = login_request(None);
    request.email = "nonsense".to_string();
    let (state, action) = begin_login(request);
    assert!(matches!(state, LoginState::Done));
    assert!(refused(&action, AuthAPIError::InvalidInput));
    // verification demanded
    let (state, _) = begin_login(login_request(None));
    let (state, action) = advance_login(state, summary(3), &auth(), 0);
    assert!(matches!(state, LoginState::Done));
    assert!(matches!(
        action,
        LoginAction::Respond { cookie: None, answer: Ok((428, LoginResponse::RecaptchaRequired)) }
    ));
    // blank token
    let (state, _) = begin_login(login_request(Some("  ")));
    let (_, action) = advance_login(state, summary(5), &auth(), 0);
    assert!(refused(&action, AuthAPIError::IncorrectCredentials));
    // a token is not looked at while the counter does not ask
    let (state, _) = begin_login(login_request(Some("  ")));
    let (_, action) = advance_login(state, summary(0), &auth(), 0);
    assert!(matches!(action, LoginAction::ValidateUser { .. }));
    // the verifier says no
    let (state, _) = begin_login(login_request(Some("tok")));
    let (state, _) = advance_login(state, summary(3), &auth(), 0);
    let (state, action) = advance_login(
        state,
        LoginEvent::Verified { verified: Err(RecaptchaError::NetworkError) },
        &auth(),
        0,
    );
    assert!(matches!(state, LoginState::Done));
    assert!(refused(&action, AuthAPIError::IncorrectCredentials));
    // wrong password: recorded as a failure, then refused
    let (state, _) = begin_login(login_request(None));
    let (state, _) = advance_login(state, summary(0), &auth(), 0);
    let (state, action) = advance_login(
        state,
        LoginEvent::Validated { validated: Err(UserStoreError::InvalidCredentials) },
        &auth(),
        0,
    );
    assert!(matches!(state, LoginState::AwaitingRecord { user: None }));
    assert!(matches!(action, LoginAction::RecordAttempt { success: false, .. }));
    let (_, action) = advance_login(state, LoginEvent::Recorded { recorded: Ok(()) }, &auth(), 0);
    assert!(refused(&action, AuthAPIError::IncorrectCredentials));
    // the record cannot be read after the password passed: counted as a failure
    let (state, _) = begin_login(login_request(None));
    let (state, _) = advance_login(state, summary(0), &auth(), 0);
    let (state, _) = advance_login(state, LoginEvent::Validated { validated: Ok(()) }, &auth(), 0);
    let (_, action) = advance_login(
        state,
        LoginEvent::UserRead { user: Err(UserStoreError::UnexpectedError) },
        &auth(),
        0,
    );
    assert!(matches!(action, LoginAction::RecordAttempt { success: false, .. }));
}

#[test]
fn login_collaborators_that_fail_are_unexpected_errors() {
    let (state, _) = begin_login(login_request(None));
    let (state, action) = advance_login(
        state,
        LoginEvent::Summary { summary: Err(LoginAttemptStoreError::UnexpectedError) },
        &auth(),
        0,
    );
    assert!(matches!(state, LoginState::Done));
    assert!(refused(&action, AuthAPIError::UnexpectedError(UnexpectedCause::LoginAttemptStore)));

    let recorded = |user: Option<User>| LoginState::AwaitingRecord { user };
    let (_, action) = advance_login(
        recorded(Some(user(false))),
        LoginEvent::Recorded { recorded: Err(LoginAttemptStoreError::UnexpectedError) },
        &auth(),
        0,
    );
    assert!(refused(&action, AuthAPIError::UnexpectedError(UnexpectedCause::LoginAttemptStore)));

    let (state, _) = advance_login(
        recorded(Some(user(true))),
        LoginEvent::Recorded { recorded: Ok(()) },
        &auth(),
        0,
    );
    let (_, action) = advance_login(
        state,
        LoginEvent::ChallengeStored { stored: Err(TwoFACodeStoreError::UnexpectedError) },
        &auth(),
        0,
    );
    assert!(refused(&action, AuthAPIError::UnexpectedError(UnexpectedCause::ChallengeStore)));

    let (state, _) = advance_login(
        recorded(Some(user(true))),
        LoginEvent::Recorded { recorded: Ok(()) },
        &auth(),
        0,
    );
    let (state, _) =
        advance_login(state, LoginEvent::ChallengeStored { stored: Ok(()) }, &auth(), 0);
    let (_, action) = advance_login(
        state,
        LoginEvent::CodeSent { sent: Err(EmailClientError::DeliveryFailed) },
        &auth(),
        0,
    );
    assert!(refused(&action, AuthAPIError::UnexpectedError(UnexpectedCause::EmailDelivery)));

    // a session whose expiry cannot be written
    let config = AuthConfig { token_ttl_seconds: i64::MAX, ..auth() };
    let (_, action) = advance_login(
        recorded(Some(user(false))),
        LoginEvent::Recorded { recorded: Ok(()) },
        &config,
        SECOND,
    );
    assert!(refused(&action, AuthAPIError::UnexpectedError(UnexpectedCause::TokenExpiry)));
}

#[test]
fn events_out_of_turn_end_the_request() {
    let (state, _) = begin_login(login_request(None));
    let (state, action) = advance_login(state, LoginEvent::CodeSent { sent: Ok(()) }, &auth(), 0);
    assert!(matches!(state, LoginState::Done));
    assert!(refused(&action, AuthAPIError::UnexpectedError(UnexpectedCause::EventOutOfTurn)));
    let (state, action) = advance_login(LoginState::Done, summary(0), &auth(), 0);
    assert!(matches!(state, LoginState::Done));
    assert!(refused(&action, AuthAPIError::UnexpectedError(UnexpectedCause::EventOutOfTurn)));
    let (state, action) = refuse_login(AuthAPIError::MissingToken);
    assert!(matches!(state, LoginState::Done));
    assert!(refused(&action, AuthAPIError::MissingToken));

    let (state, action) = advance_logout(
        LogoutState::AwaitingRevocation,
        LogoutEvent::RevocationChecked { banned: Ok(false) },
        &auth(),
        0,
    );
    assert!(matches!(state, LogoutState::Done));
    assert!(matches!(
        action,
        LogoutAction::Respond { cookie: None, answer: Err(AuthAPIError::UnexpectedError(UnexpectedCause::EventOutOfTurn)) }
    ));
    let (_, action) =
        advance_signup(SignupState::Done, SignupEvent::Added { added: Ok(()) });
    assert!(matches!(
        action,
        SignupAction::Respond { answer: Err(AuthAPIError::UnexpectedError(UnexpectedCause::EventOutOfTurn)) }
    ));
    let (_, action) = advance_verify_2fa(
        Verify2FAState::Done,
        Verify2FAEvent::Reset { reset: Ok(()) },
        &auth(),
        0,
    );
    assert!(matches!(
        action,
        Verify2FAAction::Respond { cookie: None, answer: Err(AuthAPIError::UnexpectedError(UnexpectedCause::EventOutOfTurn)) }
    ));
    let (_, action) = advance_delete_account(
        DeleteAccountState::Done,
        DeleteAccountEvent::Deleted { outcome: Ok(()) },
    );
    assert!(matches!(
        action,
        DeleteAccountAction::Respond { answer: Err(AuthAPIError::UnexpectedError(UnexpectedCause::EventOutOfTurn)) }
    ));
    let (_, action) = advance_verify_token(
        VerifyTokenState::Done,
        VerifyTokenEvent::RevocationChecked { banned: Ok(false) },
        &auth(),
        0,
    );
    assert!(matches!(
        action,
        VerifyTokenAction::Respond { answer: Err(AuthAPIError::UnexpectedError(UnexpectedCause::EventOutOfTurn)) }
    ));
}

#[test]
fn logout_steps() {
    let email = Email::parse(Secret::new("flow@example.com".to_string())).unwrap();
    let token = generate_auth_token_at(&email, &auth(), 1_000).unwrap();
    let now = 1_000 * SECOND;

    let (state, action) = begin_logout(None);
    assert!(matches!(state, LogoutState::Done));
    assert!(matches!(
        action,
        LogoutAction::Respond { cookie: None, answer: Err(AuthAPIError::MissingToken) }
    ));

    let (state, action) = begin_logout(Some(token.clone()));
    assert!(matches!(&action, LogoutAction::CheckRevocation { token: t } if *t == token));
    let (state, action) = advance_logout(
        state,
        LogoutEvent::RevocationChecked { banned: Ok(false) },
        &auth(),
        now,
    );
    assert!(matches!(state, LogoutState::AwaitingRevocation));
    // the token expires at 1600 s: with the leeway it could pass for 661 s more
    assert!(matches!(
        &action,
        LogoutAction::Revoke { token: t, ttl_seconds: 661 } if *t == token
    ));
    let (state, action) =
        advance_logout(state, LogoutEvent::Revoked { stored: Ok(()) }, &auth(), now);
    assert!(matches!(state, LogoutState::Done));
    match action {
        LogoutAction::Respond { cookie: Some(removal), answer } => {
            assert_eq!(answer, Ok(200));
            assert_eq!(removal.name, "jwt");
            assert_eq!(removal.value, "");
        }
        _ => panic!("the logout should have gone well"),
    }

    // a revoked, a forged and an unreachable list
    for banned in [Ok(true), Err(BannedTokenStoreError::UnexpectedError)] {
        let (state, _) = begin_logout(Some(token.clone()));
        let (state, action) =
            advance_logout(state, LogoutEvent::RevocationChecked { banned }, &auth(), now);
        assert!(matches!(state, LogoutState::Done));
        assert!(matches!(
            action,
            LogoutAction::Respond { cookie: None, answer: Err(AuthAPIError::InvalidToken) }
        ));
    }
    let (state, _) = begin_logout(Some("forged".to_string()));
    let (_, action) = advance_logout(
        state,
        LogoutEvent::RevocationChecked { banned: Ok(false) },
        &auth(),
        now,
    );
    assert!(matches!(
        action,
        LogoutAction::Respond { cookie: None, answer: Err(AuthAPIError::InvalidToken) }
    ));
    // the list could not be written
    let (_, action) = advance_logout(
        LogoutState::AwaitingRevocation,
        LogoutEvent::Revoked { stored: Err(BannedTokenStoreError::UnexpectedError) },
        &auth(),
        now,
    );
    assert!(matches!(
        action,
        LogoutAction::Respond { cookie: None, answer: Err(AuthAPIError::UnexpectedError(UnexpectedCause::RevocationStore)) }
    ));
}

#[test]
fn verify_token_steps() {
    let email = Email::parse(Secret::new("flow@example.com".to_string())).unwrap();
    let token = generate_auth_token_at(&email, &auth(), 1_000).unwrap();
    let answer = |banned, now| {
        let (state, action) = begin_verify_token(VerifyTokenRequest { token: token.clone() });
        assert!(matches!(state, VerifyTokenState::AwaitingRevocationCheck { .. }));
        assert!(matches!(&action, VerifyTokenAction::CheckRevocation { token: t } if *t == token));
        match advance_verify_token(
            state,
            VerifyTokenEvent::RevocationChecked { banned },
            &auth(),
            now,
        ) {
            (VerifyTokenState::Done, VerifyTokenAction::Respond { answer }) => answer,
            _ => panic!("the check should be answered"),
        }
    };
    assert_eq!(answer(Ok(false), 1_000 * SECOND), Ok(200));
    assert_eq!(answer(Ok(true), 1_000 * SECOND), Err(AuthAPIError::InvalidToken));
    assert_eq!(answer(Ok(false), 1_661 * SECOND), Err(AuthAPIError::InvalidToken));
    assert_eq!(
        answer(Err(BannedTokenStoreError::UnexpectedError), 1_000 * SECOND),
        Err(AuthAPIError::InvalidToken)
    );
}

#[test]
fn signup_steps() {
    let request = |email: &str, password: &str, token: &str| SignupRequest {
        email: email.to_string(),
        password: password.to_string(),
        requires_2fa: true,
        recaptcha_token: token.to_string(),
    };
    let (state, action) = begin_signup(request("new@example.com", "Password123!", " "));
    assert!(matches!(state, SignupState::Done));
    assert!(matches!(
        action,
        SignupAction::Respond { answer: Err(AuthAPIError::IncorrectCredentials) }
    ));

    let (state, action) = begin_signup(request("new@example.com", "Password123!", "tok"));
    assert!(matches!(&action, SignupAction::VerifyRecaptcha { token } if token.as_str() == "tok"));
    let (state, action) = advance_signup(state, SignupEvent::Verified { verified: Ok(()) });
    assert!(matches!(state, SignupState::AwaitingEnrollment));
    match &action {
        SignupAction::AddUser { user } => {
            assert_eq!(user.email.as_ref().expose_secret(), "new@example.com");
            assert_eq!(user.password.as_ref().expose_secret(), "Password123!");
            assert!(user.requires_2fa);
        }
        _ => panic!("the user should be added"),
    }
    let (_, action) = advance_signup(state, SignupEvent::Added { added: Ok(()) });
    match action {
        SignupAction::Respond { answer: Ok((201, body)) } => {
            assert_eq!(body.message, "User created successfully!")
        }
        _ => panic!("the account should be created"),
    }

    let added = |outcome| {
        advance_signup(SignupState::AwaitingEnrollment, SignupEvent::Added { added: outcome }).1
    };
    assert!(matches!(
        added(Err(UserStoreError::UserAlreadyExists)),
        SignupAction::Respond { answer: Err(AuthAPIError::UserAlreadyExists) }
    ));
    assert!(matches!(
        added(Err(UserStoreError::UnexpectedError)),
        SignupAction::Respond { answer: Err(AuthAPIError::UnexpectedError(UnexpectedCause::CredentialStore)) }
    ));

    // the verifier is heard before the input is looked at
    let (state, _) = begin_signup(request("nonsense", "weak", "tok"));
    let (_, action) = advance_signup(
        state,
        SignupEvent::Verified { verified: Err(RecaptchaError::VerificationFailed) },
    );
    assert!(matches!(
        action,
        SignupAction::Respond { answer: Err(AuthAPIError::IncorrectCredentials) }
    ));
    let (state, _) = begin_signup(request("nonsense", "Password123!", "tok"));
    let (_, action) = advance_signup(state, SignupEvent::Verified { verified: Ok(()) });
    assert!(matches!(
        action,
        SignupAction::Respond { answer: Err(AuthAPIError::InvalidCredentials) }
    ));
}

#[test]
fn delete_account_steps() {
    let request = |email: &str, password: &str| DeleteAccountRequest {
        email: email.to_string(),
        password: password.to_string(),
    };
    let (state, action) = begin_delete_account(request("nonsense", "Password123!"));
    assert!(matches!(state, DeleteAccountState::Done));
    assert!(matches!(
        action,
        DeleteAccountAction::Respond { answer: Err(AuthAPIError::InvalidCredentials) }
    ));
    let (state, action) = begin_delete_account(request("gone@example.com", "Password123!"));
    assert!(matches!(state, DeleteAccountState::AwaitingDeletion));
    assert!(matches!(
        &action,
        DeleteAccountAction::DeleteUser { email, password }
            if email.as_ref().expose_secret() == "gone@example.com"
                && password.as_ref().expose_secret() == "Password123!"
    ));
    let deleted = |outcome| {
        advance_delete_account(
            DeleteAccountState::AwaitingDeletion,
            DeleteAccountEvent::Deleted { outcome },
        )
        .1
    };
    match deleted(Ok(())) {
        DeleteAccountAction::Respond { answer: Ok((200, body)) } => {
            assert_eq!(body.message, "Account deleted successfully!")
        }
        _ => panic!("the account should be deleted"),
    }
    for (outcome, error) in [
        (UserStoreError::UserNotFound, AuthAPIError::IncorrectCredentials),
        (UserStoreError::InvalidCredentials, AuthAPIError::IncorrectCredentials),
        (UserStoreError::UnexpectedError, AuthAPIError::UnexpectedError(UnexpectedCause::CredentialStore)),
        (UserStoreError::UserAlreadyExists, AuthAPIError::UnexpectedError(UnexpectedCause::CredentialStore)),
    ] {
        assert!(matches!(
            deleted(Err(outcome)),
            DeleteAccountAction::Respond { answer: Err(e) } if e == error
        ));
    }
    let _ = state;
}

#[test]
fn verify_2fa_steps() {
    let id = "00000000-0000-4000-8000-000000000001";
    let request = Verify2FARequest {
        email: "flow@example.com".to_string(),
        login_attempt_id: id.to_string(),
        two_fa_code: "123456".to_string(),
    };
    let stored = |id: &str, code: &str| {
        Ok((
            auth_service::domain::LoginAttemptId::parse(id.to_string()).unwrap(),
            auth_service::domain::TwoFACode::parse(code.to_string()).unwrap(),
        ))
    };
    let (state, action) = begin_verify_2fa(request.clone());
    assert!(matches!(state, Verify2FAState::AwaitingChallenge { .. }));
    assert!(matches!(action, Verify2FAAction::ReadChallenge { .. }));
    let (state, action) = advance_verify_2fa(
        state,
        Verify2FAEvent::ChallengeRead { stored: stored(id, "123456") },
        &auth(),
        0,
    );
    assert!(matches!(state, Verify2FAState::AwaitingRemoval { .. }));
    assert!(matches!(action, Verify2FAAction::RemoveChallenge { .. }));
    let (state, action) =
        advance_verify_2fa(state, Verify2FAEvent::Removed { removed: Ok(()) }, &auth(), 0);
    assert!(matches!(state, Verify2FAState::AwaitingReset { .. }));
    assert!(matches!(action, Verify2FAAction::ResetAttempts { .. }));
    let (state, action) =
        advance_verify_2fa(state, Verify2FAEvent::Reset { reset: Ok(()) }, &auth(), 5 * SECOND);
    assert!(matches!(state, Verify2FAState::Done));
    match action {
        Verify2FAAction::Respond { cookie: Some(cookie), answer } => {
            assert_eq!(answer, Ok(200));
            let email = Email::parse(Secret::new("flow@example.com".to_string())).unwrap();
            assert_eq!(cookie.value, generate_auth_token_at(&email, &auth(), 5).unwrap());
        }
        _ => panic!("the session should be open"),
    }

    // wrong pairs and a missing challenge are told alike, and nothing is withdrawn
    for read in [
        stored(id, "654321"),
        stored("00000000-0000-4000-8000-000000000002", "123456"),
        Err(TwoFACodeStoreError::LoginAttemptIdNotFound),
        Err(TwoFACodeStoreError::UnexpectedError),
    ] {
        let (state, _) = begin_verify_2fa(request.clone());
        let (state, action) =
            advance_verify_2fa(state, Verify2FAEvent::ChallengeRead { stored: read }, &auth(), 0);
        assert!(matches!(state, Verify2FAState::Done));
        assert!(matches!(
            action,
            Verify2FAAction::Respond {
                cookie: None,
                answer: Err(AuthAPIError::IncorrectCredentials)
            }
        ));
    }
    // stores that fail on the way
    let email = || Email::parse(Secret::new("flow@example.com".to_string())).unwrap();
    let (_, action) = advance_verify_2fa(
        Verify2FAState::AwaitingRemoval { email: email() },
        Verify2FAEvent::Removed { removed: Err(TwoFACodeStoreError::UnexpectedError) },
        &auth(),
        0,
    );
    assert!(matches!(
        action,
        Verify2FAAction::Respond { cookie: None, answer: Err(AuthAPIError::UnexpectedError(UnexpectedCause::ChallengeStore)) }
    ));
    let (_, action) = advance_verify_2fa(
        Verify2FAState::AwaitingReset { email: email() },
        Verify2FAEvent::Reset { reset: Err(LoginAttemptStoreError::UnexpectedError) },
        &auth(),
        0,
    );
    assert!(matches!(
        action,
        Verify2FAAction::Respond { cookie: None, answer: Err(AuthAPIError::UnexpectedError(UnexpectedCause::LoginAttemptStore)) }
    ));
    // malformed requests
    let mut malformed = request.clone();
    malformed.two_fa_code = "12".to_string();
    let (state, action) = begin_verify_2fa(malformed);
    assert!(matches!(state, Verify2FAState::Done));
    assert!(matches!(
        action,
        Verify2FAAction::Respond { cookie: None, answer: Err(AuthAPIError::InvalidInput) }
    ));
}
