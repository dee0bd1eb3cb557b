use auth_service::config::{
    AuthConfig, CorsConfig, DatabaseConfig, RedisConfig, ServerConfig, Settings,
};
use auth_service::domain::{AuthAPIError, Email, LoginAttemptId, Secret, TwoFACode};
use auth_service::routes::login::{
    answer_pending, decide_challenge, login_at, two_fa_message, ChallengeDecision,
};
use auth_service::routes::logout::logout_at;
use auth_service::routes::verify_2fa::{check_challenge, verify_2fa_at};
use auth_service::routes::verify_token::verify_token_at;
use auth_service::routes::{
    delete_account, login, logout, signup, verify_2fa, verify_token, DeleteAccountRequest,
    LoginRequest, LoginResponse, SignupRequest, Verify2FARequest, VerifyTokenRequest,
};
use auth_service::services::{
    HashmapLoginAttemptStore, HashmapTwoFACodeStore, HashmapUserStore, HashsetBannedTokenStore,
    MockEmailClient, MockRecaptchaService,
};
use auth_service::utils::auth::validate_token;
use auth_service::AppState;

type TestApp = AppState<MockRecaptchaService, MockEmailClient>;

const SECOND: u128 = 1_000_000_000;

fn settings() -> Settings {
    Settings {
        server: ServerConfig { host: "127.0.0.1".to_string(), port: 0 },
        database: DatabaseConfig {
            host: "localhost".to_string(),
            port: 5432,
            username: "postgres".to_string(),
            password: "password".to_string(),
        },
        redis: RedisConfig {
            hostname: "127.0.0.1".to_string(),
            password: String::new(),
            banned_token_ttl_seconds: 600,
            banned_token_key_prefix: "banned_token:".to_string(),
            two_fa_code_ttl_seconds: 600,
            two_fa_code_key_prefix: "two_fa_code:".to_string(),
        },
        auth: AuthConfig {
            jwt_secret: "secret".to_string(),
            jwt_cookie_name: "jwt".to_string(),
            token_ttl_seconds: 600,
        },
        cors: CorsConfig { allowed_origins: "http://localhost:8000".to_string() },
    }
}

fn app(recaptcha_success: bool) -> TestApp {
    let settings = settings();
    AppState::new(
        HashmapUserStore::default(),
        HashmapLoginAttemptStore::new(),
        MockRecaptchaService::new(recaptcha_success),
        HashsetBannedTokenStore::with_ttl(settings.redis.banned_token_ttl_seconds),
        HashmapTwoFACodeStore::with_ttl(settings.redis.two_fa_code_ttl_seconds),
        MockEmailClient,
        settings,
    )
}

fn signup_request(email: &str, password: &str, requires_2fa: bool) -> SignupRequest {
    SignupRequest {
        email: email.to_string(),
        password: password.to_string(),
        requires_2fa,
        recaptcha_token: "test_token".to_string(),
    }
}

fn login_request(email: &str, password: &str, recaptcha_token: Option<&str>) -> LoginRequest {
    LoginRequest {
        email: email.to_string(),
        password: Secret::new(password.to_string()),
        recaptcha_token: recaptcha_token.map(|t| t.to_string()),
    }
}

fn parsed(email: &str) -> Email {
    Email::parse(Secret::new(email.to_string())).unwrap()
}

fn status(answer: &Result<(u16, LoginResponse), AuthAPIError>) -> u16 {
    match answer {
        Ok((status, _)) => *status,
        Err(e) => e.status_code(),
    }
}

#[test]
fn should_return_201_if_valid_input() {
    let mut app = app(true);
    let (status, body) =
        signup(&mut app, signup_request("test@example.com", "Password123!", true)).unwrap();
    assert_eq!(status, 201);
    assert_eq!(body.message, "User created successfully!");
}

#[test]
fn signup_should_return_400_if_invalid_input() {
    let mut app = app(true);
    let test_cases = [
        ("", "Password123!"),
        ("invalidemail", "Password123!"),
        ("invalid.email.com", "Password123!"),
        ("test@example.com", "short"),
        ("test@example.com", "1234567"),
        ("", "short"),
        ("invalidemail", "123"),
    ];
    for (email, password) in test_cases {
        let error = signup(&mut app, signup_request(email, password, true)).unwrap_err();
        assert_eq!(error.status_code(), 400, "Failed for input: {:?}", (email, password));
        assert_eq!(error.message(), "Invalid credentials");
    }
}

#[test]
fn should_return_409_if_email_already_exists() {
    let mut app = app(true);
    let first = signup(&mut app, signup_request("taken@example.com", "Password123!", true));
    assert_eq!(first.unwrap().0, 201);
    let second =
        signup(&mut app, signup_request("taken@example.com", "Password123!", true)).unwrap_err();
    assert_eq!(second.status_code(), 409);
    assert_eq!(second.message(), "User already exists");
}

#[test]
fn signup_with_unconfirmed_token_is_unauthorized() {
    let mut app = app(false);
    let mut request = signup_request("r@example.com", "Password123!", false);
    request.recaptcha_token = "invalid_token".to_string();
    let error = signup(&mut app, request).unwrap_err();
    assert_eq!(error, AuthAPIError::IncorrectCredentials);
    assert_eq!(error.status_code(), 401);
    assert_eq!(error.message(), "Incorrect credentials");
    // the verifier is heard before the rest of the input
    let error = signup(&mut app, signup_request("nonsense", "weak", false)).unwrap_err();
    assert_eq!(error, AuthAPIError::IncorrectCredentials);
}

#[test]
fn signup_with_blank_token_is_unauthorized() {
    let mut app = app(true);
    let mut request = signup_request("r@example.com", "Password123!", false);
    request.recaptcha_token = "".to_string();
    let error = signup(&mut app, request).unwrap_err();
    assert_eq!(error, AuthAPIError::IncorrectCredentials);
    assert_eq!(error.status_code(), 401);
    assert!(app.user_store.get_user(&parsed("r@example.com")).is_err());
}

#[test]
fn login_returns_200_for_valid_credentials() {
    let mut app = app(true);
    signup(&mut app, signup_request("ok@example.com", "Password123!", false)).unwrap();
    let (cookie, answer) = login(&mut app, login_request("ok@example.com", "Password123!", None));
    assert_eq!(status(&answer), 200);
    assert!(cookie.is_some());
}

#[test]
fn should_return_200_if_valid_credentials_and_2fa_disabled() {
    let mut app = app(true);
    signup(&mut app, signup_request("plain@example.com", "Password123!", false)).unwrap();
    let (cookie, answer) =
        login(&mut app, login_request("plain@example.com", "Password123!", None));
    assert_eq!(status(&answer), 200);
    assert!(matches!(answer, Ok((200, LoginResponse::RegularAuth))));
    let auth_cookie = cookie.expect("No auth cookie found");
    assert_eq!(auth_cookie.name, "jwt");
    assert!(!auth_cookie.value.is_empty());
}

#[test]
fn should_return_206_if_valid_credentials_and_2fa_enabled() {
    let mut app = app(true);
    signup(&mut app, signup_request("two@example.com", "Password123!", true)).unwrap();
    let (cookie, answer) = login(&mut app, login_request("two@example.com", "Password123!", None));
    assert!(cookie.is_none());
    let (status, body) = answer.unwrap();
    assert_eq!(status, 206);
    let response = match body {
        LoginResponse::TwoFactorAuth(response) => response,
        other => panic!("unexpected body: {:?}", other),
    };
    assert_eq!(response.message, "2FA required".to_owned());

    let stored_code = app
        .two_fa_code_store
        .get_code(&parsed("two@example.com"))
        .expect("2FA code should be stored for this email");
    assert_eq!(stored_code.0.as_ref(), response.login_attempt_id);
    assert_eq!(stored_code.1.as_ref().len(), 6);
    assert!(stored_code.1.as_ref().chars().all(|c| c.is_ascii_digit()));
}

#[test]
fn login_should_return_400_if_invalid_input() {
    let mut app = app(true);
    let (cookie, answer) = login(&mut app, login_request("invalid-email", "Password123!", None));
    assert!(cookie.is_none());
    let error = answer.unwrap_err();
    assert_eq!(error.status_code(), 400);
    assert_eq!(error.message(), "Invalid input");
    let (_, answer) = login(&mut app, login_request("a@example.com", "weak", None));
    assert_eq!(answer.unwrap_err(), AuthAPIError::InvalidInput);
}

#[test]
fn login_should_return_401_if_incorrect_credentials() {
    let mut app = app(true);
    signup(&mut app, signup_request("wrong@example.com", "Password123!", false)).unwrap();
    let (cookie, answer) =
        login(&mut app, login_request("wrong@example.com", "WrongPassword123!", None));
    assert!(cookie.is_none());
    let error = answer.unwrap_err();
    assert_eq!(error.status_code(), 401);
    assert_eq!(error.message(), "Incorrect credentials");
    // an identity that is unknown is told the same
    let (_, answer) = login(&mut app, login_request("nobody@example.com", "Password123!", None));
    assert_eq!(answer.unwrap_err(), AuthAPIError::IncorrectCredentials);
}

#[test]
fn should_allow_login_without_recaptcha_for_first_attempts() {
    let mut app = app(true);
    signup(&mut app, signup_request("first@example.com", "Password123!", false)).unwrap();
    let (_, answer) = login(&mut app, login_request("first@example.com", "Password123!", None));
    assert!(matches!(answer, Ok((200, LoginResponse::RegularAuth))));
}

#[test]
fn should_require_recaptcha_after_three_failed_attempts() {
    let mut app = app(true);
    signup(&mut app, signup_request("three@example.com", "Password123!", false)).unwrap();
    for _ in 0..3 {
        let (_, answer) =
            login(&mut app, login_request("three@example.com", "WrongPassword123!", None));
        assert_eq!(status(&answer), 401);
    }
    let (cookie, answer) =
        login(&mut app, login_request("three@example.com", "Password123!", None));
    assert!(cookie.is_none());
    assert_eq!(status(&answer), 428);
    assert!(matches!(answer, Ok((428, LoginResponse::RecaptchaRequired))));
}

#[test]
fn should_allow_login_with_valid_recaptcha_after_failed_attempts() {
    let mut app = app(true);
    signup(&mut app, signup_request("valid@example.com", "Password123!", false)).unwrap();
    for _ in 0..3 {
        login(&mut app, login_request("valid@example.com", "WrongPassword123!", None));
    }
    let (_, answer) = login(
        &mut app,
        login_request("valid@example.com", "Password123!", Some("valid_test_token")),
    );
    assert_eq!(status(&answer), 200);
}

#[test]
fn should_reject_login_with_invalid_recaptcha() {
    let mut app = app(true);
    signup(&mut app, signup_request("reject@example.com", "Password123!", false)).unwrap();
    app.recaptcha_service = MockRecaptchaService::new(false);
    for _ in 0..3 {
        login(&mut app, login_request("reject@example.com", "WrongPassword123!", None));
    }
    let (_, answer) = login(
        &mut app,
        login_request("reject@example.com", "Password123!", Some("invalid_token")),
    );
    assert_eq!(status(&answer), 401);
    assert_eq!(answer.unwrap_err(), AuthAPIError::IncorrectCredentials);
    // a refused token is no attempt: the counter stays at three
    let summary = app.login_attempt_store.get_attempt_summary(&parsed("reject@example.com"));
    assert_eq!(summary.unwrap().failed_attempts, 3);
    // a blank token is refused without asking the verifier
    app.recaptcha_service = MockRecaptchaService::new(true);
    let (_, answer) =
        login(&mut app, login_request("reject@example.com", "Password123!", Some("  ")));
    assert_eq!(answer.unwrap_err(), AuthAPIError::IncorrectCredentials);
    let summary = app.login_attempt_store.get_attempt_summary(&parsed("reject@example.com"));
    assert_eq!(summary.unwrap().failed_attempts, 3);
}

#[test]
fn should_reset_attempts_after_successful_login() {
    let mut app = app(true);
    signup(&mut app, signup_request("resets@example.com", "Password123!", false)).unwrap();
    for _ in 0..3 {
        login(&mut app, login_request("resets@example.com", "WrongPassword123!", None));
    }
    let (_, answer) = login(
        &mut app,
        login_request("resets@example.com", "Password123!", Some("valid_test_token")),
    );
    assert_eq!(status(&answer), 200);
    let (_, answer) = login(&mut app, login_request("resets@example.com", "Password123!", None));
    assert_eq!(status(&answer), 200);
}

#[test]
fn should_track_attempts_separately_for_different_emails() {
    let mut app = app(true);
    signup(&mut app, signup_request("one@example.com", "Password123!", false)).unwrap();
    signup(&mut app, signup_request("other@example.com", "Password123!", false)).unwrap();
    for _ in 0..3 {
        login(&mut app, login_request("one@example.com", "WrongPassword123!", None));
    }
    let (_, answer) = login(&mut app, login_request("one@example.com", "Password123!", None));
    assert_eq!(status(&answer), 428);
    let (_, answer) = login(&mut app, login_request("other@example.com", "Password123!", None));
    assert_eq!(status(&answer), 200);
}

#[test]
fn scenario_failed_logins_escalate_to_human_verification() {
    let mut app = app(true);
    signup(&mut app, signup_request("a@x.com", "Aa1!aaaa", false)).unwrap();
    for _ in 0..3 {
        let (_, answer) = login(&mut app, login_request("a@x.com", "Aa1!aaab", None));
        assert_eq!(answer.unwrap_err(), AuthAPIError::IncorrectCredentials);
    }
    let (cookie, answer) = login(&mut app, login_request("a@x.com", "Aa1!aaaa", None));
    assert!(cookie.is_none());
    assert!(matches!(answer, Ok((428, LoginResponse::RecaptchaRequired))));
    // being asked for verification is no attempt
    let summary = app.login_attempt_store.get_attempt_summary(&parsed("a@x.com")).unwrap();
    assert_eq!(summary.failed_attempts, 3);
    let (cookie, answer) = login(&mut app, login_request("a@x.com", "Aa1!aaaa", Some("token")));
    assert!(cookie.is_some());
    assert!(matches!(answer, Ok((200, LoginResponse::RegularAuth))));
    let summary = app.login_attempt_store.get_attempt_summary(&parsed("a@x.com")).unwrap();
    assert_eq!(summary.failed_attempts, 0);
    assert!(!summary.requires_recaptcha);
}

#[test]
fn scenario_second_factor_is_answered_once() {
    let mut app = app(true);
    signup(&mut app, signup_request("b@x.com", "Aa1!aaaa", true)).unwrap();
    let (cookie, answer) = login(&mut app, login_request("b@x.com", "Aa1!aaaa", None));
    assert!(cookie.is_none());
    let attempt_id = match answer {
        Ok((206, LoginResponse::TwoFactorAuth(response))) => response.login_attempt_id,
        other => panic!("unexpected answer: {:?}", other),
    };
    let (stored_id, stored_code) = app.two_fa_code_store.get_code(&parsed("b@x.com")).unwrap();
    assert_eq!(stored_id.as_ref(), attempt_id);
    let wrong_code = if stored_code.as_ref() == "123456" { "654321" } else { "123456" };

    let wrong = Verify2FARequest {
        email: "b@x.com".to_string(),
        login_attempt_id: attempt_id.clone(),
        two_fa_code: wrong_code.to_string(),
    };
    let (cookie, answer) = verify_2fa(&mut app, wrong);
    assert!(cookie.is_none());
    assert_eq!(answer.unwrap_err(), AuthAPIError::IncorrectCredentials);
    // the challenge is still there
    assert!(app.two_fa_code_store.get_code(&parsed("b@x.com")).is_ok());

    let right = Verify2FARequest {
        email: "b@x.com".to_string(),
        login_attempt_id: attempt_id,
        two_fa_code: stored_code.as_ref().to_string(),
    };
    let (cookie, answer) = verify_2fa(&mut app, right.clone());
    assert_eq!(answer, Ok(200));
    let cookie = cookie.expect("No auth cookie found");
    assert_eq!(cookie.name, "jwt");
    let claims = validate_token(&cookie.value, &app.banned_token_store, &app.settings.auth);
    assert_eq!(claims.unwrap().sub, "b@x.com");
    assert!(app.two_fa_code_store.get_code(&parsed("b@x.com")).is_err());

    let (cookie, answer) = verify_2fa(&mut app, right);
    assert!(cookie.is_none());
    assert_eq!(answer.unwrap_err(), AuthAPIError::IncorrectCredentials);
}

#[test]
fn scenario_logout_revokes_the_token() {
    let mut app = app(true);
    signup(&mut app, signup_request("c@x.com", "Aa1!aaaa", false)).unwrap();
    let (cookie, _) = login(&mut app, login_request("c@x.com", "Aa1!aaaa", None));
    let token = cookie.unwrap().value;
    assert_eq!(verify_token(&app, VerifyTokenRequest { token: token.clone() }), Ok(200));

    let (removal, answer) = logout(&mut app, Some(token.clone()));
    assert_eq!(answer, Ok(200));
    let removal = removal.expect("no removal cookie");
    assert_eq!(removal.name, "jwt");
    assert_eq!(removal.value, "");
    assert!(app.banned_token_store.contains_token(&token).unwrap());

    assert_eq!(
        verify_token(&app, VerifyTokenRequest { token: token.clone() }),
        Err(AuthAPIError::InvalidToken)
    );
    // the client dropped its cookie: the next logout presents none
    let (removal, answer) = logout(&mut app, None);
    assert!(removal.is_none());
    assert_eq!(answer, Err(AuthAPIError::MissingToken));
    assert_eq!(AuthAPIError::MissingToken.status_code(), 400);
    // presenting the revoked token again is refused as well
    let (_, answer) = logout(&mut app, Some(token));
    assert_eq!(answer, Err(AuthAPIError::InvalidToken));
}

#[test]
fn should_return_200_if_valid_jwt_cookie() {
    let mut app = app(true);
    signup(&mut app, signup_request("out@example.com", "Password123!", false)).unwrap();
    let (cookie, answer) = login(&mut app, login_request("out@example.com", "Password123!", None));
    assert_eq!(status(&answer), 200);
    let jwt_token = cookie.unwrap().value;
    let (_, answer) = logout(&mut app, Some(jwt_token.clone()));
    assert_eq!(answer, Ok(200));
    let is_banned = app
        .banned_token_store
        .contains_token(&jwt_token)
        .expect("Failed to check banned token store");
    assert!(is_banned, "JWT token should be in the banned token store after logout");
}

#[test]
fn should_return_400_if_logout_called_twice_in_a_row() {
    let mut app = app(true);
    signup(&mut app, signup_request("twice.out@example.com", "Password123!", false)).unwrap();
    let (cookie, answer) =
        login(&mut app, login_request("twice.out@example.com", "Password123!", None));
    assert_eq!(status(&answer), 200);
    // the first logout succeeds and tells the client to drop its cookie
    let (removal, answer) = logout(&mut app, Some(cookie.unwrap().value));
    assert_eq!(answer, Ok(200));
    assert!(removal.is_some());
    // so the second comes without one
    let (_, answer) = logout(&mut app, None);
    let error = answer.unwrap_err();
    assert_eq!(error.status_code(), 400);
    assert_eq!(error.message(), "Missing token");
}

#[test]
fn should_return_400_if_jwt_cookie_missing() {
    let mut app = app(true);
    let (_, answer) = logout(&mut app, None);
    let error = answer.unwrap_err();
    assert_eq!(error.status_code(), 400);
    assert_eq!(error.message(), "Missing token");
}

#[test]
fn logout_should_return_401_if_invalid_token() {
    let mut app = app(true);
    let (cookie, answer) = logout(&mut app, Some("invalid".to_string()));
    assert!(cookie.is_none());
    let error = answer.unwrap_err();
    assert_eq!(error.status_code(), 401);
    assert_eq!(error.message(), "Invalid token");
    assert!(!app.banned_token_store.contains_token("invalid").unwrap());
}

#[test]
fn should_return_200_valid_token() {
    let mut app = app(true);
    signup(&mut app, signup_request("tok@example.com", "Password123!", false)).unwrap();
    let (cookie, _) = login(&mut app, login_request("tok@example.com", "Password123!", None));
    let answer = verify_token(&app, VerifyTokenRequest { token: cookie.unwrap().value });
    assert_eq!(answer, Ok(200));
}

#[test]
fn verify_token_should_return_401_if_invalid_token() {
    let app = app(true);
    let error = verify_token(&app, VerifyTokenRequest { token: "invalid_token_string".to_string() })
        .unwrap_err();
    assert_eq!(error.status_code(), 401);
    assert_eq!(error.message(), "Invalid token");
}

#[test]
fn should_return_401_if_banned_token() {
    let mut app = app(true);
    signup(&mut app, signup_request("ban@example.com", "Password123!", false)).unwrap();
    let (cookie, _) = login(&mut app, login_request("ban@example.com", "Password123!", None));
    let jwt_token = cookie.unwrap().value;
    app.banned_token_store.store_token(jwt_token.clone()).expect("Failed to ban token");
    let error = verify_token(&app, VerifyTokenRequest { token: jwt_token }).unwrap_err();
    assert_eq!(error.status_code(), 401);
    assert_eq!(error.message(), "Invalid token");
}

#[test]
fn should_delete_account_with_valid_credentials() {
    let mut app = app(true);
    let request = signup_request("del@example.com", "Password123!", false);
    assert_eq!(signup(&mut app, request.clone()).unwrap().0, 201);
    let (status, body) = delete_account(
        &mut app,
        DeleteAccountRequest {
            email: "del@example.com".to_string(),
            password: "Password123!".to_string(),
        },
    )
    .unwrap();
    assert_eq!(status, 200);
    assert_eq!(body.message, "Account deleted successfully!");
    assert_eq!(signup(&mut app, request).unwrap().0, 201);
}

#[test]
fn should_fail_to_delete_account_with_wrong_password() {
    let mut app = app(true);
    let request = signup_request("keep@example.com", "Password123!", false);
    signup(&mut app, request.clone()).unwrap();
    let error = delete_account(
        &mut app,
        DeleteAccountRequest {
            email: "keep@example.com".to_string(),
            password: "WrongPassword456!".to_string(),
        },
    )
    .unwrap_err();
    assert_eq!(error.status_code(), 401);
    assert_eq!(signup(&mut app, request).unwrap_err().status_code(), 409);
}

#[test]
fn should_fail_to_delete_non_existent_account() {
    let mut app = app(true);
    let error = delete_account(
        &mut app,
        DeleteAccountRequest {
            email: "ghost@example.com".to_string(),
            password: "Password123!".to_string(),
        },
    )
    .unwrap_err();
    assert_eq!(error.status_code(), 401);
}

#[test]
fn should_fail_to_delete_account_with_invalid_email() {
    let mut app = app(true);
    let error = delete_account(
        &mut app,
        DeleteAccountRequest {
            email: "invalid-email".to_string(),
            password: "Password123!".to_string(),
        },
    )
    .unwrap_err();
    assert_eq!(error.status_code(), 400);
}

#[test]
fn should_fail_to_delete_account_with_invalid_password() {
    let mut app = app(true);
    let request = signup_request("weak@example.com", "Password123!", false);
    signup(&mut app, request.clone()).unwrap();
    let error = delete_account(
        &mut app,
        DeleteAccountRequest { email: "weak@example.com".to_string(), password: "weak".to_string() },
    )
    .unwrap_err();
    assert_eq!(error.status_code(), 400);
    assert_eq!(signup(&mut app, request).unwrap_err().status_code(), 409);
}

#[test]
fn should_return_200_if_correct_code() {
    let mut app = app(true);
    let email = parsed("code@example.com");
    let login_attempt_id = LoginAttemptId::default();
    let two_fa_code = TwoFACode::default();
    app.two_fa_code_store
        .add_code(email.clone(), login_attempt_id.clone(), two_fa_code.clone())
        .expect("Failed to add 2FA code");
    let (cookie, answer) = verify_2fa(
        &mut app,
        Verify2FARequest {
            email: "code@example.com".to_string(),
            login_attempt_id: login_attempt_id.as_ref().to_string(),
            two_fa_code: two_fa_code.as_ref().to_string(),
        },
    );
    assert_eq!(answer, Ok(200));
    assert!(!cookie.expect("No auth cookie found").value.is_empty());
    assert!(
        app.two_fa_code_store.get_code(&email).is_err(),
        "2FA code should have been removed after successful authentication"
    );
}

#[test]
fn verify_2fa_should_return_400_if_invalid_input() {
    let mut app = app(true);
    let (_, answer) = verify_2fa(
        &mut app,
        Verify2FARequest {
            email: "invalid-email".to_string(),
            login_attempt_id: "valid-id-123".to_string(),
            two_fa_code: "123456".to_string(),
        },
    );
    let error = answer.unwrap_err();
    assert_eq!(error.status_code(), 400);
    assert_eq!(error.message(), "Invalid input");
    for (id, code) in [("valid-id-123", "123456"), ("00000000-0000-4000-8000-000000000000", "12")]
    {
        let (_, answer) = verify_2fa(
            &mut app,
            Verify2FARequest {
                email: "fine@example.com".to_string(),
                login_attempt_id: id.to_string(),
                two_fa_code: code.to_string(),
            },
        );
        assert_eq!(answer.unwrap_err(), AuthAPIError::InvalidInput);
    }
}

#[test]
fn verify_2fa_should_return_401_if_incorrect_credentials() {
    let mut app = app(true);
    let email = parsed("id@example.com");
    let correct_login_attempt_id = LoginAttemptId::from_bits(1);
    let correct_code = TwoFACode::from_number(777_777).unwrap();
    app.two_fa_code_store
        .add_code(email.clone(), correct_login_attempt_id.clone(), correct_code.clone())
        .unwrap();
    let cases = [
        ("id@example.com", correct_login_attempt_id.as_ref().to_string(), "123456".to_string()),
        (
            "id@example.com",
            LoginAttemptId::from_bits(2).as_ref().to_string(),
            correct_code.as_ref().to_string(),
        ),
        (
            "someone.else@example.com",
            correct_login_attempt_id.as_ref().to_string(),
            correct_code.as_ref().to_string(),
        ),
    ];
    for (who, id, code) in cases {
        let (_, answer) = verify_2fa(
            &mut app,
            Verify2FARequest { email: who.to_string(), login_attempt_id: id, two_fa_code: code },
        );
        let error = answer.unwrap_err();
        assert_eq!(error.status_code(), 401);
        assert_eq!(error.message(), "Incorrect credentials");
    }
}

#[test]
fn should_return_401_if_same_code_twice() {
    let mut app = app(true);
    let email = parsed("twice@example.com");
    let login_attempt_id = LoginAttemptId::default();
    let two_fa_code = TwoFACode::default();
    app.two_fa_code_store
        .add_code(email.clone(), login_attempt_id.clone(), two_fa_code.clone())
        .unwrap();
    let request = Verify2FARequest {
        email: "twice@example.com".to_string(),
        login_attempt_id: login_attempt_id.as_ref().to_string(),
        two_fa_code: two_fa_code.as_ref().to_string(),
    };
    let (_, answer) = verify_2fa(&mut app, request.clone());
    assert_eq!(answer, Ok(200));
    assert!(app.two_fa_code_store.get_code(&email).is_err(), "2FA code should have been removed");
    let (_, answer) = verify_2fa(&mut app, request);
    let error = answer.unwrap_err();
    assert_eq!(error.status_code(), 401);
    assert_eq!(error.message(), "Incorrect credentials");
}

#[test]
fn should_return_401_if_old_code() {
    let mut app = app(true);
    let email = parsed("old@example.com");
    let first_login_attempt_id = LoginAttemptId::from_bits(10);
    let first_code = TwoFACode::from_number(111_111).unwrap();
    app.two_fa_code_store
        .add_code(email.clone(), first_login_attempt_id.clone(), first_code.clone())
        .unwrap();
    let second_login_attempt_id = LoginAttemptId::from_bits(20);
    let second_code = TwoFACode::from_number(222_222).unwrap();
    let _ = app.two_fa_code_store.remove_code(&email);
    app.two_fa_code_store
        .add_code(email.clone(), second_login_attempt_id.clone(), second_code.clone())
        .unwrap();
    let (_, answer) = verify_2fa(
        &mut app,
        Verify2FARequest {
            email: "old@example.com".to_string(),
            login_attempt_id: first_login_attempt_id.as_ref().to_string(),
            two_fa_code: first_code.as_ref().to_string(),
        },
    );
    let error = answer.unwrap_err();
    assert_eq!(error.status_code(), 401);
    assert_eq!(error.message(), "Incorrect credentials");
}

#[test]
fn banned_token_expires_after_ttl() {
    let mut app = app(true);
    // the list's own time to live does not matter to a logout
    app.banned_token_store = HashsetBannedTokenStore::with_ttl(0);
    signup(&mut app, signup_request("ttl@example.com", "Password123!", false)).unwrap();
    let now = 1_000 * SECOND;
    let (cookie, _) =
        login_at(&mut app, login_request("ttl@example.com", "Password123!", None), now);
    let jwt_token = cookie.unwrap().value;
    let request = VerifyTokenRequest { token: jwt_token.clone() };
    // a logout 100 s later revokes the token for the 561 s it could still pass
    let at = now + 100 * SECOND;
    let (_, answer) = logout_at(&mut app, Some(jwt_token.clone()), at);
    assert_eq!(answer, Ok(200));
    assert!(app.banned_token_store.contains_token_at(&jwt_token, at));
    assert!(app.banned_token_store.contains_token_at(&jwt_token, at + 561 * SECOND - 1));
    assert!(
        !app.banned_token_store.contains_token_at(&jwt_token, at + 561 * SECOND),
        "JWT token should no longer be banned after TTL expiration"
    );
    // and by then it has expired
    for later in [at, at + 300 * SECOND, at + 561 * SECOND - 1, at + 561 * SECOND, at + 900 * SECOND]
    {
        assert_eq!(verify_token_at(&app, &request, later), Err(AuthAPIError::InvalidToken));
    }
}

#[test]
fn two_fa_code_expires_after_ttl() {
    let mut app = app(true);
    app.two_fa_code_store = HashmapTwoFACodeStore::with_ttl(1);
    signup(&mut app, signup_request("ttl2@example.com", "Password123!", true)).unwrap();
    let now = 1_000 * SECOND;
    let (_, answer) =
        login_at(&mut app, login_request("ttl2@example.com", "Password123!", None), now);
    assert_eq!(status(&answer), 206);
    let email = parsed("ttl2@example.com");
    let (id, code) = app.two_fa_code_store.get_code_at(&email, now).unwrap();
    let later = now + 2 * SECOND;
    assert!(
        app.two_fa_code_store.get_code_at(&email, later).is_err(),
        "2FA code should no longer exist in the store after TTL expiration"
    );
    let (_, answer) = verify_2fa_at(
        &mut app,
        Verify2FARequest {
            email: "ttl2@example.com".to_string(),
            login_attempt_id: id.as_ref().to_string(),
            two_fa_code: code.as_ref().to_string(),
        },
        later,
    );
    assert_eq!(answer, Err(AuthAPIError::IncorrectCredentials));
}

#[test]
fn login_records_each_checked_attempt_once() {
    let mut app = app(true);
    signup(&mut app, signup_request("once@example.com", "Password123!", false)).unwrap();
    let email = parsed("once@example.com");
    let t = 5_000 * SECOND;
    login_at(&mut app, login_request("once@example.com", "Wrong123!", None), t);
    assert_eq!(app.login_attempt_store.get_attempt_summary_at(&email, t).failed_attempts, 1);
    login_at(&mut app, login_request("once@example.com", "Wrong123!", None), t + 1);
    assert_eq!(app.login_attempt_store.get_attempt_summary_at(&email, t + 1).failed_attempts, 2);
    // input that is malformed does not reach the check
    login_at(&mut app, login_request("once@example.com", "weak", None), t + 2);
    assert_eq!(app.login_attempt_store.get_attempt_summary_at(&email, t + 2).failed_attempts, 2);
    let (cookie, _) =
        login_at(&mut app, login_request("once@example.com", "Password123!", None), t + 3);
    let summary = app.login_attempt_store.get_attempt_summary_at(&email, t + 3);
    assert_eq!(summary.failed_attempts, 0);
    assert_eq!(summary.last_attempt, Some(t + 3));
    // the session expires the configured time after the login
    let token = cookie.unwrap().value;
    let request = VerifyTokenRequest { token };
    assert_eq!(verify_token_at(&app, &request, t + 660 * SECOND), Ok(200));
    assert_eq!(
        verify_token_at(&app, &request, t + 661 * SECOND),
        Err(AuthAPIError::InvalidToken)
    );
}

#[test]
fn challenge_decisions() {
    assert!(matches!(decide_challenge(false, None), ChallengeDecision::Proceed));
    assert!(matches!(
        decide_challenge(false, Some("anything".to_string())),
        ChallengeDecision::Proceed
    ));
    assert!(matches!(decide_challenge(false, Some("".to_string())), ChallengeDecision::Proceed));
    assert!(matches!(decide_challenge(true, None), ChallengeDecision::Demand));
    assert!(matches!(decide_challenge(true, Some(" \t".to_string())), ChallengeDecision::Refuse));
    match decide_challenge(true, Some("tok".to_string())) {
        ChallengeDecision::Verify(token) => assert_eq!(token.as_str(), "tok"),
        _ => panic!("the token should go to the verifier"),
    }
}

#[test]
fn second_factor_message_and_answer() {
    let code = TwoFACode::from_number(246_810).unwrap();
    let (subject, body) = two_fa_message(&code);
    assert_eq!(subject, "Your 2FA Code");
    assert_eq!(body, "Your two-factor authentication code is: 246810");
    let id = LoginAttemptId::from_bits(3);
    match answer_pending(Ok(()), Ok(()), &id) {
        Ok((206, LoginResponse::TwoFactorAuth(response))) => {
            assert_eq!(response.message, "2FA required");
            assert_eq!(response.login_attempt_id, id.as_ref());
        }
        other => panic!("unexpected answer: {:?}", other),
    }
    let stored = Ok((id.clone(), code.clone()));
    assert_eq!(check_challenge(&stored, &id, &code), Ok(()));
    assert_eq!(
        check_challenge(&stored, &LoginAttemptId::from_bits(4), &code),
        Err(AuthAPIError::IncorrectCredentials)
    );
}
