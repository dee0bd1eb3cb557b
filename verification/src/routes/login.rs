use crate::app_state::{AppState, Stores};
use crate::config::AuthConfig;
use crate::domain::data_stores::{
    is_attempt_id, is_two_fa_code, LoginAttemptId, TwoFACode, TwoFACodeStoreError, UserStoreError,
};
use crate::domain::email::Email;
use crate::domain::email_client::{EmailClient, EmailClientError};
use crate::domain::error::{AuthAPIError, UnexpectedCause};
use crate::domain::login_attempts::{LoginAttemptStoreError, LoginAttemptSummary};
use crate::domain::password::Password;
use crate::domain::recaptcha::{RecaptchaError, RecaptchaToken};
use crate::domain::secret::Secret;
use crate::domain::user::User;
use crate::routes::delete_account::{parse_credentials, well_formed_credentials};
use crate::routes::signup::{answer_verification, parse_recaptcha_token};
use crate::routes::verify_2fa::{no_session, open_session, session_opened};
use crate::routes::verify_token::STATUS_OK;
use crate::services::hashmap_login_attempt_store::{read_summary, record};
use crate::services::hashmap_two_fa_code_store::issue;
use crate::services::hashmap_user_store::validate;
use crate::services::recaptcha_service::RecaptchaService;
use crate::utils::auth::AuthCookie;
use crate::utils::clock::now_nanos;
use crate::utils::text::is_blank;
use vstd::prelude::*;
use vstd::string::*;

verus! {

/// What a login answers where a second factor is pending.
#[derive(Debug, Clone)]
pub struct TwoFactorAuthResponse {
    pub message: String,
    pub login_attempt_id: String,
}

/// A login submission.
#[derive(Debug)]
pub struct LoginRequest {
    pub email: String,
    pub password: Secret,
    pub recaptcha_token: Option<String>,
}

/// The body of a login that was not refused.
#[derive(Debug, Clone)]
pub enum LoginResponse {
    /// The session is open.
    RegularAuth,
    /// A code was sent; the session opens once it is presented.
    TwoFactorAuth(TwoFactorAuthResponse),
    /// The submission has to come again with a human-verification token.
    RecaptchaRequired,
}

/// The status of a login that awaits its second factor.
pub const STATUS_PARTIAL_CONTENT: u16 = 206;

/// The status of a login that has to come again with a human-verification
/// token.
pub const STATUS_PRECONDITION_REQUIRED: u16 = 428;

/// What the failure counter means for a submission.
pub enum ChallengeDecision {
    /// No human verification is asked for.
    Proceed,
    /// The token that came along has to be confirmed by the verifier.
    Verify(RecaptchaToken),
    /// Human verification is asked for and no token came along.
    Demand,
    /// The token that came along is blank.
    Refuse,
}

/// The four verdicts without what they carry.
pub enum Verdict {
    Proceed,
    Verify,
    Demand,
    Refuse,
}

/// What the failure counter means for a submission: a human-verification
/// token is demanded exactly where the counter asks for one and none came
/// along; one that came along is looked at only where the counter asks.
pub open spec fn challenge_verdict(requires_recaptcha: bool, recaptcha_token: Option<Seq<char>>) -> Verdict {
    if !requires_recaptcha {
        Verdict::Proceed
    } else {
        match recaptcha_token {
            None => Verdict::Demand,
            Some(token) => if is_blank(token) {
                Verdict::Refuse
            } else {
                Verdict::Verify
            },
        }
    }
}

impl View for ChallengeDecision {
    type V = Verdict;

    open spec fn view(&self) -> Verdict {
        match self {
            ChallengeDecision::Proceed => Verdict::Proceed,
            ChallengeDecision::Verify(_) => Verdict::Verify,
            ChallengeDecision::Demand => Verdict::Demand,
            ChallengeDecision::Refuse => Verdict::Refuse,
        }
    }
}

/// What the failure counter means for a submission.
pub fn decide_challenge(requires_recaptcha: bool, recaptcha_token: Option<String>) -> (decision:
    ChallengeDecision)
    ensures
        decision@ == challenge_verdict(
            requires_recaptcha,
            match recaptcha_token {
                Some(token) => Some(token@),
                None => None,
            },
        ),
        decision matches ChallengeDecision::Verify(token) ==> recaptcha_token matches Some(text)
            && token@ == text@,
{
    if !requires_recaptcha {
        return ChallengeDecision::Proceed;
    }
    match recaptcha_token {
        None => ChallengeDecision::Demand,
        Some(text) => match parse_recaptcha_token(text) {
            Ok(token) => ChallengeDecision::Verify(token),
            Err(_) => ChallengeDecision::Refuse,
        },
    }
}

/// What the tracker's answer means for a submission: whether human
/// verification is asked for, or an unexpected error where the tracker
/// failed.
pub fn requires_recaptcha(
    summary: Result<LoginAttemptSummary, LoginAttemptStoreError>,
) -> (required: Result<bool, AuthAPIError>)
    ensures
        required == match summary {
            Ok(s) => Ok::<bool, AuthAPIError>(s.requires_recaptcha),
            Err(_) => Err::<bool, AuthAPIError>(AuthAPIError::UnexpectedError(UnexpectedCause::LoginAttemptStore)),
        },
{
    match summary {
        Ok(s) => Ok(s.requires_recaptcha),
        Err(_) => Err(AuthAPIError::UnexpectedError(UnexpectedCause::LoginAttemptStore)),
    }
}

/// What follows the record of an attempt: a tracker that failed is an
/// unexpected error, a failed credential check is told as incorrect
/// credentials, and the user goes on otherwise.
pub fn after_record(recorded: Result<(), LoginAttemptStoreError>, user: Option<User>) -> (next: Result<
    User,
    AuthAPIError,
>)
    ensures
        next == match recorded {
            Err(_) => Err::<User, AuthAPIError>(AuthAPIError::UnexpectedError(UnexpectedCause::LoginAttemptStore)),
            Ok(()) => match user {
                Some(u) => Ok::<User, AuthAPIError>(u),
                None => Err::<User, AuthAPIError>(AuthAPIError::IncorrectCredentials),
            },
        },
{
    match recorded {
        Err(_) => Err(AuthAPIError::UnexpectedError(UnexpectedCause::LoginAttemptStore)),
        Ok(()) => match user {
            Some(u) => Ok(u),
            None => Err(AuthAPIError::IncorrectCredentials),
        },
    }
}

/// The subject of the message that carries a one-time code.
pub open spec fn two_fa_subject() -> Seq<char> {
    "Your 2FA Code"@
}

/// The text of the message that carries `code`.
pub open spec fn two_fa_body(code: Seq<char>) -> Seq<char> {
    "Your two-factor authentication code is: "@ + code
}

/// The subject and the text of the message that carries `code`.
pub fn two_fa_message(code: &TwoFACode) -> (message: (&'static str, String))
    ensures
        message.0@ == two_fa_subject(),
        message.1@ == two_fa_body(code@),
{
    let mut body = String::from_str("Your two-factor authentication code is: ");
    body.append(code.as_ref());
    ("Your 2FA Code", body)
}

/// The answer to a login that awaits its second factor, once the
/// challenge was stored and the code handed over for delivery; a failure
/// of either is an unexpected error.
pub fn answer_pending(
    stored: Result<(), TwoFACodeStoreError>,
    sent: Result<(), EmailClientError>,
    login_attempt_id: &LoginAttemptId,
) -> (answer: Result<(u16, LoginResponse), AuthAPIError>)
    ensures
        match answer {
            Ok(body) => stored is Ok && sent is Ok && body.0 == STATUS_PARTIAL_CONTENT
                && pending_body(body.1, login_attempt_id@),
            Err(e) => e == if stored is Err {
                AuthAPIError::UnexpectedError(UnexpectedCause::ChallengeStore)
            } else {
                AuthAPIError::UnexpectedError(UnexpectedCause::EmailDelivery)
            } && (stored is Err || sent is Err),
        },
{
    if stored.is_err() {
        return Err(AuthAPIError::UnexpectedError(UnexpectedCause::ChallengeStore));
    }
    if sent.is_err() {
        return Err(AuthAPIError::UnexpectedError(UnexpectedCause::EmailDelivery));
    }
    Ok(
        (
            STATUS_PARTIAL_CONTENT,
            LoginResponse::TwoFactorAuth(
                TwoFactorAuthResponse {
                    message: String::from_str("2FA required"),
                    login_attempt_id: String::from_str(login_attempt_id.as_ref()),
                },
            ),
        ),
    )
}

/// The answer that tells a client that its session is open.
pub open spec fn opened_body(answer: Result<(u16, LoginResponse), AuthAPIError>) -> bool {
    answer matches Ok(body) && body.0 == STATUS_OK && body.1 == LoginResponse::RegularAuth
}

/// The body that tells a client that the second factor is pending for the
/// attempt `login_attempt_id`.
pub open spec fn pending_body(body: LoginResponse, login_attempt_id: Seq<char>) -> bool {
    body matches LoginResponse::TwoFactorAuth(response) && response.message@ == "2FA required"@
        && response.login_attempt_id@ == login_attempt_id
}

/// What holds after a login submission at `now` that got as far as the
/// credential check.
///
/// The attempt is recorded once, as a success exactly where the password
/// is the identity's. A wrong password or an unknown identity is told as
/// incorrect credentials. After a success, an identity without a second
/// factor gets its session; one with a second factor gets a challenge that
/// takes the place of any earlier one, and the answer names the attempt.
pub open spec fn credentials_checked<R: RecaptchaService, E: EmailClient>(
    before: AppState<R, E>,
    after: AppState<R, E>,
    request: LoginRequest,
    now: u128,
    answer: (Option<AuthCookie>, Result<(u16, LoginResponse), AuthAPIError>),
) -> bool {
    let stores = before.stores();
    let email = request.email@;
    let success = validate(stores.users, email, request.password@) is Ok;
    let attempts = record(stores.attempts, stores.attempts_expiry, email, success, now);
    if !success {
        &&& after.stores() == Stores { attempts, ..stores }
        &&& answer.0 is None
        &&& answer.1 == Err::<(u16, LoginResponse), AuthAPIError>(
            AuthAPIError::IncorrectCredentials,
        )
    } else if !stores.users[email].requires_2fa {
        &&& after.stores() == Stores { attempts, ..stores }
        &&& match answer.0 {
            Some(cookie) => session_opened(Ok(cookie), email, before.settings.auth, now)
                && opened_body(answer.1),
            None => answer.1 == Err::<(u16, LoginResponse), AuthAPIError>(
                AuthAPIError::UnexpectedError(UnexpectedCause::TokenExpiry),
            ) && no_session(before.settings.auth, now),
        }
    } else {
        &&& answer.0 is None
        &&& exists|login_attempt_id: Seq<char>, code: Seq<char>|
            {
                &&& is_attempt_id(login_attempt_id)
                &&& is_two_fa_code(code)
                &&& #[trigger] issue(
                    stores.challenges,
                    email,
                    login_attempt_id,
                    code,
                    now,
                    stores.challenges_ttl,
                ) == after.stores().challenges
                &&& after.stores() == Stores {
                    attempts,
                    challenges: after.stores().challenges,
                    ..stores
                }
                &&& match answer.1 {
                    Ok(body) => body.0 == STATUS_PARTIAL_CONTENT && pending_body(
                        body.1,
                        login_attempt_id,
                    ),
                    Err(e) => e == AuthAPIError::UnexpectedError(UnexpectedCause::EmailDelivery),
                }
            }
    }
}

/// What holds after a login submission at `now`.
///
/// Malformed input is refused before any store is asked. Where the
/// failure counter asks for human verification, a submission without a
/// token is told so, one with a blank token is refused, and one with a
/// token goes on only if the verifier confirms it: a token that is blank
/// or not confirmed is a hard failure, told as incorrect credentials. None of these touches a store. Every other
/// submission reaches the credential check.
pub open spec fn logged_in<R: RecaptchaService, E: EmailClient>(
    before: AppState<R, E>,
    after: AppState<R, E>,
    request: LoginRequest,
    now: u128,
    answer: (Option<AuthCookie>, Result<(u16, LoginResponse), AuthAPIError>),
) -> bool {
    let stores = before.stores();
    let email = request.email@;
    let summary = read_summary(stores.attempts, stores.attempts_expiry, email, now);
    let token = match request.recaptcha_token {
        Some(text) => Some(text@),
        None => None,
    };
    &&& after.settings == before.settings
    &&& if !well_formed_credentials(email, request.password@) {
        &&& after.stores() == stores
        &&& answer.0 is None
        &&& answer.1 == Err::<(u16, LoginResponse), AuthAPIError>(AuthAPIError::InvalidInput)
    } else {
        match challenge_verdict(summary.requires_recaptcha, token) {
            Verdict::Demand => {
                &&& after.stores() == stores
                &&& answer.0 is None
                &&& answer.1 matches Ok(body) && body.0 == STATUS_PRECONDITION_REQUIRED && body.1
                    == LoginResponse::RecaptchaRequired
            },
            Verdict::Refuse => {
                &&& after.stores() == stores
                &&& answer.0 is None
                &&& answer.1 == Err::<(u16, LoginResponse), AuthAPIError>(
                    AuthAPIError::IncorrectCredentials,
                )
            },
            Verdict::Verify => {
                ||| {
                    &&& after.stores() == stores
                    &&& answer.0 is None
                    &&& answer.1 == Err::<(u16, LoginResponse), AuthAPIError>(
                        AuthAPIError::IncorrectCredentials,
                    )
                }
                ||| credentials_checked(before, after, request, now, answer)
            },
            Verdict::Proceed => credentials_checked(before, after, request, now, answer),
        }
    }
}

/// Where a login submission stands.
///
/// The submission starts unauthenticated and stays so while the tracker,
/// the verifier and the credential store are asked. Once the attempt is
/// recorded the credentials are validated or the submission is refused.
/// A validated submission ends authenticated, with its session cookie, or
/// with its second factor pending under a login attempt identifier; one
/// that has to come again with a human-verification token ends with that
/// demand.
pub enum LoginState {
    /// The tracker is being asked for the failure counter of the identity.
    AwaitingSummary { email: Email, password: Password, recaptcha_token: Option<String> },
    /// The verifier is being asked to confirm the token that came along.
    AwaitingVerification { email: Email, password: Password },
    /// The credential store is being asked to check the password.
    AwaitingValidation { email: Email },
    /// The password was right; the credential store is being asked for the
    /// record.
    AwaitingUser { email: Email },
    /// The attempt is being recorded: as a success if there is a user.
    AwaitingRecord { user: Option<User> },
    /// The credentials are validated and a second factor is due: the
    /// challenge is being stored.
    AwaitingChallengeStored { email: Email, login_attempt_id: LoginAttemptId, code: TwoFACode },
    /// The challenge is stored; its code is being handed over for delivery.
    AwaitingCodeSent { login_attempt_id: LoginAttemptId },
    /// The submission is answered.
    Done,
}

/// What the caller of a login has to do next.
pub enum LoginAction {
    /// Ask the tracker for the summary of `email`.
    ReadSummary { email: Email },
    /// Ask the verifier to confirm `token`.
    VerifyRecaptcha { token: RecaptchaToken },
    /// Ask the credential store to check `password` for `email`.
    ValidateUser { email: Email, password: Password },
    /// Ask the credential store for the record of `email`.
    GetUser { email: Email },
    /// Have the tracker record an attempt of `email`.
    RecordAttempt { email: Email, success: bool },
    /// Store the challenge for `email`.
    StoreChallenge { email: Email, login_attempt_id: LoginAttemptId, code: TwoFACode },
    /// Send the message to `email`.
    SendCode { email: Email, subject: String, body: String },
    /// Answer the submission, with the cookie to set if there is one.
    Respond { cookie: Option<AuthCookie>, answer: Result<(u16, LoginResponse), AuthAPIError> },
}

/// What the caller of a login comes back with.
pub enum LoginEvent {
    Summary { summary: Result<LoginAttemptSummary, LoginAttemptStoreError> },
    Verified { verified: Result<(), RecaptchaError> },
    Validated { validated: Result<(), UserStoreError> },
    UserRead { user: Result<User, UserStoreError> },
    Recorded { recorded: Result<(), LoginAttemptStoreError> },
    ChallengeStored { stored: Result<(), TwoFACodeStoreError> },
    CodeSent { sent: Result<(), EmailClientError> },
}

/// The text of a token that may have come along.
pub open spec fn token_text(recaptcha_token: Option<String>) -> Option<Seq<char>> {
    match recaptcha_token {
        Some(text) => Some(text@),
        None => None,
    }
}

/// The action that refuses a login with `error`.
pub open spec fn login_refused(action: LoginAction, error: AuthAPIError) -> bool {
    action == (LoginAction::Respond { cookie: None, answer: Err(error) })
}

/// The action that asks the credential store to check the password.
pub open spec fn asks_validation(action: LoginAction, email: Seq<char>, password: Seq<char>) -> bool {
    action matches LoginAction::ValidateUser { email: named, password: given } && named@ == email
        && given@ == password
}

/// The action that has an attempt recorded.
pub open spec fn asks_record(action: LoginAction, email: Seq<char>, success: bool) -> bool {
    action matches LoginAction::RecordAttempt { email: named, success: counted } && named@ == email
        && counted == success
}

/// The action that has a challenge stored.
pub open spec fn asks_challenge_stored(
    action: LoginAction,
    email: Seq<char>,
    login_attempt_id: Seq<char>,
    code: Seq<char>,
) -> bool {
    action matches LoginAction::StoreChallenge { email: named, login_attempt_id: issued, code: sent }
        && named@ == email && issued@ == login_attempt_id && sent@ == code
}

/// The first step of a login: malformed input is refused at once, any
/// other submission asks the tracker for the failure counter.
pub fn begin_login(request: LoginRequest) -> (step: (LoginState, LoginAction))
    ensures
        if well_formed_credentials(request.email@, request.password@) {
            &&& step.0 matches LoginState::AwaitingSummary { email, password, recaptcha_token }
                && email@ == request.email@ && password@ == request.password@ && token_text(
                recaptcha_token,
            ) == token_text(request.recaptcha_token)
            &&& step.1 matches LoginAction::ReadSummary { email } && email@ == request.email@
        } else {
            step.0 is Done && login_refused(step.1, AuthAPIError::InvalidInput)
        },
{
    match parse_credentials(request.email, request.password, AuthAPIError::InvalidInput) {
        Ok((email, password)) => (
            LoginState::AwaitingSummary {
                email: email.clone(),
                password,
                recaptcha_token: request.recaptcha_token,
            },
            LoginAction::ReadSummary { email },
        ),
        Err(e) => (LoginState::Done, LoginAction::Respond { cookie: None, answer: Err(e) }),
    }
}

/// What holds of the step that follows the tracker's answer.
pub open spec fn after_summary(
    email: Seq<char>,
    password: Seq<char>,
    recaptcha_token: Option<Seq<char>>,
    summary: Result<LoginAttemptSummary, LoginAttemptStoreError>,
    next: LoginState,
    action: LoginAction,
) -> bool {
    match summary {
        Err(_) => next is Done && login_refused(action, AuthAPIError::UnexpectedError(UnexpectedCause::LoginAttemptStore)),
        Ok(s) => match challenge_verdict(s.requires_recaptcha, recaptcha_token) {
            Verdict::Proceed => {
                &&& next matches LoginState::AwaitingValidation { email: kept } && kept@ == email
                &&& asks_validation(action, email, password)
            },
            Verdict::Verify => {
                &&& next matches LoginState::AwaitingVerification { email: kept, password: held }
                    && kept@ == email && held@ == password
                &&& action matches LoginAction::VerifyRecaptcha { token } && recaptcha_token
                    == Some(token@)
            },
            Verdict::Demand => {
                &&& next is Done
                &&& action matches LoginAction::Respond { cookie: None, answer: Ok(body) } && body.0
                    == STATUS_PRECONDITION_REQUIRED && body.1 == LoginResponse::RecaptchaRequired
            },
            Verdict::Refuse => next is Done && login_refused(
                action,
                AuthAPIError::IncorrectCredentials,
            ),
        },
    }
}

/// What holds of the step that follows the record of an attempt.
pub open spec fn after_recorded(
    user: Option<User>,
    outcome: Result<(), LoginAttemptStoreError>,
    auth_config: AuthConfig,
    now: u128,
    next: LoginState,
    action: LoginAction,
) -> bool {
    if outcome is Err {
        next is Done && login_refused(action, AuthAPIError::UnexpectedError(UnexpectedCause::LoginAttemptStore))
    } else {
        match user {
            None => next is Done && login_refused(action, AuthAPIError::IncorrectCredentials),
            Some(u) => if u.requires_2fa {
                &&& next matches LoginState::AwaitingChallengeStored {
                    email,
                    login_attempt_id,
                    code,
                } && email@ == u.email@ && is_attempt_id(login_attempt_id@) && is_two_fa_code(code@)
                    && asks_challenge_stored(action, u.email@, login_attempt_id@, code@)
            } else {
                &&& next is Done
                &&& action matches LoginAction::Respond { cookie, answer } && match cookie {
                    Some(c) => session_opened(Ok(c), u.email@, auth_config, now) && opened_body(
                        answer,
                    ),
                    None => answer == Err::<(u16, LoginResponse), AuthAPIError>(
                        AuthAPIError::UnexpectedError(UnexpectedCause::TokenExpiry),
                    ) && no_session(auth_config, now),
                }
            },
        }
    }
}

/// What holds of the step that follows `event` in `state`.
///
/// The steps come in one order: the failure counter, then the verifier
/// where the counter asks for it and a token came along, then the password
/// check and, if it passes, the record of the identity, then the record of
/// the attempt, which counts as a success exactly where the record was
/// read. Only then is the submission refused for wrong credentials, the
/// session opened, or the challenge stored and its code sent. A
/// collaborator that fails ends the submission as an unexpected error; a
/// token that the verifier does not confirm ends it as incorrect
/// credentials. An event that the state does not wait for ends it as an
/// unexpected error.
pub open spec fn login_advanced(
    state: LoginState,
    event: LoginEvent,
    auth_config: AuthConfig,
    now: u128,
    next: LoginState,
    action: LoginAction,
) -> bool {
    match (state, event) {
        (
            LoginState::AwaitingSummary { email, password, recaptcha_token },
            LoginEvent::Summary { summary },
        ) => after_summary(email@, password@, token_text(recaptcha_token), summary, next, action),
        (
            LoginState::AwaitingVerification { email, password },
            LoginEvent::Verified { verified: outcome },
        ) => if outcome is Ok {
            &&& next matches LoginState::AwaitingValidation { email: kept } && kept@ == email@
            &&& asks_validation(action, email@, password@)
        } else {
            next is Done && login_refused(action, AuthAPIError::IncorrectCredentials)
        },
        (LoginState::AwaitingValidation { email }, LoginEvent::Validated { validated: outcome }) => if outcome is Ok {
            &&& next matches LoginState::AwaitingUser { email: kept } && kept@ == email@
            &&& action matches LoginAction::GetUser { email: named } && named@ == email@
        } else {
            &&& next matches LoginState::AwaitingRecord { user: None }
            &&& asks_record(action, email@, false)
        },
        (LoginState::AwaitingUser { email }, LoginEvent::UserRead { user }) => match user {
            Ok(u) => {
                &&& next matches LoginState::AwaitingRecord { user: Some(kept) } && kept == u
                &&& asks_record(action, email@, true)
            },
            Err(_) => {
                &&& next matches LoginState::AwaitingRecord { user: None }
                &&& asks_record(action, email@, false)
            },
        },
        (LoginState::AwaitingRecord { user }, LoginEvent::Recorded { recorded: outcome }) => after_recorded(
            user,
            outcome,
            auth_config,
            now,
            next,
            action,
        ),
        (
            LoginState::AwaitingChallengeStored { email, login_attempt_id, code },
            LoginEvent::ChallengeStored { stored: outcome },
        ) => if outcome is Ok {
            &&& next matches LoginState::AwaitingCodeSent { login_attempt_id: kept } && kept@
                == login_attempt_id@
            &&& action matches LoginAction::SendCode { email: named, subject, body } && named@
                == email@ && subject@ == two_fa_subject() && body@ == two_fa_body(code@)
        } else {
            next is Done && login_refused(action, AuthAPIError::UnexpectedError(UnexpectedCause::ChallengeStore))
        },
        (
            LoginState::AwaitingCodeSent { login_attempt_id },
            LoginEvent::CodeSent { sent: outcome },
        ) => {
            &&& next is Done
            &&& action matches LoginAction::Respond { cookie: None, answer } && match answer {
                Ok(body) => outcome is Ok && body.0 == STATUS_PARTIAL_CONTENT && pending_body(
                    body.1,
                    login_attempt_id@,
                ),
                Err(e) => outcome is Err && e == AuthAPIError::UnexpectedError(UnexpectedCause::EmailDelivery),
            }
        },
        _ => next is Done && login_refused(action, AuthAPIError::UnexpectedError(UnexpectedCause::EventOutOfTurn)),
    }
}

/// Takes the step that follows `event` in `state`, at `now`. A challenge
/// that becomes due gets a fresh identifier and a fresh code.
pub fn advance_login(state: LoginState, event: LoginEvent, auth_config: &AuthConfig, now: u128) -> (step:
    (LoginState, LoginAction))
    ensures
        login_advanced(state, event, *auth_config, now, step.0, step.1),
{
    match (state, event) {
        (
            LoginState::AwaitingSummary { email, password, recaptcha_token },
            LoginEvent::Summary { summary },
        ) => {
            let required = match requires_recaptcha(summary) {
                Ok(required) => required,
                Err(e) => {
                    return refuse_login(e);
                },
            };
            match decide_challenge(required, recaptcha_token) {
                ChallengeDecision::Proceed => (
                    LoginState::AwaitingValidation { email: email.clone() },
                    LoginAction::ValidateUser { email, password },
                ),
                ChallengeDecision::Verify(token) => (
                    LoginState::AwaitingVerification { email, password },
                    LoginAction::VerifyRecaptcha { token },
                ),
                ChallengeDecision::Demand => (
                    LoginState::Done,
                    LoginAction::Respond {
                        cookie: None,
                        answer: Ok((STATUS_PRECONDITION_REQUIRED, LoginResponse::RecaptchaRequired)),
                    },
                ),
                ChallengeDecision::Refuse => refuse_login(AuthAPIError::IncorrectCredentials),
            }
        },
        (
            LoginState::AwaitingVerification { email, password },
            LoginEvent::Verified { verified: outcome },
        ) => match answer_verification(outcome) {
            Ok(()) => (
                LoginState::AwaitingValidation { email: email.clone() },
                LoginAction::ValidateUser { email, password },
            ),
            Err(e) => refuse_login(e),
        },
        (LoginState::AwaitingValidation { email }, LoginEvent::Validated { validated: outcome }) => match outcome {
            Ok(()) => (
                LoginState::AwaitingUser { email: email.clone() },
                LoginAction::GetUser { email },
            ),
            Err(_) => (
                LoginState::AwaitingRecord { user: None },
                LoginAction::RecordAttempt { email, success: false },
            ),
        },
        (LoginState::AwaitingUser { email }, LoginEvent::UserRead { user }) => match user {
            Ok(u) => (
                LoginState::AwaitingRecord { user: Some(u) },
                LoginAction::RecordAttempt { email, success: true },
            ),
            Err(_) => (
                LoginState::AwaitingRecord { user: None },
                LoginAction::RecordAttempt { email, success: false },
            ),
        },
        (LoginState::AwaitingRecord { user }, LoginEvent::Recorded { recorded: outcome }) => {
            let user = match after_record(outcome, user) {
                Ok(user) => user,
                Err(e) => {
                    return refuse_login(e);
                },
            };
            if user.requires_2fa {
                handle_2fa(user.email)
            } else {
                let (cookie, answer) = handle_no_2fa(&user.email, auth_config, now);
                (LoginState::Done, LoginAction::Respond { cookie, answer })
            }
        },
        (
            LoginState::AwaitingChallengeStored { email, login_attempt_id, code },
            LoginEvent::ChallengeStored { stored: outcome },
        ) => match outcome {
            Ok(()) => {
                let (subject, body) = two_fa_message(&code);
                (
                    LoginState::AwaitingCodeSent { login_attempt_id },
                    LoginAction::SendCode { email, subject: String::from_str(subject), body },
                )
            },
            Err(_) => refuse_login(AuthAPIError::UnexpectedError(UnexpectedCause::ChallengeStore)),
        },
        (
            LoginState::AwaitingCodeSent { login_attempt_id },
            LoginEvent::CodeSent { sent: outcome },
        ) => (
            LoginState::Done,
            LoginAction::Respond {
                cookie: None,
                answer: answer_pending(Ok(()), outcome, &login_attempt_id),
            },
        ),
        _ => refuse_login(AuthAPIError::UnexpectedError(UnexpectedCause::EventOutOfTurn)),
    }
}

/// Starts the second factor for `email`: a challenge with a fresh
/// identifier and a fresh code, which is to be stored before the code is
/// sent.
pub fn handle_2fa(email: Email) -> (step: (LoginState, LoginAction))
    ensures
        step.0 matches LoginState::AwaitingChallengeStored { email: kept, login_attempt_id, code }
            && kept@ == email@ && is_attempt_id(login_attempt_id@) && is_two_fa_code(code@)
            && asks_challenge_stored(step.1, email@, login_attempt_id@, code@),
{
    let login_attempt_id = LoginAttemptId::default();
    let code = TwoFACode::default();
    (
        LoginState::AwaitingChallengeStored {
            email: email.clone(),
            login_attempt_id: login_attempt_id.clone(),
            code: code.clone(),
        },
        LoginAction::StoreChallenge { email, login_attempt_id, code },
    )
}

/// The step that ends a login with `error`.
pub fn refuse_login(error: AuthAPIError) -> (step: (LoginState, LoginAction))
    ensures
        step.0 is Done,
        login_refused(step.1, error),
{
    (LoginState::Done, LoginAction::Respond { cookie: None, answer: Err(error) })
}

/// How far a login on the stores in memory has come: what holds of the
/// stores and of the next action in each state, for the submission
/// `request` handled at `now`.
pub open spec fn login_progress<R: RecaptchaService, E: EmailClient>(
    before: AppState<R, E>,
    current: AppState<R, E>,
    request: LoginRequest,
    now: u128,
    flow: LoginState,
    action: LoginAction,
) -> bool {
    let stores = before.stores();
    let email = request.email@;
    let password = request.password@;
    let summary = read_summary(stores.attempts, stores.attempts_expiry, email, now);
    let verdict = challenge_verdict(
        summary.requires_recaptcha,
        token_text(request.recaptcha_token),
    );
    let passed = verdict is Proceed || verdict is Verify;
    let success = validate(stores.users, email, password) is Ok;
    let counted = Stores {
        attempts: record(stores.attempts, stores.attempts_expiry, email, success, now),
        ..stores
    };
    &&& current.settings == before.settings
    &&& match flow {
        LoginState::Done => action matches LoginAction::Respond { cookie, answer } && logged_in(
            before,
            current,
            request,
            now,
            (cookie, answer),
        ),
        _ => well_formed_credentials(email, password),
    }
    &&& match flow {
        LoginState::AwaitingSummary { email: kept, password: held, recaptcha_token } => {
            &&& kept@ == email
            &&& held@ == password
            &&& token_text(recaptcha_token) == token_text(request.recaptcha_token)
            &&& current.stores() == stores
            &&& action matches LoginAction::ReadSummary { email: named } && named@ == email
        },
        LoginState::AwaitingVerification { email: kept, password: held } => {
            &&& kept@ == email
            &&& held@ == password
            &&& verdict is Verify
            &&& current.stores() == stores
            &&& action is VerifyRecaptcha
        },
        LoginState::AwaitingValidation { email: kept } => {
            &&& kept@ == email
            &&& passed
            &&& current.stores() == stores
            &&& asks_validation(action, email, password)
        },
        LoginState::AwaitingUser { email: kept } => {
            &&& kept@ == email
            &&& passed
            &&& success
            &&& current.stores() == stores
            &&& action matches LoginAction::GetUser { email: named } && named@ == email
        },
        LoginState::AwaitingRecord { user } => {
            &&& passed
            &&& current.stores() == stores
            &&& user is Some <==> success
            &&& user matches Some(u) ==> u.email@ == email && u.requires_2fa
                == stores.users[email].requires_2fa
            &&& asks_record(action, email, success)
        },
        LoginState::AwaitingChallengeStored { email: kept, login_attempt_id, code } => {
            &&& kept@ == email
            &&& passed
            &&& success
            &&& stores.users[email].requires_2fa
            &&& current.stores() == counted
            &&& is_attempt_id(login_attempt_id@)
            &&& is_two_fa_code(code@)
            &&& asks_challenge_stored(action, email, login_attempt_id@, code@)
        },
        LoginState::AwaitingCodeSent { login_attempt_id } => {
            &&& passed
            &&& success
            &&& stores.users[email].requires_2fa
            &&& is_attempt_id(login_attempt_id@)
            &&& exists|code: Seq<char>|
                is_two_fa_code(code) && current.stores() == Stores {
                    challenges: #[trigger] issue(
                        stores.challenges,
                        email,
                        login_attempt_id@,
                        code,
                        now,
                        stores.challenges_ttl,
                    ),
                    ..counted
                }
            &&& action is SendCode
        },
        LoginState::Done => true,
    }
}

/// Handles a login submission now.
pub fn login<R: RecaptchaService, E: EmailClient>(
    state: &mut AppState<R, E>,
    request: LoginRequest,
) -> (answer: (Option<AuthCookie>, Result<(u16, LoginResponse), AuthAPIError>))
    ensures
        exists|now: u128| logged_in(*old(state), *final(state), request, now, answer),
{
    let now = now_nanos();
    let answer = login_at(state, request, now);
    assert(logged_in(*old(state), *final(state), request, now, answer));
    answer
}

/// Handles a login submission at `now`, in nanoseconds since the Unix
/// epoch, on the stores in memory: each action of the login is performed
/// on them as it comes due.
pub fn login_at<R: RecaptchaService, E: EmailClient>(
    state: &mut AppState<R, E>,
    request: LoginRequest,
    now: u128,
) -> (answer: (Option<AuthCookie>, Result<(u16, LoginResponse), AuthAPIError>))
    ensures
        logged_in(*old(state), *final(state), request, now, answer),
{
    let (flow, action) = begin_login(request);
    assert(login_progress(*old(state), *state, request, now, flow, action));
    let (flow, action) = match action {
        LoginAction::ReadSummary { email } => {
            let summary = state.login_attempt_store.get_attempt_summary_at(&email, now);
            advance_login(flow, LoginEvent::Summary { summary: Ok(summary) }, &state.settings.auth, now)
        },
        other => (flow, other),
    };
    assert(login_progress(*old(state), *state, request, now, flow, action));
    let (flow, action) = match action {
        LoginAction::VerifyRecaptcha { token } => {
            let outcome = state.recaptcha_service.verify_token(&token, None);
            advance_login(flow, LoginEvent::Verified { verified: outcome }, &state.settings.auth, now)
        },
        other => (flow, other),
    };
    assert(login_progress(*old(state), *state, request, now, flow, action));
    let (flow, action) = match action {
        LoginAction::ValidateUser { email, password } => {
            let outcome = state.user_store.validate_user(&email, &password);
            advance_login(flow, LoginEvent::Validated { validated: outcome }, &state.settings.auth, now)
        },
        other => (flow, other),
    };
    assert(login_progress(*old(state), *state, request, now, flow, action));
    let (flow, action) = match action {
        LoginAction::GetUser { email } => {
            let user = state.user_store.get_user(&email);
            advance_login(flow, LoginEvent::UserRead { user }, &state.settings.auth, now)
        },
        other => (flow, other),
    };
    assert(login_progress(*old(state), *state, request, now, flow, action));
    let (flow, action) = match action {
        LoginAction::RecordAttempt { email, success } => {
            state.login_attempt_store.record_attempt_at(&email, success, now);
            advance_login(flow, LoginEvent::Recorded { recorded: Ok(()) }, &state.settings.auth, now)
        },
        other => (flow, other),
    };
    assert(login_progress(*old(state), *state, request, now, flow, action));
    let (flow, action) = match action {
        LoginAction::StoreChallenge { email, login_attempt_id, code } => {
            state.two_fa_code_store.add_code_at(email, login_attempt_id, code, now);
            advance_login(
                flow,
                LoginEvent::ChallengeStored { stored: Ok(()) },
                &state.settings.auth,
                now,
            )
        },
        other => (flow, other),
    };
    assert(login_progress(*old(state), *state, request, now, flow, action));
    let (flow, action) = match action {
        LoginAction::SendCode { email, subject, body } => {
            let outcome = state.email_client.send_email(&email, subject.as_str(), body.as_str());
            advance_login(flow, LoginEvent::CodeSent { sent: outcome }, &state.settings.auth, now)
        },
        other => (flow, other),
    };
    assert(login_progress(*old(state), *state, request, now, flow, action));
    match action {
        LoginAction::Respond { cookie, answer } => (cookie, answer),
        _ => (None, Err(AuthAPIError::UnexpectedError(UnexpectedCause::EventOutOfTurn))),
    }
}

/// Opens the session of `email` at `now`: the answer comes with the
/// session cookie, unless the signer fails.
pub fn handle_no_2fa(email: &Email, auth_config: &AuthConfig, now: u128) -> (answer: (
    Option<AuthCookie>,
    Result<(u16, LoginResponse), AuthAPIError>,
))
    ensures
        match answer.0 {
            Some(cookie) => session_opened(Ok(cookie), email@, *auth_config, now) && opened_body(
                answer.1,
            ),
            None => answer.1 == Err::<(u16, LoginResponse), AuthAPIError>(
                AuthAPIError::UnexpectedError(UnexpectedCause::TokenExpiry),
            ) && no_session(*auth_config, now),
        },
{
    match open_session(email, auth_config, now) {
        Ok(cookie) => (Some(cookie), Ok((STATUS_OK, LoginResponse::RegularAuth))),
        Err(e) => (None, Err(e)),
    }
}

/// How many steps a login in `state` can still take.
pub open spec fn login_steps_left(state: LoginState) -> nat {
    match state {
        LoginState::AwaitingSummary { .. } => 7,
        LoginState::AwaitingVerification { .. } => 6,
        LoginState::AwaitingValidation { .. } => 5,
        LoginState::AwaitingUser { .. } => 4,
        LoginState::AwaitingRecord { .. } => 3,
        LoginState::AwaitingChallengeStored { .. } => 2,
        LoginState::AwaitingCodeSent { .. } => 1,
        LoginState::Done => 0,
    }
}

/// Every step of a login brings it nearer to its answer, and the answer
/// comes exactly with the last step: a caller that performs each action
/// and comes back with its event is done after seven steps at most.
pub proof fn law_login_ends(
    state: LoginState,
    event: LoginEvent,
    auth_config: AuthConfig,
    now: u128,
    next: LoginState,
    action: LoginAction,
)
    requires
        login_advanced(state, event, auth_config, now, next, action),
    ensures
        next is Done <==> action is Respond,
        state is Done || login_steps_left(next) < login_steps_left(state),
{
}

/// An attempt is recorded only as the step that follows the credential
/// check, and it counts as a success exactly where the password passed and
/// the record of the identity was read.
pub proof fn law_attempt_is_recorded_after_the_check(
    state: LoginState,
    event: LoginEvent,
    auth_config: AuthConfig,
    now: u128,
    next: LoginState,
    action: LoginAction,
)
    requires
        login_advanced(state, event, auth_config, now, next, action),
    ensures
        action is RecordAttempt <==> (state is AwaitingValidation && event matches LoginEvent::Validated {
            validated: Err(_),
        }) || (state is AwaitingUser && event is UserRead),
        action matches LoginAction::RecordAttempt { success, .. } ==> (success <==> event matches LoginEvent::UserRead {
            user: Ok(_),
        }),
        action is GetUser ==> event matches LoginEvent::Validated { validated: Ok(()) },
{
}

/// A session is opened, and a challenge issued, only as the step that
/// follows the record of a successful attempt.
pub proof fn law_session_follows_the_record(
    state: LoginState,
    event: LoginEvent,
    auth_config: AuthConfig,
    now: u128,
    next: LoginState,
    action: LoginAction,
)
    requires
        login_advanced(state, event, auth_config, now, next, action),
        action is StoreChallenge || action matches LoginAction::Respond { cookie: Some(_), .. },
    ensures
        state matches LoginState::AwaitingRecord { user: Some(_) },
        event matches LoginEvent::Recorded { recorded: Ok(()) },
{
}

/// A login is answered with the demand for human verification exactly
/// where its input is well formed, the failure counter of the identity asks
/// for verification, and no token came along.
pub proof fn law_verification_is_demanded_exactly_when_due<R: RecaptchaService, E: EmailClient>(
    before: AppState<R, E>,
    after: AppState<R, E>,
    request: LoginRequest,
    now: u128,
    answer: (Option<AuthCookie>, Result<(u16, LoginResponse), AuthAPIError>),
)
    requires
        logged_in(before, after, request, now, answer),
    ensures
        (answer.1 matches Ok(body) && body.1 == LoginResponse::RecaptchaRequired) <==> {
            &&& well_formed_credentials(request.email@, request.password@)
            &&& read_summary(
                before.stores().attempts,
                before.stores().attempts_expiry,
                request.email@,
                now,
            ).requires_recaptcha
            &&& request.recaptcha_token is None
        },
{
}

/// A login that is refused before the credential check, or told to come
/// again, leaves every store as it was: only a checked attempt is counted.
pub proof fn law_unchecked_login_changes_nothing<R: RecaptchaService, E: EmailClient>(
    before: AppState<R, E>,
    after: AppState<R, E>,
    request: LoginRequest,
    now: u128,
    answer: (Option<AuthCookie>, Result<(u16, LoginResponse), AuthAPIError>),
)
    requires
        logged_in(before, after, request, now, answer),
        !credentials_checked(before, after, request, now, answer),
    ensures
        after.stores() == before.stores(),
        answer.0 is None,
{
}

} // verus!
