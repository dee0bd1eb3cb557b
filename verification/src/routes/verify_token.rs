use crate::app_state::AppState;
use crate::config::AuthConfig;
use crate::domain::data_stores::BannedTokenStoreError;
use crate::domain::email_client::EmailClient;
use crate::domain::error::{AuthAPIError, UnexpectedCause};
use crate::services::banned_token_store::banned_at;
use crate::services::recaptcha_service::RecaptchaService;
use crate::utils::auth::{check_token, claims_view, jwt_claims, token_verdict, Claims, TokenError};
use crate::utils::clock::now_nanos;
use vstd::prelude::*;

verus! {

/// A request to check a session token.
#[derive(Debug, Clone)]
pub struct VerifyTokenRequest {
    pub token: String,
}

/// The status of a request that went well.
pub const STATUS_OK: u16 = 200;

/// The answer to a token check: well for a token that passed, and one
/// error for every reason to refuse, so that a caller cannot tell a revoked
/// token from a forged one.
pub open spec fn token_answer(checked: Result<(Seq<char>, u64), TokenError>) -> Result<
    u16,
    AuthAPIError,
> {
    match checked {
        Ok(_) => Ok(STATUS_OK),
        Err(_) => Err(AuthAPIError::InvalidToken),
    }
}

/// The answer to a token check.
pub fn answer_token_check(checked: &Result<Claims, TokenError>) -> (answer: Result<u16, AuthAPIError>)
    ensures
        answer == token_answer(claims_view(*checked)),
{
    match checked {
        Ok(_) => Ok(STATUS_OK),
        Err(_) => Err(AuthAPIError::InvalidToken),
    }
}

/// Where a token check stands.
pub enum VerifyTokenState {
    /// The revocation list is being asked about the token.
    AwaitingRevocationCheck { token: String },
    /// The request is answered.
    Done,
}

/// What the caller of a token check has to do next.
pub enum VerifyTokenAction {
    /// Ask the revocation list whether it holds the token, and come back
    /// with what it said.
    CheckRevocation { token: String },
    /// Answer the request.
    Respond { answer: Result<u16, AuthAPIError> },
}

/// What the caller of a token check comes back with.
pub enum VerifyTokenEvent {
    RevocationChecked { banned: Result<bool, BannedTokenStoreError> },
}

/// The first step of a token check: the revocation list is asked before
/// anything else is looked at.
pub fn begin_verify_token(request: VerifyTokenRequest) -> (step: (
    VerifyTokenState,
    VerifyTokenAction,
))
    ensures
        step.0 matches VerifyTokenState::AwaitingRevocationCheck { token } && token@
            == request.token@,
        step.1 matches VerifyTokenAction::CheckRevocation { token } && token@ == request.token@,
{
    (
        VerifyTokenState::AwaitingRevocationCheck { token: request.token.clone() },
        VerifyTokenAction::CheckRevocation { token: request.token },
    )
}

/// The step that follows `event` in `state`: once the revocation list has
/// spoken, the token is checked at `now` and the request answered. A
/// request that is answered stays answered.
pub open spec fn verify_token_next(
    state: VerifyTokenState,
    event: VerifyTokenEvent,
    auth_config: AuthConfig,
    now: u128,
) -> Result<u16, AuthAPIError> {
    match (state, event) {
        (
            VerifyTokenState::AwaitingRevocationCheck { token },
            VerifyTokenEvent::RevocationChecked { banned },
        ) => token_answer(token_verdict(banned, jwt_claims(token@, auth_config.jwt_secret@), now)),
        (VerifyTokenState::Done, _) => Err(AuthAPIError::UnexpectedError(UnexpectedCause::EventOutOfTurn)),
    }
}

/// Takes the step that follows `event` in `state`.
pub fn advance_verify_token(
    state: VerifyTokenState,
    event: VerifyTokenEvent,
    auth_config: &AuthConfig,
    now: u128,
) -> (step: (VerifyTokenState, VerifyTokenAction))
    ensures
        step.0 is Done,
        step.1 == (VerifyTokenAction::Respond {
            answer: verify_token_next(state, event, *auth_config, now),
        }),
{
    match (state, event) {
        (
            VerifyTokenState::AwaitingRevocationCheck { token },
            VerifyTokenEvent::RevocationChecked { banned },
        ) => {
            let checked = check_token(token.as_str(), banned, auth_config, now);
            (
                VerifyTokenState::Done,
                VerifyTokenAction::Respond { answer: answer_token_check(&checked) },
            )
        },
        (VerifyTokenState::Done, _) => (
            VerifyTokenState::Done,
            VerifyTokenAction::Respond { answer: Err(AuthAPIError::UnexpectedError(UnexpectedCause::EventOutOfTurn)) },
        ),
    }
}

/// Checks the token of `request` now: first against the revocation list,
/// then its signature and expiry.
pub fn verify_token<R: RecaptchaService, E: EmailClient>(
    app_state: &AppState<R, E>,
    request: VerifyTokenRequest,
) -> (answer: Result<u16, AuthAPIError>)
    ensures
        exists|now: u128|
            answer == token_answer(
                token_verdict(
                    Ok(banned_at(app_state.banned_token_store@, request.token@, now)),
                    jwt_claims(request.token@, app_state.settings.auth.jwt_secret@),
                    now,
                ),
            ),
{
    let now = now_nanos();
    let answer = verify_token_at(app_state, &request, now);
    assert(answer == token_answer(
        token_verdict(
            Ok(banned_at(app_state.banned_token_store@, request.token@, now)),
            jwt_claims(request.token@, app_state.settings.auth.jwt_secret@),
            now,
        ),
    ));
    answer
}

/// Checks the token of `request` at `now`, in nanoseconds since the Unix
/// epoch, against the stores in memory.
pub fn verify_token_at<R: RecaptchaService, E: EmailClient>(
    app_state: &AppState<R, E>,
    request: &VerifyTokenRequest,
    now: u128,
) -> (answer: Result<u16, AuthAPIError>)
    ensures
        answer == token_answer(
            token_verdict(
                Ok(banned_at(app_state.banned_token_store@, request.token@, now)),
                jwt_claims(request.token@, app_state.settings.auth.jwt_secret@),
                now,
            ),
        ),
{
    let (state, action) = begin_verify_token(
        VerifyTokenRequest { token: request.token.clone() },
    );
    let event = match action {
        VerifyTokenAction::CheckRevocation { token } => VerifyTokenEvent::RevocationChecked {
            banned: Ok(app_state.banned_token_store.contains_token_at(token.as_str(), now)),
        },
        VerifyTokenAction::Respond { answer } => {
            return answer;
        },
    };
    match advance_verify_token(state, event, &app_state.settings.auth, now).1 {
        VerifyTokenAction::Respond { answer } => answer,
        VerifyTokenAction::CheckRevocation { .. } => Err(AuthAPIError::UnexpectedError(UnexpectedCause::EventOutOfTurn)),
    }
}

} // verus!
