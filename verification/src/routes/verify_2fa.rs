use crate::app_state::{AppState, Stores};
use crate::config::AuthConfig;
use crate::domain::data_stores::{
    is_attempt_id, is_two_fa_code, LoginAttemptId, TwoFACode, TwoFACodeStoreError,
};
use crate::domain::email::{email_is_valid, Email};
use crate::domain::email_client::EmailClient;
use crate::domain::error::{AuthAPIError, UnexpectedCause};
use crate::domain::login_attempts::LoginAttemptStoreError;
use crate::domain::secret::Secret;
use crate::routes::verify_token::STATUS_OK;
use crate::services::hashmap_login_attempt_store::reset;
use crate::services::hashmap_two_fa_code_store::{open_challenge, Challenge};
use crate::services::recaptcha_service::RecaptchaService;
use crate::utils::auth::{
    create_auth_cookie, expiry_of, generate_auth_token_at, minted, AuthCookie, SameSite,
};
use crate::utils::clock::{now_nanos, seconds_of, whole_seconds};
use vstd::prelude::*;

verus! {

/// A request to answer a second-factor challenge.
#[derive(Debug, Clone)]
pub struct Verify2FARequest {
    pub email: String,
    pub login_attempt_id: String,
    pub two_fa_code: String,
}

/// Whether the pair that a user presents answers the challenge that is
/// open for it: there is one, and both the identifier and the code are
/// the same.
pub open spec fn answers_challenge(
    open: Option<(Seq<char>, Seq<char>)>,
    login_attempt_id: Seq<char>,
    code: Seq<char>,
) -> bool {
    open == Some((login_attempt_id, code))
}

/// Compares what a user presents with what the store returned. There is
/// one error for a challenge that is absent, a wrong identifier and a wrong
/// code, so that the answer does not tell which it was.
pub fn check_challenge(
    stored: &Result<(LoginAttemptId, TwoFACode), TwoFACodeStoreError>,
    login_attempt_id: &LoginAttemptId,
    code: &TwoFACode,
) -> (verdict: Result<(), AuthAPIError>)
    ensures
        verdict == match *stored {
            Ok(pair) => if pair.0@ == login_attempt_id@ && pair.1@ == code@ {
                Ok::<(), AuthAPIError>(())
            } else {
                Err::<(), AuthAPIError>(AuthAPIError::IncorrectCredentials)
            },
            Err(_) => Err::<(), AuthAPIError>(AuthAPIError::IncorrectCredentials),
        },
{
    match stored {
        Ok(pair) => {
            let same_id = pair.0 == *login_attempt_id;
            let same_code = pair.1 == *code;
            if same_id && same_code {
                Ok(())
            } else {
                Err(AuthAPIError::IncorrectCredentials)
            }
        },
        Err(_) => Err(AuthAPIError::IncorrectCredentials),
    }
}

/// The session cookie for `email`, made at `now`; a signer that fails is
/// an unexpected error.
pub fn open_session(email: &Email, auth_config: &AuthConfig, now: u128) -> (session: Result<
    AuthCookie,
    AuthAPIError,
>)
    ensures
        session_opened(session, email@, *auth_config, now),
{
    match generate_auth_token_at(email, auth_config, whole_seconds(now)) {
        Ok(token) => Ok(create_auth_cookie(token, auth_config.jwt_cookie_name.clone())),
        Err(_) => Err(AuthAPIError::UnexpectedError(UnexpectedCause::TokenExpiry)),
    }
}

/// What holds of a session opened at `now`. Where the expiry can be
/// written there is a cookie: it carries a token for `email` that expires
/// the configured time after `now`, under the configured name. Where it
/// cannot, there is none, and the error is an unexpected one.
pub open spec fn session_opened(
    session: Result<AuthCookie, AuthAPIError>,
    email: Seq<char>,
    auth_config: AuthConfig,
    now: u128,
) -> bool {
    match session {
        Ok(cookie) => {
            &&& minted(Ok(cookie.value), email, auth_config, seconds_of(now))
            &&& cookie.name@ == auth_config.jwt_cookie_name@
            &&& cookie.path@ == "/"@
            &&& cookie.http_only
            &&& cookie.same_site == SameSite::Lax
        },
        Err(e) => e == AuthAPIError::UnexpectedError(UnexpectedCause::TokenExpiry) && expiry_of(
            seconds_of(now),
            auth_config.token_ttl_seconds,
        ) is None,
    }
}

/// What holds where no session was opened at `now`: its expiry cannot be
/// written.
pub open spec fn no_session(auth_config: AuthConfig, now: u128) -> bool {
    expiry_of(seconds_of(now), auth_config.token_ttl_seconds) is None
}

/// Whether a request carries an identity, an identifier and a code of the
/// right shape.
pub open spec fn well_formed_answer(request: Verify2FARequest) -> bool {
    &&& email_is_valid(request.email@)
    &&& is_attempt_id(request.login_attempt_id@)
    &&& is_two_fa_code(request.two_fa_code@)
}

/// Reads the identity, the identifier and the code of a request; a
/// request in which any of them is malformed is invalid input.
pub fn parse_answer(request: Verify2FARequest) -> (parsed: Result<
    (Email, LoginAttemptId, TwoFACode),
    AuthAPIError,
>)
    ensures
        match parsed {
            Ok(parts) => well_formed_answer(request) && parts.0@ == request.email@ && parts.1@
                == request.login_attempt_id@ && parts.2@ == request.two_fa_code@,
            Err(e) => !well_formed_answer(request) && e == AuthAPIError::InvalidInput,
        },
{
    let email = match Email::parse(Secret::new(request.email)) {
        Ok(email) => email,
        Err(_) => {
            return Err(AuthAPIError::InvalidInput);
        },
    };
    let login_attempt_id = match LoginAttemptId::parse(request.login_attempt_id) {
        Ok(id) => id,
        Err(_) => {
            return Err(AuthAPIError::InvalidInput);
        },
    };
    let code = match TwoFACode::parse(request.two_fa_code) {
        Ok(code) => code,
        Err(_) => {
            return Err(AuthAPIError::InvalidInput);
        },
    };
    Ok((email, login_attempt_id, code))
}

/// What holds after an answer to a challenge at `now`.
///
/// A malformed request is invalid input. A pair that does not answer the
/// open challenge is refused, and the challenge stays, so that the user can
/// try again. A pair that answers it consumes the challenge and clears the
/// failure counter; the session cookie follows unless the signer fails.
pub open spec fn second_factor_checked<R: RecaptchaService, E: EmailClient>(
    before: AppState<R, E>,
    after: AppState<R, E>,
    request: Verify2FARequest,
    now: u128,
    answer: (Option<AuthCookie>, Result<u16, AuthAPIError>),
) -> bool {
    let stores = before.stores();
    let email = request.email@;
    &&& after.settings == before.settings
    &&& if !well_formed_answer(request) {
        &&& after.stores() == stores
        &&& answer.0 is None
        &&& answer.1 == Err::<u16, AuthAPIError>(AuthAPIError::InvalidInput)
    } else if !answers_challenge(
        open_challenge(stores.challenges, email, now),
        request.login_attempt_id@,
        request.two_fa_code@,
    ) {
        &&& after.stores() == stores
        &&& answer.0 is None
        &&& answer.1 == Err::<u16, AuthAPIError>(AuthAPIError::IncorrectCredentials)
    } else {
        &&& after.stores() == Stores {
            challenges: stores.challenges.remove(email),
            attempts: reset(stores.attempts, email, now),
            ..stores
        }
        &&& match answer.0 {
            Some(cookie) => session_opened(Ok(cookie), email, before.settings.auth, now) && answer.1
                == Ok::<u16, AuthAPIError>(STATUS_OK),
            None => answer.1 == Err::<u16, AuthAPIError>(AuthAPIError::UnexpectedError(UnexpectedCause::TokenExpiry))
                && no_session(before.settings.auth, now),
        }
    }
}

/// Answers a second-factor challenge now.
pub fn verify_2fa<R: RecaptchaService, E: EmailClient>(
    state: &mut AppState<R, E>,
    request: Verify2FARequest,
) -> (answer: (Option<AuthCookie>, Result<u16, AuthAPIError>))
    ensures
        exists|now: u128| second_factor_checked(*old(state), *final(state), request, now, answer),
        !old(state).two_fa_code_store@.contains_key(request.email@) ==> answer.1 is Err,
{
    let now = now_nanos();
    let answer = verify_2fa_at(state, request, now);
    assert(second_factor_checked(*old(state), *final(state), request, now, answer));
    answer
}

/// Where an answer to a second-factor challenge stands.
pub enum Verify2FAState {
    /// The store is being asked for the challenge of the identity; what the
    /// user presented waits.
    AwaitingChallenge { email: Email, login_attempt_id: LoginAttemptId, code: TwoFACode },
    /// The pair answered the challenge, which is being withdrawn.
    AwaitingRemoval { email: Email },
    /// The failure counter of the identity is being cleared.
    AwaitingReset { email: Email },
    /// The request is answered.
    Done,
}

/// What the caller of an answer to a challenge has to do next.
pub enum Verify2FAAction {
    /// Ask the store for the challenge of `email`.
    ReadChallenge { email: Email },
    /// Withdraw the challenge of `email`.
    RemoveChallenge { email: Email },
    /// Clear the failure counter of `email`.
    ResetAttempts { email: Email },
    /// Answer the request, with the cookie to set if there is one.
    Respond { cookie: Option<AuthCookie>, answer: Result<u16, AuthAPIError> },
}

/// What the caller of an answer to a challenge comes back with.
pub enum Verify2FAEvent {
    ChallengeRead { stored: Result<(LoginAttemptId, TwoFACode), TwoFACodeStoreError> },
    Removed { removed: Result<(), TwoFACodeStoreError> },
    Reset { reset: Result<(), LoginAttemptStoreError> },
}

/// The action that refuses an answer to a challenge with `error`.
pub open spec fn verify_2fa_refused(action: Verify2FAAction, error: AuthAPIError) -> bool {
    action == (Verify2FAAction::Respond { cookie: None, answer: Err(error) })
}

/// The first step of an answer to a challenge: a malformed request is
/// refused at once, any other asks the store for the challenge.
pub fn begin_verify_2fa(request: Verify2FARequest) -> (step: (Verify2FAState, Verify2FAAction))
    ensures
        if well_formed_answer(request) {
            &&& step.0 matches Verify2FAState::AwaitingChallenge { email, login_attempt_id, code }
                && email@ == request.email@ && login_attempt_id@ == request.login_attempt_id@
                && code@ == request.two_fa_code@
            &&& step.1 matches Verify2FAAction::ReadChallenge { email } && email@
                == request.email@
        } else {
            step.0 is Done && verify_2fa_refused(step.1, AuthAPIError::InvalidInput)
        },
{
    match parse_answer(request) {
        Ok((email, login_attempt_id, code)) => (
            Verify2FAState::AwaitingChallenge { email: email.clone(), login_attempt_id, code },
            Verify2FAAction::ReadChallenge { email },
        ),
        Err(e) => (Verify2FAState::Done, Verify2FAAction::Respond { cookie: None, answer: Err(e) }),
    }
}

/// What the store returned, as plain values.
pub open spec fn stored_pair(stored: Result<(LoginAttemptId, TwoFACode), TwoFACodeStoreError>) -> Option<
    (Seq<char>, Seq<char>),
> {
    match stored {
        Ok(pair) => Some((pair.0@, pair.1@)),
        Err(_) => None,
    }
}

/// What holds of the step that follows `event` in `state`.
///
/// A pair that does not answer the challenge that the store returned is
/// refused, and nothing is withdrawn. A pair that answers it has the
/// challenge withdrawn, then the failure counter cleared, then the session
/// opened at `now`; a store that fails on the way is an unexpected error.
/// An event that the state does not wait for ends the request as an
/// unexpected error.
pub open spec fn verify_2fa_advanced(
    state: Verify2FAState,
    event: Verify2FAEvent,
    auth_config: AuthConfig,
    now: u128,
    next: Verify2FAState,
    action: Verify2FAAction,
) -> bool {
    match (state, event) {
        (
            Verify2FAState::AwaitingChallenge { email, login_attempt_id, code },
            Verify2FAEvent::ChallengeRead { stored },
        ) => if answers_challenge(stored_pair(stored), login_attempt_id@, code@) {
            &&& next matches Verify2FAState::AwaitingRemoval { email: kept } && kept@ == email@
            &&& action matches Verify2FAAction::RemoveChallenge { email: named } && named@
                == email@
        } else {
            next is Done && verify_2fa_refused(action, AuthAPIError::IncorrectCredentials)
        },
        (Verify2FAState::AwaitingRemoval { email }, Verify2FAEvent::Removed { removed: outcome }) => if outcome is Ok {
            &&& next matches Verify2FAState::AwaitingReset { email: kept } && kept@ == email@
            &&& action matches Verify2FAAction::ResetAttempts { email: named } && named@ == email@
        } else {
            next is Done && verify_2fa_refused(action, AuthAPIError::UnexpectedError(UnexpectedCause::ChallengeStore))
        },
        (Verify2FAState::AwaitingReset { email }, Verify2FAEvent::Reset { reset: outcome }) => {
            &&& next is Done
            &&& if outcome is Ok {
                action matches Verify2FAAction::Respond { cookie, answer } && match cookie {
                    Some(c) => session_opened(Ok(c), email@, auth_config, now) && answer == Ok::<
                        u16,
                        AuthAPIError,
                    >(STATUS_OK),
                    None => answer == Err::<u16, AuthAPIError>(AuthAPIError::UnexpectedError(UnexpectedCause::TokenExpiry))
                        && no_session(auth_config, now),
                }
            } else {
                verify_2fa_refused(action, AuthAPIError::UnexpectedError(UnexpectedCause::LoginAttemptStore))
            }
        },
        _ => next is Done && verify_2fa_refused(action, AuthAPIError::UnexpectedError(UnexpectedCause::EventOutOfTurn)),
    }
}

/// Takes the step that follows `event` in `state`.
pub fn advance_verify_2fa(
    state: Verify2FAState,
    event: Verify2FAEvent,
    auth_config: &AuthConfig,
    now: u128,
) -> (step: (Verify2FAState, Verify2FAAction))
    ensures
        verify_2fa_advanced(state, event, *auth_config, now, step.0, step.1),
{
    match (state, event) {
        (
            Verify2FAState::AwaitingChallenge { email, login_attempt_id, code },
            Verify2FAEvent::ChallengeRead { stored },
        ) => match check_challenge(&stored, &login_attempt_id, &code) {
            Ok(()) => (
                Verify2FAState::AwaitingRemoval { email: email.clone() },
                Verify2FAAction::RemoveChallenge { email },
            ),
            Err(e) => (
                Verify2FAState::Done,
                Verify2FAAction::Respond { cookie: None, answer: Err(e) },
            ),
        },
        (Verify2FAState::AwaitingRemoval { email }, Verify2FAEvent::Removed { removed: outcome }) => match outcome {
            Ok(()) => (
                Verify2FAState::AwaitingReset { email: email.clone() },
                Verify2FAAction::ResetAttempts { email },
            ),
            Err(_) => (
                Verify2FAState::Done,
                Verify2FAAction::Respond {
                    cookie: None,
                    answer: Err(AuthAPIError::UnexpectedError(UnexpectedCause::ChallengeStore)),
                },
            ),
        },
        (Verify2FAState::AwaitingReset { email }, Verify2FAEvent::Reset { reset: outcome }) => match outcome {
            Ok(()) => match open_session(&email, auth_config, now) {
                Ok(cookie) => (
                    Verify2FAState::Done,
                    Verify2FAAction::Respond { cookie: Some(cookie), answer: Ok(STATUS_OK) },
                ),
                Err(e) => (
                    Verify2FAState::Done,
                    Verify2FAAction::Respond { cookie: None, answer: Err(e) },
                ),
            },
            Err(_) => (
                Verify2FAState::Done,
                Verify2FAAction::Respond {
                    cookie: None,
                    answer: Err(AuthAPIError::UnexpectedError(UnexpectedCause::LoginAttemptStore)),
                },
            ),
        },
        _ => (
            Verify2FAState::Done,
            Verify2FAAction::Respond { cookie: None, answer: Err(AuthAPIError::UnexpectedError(UnexpectedCause::EventOutOfTurn)) },
        ),
    }
}

/// How many steps an answer to a challenge in `state` can still take.
pub open spec fn verify_2fa_steps_left(state: Verify2FAState) -> nat {
    match state {
        Verify2FAState::AwaitingChallenge { .. } => 3,
        Verify2FAState::AwaitingRemoval { .. } => 2,
        Verify2FAState::AwaitingReset { .. } => 1,
        Verify2FAState::Done => 0,
    }
}

/// Every step of an answer to a challenge brings it nearer to its end,
/// and the answer comes exactly with the last step. A challenge is
/// withdrawn only as the step that follows a pair that answered it, and a
/// session is opened only once the challenge is withdrawn and the counter
/// cleared.
pub proof fn law_verify_2fa_ends(
    state: Verify2FAState,
    event: Verify2FAEvent,
    auth_config: AuthConfig,
    now: u128,
    next: Verify2FAState,
    action: Verify2FAAction,
)
    requires
        verify_2fa_advanced(state, event, auth_config, now, next, action),
    ensures
        next is Done <==> action is Respond,
        state is Done || verify_2fa_steps_left(next) < verify_2fa_steps_left(state),
        action is RemoveChallenge ==> state is AwaitingChallenge,
        action matches Verify2FAAction::Respond { cookie: Some(_), .. } ==> state is AwaitingReset
            && event matches Verify2FAEvent::Reset { reset: Ok(()) },
{
}

/// Answers a second-factor challenge at `now`, in nanoseconds since the
/// Unix epoch, on the stores in memory.
pub fn verify_2fa_at<R: RecaptchaService, E: EmailClient>(
    state: &mut AppState<R, E>,
    request: Verify2FARequest,
    now: u128,
) -> (answer: (Option<AuthCookie>, Result<u16, AuthAPIError>))
    ensures
        second_factor_checked(*old(state), *final(state), request, now, answer),
{
    let (flow, action) = begin_verify_2fa(request);
    let event = match action {
        Verify2FAAction::ReadChallenge { email } => {
            let stored = state.two_fa_code_store.get_code_at(&email, now);
            assert(stored_pair(stored) == open_challenge(
                old(state).stores().challenges,
                request.email@,
                now,
            ));
            Verify2FAEvent::ChallengeRead { stored }
        },
        Verify2FAAction::Respond { cookie, answer } => {
            return (cookie, answer);
        },
        _ => {
            return (None, Err(AuthAPIError::UnexpectedError(UnexpectedCause::EventOutOfTurn)));
        },
    };
    let (flow, action) = advance_verify_2fa(flow, event, &state.settings.auth, now);
    let event = match action {
        Verify2FAAction::RemoveChallenge { email } => Verify2FAEvent::Removed {
            removed: state.two_fa_code_store.remove_code(&email),
        },
        Verify2FAAction::Respond { cookie, answer } => {
            return (cookie, answer);
        },
        _ => {
            return (None, Err(AuthAPIError::UnexpectedError(UnexpectedCause::EventOutOfTurn)));
        },
    };
    let (flow, action) = advance_verify_2fa(flow, event, &state.settings.auth, now);
    let event = match action {
        Verify2FAAction::ResetAttempts { email } => {
            state.login_attempt_store.reset_attempts_at(&email, now);
            Verify2FAEvent::Reset { reset: Ok(()) }
        },
        Verify2FAAction::Respond { cookie, answer } => {
            return (cookie, answer);
        },
        _ => {
            return (None, Err(AuthAPIError::UnexpectedError(UnexpectedCause::EventOutOfTurn)));
        },
    };
    match advance_verify_2fa(flow, event, &state.settings.auth, now).1 {
        Verify2FAAction::Respond { cookie, answer } => (cookie, answer),
        _ => (None, Err(AuthAPIError::UnexpectedError(UnexpectedCause::EventOutOfTurn))),
    }
}

/// A pair that answered a challenge answers none afterwards: the
/// challenge was consumed.
pub proof fn law_challenge_is_consumed_once(
    challenges: Map<Seq<char>, Challenge>,
    email: Seq<char>,
    login_attempt_id: Seq<char>,
    code: Seq<char>,
    at: u128,
    later: u128,
)
    requires
        answers_challenge(open_challenge(challenges, email, at), login_attempt_id, code),
    ensures
        !answers_challenge(
            open_challenge(challenges.remove(email), email, later),
            login_attempt_id,
            code,
        ),
{
}

/// Once a second challenge was issued to an identity, the pair of the
/// first answers nothing, unless it is the pair of the second.
pub proof fn law_old_pair_is_invalid(
    challenges: Map<Seq<char>, Challenge>,
    email: Seq<char>,
    first_id: Seq<char>,
    first_code: Seq<char>,
    first_at: u128,
    second_id: Seq<char>,
    second_code: Seq<char>,
    second_at: u128,
    ttl_seconds: u64,
    later: u128,
)
    requires
        first_id != second_id || first_code != second_code,
    ensures
        ({
            let once = crate::services::hashmap_two_fa_code_store::issue(
                challenges,
                email,
                first_id,
                first_code,
                first_at,
                ttl_seconds,
            );
            let twice = crate::services::hashmap_two_fa_code_store::issue(
                once,
                email,
                second_id,
                second_code,
                second_at,
                ttl_seconds,
            );
            !answers_challenge(open_challenge(twice, email, later), first_id, first_code)
        }),
{
}

} // verus!
