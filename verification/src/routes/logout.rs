use crate::app_state::{AppState, Stores};
use crate::domain::data_stores::BannedTokenStoreError;
use crate::domain::email_client::EmailClient;
use crate::domain::error::{AuthAPIError, UnexpectedCause};
use crate::routes::verify_token::STATUS_OK;
use crate::services::banned_token_store::{ban, banned_at};
use crate::services::recaptcha_service::RecaptchaService;
use crate::config::AuthConfig;
use crate::utils::auth::{
    check_token, create_removal_cookie, jwt_claims, law_revoked_for_its_lifetime,
    remaining_lifetime, revocation_ttl, token_verdict, AuthCookie, EXPIRY_LEEWAY_SECONDS,
};
use crate::utils::clock::NANOS_PER_SECOND;
use crate::utils::clock::now_nanos;
use vstd::prelude::*;

verus! {

/// The answer once the revocation list was written: well, or an
/// unexpected error where the list failed.
pub fn answer_revocation(stored: Result<(), BannedTokenStoreError>) -> (answer: Result<
    u16,
    AuthAPIError,
>)
    ensures
        answer == match stored {
            Ok(()) => Ok::<u16, AuthAPIError>(STATUS_OK),
            Err(_) => Err::<u16, AuthAPIError>(AuthAPIError::UnexpectedError(UnexpectedCause::RevocationStore)),
        },
{
    match stored {
        Ok(()) => Ok(STATUS_OK),
        Err(_) => Err(AuthAPIError::UnexpectedError(UnexpectedCause::RevocationStore)),
    }
}

/// Where a logout stands.
pub enum LogoutState {
    /// The revocation list is being asked about the token.
    AwaitingRevocationCheck { token: String },
    /// The token passed and is being put on the revocation list.
    AwaitingRevocation,
    /// The request is answered.
    Done,
}

/// What the caller of a logout has to do next.
pub enum LogoutAction {
    /// Ask the revocation list whether it holds the token.
    CheckRevocation { token: String },
    /// Put the token on the revocation list for `ttl_seconds`.
    Revoke { token: String, ttl_seconds: u64 },
    /// Answer the request, with the cookie to set if there is one.
    Respond { cookie: Option<AuthCookie>, answer: Result<u16, AuthAPIError> },
}

/// What the caller of a logout comes back with.
pub enum LogoutEvent {
    RevocationChecked { banned: Result<bool, BannedTokenStoreError> },
    Revoked { stored: Result<(), BannedTokenStoreError> },
}

/// The answer that refuses a logout with `error`.
pub open spec fn logout_refused(action: LogoutAction, error: AuthAPIError) -> bool {
    action == (LogoutAction::Respond { cookie: None, answer: Err(error) })
}

/// The action that revokes `token` for `ttl_seconds`.
pub open spec fn revokes(action: LogoutAction, token: Seq<char>, ttl_seconds: u64) -> bool {
    action matches LogoutAction::Revoke { token: revoked, ttl_seconds: lasting } && revoked@
        == token && lasting == ttl_seconds
}

/// The first step of a logout with the session cookie `jwt_cookie`: a
/// request without the cookie is refused at once, the token of any other
/// goes to the revocation list first.
pub fn begin_logout(jwt_cookie: Option<String>) -> (step: (LogoutState, LogoutAction))
    ensures
        match jwt_cookie {
            None => step.0 is Done && logout_refused(step.1, AuthAPIError::MissingToken),
            Some(presented) => {
                &&& step.0 matches LogoutState::AwaitingRevocationCheck { token } && token@
                    == presented@
                &&& step.1 matches LogoutAction::CheckRevocation { token } && token@ == presented@
            },
        },
{
    match jwt_cookie {
        None => (
            LogoutState::Done,
            LogoutAction::Respond { cookie: None, answer: Err(AuthAPIError::MissingToken) },
        ),
        Some(token) => (
            LogoutState::AwaitingRevocationCheck { token: token.clone() },
            LogoutAction::CheckRevocation { token },
        ),
    }
}

/// What holds of the step that follows `event` in `state`.
///
/// Once the revocation list has spoken, the token is checked at `now`: one
/// that does not pass is refused, one that passes is to be revoked for as
/// long as it could still pass, its expiry and the leeway included. Once
/// it is revoked, the request is answered with the cookie that removes the
/// session cookie; a list that failed is an unexpected error. An event that
/// the state does not wait for ends the request as an unexpected error.
pub open spec fn logout_advanced(
    state: LogoutState,
    event: LogoutEvent,
    auth_config: AuthConfig,
    now: u128,
    next: LogoutState,
    action: LogoutAction,
) -> bool {
    match (state, event) {
        (
            LogoutState::AwaitingRevocationCheck { token },
            LogoutEvent::RevocationChecked { banned },
        ) => match token_verdict(banned, jwt_claims(token@, auth_config.jwt_secret@), now) {
            Ok(claims) => next is AwaitingRevocation && revokes(
                action,
                token@,
                revocation_ttl(claims.1, now),
            ),
            Err(_) => next is Done && logout_refused(action, AuthAPIError::InvalidToken),
        },
        (LogoutState::AwaitingRevocation, LogoutEvent::Revoked { stored }) => {
            &&& next is Done
            &&& match stored {
                Ok(()) => action matches LogoutAction::Respond { cookie: Some(removal), answer }
                    && answer == Ok::<u16, AuthAPIError>(STATUS_OK) && removal.name@
                    == auth_config.jwt_cookie_name@ && removal.value@.len() == 0 && removal.path@
                    == "/"@,
                Err(_) => logout_refused(action, AuthAPIError::UnexpectedError(UnexpectedCause::RevocationStore)),
            }
        },
        _ => next is Done && logout_refused(action, AuthAPIError::UnexpectedError(UnexpectedCause::EventOutOfTurn)),
    }
}

/// Takes the step that follows `event` in `state`.
pub fn advance_logout(state: LogoutState, event: LogoutEvent, auth_config: &AuthConfig, now: u128) -> (step:
    (LogoutState, LogoutAction))
    ensures
        logout_advanced(state, event, *auth_config, now, step.0, step.1),
{
    match (state, event) {
        (
            LogoutState::AwaitingRevocationCheck { token },
            LogoutEvent::RevocationChecked { banned },
        ) => {
            match check_token(token.as_str(), banned, auth_config, now) {
                Ok(claims) => (
                    LogoutState::AwaitingRevocation,
                    LogoutAction::Revoke {
                        token,
                        ttl_seconds: remaining_lifetime(claims.exp as u64, now),
                    },
                ),
                Err(_) => (
                    LogoutState::Done,
                    LogoutAction::Respond {
                        cookie: None,
                        answer: Err(AuthAPIError::InvalidToken),
                    },
                ),
            }
        },
        (LogoutState::AwaitingRevocation, LogoutEvent::Revoked { stored }) => {
            match answer_revocation(stored) {
                Ok(status) => (
                    LogoutState::Done,
                    LogoutAction::Respond {
                        cookie: Some(create_removal_cookie(auth_config.jwt_cookie_name.clone())),
                        answer: Ok(status),
                    },
                ),
                Err(e) => (
                    LogoutState::Done,
                    LogoutAction::Respond { cookie: None, answer: Err(e) },
                ),
            }
        },
        _ => (
            LogoutState::Done,
            LogoutAction::Respond { cookie: None, answer: Err(AuthAPIError::UnexpectedError(UnexpectedCause::EventOutOfTurn)) },
        ),
    }
}

/// What a logout with the session cookie `jwt_cookie` (none where the
/// request carried no such cookie) does at `now`: the answer, and the
/// revocation list afterwards. A token that passes is revoked for its
/// remaining lifetime.
pub open spec fn logout_outcome(
    banned: Map<Seq<char>, u128>,
    jwt_cookie: Option<Seq<char>>,
    decoded: Option<(Seq<char>, u64)>,
    now: u128,
) -> (Map<Seq<char>, u128>, Result<u16, AuthAPIError>) {
    match jwt_cookie {
        None => (banned, Err(AuthAPIError::MissingToken)),
        Some(token) => match token_verdict(Ok(banned_at(banned, token, now)), decoded, now) {
            Err(_) => (banned, Err(AuthAPIError::InvalidToken)),
            Ok(claims) => (ban(banned, token, now, revocation_ttl(claims.1, now)), Ok(STATUS_OK)),
        },
    }
}

/// Ends a session now: the token of the session cookie goes on the
/// revocation list, and the client is told to drop the cookie.
pub fn logout<R: RecaptchaService, E: EmailClient>(
    app_state: &mut AppState<R, E>,
    jwt_cookie: Option<String>,
) -> (answer: (Option<AuthCookie>, Result<u16, AuthAPIError>))
    ensures
        jwt_cookie is None ==> answer.1 == Err::<u16, AuthAPIError>(AuthAPIError::MissingToken)
            && final(app_state).stores() == old(app_state).stores(),
        exists|now: u128| logged_out(*old(app_state), *final(app_state), jwt_cookie, now, answer),
{
    let now = now_nanos();
    let answer = logout_at(app_state, jwt_cookie, now);
    assert(logged_out(*old(app_state), *final(app_state), jwt_cookie, now, answer));
    answer
}

/// What holds after a logout at `now`: the revocation list and the answer
/// are those of [`logout_outcome`], nothing else has changed, and a
/// request that went well comes with the cookie that removes the session
/// cookie.
pub open spec fn logged_out<R: RecaptchaService, E: EmailClient>(
    before: AppState<R, E>,
    after: AppState<R, E>,
    jwt_cookie: Option<String>,
    now: u128,
    answer: (Option<AuthCookie>, Result<u16, AuthAPIError>),
) -> bool {
    let expected = logout_outcome(
        before.banned_token_store@,
        match jwt_cookie {
            Some(token) => Some(token@),
            None => None,
        },
        match jwt_cookie {
            Some(token) => jwt_claims(token@, before.settings.auth.jwt_secret@),
            None => None,
        },
        now,
    );
    &&& after.stores() == Stores { banned: expected.0, ..before.stores() }
    &&& after.settings == before.settings
    &&& answer.1 == expected.1
    &&& match answer.0 {
        Some(cookie) => answer.1 is Ok && cookie.name@ == before.settings.auth.jwt_cookie_name@
            && cookie.value@.len() == 0 && cookie.path@ == "/"@,
        None => answer.1 is Err,
    }
}

/// A token that a logout revoked never passes again: from the moment of
/// the logout on it is refused, first as revoked and then as expired.
/// This holds of every token whose remaining lifetime can be counted in
/// the seconds a revocation list takes.
pub proof fn law_logged_out_token_stays_out(
    banned: Map<Seq<char>, u128>,
    token: Seq<char>,
    subject: Seq<char>,
    exp: u64,
    now: u128,
    later: u128,
)
    requires
        now <= later,
        exp + EXPIRY_LEEWAY_SECONDS + 1 - now / NANOS_PER_SECOND <= u64::MAX,
        logout_outcome(banned, Some(token), Some((subject, exp)), now).1 is Ok,
    ensures
        token_verdict(
            Ok(
                banned_at(
                    logout_outcome(banned, Some(token), Some((subject, exp)), now).0,
                    token,
                    later,
                ),
            ),
            Some((subject, exp)),
            later,
        ) is Err,
{
    law_revoked_for_its_lifetime(banned, token, subject, exp, now, later);
}

/// How many steps a logout in `state` can still take.
pub open spec fn logout_steps_left(state: LogoutState) -> nat {
    match state {
        LogoutState::AwaitingRevocationCheck { .. } => 2,
        LogoutState::AwaitingRevocation => 1,
        LogoutState::Done => 0,
    }
}

/// Every step of a logout brings it nearer to its answer, and the answer
/// comes exactly with the last step. A token is put on the revocation list
/// only as the step that follows its check, and the cookie is removed only
/// once the list has taken the token.
pub proof fn law_logout_ends(
    state: LogoutState,
    event: LogoutEvent,
    auth_config: AuthConfig,
    now: u128,
    next: LogoutState,
    action: LogoutAction,
)
    requires
        logout_advanced(state, event, auth_config, now, next, action),
    ensures
        next is Done <==> action is Respond,
        state is Done || logout_steps_left(next) < logout_steps_left(state),
        action is Revoke ==> state is AwaitingRevocationCheck,
        action matches LogoutAction::Respond { cookie: Some(_), .. } ==> state is AwaitingRevocation
            && event matches LogoutEvent::Revoked { stored: Ok(()) },
{
}

/// Ends a session at `now`, in nanoseconds since the Unix epoch, on the
/// stores in memory.
pub fn logout_at<R: RecaptchaService, E: EmailClient>(
    app_state: &mut AppState<R, E>,
    jwt_cookie: Option<String>,
    now: u128,
) -> (answer: (Option<AuthCookie>, Result<u16, AuthAPIError>))
    ensures
        logged_out(*old(app_state), *final(app_state), jwt_cookie, now, answer),
{
    let (state, action) = begin_logout(jwt_cookie);
    let event = match action {
        LogoutAction::CheckRevocation { token } => LogoutEvent::RevocationChecked {
            banned: Ok(app_state.banned_token_store.contains_token_at(token.as_str(), now)),
        },
        LogoutAction::Respond { cookie, answer } => {
            return (cookie, answer);
        },
        LogoutAction::Revoke { .. } => {
            return (None, Err(AuthAPIError::UnexpectedError(UnexpectedCause::EventOutOfTurn)));
        },
    };
    let (state, action) = advance_logout(state, event, &app_state.settings.auth, now);
    let event = match action {
        LogoutAction::Revoke { token, ttl_seconds } => {
            app_state.banned_token_store.store_token_for_at(token, ttl_seconds, now);
            LogoutEvent::Revoked { stored: Ok(()) }
        },
        LogoutAction::Respond { cookie, answer } => {
            return (cookie, answer);
        },
        LogoutAction::CheckRevocation { .. } => {
            return (None, Err(AuthAPIError::UnexpectedError(UnexpectedCause::EventOutOfTurn)));
        },
    };
    match advance_logout(state, event, &app_state.settings.auth, now).1 {
        LogoutAction::Respond { cookie, answer } => (cookie, answer),
        _ => (None, Err(AuthAPIError::UnexpectedError(UnexpectedCause::EventOutOfTurn))),
    }
}

} // verus!
