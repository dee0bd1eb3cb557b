use crate::app_state::{AppState, Stores};
use crate::domain::data_stores::UserStoreError;
use crate::domain::email_client::EmailClient;
use crate::domain::error::{AuthAPIError, UnexpectedCause};
use crate::domain::recaptcha::{RecaptchaError, RecaptchaToken};
use crate::domain::secret::Secret;
use crate::domain::user::User;
use crate::routes::delete_account::{parse_credentials, well_formed_credentials};
use crate::services::hashmap_user_store::{enroll, Credential};
use crate::services::password_hashing::{password_matches, MAX_PASSWORD_LENGTH};
use crate::services::recaptcha_service::RecaptchaService;
use crate::utils::text::is_blank;
use vstd::prelude::*;
use vstd::string::*;

verus! {

/// A request to create an account. It holds a password as it was typed,
/// so it cannot be printed.
#[derive(Clone)]
pub struct SignupRequest {
    pub email: String,
    pub password: String,
    pub requires_2fa: bool,
    pub recaptcha_token: String,
}

/// The body that confirms a new account.
#[derive(Debug, Clone)]
pub struct SignupResponse {
    pub message: String,
}

/// The status of a request that created something.
pub const STATUS_CREATED: u16 = 201;

/// Reads the human-verification token of a request; a blank one is
/// refused as incorrect credentials.
pub fn parse_recaptcha_token(token: String) -> (parsed: Result<RecaptchaToken, AuthAPIError>)
    ensures
        match parsed {
            Ok(t) => !is_blank(token@) && t@ == token@,
            Err(e) => is_blank(token@) && e == AuthAPIError::IncorrectCredentials,
        },
{
    match RecaptchaToken::new(token) {
        Ok(t) => Ok(t),
        Err(_) => Err(AuthAPIError::IncorrectCredentials),
    }
}

/// What the verifier's answer means for the request: a token that it does
/// not confirm, for whatever reason, is refused as incorrect credentials.
pub fn answer_verification(verified: Result<(), RecaptchaError>) -> (answer: Result<
    (),
    AuthAPIError,
>)
    ensures
        answer == match verified {
            Ok(()) => Ok::<(), AuthAPIError>(()),
            Err(_) => Err::<(), AuthAPIError>(AuthAPIError::IncorrectCredentials),
        },
{
    match verified {
        Ok(()) => Ok(()),
        Err(_) => Err(AuthAPIError::IncorrectCredentials),
    }
}

/// The answer to a signup from what the credential store said: a taken
/// identity is a conflict, any other failure is unexpected.
pub open spec fn enrollment_answer(added: Result<(), UserStoreError>) -> Result<u16, AuthAPIError> {
    match added {
        Ok(()) => Ok(STATUS_CREATED),
        Err(UserStoreError::UserAlreadyExists) => Err(AuthAPIError::UserAlreadyExists),
        Err(_) => Err(AuthAPIError::UnexpectedError(UnexpectedCause::CredentialStore)),
    }
}

/// The answer to a signup from what the credential store said.
pub fn answer_enrollment(added: Result<(), UserStoreError>) -> (answer: Result<u16, AuthAPIError>)
    ensures
        answer == enrollment_answer(added),
{
    match added {
        Ok(()) => Ok(STATUS_CREATED),
        Err(UserStoreError::UserAlreadyExists) => Err(AuthAPIError::UserAlreadyExists),
        Err(_) => Err(AuthAPIError::UnexpectedError(UnexpectedCause::CredentialStore)),
    }
}

/// Where a signup stands.
pub enum SignupState {
    /// The verifier is being asked about the token; the rest of the
    /// request waits.
    AwaitingVerification { email: String, password: String, requires_2fa: bool },
    /// The credential store is being asked to keep the new record.
    AwaitingEnrollment,
    /// The request is answered.
    Done,
}

/// What the caller of a signup has to do next.
pub enum SignupAction {
    /// Ask the verifier to confirm the token.
    VerifyRecaptcha { token: RecaptchaToken },
    /// Ask the credential store to sign the user up.
    AddUser { user: User },
    /// Answer the request.
    Respond { answer: Result<(u16, SignupResponse), AuthAPIError> },
}

/// What the caller of a signup comes back with.
pub enum SignupEvent {
    Verified { verified: Result<(), RecaptchaError> },
    Added { added: Result<(), UserStoreError> },
}

/// What an answer to a signup says.
pub open spec fn signup_answered(
    answer: Result<(u16, SignupResponse), AuthAPIError>,
    expected: Result<u16, AuthAPIError>,
) -> bool {
    match answer {
        Ok(body) => expected == Ok::<u16, AuthAPIError>(body.0) && body.1.message@
            == "User created successfully!"@,
        Err(e) => expected == Err::<u16, AuthAPIError>(e),
    }
}

/// The action that refuses a signup with `error`.
pub open spec fn signup_refused(action: SignupAction, error: AuthAPIError) -> bool {
    action matches SignupAction::Respond { answer } && answer == Err::<
        (u16, SignupResponse),
        AuthAPIError,
    >(error)
}

/// The first step of a signup: a blank human-verification token is
/// refused at once, any other goes to the verifier before the rest of the
/// request is looked at.
pub fn begin_signup(request: SignupRequest) -> (step: (SignupState, SignupAction))
    ensures
        if is_blank(request.recaptcha_token@) {
            step.0 is Done && signup_refused(step.1, AuthAPIError::IncorrectCredentials)
        } else {
            &&& step.0 matches SignupState::AwaitingVerification { email, password, requires_2fa }
                && email@ == request.email@ && password@ == request.password@ && requires_2fa
                == request.requires_2fa
            &&& step.1 matches SignupAction::VerifyRecaptcha { token } && token@
                == request.recaptcha_token@
        },
{
    match parse_recaptcha_token(request.recaptcha_token) {
        Ok(token) => (
            SignupState::AwaitingVerification {
                email: request.email,
                password: request.password,
                requires_2fa: request.requires_2fa,
            },
            SignupAction::VerifyRecaptcha { token },
        ),
        Err(e) => (SignupState::Done, SignupAction::Respond { answer: Err(e) }),
    }
}

/// What holds of the step that follows `event` in `state`.
///
/// A token that the verifier does not confirm ends the signup as incorrect
/// credentials; malformed input ends it as invalid credentials once the
/// token is confirmed; a well-formed request goes to the credential store. What the store
/// says is the answer. An event that the state does not wait for ends the
/// request as an unexpected error.
pub open spec fn signup_advanced(
    state: SignupState,
    event: SignupEvent,
    next: SignupState,
    action: SignupAction,
) -> bool {
    match (state, event) {
        (
            SignupState::AwaitingVerification { email, password, requires_2fa },
            SignupEvent::Verified { verified: outcome },
        ) => if outcome is Err {
            next is Done && signup_refused(action, AuthAPIError::IncorrectCredentials)
        } else if !well_formed_credentials(email@, password@) {
            next is Done && signup_refused(action, AuthAPIError::InvalidCredentials)
        } else {
            &&& next is AwaitingEnrollment
            &&& action matches SignupAction::AddUser { user } && user.email@ == email@
                && user.password@ == password@ && user.requires_2fa == requires_2fa
        },
        (SignupState::AwaitingEnrollment, SignupEvent::Added { added: outcome }) => {
            &&& next is Done
            &&& action matches SignupAction::Respond { answer } && signup_answered(
                answer,
                enrollment_answer(outcome),
            )
        },
        _ => next is Done && signup_refused(action, AuthAPIError::UnexpectedError(UnexpectedCause::EventOutOfTurn)),
    }
}

/// Takes the step that follows `event` in `state`.
pub fn advance_signup(state: SignupState, event: SignupEvent) -> (step: (SignupState, SignupAction))
    ensures
        signup_advanced(state, event, step.0, step.1),
{
    match (state, event) {
        (
            SignupState::AwaitingVerification { email, password, requires_2fa },
            SignupEvent::Verified { verified: outcome },
        ) => {
            match answer_verification(outcome) {
                Ok(()) => {},
                Err(e) => {
                    return (SignupState::Done, SignupAction::Respond { answer: Err(e) });
                },
            }
            match parse_credentials(
                email,
                Secret::new(password),
                AuthAPIError::InvalidCredentials,
            ) {
                Ok((email, password)) => (
                    SignupState::AwaitingEnrollment,
                    SignupAction::AddUser { user: User::new(email, password, requires_2fa) },
                ),
                Err(e) => (SignupState::Done, SignupAction::Respond { answer: Err(e) }),
            }
        },
        (SignupState::AwaitingEnrollment, SignupEvent::Added { added: outcome }) => {
            let answer = match answer_enrollment(outcome) {
                Ok(status) => Ok(
                    (
                        status,
                        SignupResponse { message: String::from_str("User created successfully!") },
                    ),
                ),
                Err(e) => Err(e),
            };
            (SignupState::Done, SignupAction::Respond { answer })
        },
        _ => (
            SignupState::Done,
            SignupAction::Respond { answer: Err(AuthAPIError::UnexpectedError(UnexpectedCause::EventOutOfTurn)) },
        ),
    }
}

/// How many steps a signup in `state` can still take.
pub open spec fn signup_steps_left(state: SignupState) -> nat {
    match state {
        SignupState::AwaitingVerification { .. } => 2,
        SignupState::AwaitingEnrollment => 1,
        SignupState::Done => 0,
    }
}

/// Every step of a signup brings it nearer to its answer, and the answer
/// comes exactly with the last step. The credential store is asked only
/// once the verifier has confirmed the token.
pub proof fn law_signup_ends(state: SignupState, event: SignupEvent, next: SignupState, action: SignupAction)
    requires
        signup_advanced(state, event, next, action),
    ensures
        next is Done <==> action is Respond,
        state is Done || signup_steps_left(next) < signup_steps_left(state),
        action is AddUser ==> state is AwaitingVerification && event matches SignupEvent::Verified {
            verified: Ok(()),
        },
{
}

/// Creates the account of `request` in the store in memory. The verifier
/// is asked first; its answer is its own, so a request with a token that
/// is not blank may always end as incorrect credentials. Input that is
/// malformed is refused before the store is touched, a taken identity is a
/// conflict, and a new account holds a hash that verifies the password.
pub fn signup<R: RecaptchaService, E: EmailClient>(
    state: &mut AppState<R, E>,
    request: SignupRequest,
) -> (answer: Result<(u16, SignupResponse), AuthAPIError>)
    ensures
        final(state).settings == old(state).settings,
        match answer {
            Ok(body) => {
                &&& body.0 == STATUS_CREATED
                &&& body.1.message@ == "User created successfully!"@
                &&& !is_blank(request.recaptcha_token@)
                &&& well_formed_credentials(request.email@, request.password@)
                &&& !old(state).user_store@.contains_key(request.email@)
                &&& exists|hash: Seq<char>|
                    password_matches(hash, request.password@) && final(state).stores() == Stores {
                        users: old(state).user_store@.insert(
                            request.email@,
                            Credential { password_hash: hash, requires_2fa: request.requires_2fa },
                        ),
                        ..old(state).stores()
                    }
            },
            Err(e) => {
                &&& final(state).stores() == old(state).stores()
                &&& is_blank(request.recaptcha_token@) ==> e == AuthAPIError::IncorrectCredentials
                &&& e == AuthAPIError::InvalidCredentials ==> !is_blank(request.recaptcha_token@)
                    && !well_formed_credentials(request.email@, request.password@)
                &&& e == AuthAPIError::UserAlreadyExists ==> old(state).user_store@.contains_key(
                    request.email@,
                ) && well_formed_credentials(request.email@, request.password@)
                &&& e == AuthAPIError::UnexpectedError(UnexpectedCause::CredentialStore) ==> !old(state).user_store@.contains_key(
                    request.email@,
                ) && well_formed_credentials(request.email@, request.password@)
                    && request.password@.len() > MAX_PASSWORD_LENGTH
                &&& e == AuthAPIError::IncorrectCredentials || e == AuthAPIError::InvalidCredentials
                    || e == AuthAPIError::UserAlreadyExists || e == AuthAPIError::UnexpectedError(UnexpectedCause::CredentialStore)
            },
        },
{
    let (flow, action) = begin_signup(request);
    let event = match action {
        SignupAction::VerifyRecaptcha { token } => SignupEvent::Verified {
            verified: state.recaptcha_service.verify_token(&token, None),
        },
        SignupAction::Respond { answer } => {
            return answer;
        },
        SignupAction::AddUser { .. } => {
            return Err(AuthAPIError::UnexpectedError(UnexpectedCause::EventOutOfTurn));
        },
    };
    let (flow, action) = advance_signup(flow, event);
    let event = match action {
        SignupAction::AddUser { user } => {
            let added = state.user_store.add_user(user);
            proof {
                if added is Ok {
                    let hash = choose|hash: Seq<char>|
                        password_matches(hash, request.password@) && (state.user_store@, added)
                            == enroll(
                            old(state).user_store@,
                            request.email@,
                            hash,
                            request.requires_2fa,
                        );
                    assert(state.stores() == Stores {
                        users: old(state).user_store@.insert(
                            request.email@,
                            Credential { password_hash: hash, requires_2fa: request.requires_2fa },
                        ),
                        ..old(state).stores()
                    });
                }
            }
            SignupEvent::Added { added }
        },
        SignupAction::Respond { answer } => {
            return answer;
        },
        SignupAction::VerifyRecaptcha { .. } => {
            return Err(AuthAPIError::UnexpectedError(UnexpectedCause::EventOutOfTurn));
        },
    };
    match advance_signup(flow, event).1 {
        SignupAction::Respond { answer } => answer,
        _ => Err(AuthAPIError::UnexpectedError(UnexpectedCause::EventOutOfTurn)),
    }
}

} // verus!
