use crate::app_state::{AppState, Stores};
use crate::domain::data_stores::UserStoreError;
use crate::domain::email::{email_is_valid, Email};
use crate::domain::email_client::EmailClient;
use crate::domain::error::{AuthAPIError, UnexpectedCause};
use crate::domain::password::{password_verdict, Password};
use crate::domain::secret::Secret;
use crate::routes::verify_token::STATUS_OK;
use crate::services::hashmap_user_store::{delete, Credential};
use crate::services::recaptcha_service::RecaptchaService;
use vstd::prelude::*;
use vstd::string::*;

verus! {

/// A request to delete an account. It holds a password as it was typed,
/// so it cannot be printed.
#[derive(Clone)]
pub struct DeleteAccountRequest {
    pub email: String,
    pub password: String,
}

/// The body that confirms a deletion.
#[derive(Debug, Clone)]
pub struct DeleteAccountResponse {
    pub message: String,
}

/// Reads an identity and a password from what a request carried; either
/// that is malformed gives `refusal`.
pub fn parse_credentials(email: String, password: Secret, refusal: AuthAPIError) -> (parsed: Result<
    (Email, Password),
    AuthAPIError,
>)
    ensures
        match parsed {
            Ok(pair) => well_formed_credentials(email@, password@) && pair.0@ == email@ && pair.1@
                == password@,
            Err(e) => !well_formed_credentials(email@, password@) && e == refusal,
        },
{
    let email = match Email::parse(Secret::new(email)) {
        Ok(email) => email,
        Err(_) => {
            return Err(refusal);
        },
    };
    let password = match Password::parse(password) {
        Ok(password) => password,
        Err(_) => {
            return Err(refusal);
        },
    };
    Ok((email, password))
}

/// An identity that is a valid e-mail address with a password that passes
/// the strength checks.
pub open spec fn well_formed_credentials(email: Seq<char>, password: Seq<char>) -> bool {
    email_is_valid(email) && password_verdict(password) is Ok
}

/// The answer to a deletion from what the credential store said: an
/// identity that is not found and a wrong password are told alike, as
/// incorrect credentials.
pub open spec fn deletion_answer(deleted: Result<(), UserStoreError>) -> Result<u16, AuthAPIError> {
    match deleted {
        Ok(()) => Ok(STATUS_OK),
        Err(UserStoreError::UserNotFound) => Err(AuthAPIError::IncorrectCredentials),
        Err(UserStoreError::InvalidCredentials) => Err(AuthAPIError::IncorrectCredentials),
        Err(_) => Err(AuthAPIError::UnexpectedError(UnexpectedCause::CredentialStore)),
    }
}

/// The answer to a deletion from what the credential store said.
pub fn answer_deletion(deleted: Result<(), UserStoreError>) -> (answer: Result<u16, AuthAPIError>)
    ensures
        answer == deletion_answer(deleted),
{
    match deleted {
        Ok(()) => Ok(STATUS_OK),
        Err(UserStoreError::UserNotFound) => Err(AuthAPIError::IncorrectCredentials),
        Err(UserStoreError::InvalidCredentials) => Err(AuthAPIError::IncorrectCredentials),
        Err(_) => Err(AuthAPIError::UnexpectedError(UnexpectedCause::CredentialStore)),
    }
}

/// What a request to delete an account does: the credentials afterwards
/// and the answer. Malformed input is refused before the store is asked.
pub open spec fn delete_account_outcome(
    users: Map<Seq<char>, Credential>,
    email: Seq<char>,
    password: Seq<char>,
) -> (Map<Seq<char>, Credential>, Result<u16, AuthAPIError>) {
    if !well_formed_credentials(email, password) {
        (users, Err(AuthAPIError::InvalidCredentials))
    } else {
        (delete(users, email, password).0, deletion_answer(delete(users, email, password).1))
    }
}

/// Where a request to delete an account stands.
pub enum DeleteAccountState {
    /// The credential store is being asked to delete the record.
    AwaitingDeletion,
    /// The request is answered.
    Done,
}

/// What the caller of a request to delete an account has to do next.
pub enum DeleteAccountAction {
    /// Ask the credential store to delete the record of `email` if
    /// `password` is its password.
    DeleteUser { email: Email, password: Password },
    /// Answer the request.
    Respond { answer: Result<(u16, DeleteAccountResponse), AuthAPIError> },
}

/// What the caller of a request to delete an account comes back with.
pub enum DeleteAccountEvent {
    Deleted { outcome: Result<(), UserStoreError> },
}

/// What an answer to a request to delete an account says.
pub open spec fn delete_account_answered(
    answer: Result<(u16, DeleteAccountResponse), AuthAPIError>,
    expected: Result<u16, AuthAPIError>,
) -> bool {
    match answer {
        Ok(body) => expected == Ok::<u16, AuthAPIError>(body.0) && body.1.message@
            == "Account deleted successfully!"@,
        Err(e) => expected == Err::<u16, AuthAPIError>(e),
    }
}

/// The first step of a request to delete an account: malformed input is
/// refused at once, anything else goes to the credential store.
pub fn begin_delete_account(request: DeleteAccountRequest) -> (step: (
    DeleteAccountState,
    DeleteAccountAction,
))
    ensures
        if well_formed_credentials(request.email@, request.password@) {
            &&& step.0 is AwaitingDeletion
            &&& step.1 matches DeleteAccountAction::DeleteUser { email, password } && email@
                == request.email@ && password@ == request.password@
        } else {
            &&& step.0 is Done
            &&& step.1 matches DeleteAccountAction::Respond { answer } && answer is Err
                && delete_account_answered(answer, Err(AuthAPIError::InvalidCredentials))
        },
{
    match parse_credentials(
        request.email,
        Secret::new(request.password),
        AuthAPIError::InvalidCredentials,
    ) {
        Ok((email, password)) => (
            DeleteAccountState::AwaitingDeletion,
            DeleteAccountAction::DeleteUser { email, password },
        ),
        Err(e) => (DeleteAccountState::Done, DeleteAccountAction::Respond { answer: Err(e) }),
    }
}

/// Takes the step that follows `event` in `state`: once the credential
/// store has spoken, the request is answered. An event that the state does
/// not wait for ends the request as an unexpected error.
pub fn advance_delete_account(state: DeleteAccountState, event: DeleteAccountEvent) -> (step: (
    DeleteAccountState,
    DeleteAccountAction,
))
    ensures
        step.0 is Done,
        step.1 matches DeleteAccountAction::Respond { answer } && delete_account_answered(
            answer,
            match (state, event) {
                (
                    DeleteAccountState::AwaitingDeletion,
                    DeleteAccountEvent::Deleted { outcome },
                ) => deletion_answer(outcome),
                _ => Err(AuthAPIError::UnexpectedError(UnexpectedCause::EventOutOfTurn)),
            },
        ),
{
    match (state, event) {
        (DeleteAccountState::AwaitingDeletion, DeleteAccountEvent::Deleted { outcome }) => {
            let answer = match answer_deletion(outcome) {
                Ok(status) => Ok(
                    (
                        status,
                        DeleteAccountResponse {
                            message: String::from_str("Account deleted successfully!"),
                        },
                    ),
                ),
                Err(e) => Err(e),
            };
            (DeleteAccountState::Done, DeleteAccountAction::Respond { answer })
        },
        _ => (
            DeleteAccountState::Done,
            DeleteAccountAction::Respond { answer: Err(AuthAPIError::UnexpectedError(UnexpectedCause::EventOutOfTurn)) },
        ),
    }
}

/// Deletes the account of `request` from the store in memory if its
/// credentials are valid.
pub fn delete_account<R: RecaptchaService, E: EmailClient>(
    state: &mut AppState<R, E>,
    request: DeleteAccountRequest,
) -> (answer: Result<(u16, DeleteAccountResponse), AuthAPIError>)
    ensures
        ({
            let expected = delete_account_outcome(
                old(state).user_store@,
                request.email@,
                request.password@,
            );
            &&& final(state).stores() == Stores { users: expected.0, ..old(state).stores() }
            &&& final(state).settings == old(state).settings
            &&& delete_account_answered(answer, expected.1)
        }),
{
    let (flow, action) = begin_delete_account(request);
    let event = match action {
        DeleteAccountAction::DeleteUser { email, password } => DeleteAccountEvent::Deleted {
            outcome: state.user_store.delete_user(&email, &password),
        },
        DeleteAccountAction::Respond { answer } => {
            return answer;
        },
    };
    match advance_delete_account(flow, event).1 {
        DeleteAccountAction::Respond { answer } => answer,
        DeleteAccountAction::DeleteUser { .. } => Err(AuthAPIError::UnexpectedError(UnexpectedCause::EventOutOfTurn)),
    }
}

} // verus!
