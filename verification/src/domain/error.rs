use vstd::prelude::*;
use vstd::string::*;

verus! {

/// What lies behind an unexpected error: the collaborator that failed, or
/// what else went wrong. It is kept for diagnostics and shown to no caller.
#[derive(Debug, Clone, Copy, PartialEq, Eq, Structural)]
pub enum UnexpectedCause {
    /// The tracker of login attempts failed.
    LoginAttemptStore,
    /// The credential store failed.
    CredentialStore,
    /// The store of second-factor challenges failed.
    ChallengeStore,
    /// The revocation list failed.
    RevocationStore,
    /// The code could not be handed over for delivery.
    EmailDelivery,
    /// The expiry of the session token cannot be written.
    TokenExpiry,
    /// An event came that the request did not wait for.
    EventOutOfTurn,
}

impl UnexpectedCause {
    pub open spec fn description(self) -> Seq<char> {
        match self {
            UnexpectedCause::LoginAttemptStore => "the login attempt store failed"@,
            UnexpectedCause::CredentialStore => "the credential store failed"@,
            UnexpectedCause::ChallengeStore => "the two-factor code store failed"@,
            UnexpectedCause::RevocationStore => "the banned token store failed"@,
            UnexpectedCause::EmailDelivery => "the email client failed"@,
            UnexpectedCause::TokenExpiry => "the token expiry cannot be written"@,
            UnexpectedCause::EventOutOfTurn => "an event came out of turn"@,
        }
    }

    /// The cause in words, for logs.
    pub fn to_string(&self) -> (text: String)
        ensures
            text@ == self.description(),
    {
        match self {
            UnexpectedCause::LoginAttemptStore => String::from_str("the login attempt store failed"),
            UnexpectedCause::CredentialStore => String::from_str("the credential store failed"),
            UnexpectedCause::ChallengeStore => String::from_str("the two-factor code store failed"),
            UnexpectedCause::RevocationStore => String::from_str("the banned token store failed"),
            UnexpectedCause::EmailDelivery => String::from_str("the email client failed"),
            UnexpectedCause::TokenExpiry => String::from_str("the token expiry cannot be written"),
            UnexpectedCause::EventOutOfTurn => String::from_str("an event came out of turn"),
        }
    }
}

/// What a request can fail with. The boundary turns each kind into a
/// status and a message; an unexpected error keeps its cause, which no
/// response shows.
#[derive(Debug, Clone, Copy, PartialEq, Eq, Structural)]
pub enum AuthAPIError {
    UserAlreadyExists,
    InvalidInput,
    IncorrectCredentials,
    InvalidCredentials,
    InvalidToken,
    MissingToken,
    UnexpectedError(UnexpectedCause),
}

/// The body of an error response.
#[derive(Debug, Clone)]
pub struct ErrorResponse {
    pub error: String,
}

impl AuthAPIError {
    /// The status that answers a request that failed this way: conflict
    /// for a taken identity, unauthorized for wrong credentials and for a
    /// token that is not valid, a server error for an internal failure, and
    /// a bad request for the rest.
    pub open spec fn status(self) -> u16 {
        match self {
            AuthAPIError::UserAlreadyExists => 409,
            AuthAPIError::InvalidInput => 400,
            AuthAPIError::IncorrectCredentials => 401,
            AuthAPIError::InvalidCredentials => 400,
            AuthAPIError::UnexpectedError(_) => 500,
            AuthAPIError::InvalidToken => 401,
            AuthAPIError::MissingToken => 400,
        }
    }

    /// The message in the body of the response.
    pub open spec fn response_message(self) -> Seq<char> {
        match self {
            AuthAPIError::UserAlreadyExists => "User already exists"@,
            AuthAPIError::InvalidInput => "Invalid input"@,
            AuthAPIError::IncorrectCredentials => "Incorrect credentials"@,
            AuthAPIError::InvalidCredentials => "Invalid credentials"@,
            AuthAPIError::UnexpectedError(_) => "Unexpected error"@,
            AuthAPIError::InvalidToken => "Invalid token"@,
            AuthAPIError::MissingToken => "Missing token"@,
        }
    }

    /// The text of the error for logs and diagnostics.
    pub open spec fn display(self) -> Seq<char> {
        match self {
            AuthAPIError::UserAlreadyExists => "User already exists"@,
            AuthAPIError::InvalidInput => "Invalid input"@,
            AuthAPIError::IncorrectCredentials => "Incorrect credentials"@,
            AuthAPIError::InvalidCredentials => "Invalid credentials"@,
            AuthAPIError::InvalidToken => "Invalid token"@,
            AuthAPIError::MissingToken => "Missing token"@,
            AuthAPIError::UnexpectedError(_) => "Unexpected error"@,
        }
    }

    pub fn status_code(&self) -> (code: u16)
        ensures
            code == self.status(),
    {
        match self {
            AuthAPIError::UserAlreadyExists => 409,
            AuthAPIError::InvalidInput => 400,
            AuthAPIError::IncorrectCredentials => 401,
            AuthAPIError::InvalidCredentials => 400,
            AuthAPIError::UnexpectedError(_) => 500,
            AuthAPIError::InvalidToken => 401,
            AuthAPIError::MissingToken => 400,
        }
    }

    pub fn message(&self) -> (text: String)
        ensures
            text@ == self.response_message(),
    {
        match self {
            AuthAPIError::UserAlreadyExists => String::from_str("User already exists"),
            AuthAPIError::InvalidInput => String::from_str("Invalid input"),
            AuthAPIError::IncorrectCredentials => String::from_str("Incorrect credentials"),
            AuthAPIError::InvalidCredentials => String::from_str("Invalid credentials"),
            AuthAPIError::UnexpectedError(_) => String::from_str("Unexpected error"),
            AuthAPIError::InvalidToken => String::from_str("Invalid token"),
            AuthAPIError::MissingToken => String::from_str("Missing token"),
        }
    }

    pub fn to_string(&self) -> (text: String)
        ensures
            text@ == self.display(),
    {
        match self {
            AuthAPIError::UserAlreadyExists => String::from_str("User already exists"),
            AuthAPIError::InvalidInput => String::from_str("Invalid input"),
            AuthAPIError::IncorrectCredentials => String::from_str("Incorrect credentials"),
            AuthAPIError::InvalidCredentials => String::from_str("Invalid credentials"),
            AuthAPIError::InvalidToken => String::from_str("Invalid token"),
            AuthAPIError::MissingToken => String::from_str("Missing token"),
            AuthAPIError::UnexpectedError(_) => String::from_str("Unexpected error"),
        }
    }

    /// The cause of an unexpected error; no other error has one.
    pub fn cause(&self) -> (cause: Option<UnexpectedCause>)
        ensures
            cause == match *self {
                AuthAPIError::UnexpectedError(c) => Some(c),
                _ => None,
            },
    {
        match self {
            AuthAPIError::UnexpectedError(c) => Some(*c),
            _ => None,
        }
    }

    /// The status and the body that answer a request that failed this way.
    /// An unexpected error is answered alike whatever its cause.
    pub fn into_response(self) -> (response: (u16, ErrorResponse))
        ensures
            response.0 == self.status(),
            response.1.error@ == self.response_message(),
    {
        (self.status_code(), ErrorResponse { error: self.message() })
    }
}

} // verus!
