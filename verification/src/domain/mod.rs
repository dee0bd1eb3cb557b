pub mod data_stores;
pub mod email;
pub mod email_client;
pub mod error;
pub mod login_attempts;
pub mod password;
pub mod recaptcha;
pub mod secret;
pub mod user;

pub use data_stores::{
    BannedTokenStoreError, ChallengeFormatError, LoginAttemptId, TwoFACode, TwoFACodeStoreError,
    UserStoreError,
};
pub use email_client::{EmailClient, EmailClientError};
pub use error::{AuthAPIError, ErrorResponse, UnexpectedCause};
pub use user::User;
pub use email::{Email, EmailError};
pub use login_attempts::{LoginAttempt, LoginAttemptStoreError, LoginAttemptSummary};
pub use password::{Password, PasswordError};
pub use recaptcha::{
    RecaptchaError, RecaptchaToken, RecaptchaTokenError, RecaptchaVerifyRequest,
    RecaptchaVerifyResponse,
};
pub use secret::Secret;
