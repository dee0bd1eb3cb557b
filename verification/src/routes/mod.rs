pub mod delete_account;
pub mod login;
pub mod logout;
pub mod signup;
pub mod verify_2fa;
pub mod verify_token;

pub use delete_account::{delete_account, DeleteAccountRequest, DeleteAccountResponse};
pub use login::{login, LoginRequest, LoginResponse, TwoFactorAuthResponse};
pub use logout::logout;
pub use signup::{signup, SignupRequest, SignupResponse};
pub use verify_2fa::{verify_2fa, Verify2FARequest};
pub use verify_token::{verify_token, VerifyTokenRequest};
