pub mod banned_token_store;
pub mod hashmap_login_attempt_store;
pub mod hashmap_two_fa_code_store;
pub mod hashmap_user_store;
pub mod mock_email_client;
pub mod password_hashing;
pub mod recaptcha_service;
pub mod redis_keys;
pub mod two_fa_payload;
pub mod user_rows;

pub use banned_token_store::HashsetBannedTokenStore;
pub use hashmap_login_attempt_store::HashmapLoginAttemptStore;
pub use hashmap_two_fa_code_store::HashmapTwoFACodeStore;
pub use hashmap_user_store::HashmapUserStore;
pub use mock_email_client::MockEmailClient;
pub use redis_keys::RedisKeySpace;
pub use recaptcha_service::{MockRecaptchaService, RecaptchaService, SiteverifyReply};
