use crate::config::Settings;
use crate::domain::email_client::EmailClient;
use crate::domain::login_attempts::LoginAttemptSummary;
use crate::services::banned_token_store::HashsetBannedTokenStore;
use crate::services::hashmap_login_attempt_store::HashmapLoginAttemptStore;
use crate::services::hashmap_two_fa_code_store::{Challenge, HashmapTwoFACodeStore};
use crate::services::hashmap_user_store::{Credential, HashmapUserStore};
use crate::services::recaptcha_service::RecaptchaService;
use vstd::prelude::*;

verus! {

/// Everything a request handler works on: the four stores, the two
/// collaborators, and the settings. The stores are handed in when the state
/// is made and are reached through it alone.
pub struct AppState<R: RecaptchaService, E: EmailClient> {
    pub user_store: HashmapUserStore,
    pub login_attempt_store: HashmapLoginAttemptStore,
    pub recaptcha_service: R,
    pub banned_token_store: HashsetBannedTokenStore,
    pub two_fa_code_store: HashmapTwoFACodeStore,
    pub email_client: E,
    pub settings: Settings,
}

impl<R: RecaptchaService, E: EmailClient> AppState<R, E> {
    pub fn new(
        user_store: HashmapUserStore,
        login_attempt_store: HashmapLoginAttemptStore,
        recaptcha_service: R,
        banned_token_store: HashsetBannedTokenStore,
        two_fa_code_store: HashmapTwoFACodeStore,
        email_client: E,
        settings: Settings,
    ) -> (state: AppState<R, E>)
        ensures
            state.user_store == user_store,
            state.login_attempt_store == login_attempt_store,
            state.recaptcha_service == recaptcha_service,
            state.banned_token_store == banned_token_store,
            state.two_fa_code_store == two_fa_code_store,
            state.email_client == email_client,
            state.settings == settings,
    {
        AppState {
            user_store,
            login_attempt_store,
            recaptcha_service,
            banned_token_store,
            two_fa_code_store,
            email_client,
            settings,
        }
    }

    /// What the stores hold, as plain values.
    pub open spec fn stores(&self) -> Stores {
        Stores {
            users: self.user_store@,
            attempts: self.login_attempt_store@,
            attempts_expiry: self.login_attempt_store.expiry(),
            banned: self.banned_token_store@,
            banned_ttl: self.banned_token_store.ttl_seconds(),
            challenges: self.two_fa_code_store@,
            challenges_ttl: self.two_fa_code_store.ttl_seconds(),
        }
    }
}

/// The contents of the four stores as plain values.
pub struct Stores {
    pub users: Map<Seq<char>, Credential>,
    pub attempts: Map<Seq<char>, LoginAttemptSummary>,
    pub attempts_expiry: nat,
    pub banned: Map<Seq<char>, u128>,
    pub banned_ttl: u64,
    pub challenges: Map<Seq<char>, Challenge>,
    pub challenges_ttl: u64,
}

} // verus!
