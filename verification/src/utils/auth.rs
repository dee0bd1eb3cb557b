use crate::config::AuthConfig;
use crate::domain::data_stores::BannedTokenStoreError;
use crate::domain::email::Email;
use crate::services::banned_token_store::{ban, banned_at, HashsetBannedTokenStore};
use crate::utils::clock::{deadline, now_nanos, seconds_of, whole_seconds, NANOS_PER_SECOND};
use vstd::prelude::*;
use vstd::string::*;

verus! {

/// What a session token says: whose it is and until when, in seconds since
/// the Unix epoch.
#[derive(Debug, Clone)]
pub struct Claims {
    pub sub: String,
    pub exp: usize,
}

/// The subject and the expiry that `jsonwebtoken::decode` reads from
/// `token` under the HS256 key `secret`, without looking at the clock; none
/// where the token is malformed, signed otherwise, or lacks either claim.
pub uninterp spec fn jwt_claims(token: Seq<char>, secret: Seq<char>) -> Option<(Seq<char>, u64)>;

/// How often `c` occurs in `text`.
pub open spec fn occurrences(text: Seq<char>, c: char) -> nat
    decreases text.len(),
{
    if text.len() == 0 {
        0
    } else {
        occurrences(text.drop_last(), c) + if text.last() == c {
            1nat
        } else {
            0nat
        }
    }
}

/// `jsonwebtoken::encode` with the default header (HS256) and the key
/// `EncodingKey::from_secret`, on the claims `sub` and `exp`. With a key of
/// the header's own family and claims that are a string and a number,
/// nothing in it can fail: a token always comes back. It has three
/// segments with a dot between them, and decodes under the same secret to
/// the claims it was made from.
#[verifier::external_body]
fn encode_claims(sub: &str, exp: u64, secret: &str) -> (token: Option<String>)
    ensures
        match token {
            Some(t) => jwt_claims(t@, secret@) == Some((sub@, exp)) && occurrences(t@, '.') == 2,
            None => false,
        },
{
    let mut claims = serde_json::Map::new();
    claims.insert("sub".to_owned(), serde_json::Value::from(sub));
    claims.insert("exp".to_owned(), serde_json::Value::from(exp));
    let key = jsonwebtoken::EncodingKey::from_secret(secret.as_bytes());
    jsonwebtoken::encode(&jsonwebtoken::Header::default(), &claims, &key).ok()
}

/// `jsonwebtoken::decode` with the key `DecodingKey::from_secret` and the
/// default validation (HS256, signature checked, `exp` required) but for
/// the expiry, which is left to the caller.
#[verifier::external_body]
fn decode_claims(token: &str, secret: &str) -> (claims: Option<(String, u64)>)
    ensures
        match claims {
            Some(pair) => jwt_claims(token@, secret@) == Some((pair.0@, pair.1)),
            None => jwt_claims(token@, secret@) is None,
        },
{
    let mut validation = jsonwebtoken::Validation::default();
    validation.validate_exp = false;
    let key = jsonwebtoken::DecodingKey::from_secret(secret.as_bytes());
    let data = jsonwebtoken::decode::<serde_json::Value>(token, &key, &validation).ok()?;
    let sub = data.claims.get("sub")?.as_str()?.to_owned();
    let exp = data.claims.get("exp")?.as_u64()?;
    Some((sub, exp))
}

/// Why no token was made, or why one was refused.
#[derive(Debug, Clone, Copy, PartialEq, Eq, Structural)]
pub enum TokenError {
    /// The token is on the revocation list.
    Banned,
    /// The token is malformed, signed with another key, or expired.
    DecodeFailed,
    /// The revocation list could not be asked.
    StoreFailed,
    /// The expiry of a new token is no instant that a token can hold.
    ExpiryOutOfRange,
    /// The signer refused. No token of this library's make fails this way.
    SigningFailed,
}

impl TokenError {
    pub open spec fn message(self) -> Seq<char> {
        match self {
            TokenError::Banned => "token is banned"@,
            TokenError::DecodeFailed => "failed to decode token"@,
            TokenError::StoreFailed => "failed to check banned token store"@,
            TokenError::ExpiryOutOfRange => "failed to compute token expiry"@,
            TokenError::SigningFailed => "failed to create token"@,
        }
    }

    /// The sentence shown for this error.
    pub fn to_string(&self) -> (message: String)
        ensures
            message@ == self.message(),
    {
        match self {
            TokenError::Banned => String::from_str("token is banned"),
            TokenError::DecodeFailed => String::from_str("failed to decode token"),
            TokenError::StoreFailed => String::from_str("failed to check banned token store"),
            TokenError::ExpiryOutOfRange => String::from_str("failed to compute token expiry"),
            TokenError::SigningFailed => String::from_str("failed to create token"),
        }
    }
}

/// The policy of a cookie for requests from other sites.
#[derive(Debug, Clone, Copy, PartialEq, Eq, Structural)]
pub enum SameSite {
    Strict,
    Lax,
    Unrestricted,
}

/// A cookie as plain values.
#[derive(Debug, Clone)]
pub struct AuthCookie {
    pub name: String,
    pub value: String,
    pub path: String,
    pub http_only: bool,
    pub same_site: SameSite,
}

/// The cookie that carries `token`: valid for every path of the server,
/// out of reach of scripts, sent along on same-site requests and on
/// top-level navigation from elsewhere.
pub fn create_auth_cookie(token: String, cookie_name: String) -> (cookie: AuthCookie)
    ensures
        cookie.name == cookie_name,
        cookie.value == token,
        cookie.path@ == "/"@,
        cookie.http_only,
        cookie.same_site == SameSite::Lax,
{
    AuthCookie {
        name: cookie_name,
        value: token,
        path: String::from_str("/"),
        http_only: true,
        same_site: SameSite::Lax,
    }
}

/// The cookie that makes a client drop the session cookie: the same name
/// and path, and no value.
pub fn create_removal_cookie(cookie_name: String) -> (cookie: AuthCookie)
    ensures
        cookie.name == cookie_name,
        cookie.value@ == Seq::<char>::empty(),
        cookie.path@ == "/"@,
{
    AuthCookie {
        name: cookie_name,
        value: String::new(),
        path: String::from_str("/"),
        http_only: false,
        same_site: SameSite::Lax,
    }
}

/// The expiry of a token made at `now` to live `ttl_seconds`, both in
/// seconds; none where the sum is negative or too large for a token.
pub open spec fn expiry_of(now: i64, ttl_seconds: i64) -> Option<usize> {
    if 0 <= now + ttl_seconds <= i64::MAX && now + ttl_seconds <= usize::MAX {
        Some((now + ttl_seconds) as usize)
    } else {
        None
    }
}

/// The expiry of a token made at `now` to live `ttl_seconds`.
pub fn token_expiry(now: i64, ttl_seconds: i64) -> (exp: Option<usize>)
    ensures
        exp == expiry_of(now, ttl_seconds),
{
    match now.checked_add(ttl_seconds) {
        Some(sum) => {
            if sum < 0 {
                None
            } else if sum as u64 > usize::MAX as u64 {
                None
            } else {
                Some(sum as usize)
            }
        },
        None => None,
    }
}

/// What minting returns for a token made at `now`: where the expiry can
/// be written, a token of three segments that decodes under the configured
/// secret to the identity and the expiry; the error that says so where it
/// cannot.
pub open spec fn minted(
    outcome: Result<String, TokenError>,
    email: Seq<char>,
    auth_config: AuthConfig,
    now: i64,
) -> bool {
    match expiry_of(now, auth_config.token_ttl_seconds) {
        None => outcome == Err::<String, TokenError>(TokenError::ExpiryOutOfRange),
        Some(exp) => match outcome {
            Ok(token) => jwt_claims(token@, auth_config.jwt_secret@) == Some((email, exp as u64))
                && occurrences(token@, '.') == 2,
            Err(_) => false,
        },
    }
}

/// The token that a cookie carries, or why there is no cookie.
pub open spec fn carried_token(cookie: Result<AuthCookie, TokenError>) -> Result<String, TokenError> {
    match cookie {
        Ok(c) => Ok(c.value),
        Err(e) => Err(e),
    }
}

/// A cookie with a new session token for `email`, under the configured
/// name.
pub fn generate_auth_cookie(email: &Email, auth_config: &AuthConfig) -> (cookie: Result<
    AuthCookie,
    TokenError,
>)
    ensures
        exists|now: i64| minted(carried_token(cookie), email@, *auth_config, now),
        match cookie {
            Ok(c) => c.name@ == auth_config.jwt_cookie_name@ && c.path@ == "/"@ && c.http_only
                && c.same_site == SameSite::Lax,
            Err(_) => true,
        },
{
    let now = whole_seconds(now_nanos());
    let cookie = match generate_auth_token_at(email, auth_config, now) {
        Ok(token) => Ok(create_auth_cookie(token, auth_config.jwt_cookie_name.clone())),
        Err(e) => Err(e),
    };
    assert(minted(carried_token(cookie), email@, *auth_config, now));
    cookie
}

/// A new session token for `email` that lives as long as configured from
/// now on.
pub fn generate_auth_token(email: &Email, auth_config: &AuthConfig) -> (token: Result<
    String,
    TokenError,
>)
    ensures
        exists|now: i64| minted(token, email@, *auth_config, now),
{
    let now = whole_seconds(now_nanos());
    let token = generate_auth_token_at(email, auth_config, now);
    assert(minted(token, email@, *auth_config, now));
    token
}

/// A new session token for `email` that lives as long as configured from
/// `now` on, in seconds since the Unix epoch.
pub fn generate_auth_token_at(email: &Email, auth_config: &AuthConfig, now: i64) -> (token: Result<
    String,
    TokenError,
>)
    ensures
        minted(token, email@, *auth_config, now),
{
    let exp = match token_expiry(now, auth_config.token_ttl_seconds) {
        Some(exp) => exp,
        None => {
            return Err(TokenError::ExpiryOutOfRange);
        },
    };
    let claims = Claims { sub: email.as_ref().expose_secret().clone(), exp };
    create_token(&claims, auth_config)
}

/// Signs `claims` with the configured secret. There is always a token:
/// three segments that decode under the same secret to `claims`.
pub fn create_token(claims: &Claims, auth_config: &AuthConfig) -> (token: Result<String, TokenError>)
    ensures
        token matches Ok(t) && jwt_claims(t@, auth_config.jwt_secret@) == Some(
            (claims.sub@, claims.exp as u64),
        ) && occurrences(t@, '.') == 2,
{
    match encode_claims(claims.sub.as_str(), claims.exp as u64, auth_config.jwt_secret.as_str()) {
        Some(token) => Ok(token),
        None => Err(TokenError::SigningFailed),
    }
}

/// How long after its expiry a token is still taken, in seconds.
pub const EXPIRY_LEEWAY_SECONDS: u64 = 60;

/// Whether at `now`, in nanoseconds since the Unix epoch, a token with the
/// expiry `exp`, in seconds, is past its expiry and the leeway.
pub open spec fn expired_at(exp: u64, now: u128) -> bool {
    exp + EXPIRY_LEEWAY_SECONDS < now / NANOS_PER_SECOND
}

/// What a check of a token returns from what the revocation list said and
/// what the token decodes to. The list is heard first: a token that it
/// names is refused whatever its signature, and a list that cannot be
/// asked lets no token pass.
pub open spec fn token_verdict(
    banned: Result<bool, BannedTokenStoreError>,
    decoded: Option<(Seq<char>, u64)>,
    now: u128,
) -> Result<(Seq<char>, u64), TokenError> {
    match banned {
        Err(_) => Err(TokenError::StoreFailed),
        Ok(true) => Err(TokenError::Banned),
        Ok(false) => match decoded {
            None => Err(TokenError::DecodeFailed),
            Some(claims) => if expired_at(claims.1, now) || claims.1 > usize::MAX {
                Err(TokenError::DecodeFailed)
            } else {
                Ok(claims)
            },
        },
    }
}

/// The claims as plain values.
pub open spec fn claims_view(outcome: Result<Claims, TokenError>) -> Result<
    (Seq<char>, u64),
    TokenError,
> {
    match outcome {
        Ok(claims) => Ok((claims.sub@, claims.exp as u64)),
        Err(e) => Err(e),
    }
}

/// The verdict on a token from what the revocation list said and what the
/// token decodes to.
pub fn judge_token(
    banned: Result<bool, BannedTokenStoreError>,
    decoded: Option<(String, u64)>,
    now: u128,
) -> (outcome: Result<Claims, TokenError>)
    ensures
        claims_view(outcome) == token_verdict(
            banned,
            match decoded {
                Some(pair) => Some((pair.0@, pair.1)),
                None => None,
            },
            now,
        ),
{
    match banned {
        Err(_) => Err(TokenError::StoreFailed),
        Ok(true) => Err(TokenError::Banned),
        Ok(false) => match decoded {
            None => Err(TokenError::DecodeFailed),
            Some(pair) => {
                let now_seconds: u128 = now / NANOS_PER_SECOND;
                if (pair.1 as u128) + (EXPIRY_LEEWAY_SECONDS as u128) < now_seconds {
                    Err(TokenError::DecodeFailed)
                } else if pair.1 > usize::MAX as u64 {
                    Err(TokenError::DecodeFailed)
                } else {
                    Ok(Claims { sub: pair.0, exp: pair.1 as usize })
                }
            },
        },
    }
}

/// Checks `token` at `now`, given what the revocation list said of it. The
/// signature is looked at only where the list let the token pass.
pub fn check_token(
    token: &str,
    banned: Result<bool, BannedTokenStoreError>,
    auth_config: &AuthConfig,
    now: u128,
) -> (outcome: Result<Claims, TokenError>)
    ensures
        claims_view(outcome) == token_verdict(
            banned,
            jwt_claims(token@, auth_config.jwt_secret@),
            now,
        ),
{
    match banned {
        Ok(false) => {
            let decoded = decode_claims(token, auth_config.jwt_secret.as_str());
            judge_token(banned, decoded, now)
        },
        _ => judge_token(banned, None, now),
    }
}

/// Checks `token` now: first against the revocation list, then its
/// signature and expiry. A token on the list at every moment is refused
/// as banned whatever the clock says.
pub fn validate_token(
    token: &str,
    banned_token_store: &HashsetBannedTokenStore,
    auth_config: &AuthConfig,
) -> (outcome: Result<Claims, TokenError>)
    ensures
        exists|now: u128|
            claims_view(outcome) == token_verdict(
                Ok(banned_at(banned_token_store@, token@, now)),
                jwt_claims(token@, auth_config.jwt_secret@),
                now,
            ),
{
    let now = now_nanos();
    let outcome = validate_token_at(token, banned_token_store, auth_config, now);
    assert(claims_view(outcome) == token_verdict(
        Ok(banned_at(banned_token_store@, token@, now)),
        jwt_claims(token@, auth_config.jwt_secret@),
        now,
    ));
    outcome
}

/// Checks `token` at `now`, in nanoseconds since the Unix epoch.
pub fn validate_token_at(
    token: &str,
    banned_token_store: &HashsetBannedTokenStore,
    auth_config: &AuthConfig,
    now: u128,
) -> (outcome: Result<Claims, TokenError>)
    ensures
        claims_view(outcome) == token_verdict(
            Ok(banned_at(banned_token_store@, token@, now)),
            jwt_claims(token@, auth_config.jwt_secret@),
            now,
        ),
{
    let banned = banned_token_store.contains_token_at(token, now);
    check_token(token, Ok(banned), auth_config, now)
}

/// For how many seconds from `now` a token with the expiry `exp` has to
/// stay revoked so that it never passes again: until its expiry and the
/// leeway are over, and a second at the least.
pub open spec fn revocation_ttl(exp: u64, now: u128) -> u64 {
    let due = exp + EXPIRY_LEEWAY_SECONDS + 1 - now / NANOS_PER_SECOND;
    if due < 1 {
        1
    } else if due > u64::MAX {
        u64::MAX
    } else {
        due as u64
    }
}

/// For how many seconds from `now` a token with the expiry `exp` has to
/// stay revoked.
pub fn remaining_lifetime(exp: u64, now: u128) -> (ttl_seconds: u64)
    ensures
        ttl_seconds == revocation_ttl(exp, now),
{
    let end: u128 = (exp as u128) + (EXPIRY_LEEWAY_SECONDS as u128) + 1;
    let now_seconds: u128 = now / NANOS_PER_SECOND;
    if now_seconds >= end {
        1
    } else if end - now_seconds > u64::MAX as u128 {
        u64::MAX
    } else {
        (end - now_seconds) as u64
    }
}

/// A token that is revoked for its remaining lifetime never passes again,
/// provided that lifetime can be counted in the seconds a revocation list
/// takes.
pub proof fn law_revoked_for_its_lifetime(
    entries: Map<Seq<char>, u128>,
    token: Seq<char>,
    subject: Seq<char>,
    exp: u64,
    at: u128,
    later: u128,
)
    requires
        at <= later,
        exp + EXPIRY_LEEWAY_SECONDS + 1 - at / NANOS_PER_SECOND <= u64::MAX,
    ensures
        token_verdict(
            Ok(banned_at(ban(entries, token, at, revocation_ttl(exp, at)), token, later)),
            Some((subject, exp)),
            later,
        ) is Err,
{
    let ttl = revocation_ttl(exp, at);
    let bound = exp + EXPIRY_LEEWAY_SECONDS + 1;
    let seconds = at / 1_000_000_000;
    if later >= deadline(at, ttl) {
        assert(seconds * 1_000_000_000 <= at) by (nonlinear_arith)
            requires
                seconds == at / 1_000_000_000,
        ;
        if deadline(at, ttl) < u128::MAX {
            assert(ttl >= bound - seconds);
            assert(bound * 1_000_000_000 <= at + ttl * 1_000_000_000) by (nonlinear_arith)
                requires
                    seconds * 1_000_000_000 <= at,
                    ttl >= bound - seconds,
            ;
        }
        assert(bound * 1_000_000_000 <= later);
        assert(bound <= later / 1_000_000_000) by (nonlinear_arith)
            requires
                bound * 1_000_000_000 <= later,
        ;
    }
}

/// A token that was just made passes the check, as long as it is not
/// revoked: it decodes under the secret it was signed with, to the
/// identity it was made for, and its expiry has not come.
pub proof fn law_fresh_token_passes(
    entries: Map<Seq<char>, u128>,
    token: String,
    email: Seq<char>,
    auth_config: AuthConfig,
    now: u128,
)
    requires
        minted(Ok(token), email, auth_config, seconds_of(now)),
        auth_config.token_ttl_seconds >= 0,
        now / NANOS_PER_SECOND <= i64::MAX,
        !banned_at(entries, token@, now),
    ensures
        token_verdict(
            Ok(banned_at(entries, token@, now)),
            jwt_claims(token@, auth_config.jwt_secret@),
            now,
        ) matches Ok(claims) && claims.0 == email,
{
}

/// A revoked token is refused as banned for as long as its revocation
/// lasts, whatever it decodes to: also where its signature and expiry
/// alone would let it pass.
pub proof fn law_revoked_token_is_refused(
    entries: Map<Seq<char>, u128>,
    token: Seq<char>,
    decoded: Option<(Seq<char>, u64)>,
    at: u128,
    ttl_seconds: u64,
    later: u128,
)
    requires
        later < deadline(at, ttl_seconds),
    ensures
        token_verdict(
            Ok(banned_at(ban(entries, token, at, ttl_seconds), token, later)),
            decoded,
            later,
        ) == Err::<(Seq<char>, u64), TokenError>(TokenError::Banned),
        decoded matches Some(claims) && !expired_at(claims.1, later) && claims.1 <= usize::MAX
            ==> token_verdict(Ok(false), decoded, later) == Ok::<(Seq<char>, u64), TokenError>(
            decoded->0,
        ),
{
}

/// A revocation that lasts until the token's expiry and leeway are over
/// shuts the token out for good: it passes at no moment from its
/// revocation on.
pub proof fn law_revocation_outlives_token(
    entries: Map<Seq<char>, u128>,
    token: Seq<char>,
    decoded: Option<(Seq<char>, u64)>,
    at: u128,
    ttl_seconds: u64,
    later: u128,
)
    requires
        at <= later,
        decoded matches Some(claims) ==> (claims.1 + EXPIRY_LEEWAY_SECONDS + 1) * NANOS_PER_SECOND
            <= deadline(at, ttl_seconds),
    ensures
        token_verdict(
            Ok(banned_at(ban(entries, token, at, ttl_seconds), token, later)),
            decoded,
            later,
        ) is Err,
{
    if later >= deadline(at, ttl_seconds) {
        match decoded {
            Some(claims) => {
                let bound = claims.1 + EXPIRY_LEEWAY_SECONDS + 1;
                assert(bound * 1_000_000_000 <= later ==> bound <= later / 1_000_000_000) by (nonlinear_arith);
            },
            None => {},
        }
    }
}

} // verus!
