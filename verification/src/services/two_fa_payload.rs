use crate::domain::data_stores::{
    is_attempt_id, is_two_fa_code, LoginAttemptId, TwoFACode, TwoFACodeStoreError,
};
use vstd::prelude::*;

verus! {

/// The two strings that `serde_json::from_str` reads from `text` as a pair
/// of strings (a JSON array of exactly two strings); none where `text` is
/// nothing of the kind.
pub uninterp spec fn json_pair(text: Seq<char>) -> Option<(Seq<char>, Seq<char>)>;

/// `serde_json::to_string` on a pair of strings: a JSON array of the two.
/// Writing two strings cannot fail, so a text always comes back, and it
/// reads back as the pair it was made from.
#[verifier::external_body]
fn write_pair(first: &str, second: &str) -> (text: Option<String>)
    ensures
        match text {
            Some(t) => json_pair(t@) == Some((first@, second@)),
            None => false,
        },
{
    serde_json::to_string(&(first, second)).ok()
}

/// `serde_json::from_str` for a pair of strings.
#[verifier::external_body]
fn read_pair(text: &str) -> (pair: Option<(String, String)>)
    ensures
        match pair {
            Some(p) => json_pair(text@) == Some((p.0@, p.1@)),
            None => json_pair(text@) is None,
        },
{
    serde_json::from_str::<(String, String)>(text).ok()
}

/// The challenge that a stored value holds: the pair that it reads as, if
/// the first is an identifier and the second a one-time code.
pub open spec fn stored_challenge(value: Seq<char>) -> Option<(Seq<char>, Seq<char>)> {
    match json_pair(value) {
        Some(pair) => if is_attempt_id(pair.0) && is_two_fa_code(pair.1) {
            Some(pair)
        } else {
            None
        },
        None => None,
    }
}

/// The value to store for a challenge. There always is one, and it holds
/// the challenge it was made from.
pub fn encode_challenge(login_attempt_id: &LoginAttemptId, code: &TwoFACode) -> (value: Result<
    String,
    TwoFACodeStoreError,
>)
    ensures
        value matches Ok(text) && stored_challenge(text@) == Some((login_attempt_id@, code@)),
{
    match write_pair(login_attempt_id.as_ref(), code.as_ref()) {
        Some(text) => Ok(text),
        None => Err(TwoFACodeStoreError::UnexpectedError),
    }
}

/// The challenge of a stored value; a value that holds none is an
/// unexpected error.
pub fn decode_challenge(value: &str) -> (challenge: Result<
    (LoginAttemptId, TwoFACode),
    TwoFACodeStoreError,
>)
    ensures
        match challenge {
            Ok(pair) => stored_challenge(value@) == Some((pair.0@, pair.1@)),
            Err(e) => stored_challenge(value@) is None && e == TwoFACodeStoreError::UnexpectedError,
        },
{
    let pair = read_pair(value);
    parse_challenge(pair)
}

/// The challenge in a pair of strings that was read from a stored value.
pub fn parse_challenge(pair: Option<(String, String)>) -> (challenge: Result<
    (LoginAttemptId, TwoFACode),
    TwoFACodeStoreError,
>)
    ensures
        match challenge {
            Ok(c) => pair matches Some(p) && c.0@ == p.0@ && c.1@ == p.1@ && is_attempt_id(p.0@)
                && is_two_fa_code(p.1@),
            Err(e) => e == TwoFACodeStoreError::UnexpectedError && (pair matches Some(p)
                ==> !is_attempt_id(p.0@) || !is_two_fa_code(p.1@)),
        },
{
    match pair {
        Some(p) => {
            let login_attempt_id = match LoginAttemptId::parse(p.0) {
                Ok(id) => id,
                Err(_) => {
                    return Err(TwoFACodeStoreError::UnexpectedError);
                },
            };
            let code = match TwoFACode::parse(p.1) {
                Ok(code) => code,
                Err(_) => {
                    return Err(TwoFACodeStoreError::UnexpectedError);
                },
            };
            Ok((login_attempt_id, code))
        },
        None => Err(TwoFACodeStoreError::UnexpectedError),
    }
}

/// What a lookup in the shared store means: a key without a value has no
/// challenge, a value is read as one.
pub fn interpret_lookup(value: Option<String>) -> (challenge: Result<
    (LoginAttemptId, TwoFACode),
    TwoFACodeStoreError,
>)
    ensures
        match value {
            None => challenge == Err::<(LoginAttemptId, TwoFACode), TwoFACodeStoreError>(
                TwoFACodeStoreError::LoginAttemptIdNotFound,
            ),
            Some(text) => match challenge {
                Ok(pair) => stored_challenge(text@) == Some((pair.0@, pair.1@)),
                Err(e) => stored_challenge(text@) is None && e
                    == TwoFACodeStoreError::UnexpectedError,
            },
        },
{
    match value {
        None => Err(TwoFACodeStoreError::LoginAttemptIdNotFound),
        Some(text) => decode_challenge(text.as_str()),
    }
}

} // verus!
