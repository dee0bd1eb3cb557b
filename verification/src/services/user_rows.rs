use crate::domain::data_stores::UserStoreError;
use crate::domain::email::{email_is_valid, Email};
use crate::domain::password::Password;
use crate::domain::secret::Secret;
use crate::domain::user::User;
use vstd::prelude::*;

verus! {

/// The statement that inserts a record: identity, hash, second-factor
/// flag.
pub fn insert_statement() -> (sql: &'static str)
    ensures
        sql@ == "INSERT INTO users (email, password_hash, requires_2fa) VALUES ($1, $2, $3)"@,
{
    "INSERT INTO users (email, password_hash, requires_2fa) VALUES ($1, $2, $3)"
}

/// The statement that reads the record of an identity.
pub fn select_statement() -> (sql: &'static str)
    ensures
        sql@ == "SELECT email, password_hash, requires_2fa FROM users WHERE email = $1"@,
{
    "SELECT email, password_hash, requires_2fa FROM users WHERE email = $1"
}

/// The statement that removes the record of an identity.
pub fn delete_statement() -> (sql: &'static str)
    ensures
        sql@ == "DELETE FROM users WHERE email = $1"@,
{
    "DELETE FROM users WHERE email = $1"
}

/// The user in a row of the credential table, where there is a row. No row
/// means that the identity is not found; a row whose identity is no valid
/// address is a corrupted record. The stored hash is taken as it is.
pub fn user_from_row(row: Option<(String, String, bool)>) -> (user: Result<User, UserStoreError>)
    ensures
        match row {
            None => user == Err::<User, UserStoreError>(UserStoreError::UserNotFound),
            Some(fields) => match user {
                Ok(u) => email_is_valid(fields.0@) && u.email@ == fields.0@ && u.password@
                    == fields.1@ && u.requires_2fa == fields.2,
                Err(e) => !email_is_valid(fields.0@) && e == UserStoreError::UnexpectedError,
            },
        },
{
    match row {
        None => Err(UserStoreError::UserNotFound),
        Some(fields) => match Email::parse(Secret::new(fields.0)) {
            Ok(email) => Ok(User::new(email, Password::from_hash(fields.1), fields.2)),
            Err(_) => Err(UserStoreError::UnexpectedError),
        },
    }
}

/// Whether an identity can sign up, from the row that the credential table
/// has of it: an identity with a row is taken.
pub fn refuse_taken(row: &Option<(String, String, bool)>) -> (outcome: Result<(), UserStoreError>)
    ensures
        outcome == if *row is Some {
            Err::<(), UserStoreError>(UserStoreError::UserAlreadyExists)
        } else {
            Ok::<(), UserStoreError>(())
        },
{
    match row {
        Some(_) => Err(UserStoreError::UserAlreadyExists),
        None => Ok(()),
    }
}

/// What a deletion that touched `rows_affected` rows means: none was the
/// identity's, so it is not found; otherwise the record is gone.
pub fn deletion_outcome(rows_affected: u64) -> (outcome: Result<(), UserStoreError>)
    ensures
        outcome == if rows_affected == 0 {
            Err::<(), UserStoreError>(UserStoreError::UserNotFound)
        } else {
            Ok::<(), UserStoreError>(())
        },
{
    if rows_affected == 0 {
        Err(UserStoreError::UserNotFound)
    } else {
        Ok(())
    }
}

} // verus!
