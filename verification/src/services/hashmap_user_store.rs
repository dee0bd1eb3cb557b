use crate::domain::data_stores::UserStoreError;
use crate::domain::email::Email;
use crate::domain::password::Password;
use crate::domain::user::User;
use crate::services::password_hashing::{
    check_outcome, compute_password_hash, password_matches, verify_password_hash,
    MAX_PASSWORD_LENGTH,
};
use vstd::hash_map::StringHashMap;
use vstd::prelude::*;

verus! {

/// What is kept of an identity: the hash of its password and whether it
/// asked for a second factor.
pub struct Credential {
    pub password_hash: Seq<char>,
    pub requires_2fa: bool,
}

/// The credentials after `email` signed up with a password whose hash is
/// `password_hash`, and what the caller is told. An identity that is taken
/// keeps what it had.
pub open spec fn enroll(
    users: Map<Seq<char>, Credential>,
    email: Seq<char>,
    password_hash: Seq<char>,
    requires_2fa: bool,
) -> (Map<Seq<char>, Credential>, Result<(), UserStoreError>) {
    if users.contains_key(email) {
        (users, Err(UserStoreError::UserAlreadyExists))
    } else {
        (users.insert(email, Credential { password_hash, requires_2fa }), Ok(()))
    }
}

/// The outcome of a credential check: an identity that is absent is not
/// found, a password that the stored hash does not verify is a mismatch.
pub open spec fn validate(users: Map<Seq<char>, Credential>, email: Seq<char>, password: Seq<char>) -> Result<
    (),
    UserStoreError,
> {
    if !users.contains_key(email) {
        Err(UserStoreError::UserNotFound)
    } else {
        check_outcome(users[email].password_hash, password)
    }
}

/// The credentials after a request to delete `email`, and what the caller
/// is told: the record goes exactly when the credentials are valid.
pub open spec fn delete(users: Map<Seq<char>, Credential>, email: Seq<char>, password: Seq<char>) -> (
    Map<Seq<char>, Credential>,
    Result<(), UserStoreError>,
) {
    match validate(users, email, password) {
        Ok(()) => (users.remove(email), Ok(())),
        Err(e) => (users, Err(e)),
    }
}

/// A record as it is stored.
struct StoredCredential {
    password_hash: String,
    requires_2fa: bool,
}

impl View for StoredCredential {
    type V = Credential;

    closed spec fn view(&self) -> Credential {
        Credential { password_hash: self.password_hash@, requires_2fa: self.requires_2fa }
    }
}

/// Credentials kept in memory, keyed by identity. What is stored of a
/// password is its hash, never the password.
pub struct HashmapUserStore {
    users: StringHashMap<StoredCredential>,
}

impl View for HashmapUserStore {
    type V = Map<Seq<char>, Credential>;

    closed spec fn view(&self) -> Map<Seq<char>, Credential> {
        self.users@.map_values(|stored: StoredCredential| stored@)
    }
}

impl HashmapUserStore {
    /// A store without any identity.
    pub fn new() -> (store: HashmapUserStore)
        ensures
            store@ == Map::<Seq<char>, Credential>::empty(),
    {
        let store = HashmapUserStore { users: StringHashMap::new() };
        assert(store@ =~= Map::<Seq<char>, Credential>::empty());
        store
    }

    /// Signs `user` up: refuses an identity that is taken, hashes the
    /// password otherwise and keeps the hash. An identity that is free
    /// always gets its record, unless the password is longer than what is
    /// sure to be hashed; a hasher that fails leaves the store as it was.
    pub fn add_user(&mut self, user: User) -> (outcome: Result<(), UserStoreError>)
        ensures
            match outcome {
                Ok(()) => exists|hash: Seq<char>|
                    password_matches(hash, user.password@) && (final(self)@, outcome) == enroll(
                        old(self)@,
                        user.email@,
                        hash,
                        user.requires_2fa,
                    ),
                Err(e) => final(self)@ == old(self)@ && e == if old(self)@.contains_key(
                    user.email@,
                ) {
                    UserStoreError::UserAlreadyExists
                } else {
                    UserStoreError::UnexpectedError
                },
            },
            !old(self)@.contains_key(user.email@) && user.password@.len() <= MAX_PASSWORD_LENGTH
                ==> outcome is Ok,
    {
        if self.users.contains_key(user.email.as_ref().expose_secret().as_str()) {
            return Err(UserStoreError::UserAlreadyExists);
        }
        let hash = compute_password_hash(user.password.as_ref());
        let ghost made = hash;
        let outcome = self.add_hashed(user.email, hash, user.requires_2fa);
        proof {
            match made {
                Ok(h) => {
                    assert(password_matches(h@, user.password@));
                    assert((self@, outcome) == enroll(
                        old(self)@,
                        user.email@,
                        h@,
                        user.requires_2fa,
                    ));
                },
                Err(_) => {},
            }
        }
        outcome
    }

    /// Keeps the record of `email` with the hash that hashing gave, or
    /// passes on its failure.
    pub fn add_hashed(
        &mut self,
        email: Email,
        hash: Result<String, UserStoreError>,
        requires_2fa: bool,
    ) -> (outcome: Result<(), UserStoreError>)
        ensures
            match hash {
                Ok(h) => (final(self)@, outcome) == enroll(old(self)@, email@, h@, requires_2fa),
                Err(e) => final(self)@ == old(self)@ && outcome == Err::<(), UserStoreError>(
                    if old(self)@.contains_key(email@) {
                        UserStoreError::UserAlreadyExists
                    } else {
                        e
                    },
                ),
            },
    {
        let key = email.as_ref().expose_secret().clone();
        if self.users.contains_key(key.as_str()) {
            return Err(UserStoreError::UserAlreadyExists);
        }
        match hash {
            Ok(h) => {
                let ghost hash_text = h@;
                self.users.insert(key, StoredCredential { password_hash: h, requires_2fa });
                assert(self@ =~= old(self)@.insert(
                    email@,
                    Credential { password_hash: hash_text, requires_2fa },
                ));
                Ok(())
            },
            Err(e) => Err(e),
        }
    }

    /// The record of `email`: its password field holds the stored hash.
    pub fn get_user(&self, email: &Email) -> (outcome: Result<User, UserStoreError>)
        ensures
            match outcome {
                Ok(user) => self@.contains_key(email@) && user.email@ == email@ && user.password@
                    == self@[email@].password_hash && user.requires_2fa
                    == self@[email@].requires_2fa,
                Err(e) => !self@.contains_key(email@) && e == UserStoreError::UserNotFound,
            },
    {
        match self.users.get(email.as_ref().expose_secret().as_str()) {
            Some(stored) => Ok(
                User {
                    email: email.clone(),
                    password: Password::from_hash(stored.password_hash.clone()),
                    requires_2fa: stored.requires_2fa,
                },
            ),
            None => Err(UserStoreError::UserNotFound),
        }
    }

    /// Checks `password` against what is stored for `email`.
    pub fn validate_user(&self, email: &Email, password: &Password) -> (outcome: Result<
        (),
        UserStoreError,
    >)
        ensures
            outcome == validate(self@, email@, password@),
    {
        match self.users.get(email.as_ref().expose_secret().as_str()) {
            Some(stored) => verify_password_hash(stored.password_hash.as_str(), password.as_ref()),
            None => Err(UserStoreError::UserNotFound),
        }
    }

    /// Removes the record of `email` if `password` is its password.
    pub fn delete_user(&mut self, email: &Email, password: &Password) -> (outcome: Result<
        (),
        UserStoreError,
    >)
        ensures
            (final(self)@, outcome) == delete(old(self)@, email@, password@),
    {
        match self.validate_user(email, password) {
            Ok(()) => {
                self.users.remove(email.as_ref().expose_secret().as_str());
                assert(self@ =~= old(self)@.remove(email@));
                Ok(())
            },
            Err(e) => Err(e),
        }
    }
}

impl Default for HashmapUserStore {
    fn default() -> (store: HashmapUserStore)
        ensures
            store@ == Map::<Seq<char>, Credential>::empty(),
    {
        HashmapUserStore::new()
    }
}

/// After an identity signed up with a password, the password validates
/// against its record; another password is a mismatch unless the stored
/// hash verifies it too.
pub proof fn law_enrolled_password_validates(
    users: Map<Seq<char>, Credential>,
    email: Seq<char>,
    password: Seq<char>,
    password_hash: Seq<char>,
    requires_2fa: bool,
    other: Seq<char>,
)
    requires
        password_matches(password_hash, password),
        enroll(users, email, password_hash, requires_2fa).1 is Ok,
    ensures
        validate(enroll(users, email, password_hash, requires_2fa).0, email, password) is Ok,
        !password_matches(password_hash, other) ==> validate(
            enroll(users, email, password_hash, requires_2fa).0,
            email,
            other,
        ) == Err::<(), UserStoreError>(UserStoreError::InvalidCredentials),
{
}

/// An identity can sign up once: the second time it is refused and its
/// record stays.
pub proof fn law_identity_is_taken_once(
    users: Map<Seq<char>, Credential>,
    email: Seq<char>,
    first_hash: Seq<char>,
    first_2fa: bool,
    second_hash: Seq<char>,
    second_2fa: bool,
)
    ensures
        ({
            let once = enroll(users, email, first_hash, first_2fa).0;
            let twice = enroll(once, email, second_hash, second_2fa);
            twice.0 == once && twice.1 == Err::<(), UserStoreError>(
                UserStoreError::UserAlreadyExists,
            )
        }),
{
}

/// A deleted identity is not found afterwards, and can sign up again.
pub proof fn law_deleted_identity_is_gone(
    users: Map<Seq<char>, Credential>,
    email: Seq<char>,
    password: Seq<char>,
    new_hash: Seq<char>,
    requires_2fa: bool,
)
    requires
        delete(users, email, password).1 is Ok,
    ensures
        ({
            let after = delete(users, email, password).0;
            &&& validate(after, email, password) == Err::<(), UserStoreError>(
                UserStoreError::UserNotFound,
            )
            &&& enroll(after, email, new_hash, requires_2fa).1 is Ok
        }),
{
}

} // verus!
