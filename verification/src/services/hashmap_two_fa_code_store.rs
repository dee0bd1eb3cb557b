use crate::domain::data_stores::{LoginAttemptId, TwoFACode, TwoFACodeStoreError};
use crate::domain::email::Email;
use crate::utils::clock::{deadline, deadline_after, now_nanos};
use vstd::hash_map::StringHashMap;
use vstd::prelude::*;

verus! {

/// How long a challenge of a default store can be answered, in seconds.
pub const DEFAULT_TWO_FA_CODE_TTL_SECONDS: u64 = 600;

/// A second-factor challenge as it is stored: what the user has to
/// present, and until when.
pub struct StoredChallenge {
    pub login_attempt_id: LoginAttemptId,
    pub code: TwoFACode,
    pub deadline: u128,
}

/// A stored challenge as plain values.
pub struct Challenge {
    pub login_attempt_id: Seq<char>,
    pub code: Seq<char>,
    pub deadline: u128,
}

impl View for StoredChallenge {
    type V = Challenge;

    open spec fn view(&self) -> Challenge {
        Challenge {
            login_attempt_id: self.login_attempt_id@,
            code: self.code@,
            deadline: self.deadline,
        }
    }
}

/// The challenge that `email` can answer at `now`, if there is one: the
/// stored one, unless its deadline has come.
pub open spec fn open_challenge(
    challenges: Map<Seq<char>, Challenge>,
    email: Seq<char>,
    now: u128,
) -> Option<(Seq<char>, Seq<char>)> {
    if challenges.contains_key(email) && now < challenges[email].deadline {
        Some((challenges[email].login_attempt_id, challenges[email].code))
    } else {
        None
    }
}

/// The challenges after one was issued to `email` at `now`: it takes the
/// place of any that the identity had.
pub open spec fn issue(
    challenges: Map<Seq<char>, Challenge>,
    email: Seq<char>,
    login_attempt_id: Seq<char>,
    code: Seq<char>,
    now: u128,
    ttl_seconds: u64,
) -> Map<Seq<char>, Challenge> {
    challenges.insert(
        email,
        Challenge { login_attempt_id, code, deadline: deadline(now, ttl_seconds) },
    )
}

/// One-time codes for the second factor, kept in memory: at most one
/// challenge for each identity, readable until its time to live is over.
pub struct HashmapTwoFACodeStore {
    codes: StringHashMap<StoredChallenge>,
    ttl: u64,
}

impl View for HashmapTwoFACodeStore {
    type V = Map<Seq<char>, Challenge>;

    closed spec fn view(&self) -> Map<Seq<char>, Challenge> {
        self.codes@.map_values(|stored: StoredChallenge| stored@)
    }
}

impl HashmapTwoFACodeStore {
    /// How long a challenge can be answered, in seconds.
    pub closed spec fn ttl_seconds(&self) -> u64 {
        self.ttl
    }

    /// An empty store whose challenges last `ttl_seconds`.
    pub fn with_ttl(ttl_seconds: u64) -> (store: HashmapTwoFACodeStore)
        ensures
            store@ == Map::<Seq<char>, Challenge>::empty(),
            store.ttl_seconds() == ttl_seconds,
    {
        let store = HashmapTwoFACodeStore { codes: StringHashMap::new(), ttl: ttl_seconds };
        assert(store@ =~= Map::<Seq<char>, Challenge>::empty());
        store
    }

    /// Issues a challenge to `email` now.
    pub fn add_code(&mut self, email: Email, login_attempt_id: LoginAttemptId, code: TwoFACode) -> (outcome:
        Result<(), TwoFACodeStoreError>)
        ensures
            outcome is Ok,
            final(self).ttl_seconds() == old(self).ttl_seconds(),
            exists|now: u128|
                final(self)@ == issue(
                    old(self)@,
                    email@,
                    login_attempt_id@,
                    code@,
                    now,
                    old(self).ttl_seconds(),
                ),
    {
        let now = now_nanos();
        self.add_code_at(email, login_attempt_id, code, now);
        assert(self@ == issue(
            old(self)@,
            email@,
            login_attempt_id@,
            code@,
            now,
            old(self).ttl_seconds(),
        ));
        Ok(())
    }

    /// Issues a challenge to `email` at `now`.
    pub fn add_code_at(
        &mut self,
        email: Email,
        login_attempt_id: LoginAttemptId,
        code: TwoFACode,
        now: u128,
    )
        ensures
            final(self).ttl_seconds() == old(self).ttl_seconds(),
            final(self)@ == issue(
                old(self)@,
                email@,
                login_attempt_id@,
                code@,
                now,
                old(self).ttl_seconds(),
            ),
    {
        let stored = StoredChallenge {
            login_attempt_id,
            code,
            deadline: deadline_after(now, self.ttl),
        };
        self.codes.insert(email.as_ref().expose_secret().clone(), stored);
        assert(self@ =~= issue(
            old(self)@,
            email@,
            login_attempt_id@,
            code@,
            now,
            old(self).ttl_seconds(),
        ));
    }

    /// Withdraws the challenge of `email`, if it has one.
    pub fn remove_code(&mut self, email: &Email) -> (outcome: Result<(), TwoFACodeStoreError>)
        ensures
            outcome is Ok,
            final(self).ttl_seconds() == old(self).ttl_seconds(),
            final(self)@ == old(self)@.remove(email@),
    {
        self.codes.remove(email.as_ref().expose_secret().as_str());
        assert(self@ =~= old(self)@.remove(email@));
        Ok(())
    }

    /// The challenge that `email` can answer now. An identity without a
    /// stored challenge has none, whatever the clock says.
    pub fn get_code(&self, email: &Email) -> (outcome: Result<
        (LoginAttemptId, TwoFACode),
        TwoFACodeStoreError,
    >)
        ensures
            exists|now: u128| found(outcome, open_challenge(self@, email@, now)),
            !self@.contains_key(email@) ==> outcome is Err,
    {
        let now = now_nanos();
        let outcome = self.get_code_at(email, now);
        assert(found(outcome, open_challenge(self@, email@, now)));
        outcome
    }

    /// The challenge that `email` can answer at `now`.
    pub fn get_code_at(&self, email: &Email, now: u128) -> (outcome: Result<
        (LoginAttemptId, TwoFACode),
        TwoFACodeStoreError,
    >)
        ensures
            found(outcome, open_challenge(self@, email@, now)),
    {
        match self.codes.get(email.as_ref().expose_secret().as_str()) {
            Some(stored) => {
                if now < stored.deadline {
                    Ok((stored.login_attempt_id.clone(), stored.code.clone()))
                } else {
                    Err(TwoFACodeStoreError::LoginAttemptIdNotFound)
                }
            },
            None => Err(TwoFACodeStoreError::LoginAttemptIdNotFound),
        }
    }
}

/// What a lookup returns for the challenge that is open: the pair, or the
/// error that says there is none.
pub open spec fn found(
    outcome: Result<(LoginAttemptId, TwoFACode), TwoFACodeStoreError>,
    open: Option<(Seq<char>, Seq<char>)>,
) -> bool {
    match outcome {
        Ok(pair) => open == Some((pair.0@, pair.1@)),
        Err(e) => open is None && e == TwoFACodeStoreError::LoginAttemptIdNotFound,
    }
}

impl Default for HashmapTwoFACodeStore {
    /// An empty store whose challenges last ten minutes.
    fn default() -> (store: HashmapTwoFACodeStore)
        ensures
            store@ == Map::<Seq<char>, Challenge>::empty(),
            store.ttl_seconds() == DEFAULT_TWO_FA_CODE_TTL_SECONDS,
    {
        HashmapTwoFACodeStore::with_ttl(DEFAULT_TWO_FA_CODE_TTL_SECONDS)
    }
}

/// Of two challenges issued to one identity the second is the one that is
/// open, for as long as it lives; the first is gone.
pub proof fn law_new_challenge_supersedes(
    challenges: Map<Seq<char>, Challenge>,
    email: Seq<char>,
    first_id: Seq<char>,
    first_code: Seq<char>,
    first_at: u128,
    second_id: Seq<char>,
    second_code: Seq<char>,
    second_at: u128,
    ttl_seconds: u64,
    later: u128,
)
    ensures
        ({
            let once = issue(challenges, email, first_id, first_code, first_at, ttl_seconds);
            let twice = issue(once, email, second_id, second_code, second_at, ttl_seconds);
            open_challenge(twice, email, later) == if later < deadline(second_at, ttl_seconds) {
                Some((second_id, second_code))
            } else {
                None
            }
        }),
{
}

/// A challenge that was just issued is open, and stays so until its time
/// to live is over, as long as that time is more than nothing.
pub proof fn law_issued_challenge_is_open(
    challenges: Map<Seq<char>, Challenge>,
    email: Seq<char>,
    login_attempt_id: Seq<char>,
    code: Seq<char>,
    at: u128,
    ttl_seconds: u64,
    later: u128,
)
    requires
        ttl_seconds > 0,
        at <= later < deadline(at, ttl_seconds),
    ensures
        at < deadline(at, ttl_seconds) || at == u128::MAX,
        open_challenge(
            issue(challenges, email, login_attempt_id, code, at, ttl_seconds),
            email,
            later,
        ) == Some((login_attempt_id, code)),
{
}

/// A challenge that was withdrawn is open at no later moment.
pub proof fn law_removed_challenge_is_gone(
    challenges: Map<Seq<char>, Challenge>,
    email: Seq<char>,
    later: u128,
)
    ensures
        open_challenge(challenges.remove(email), email, later) is None,
{
}

} // verus!
