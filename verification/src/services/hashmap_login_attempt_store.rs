use crate::domain::email::Email;
use crate::domain::login_attempts::{LoginAttempt, LoginAttemptStoreError, LoginAttemptSummary};
use crate::utils::clock::{duration_nanos, nanos_of, now_nanos};
use std::time::Duration;
use vstd::hash_map::StringHashMap;
use vstd::prelude::*;

verus! {

/// The inactivity window of a store made by [`HashmapLoginAttemptStore::new`]:
/// one hour, in nanoseconds.
pub const DEFAULT_EXPIRY_NANOS: u128 = 3_600_000_000_000;

/// What a tracker with the summaries `attempts` reports of `email` at
/// `now`: the stored summary, or the zero summary where none is stored or
/// the stored one is older than `expiry`.
pub open spec fn read_summary(
    attempts: Map<Seq<char>, LoginAttemptSummary>,
    expiry: nat,
    email: Seq<char>,
    now: u128,
) -> LoginAttemptSummary {
    if attempts.contains_key(email) && !attempts[email].expired_at(now, expiry) {
        attempts[email]
    } else {
        LoginAttemptSummary::zero()
    }
}

/// The summaries after an attempt of `email` at `now`: a failure counts on
/// from what the tracker reported at that moment, a success starts afresh.
/// Other identities keep what they had.
pub open spec fn record(
    attempts: Map<Seq<char>, LoginAttemptSummary>,
    expiry: nat,
    email: Seq<char>,
    success: bool,
    now: u128,
) -> Map<Seq<char>, LoginAttemptSummary> {
    if success {
        attempts.insert(email, LoginAttemptSummary::after_success(now))
    } else {
        attempts.insert(email, read_summary(attempts, expiry, email, now).after_failure(now))
    }
}

/// The summaries after the counter of `email` was cleared at `now`: an
/// identity that has a summary starts afresh, one that has none gets none.
pub open spec fn reset(
    attempts: Map<Seq<char>, LoginAttemptSummary>,
    email: Seq<char>,
    now: u128,
) -> Map<Seq<char>, LoginAttemptSummary> {
    if attempts.contains_key(email) {
        attempts.insert(email, LoginAttemptSummary::after_success(now))
    } else {
        attempts
    }
}

/// Tracks the consecutive failed logins of each identity in memory. A
/// summary older than the inactivity window reads as absent; nothing sweeps
/// the map.
pub struct HashmapLoginAttemptStore {
    attempts: StringHashMap<LoginAttemptSummary>,
    cleanup_expiry: u128,
}

impl View for HashmapLoginAttemptStore {
    type V = Map<Seq<char>, LoginAttemptSummary>;

    closed spec fn view(&self) -> Map<Seq<char>, LoginAttemptSummary> {
        self.attempts@
    }
}

impl HashmapLoginAttemptStore {
    /// The inactivity window, in nanoseconds.
    pub closed spec fn expiry(&self) -> nat {
        self.cleanup_expiry as nat
    }

    /// An empty tracker with a window of one hour.
    pub fn new() -> (store: HashmapLoginAttemptStore)
        ensures
            store@ == Map::<Seq<char>, LoginAttemptSummary>::empty(),
            store.expiry() == DEFAULT_EXPIRY_NANOS,
    {
        HashmapLoginAttemptStore {
            attempts: StringHashMap::new(),
            cleanup_expiry: DEFAULT_EXPIRY_NANOS,
        }
    }

    /// An empty tracker with the window `expiry`.
    pub fn with_expiry(expiry: Duration) -> (store: HashmapLoginAttemptStore)
        ensures
            store@ == Map::<Seq<char>, LoginAttemptSummary>::empty(),
            store.expiry() == duration_nanos(expiry),
    {
        HashmapLoginAttemptStore::with_expiry_nanos(nanos_of(expiry))
    }

    /// An empty tracker with a window of `expiry` nanoseconds.
    pub fn with_expiry_nanos(expiry: u128) -> (store: HashmapLoginAttemptStore)
        ensures
            store@ == Map::<Seq<char>, LoginAttemptSummary>::empty(),
            store.expiry() == expiry,
    {
        HashmapLoginAttemptStore { attempts: StringHashMap::new(), cleanup_expiry: expiry }
    }

    /// Records an attempt made now. The attempt's own stamp is not read.
    pub fn record_attempt(&mut self, attempt: LoginAttempt) -> (outcome: Result<
        (),
        LoginAttemptStoreError,
    >)
        ensures
            outcome is Ok,
            final(self).expiry() == old(self).expiry(),
            exists|now: u128|
                final(self)@ == record(
                    old(self)@,
                    old(self).expiry(),
                    attempt.email@,
                    attempt.success,
                    now,
                ),
    {
        let now = now_nanos();
        self.record_attempt_at(&attempt.email, attempt.success, now);
        assert(self@ == record(
            old(self)@,
            old(self).expiry(),
            attempt.email@,
            attempt.success,
            now,
        ));
        Ok(())
    }

    /// Records an attempt of `email` made at `now`.
    pub fn record_attempt_at(&mut self, email: &Email, success: bool, now: u128)
        ensures
            final(self).expiry() == old(self).expiry(),
            final(self)@ == record(old(self)@, old(self).expiry(), email@, success, now),
    {
        let mut summary = self.get_attempt_summary_at(email, now);
        if success {
            summary.reset_on_success_at(now);
        } else {
            summary.add_failed_attempt_at(now);
        }
        self.attempts.insert(email.as_ref().expose_secret().clone(), summary);
    }

    /// What is known of `email` now.
    pub fn get_attempt_summary(&self, email: &Email) -> (outcome: Result<
        LoginAttemptSummary,
        LoginAttemptStoreError,
    >)
        ensures
            outcome matches Ok(summary) && exists|now: u128|
                summary == read_summary(self@, self.expiry(), email@, now),
            !self@.contains_key(email@) ==> outcome == Ok::<
                LoginAttemptSummary,
                LoginAttemptStoreError,
            >(LoginAttemptSummary::zero()),
    {
        let now = now_nanos();
        let summary = self.get_attempt_summary_at(email, now);
        assert(summary == read_summary(self@, self.expiry(), email@, now));
        Ok(summary)
    }

    /// What is known of `email` at `now`.
    pub fn get_attempt_summary_at(&self, email: &Email, now: u128) -> (summary: LoginAttemptSummary)
        ensures
            summary == read_summary(self@, self.expiry(), email@, now),
    {
        match self.attempts.get(email.as_ref().expose_secret().as_str()) {
            Some(stored) => {
                if stored.is_expired_at(now, self.cleanup_expiry) {
                    LoginAttemptSummary::new()
                } else {
                    *stored
                }
            },
            None => LoginAttemptSummary::new(),
        }
    }

    /// Clears the counter of `email` now.
    pub fn reset_attempts(&mut self, email: &Email) -> (outcome: Result<(), LoginAttemptStoreError>)
        ensures
            outcome is Ok,
            final(self).expiry() == old(self).expiry(),
            exists|now: u128| final(self)@ == reset(old(self)@, email@, now),
    {
        let now = now_nanos();
        self.reset_attempts_at(email, now);
        assert(self@ == reset(old(self)@, email@, now));
        Ok(())
    }

    /// Clears the counter of `email` at `now`.
    pub fn reset_attempts_at(&mut self, email: &Email, now: u128)
        ensures
            final(self).expiry() == old(self).expiry(),
            final(self)@ == reset(old(self)@, email@, now),
    {
        let key = email.as_ref().expose_secret();
        if self.attempts.contains_key(key.as_str()) {
            let mut summary = LoginAttemptSummary::new();
            summary.reset_on_success_at(now);
            self.attempts.insert(key.clone(), summary);
        }
    }
}

impl Default for HashmapLoginAttemptStore {
    /// An empty tracker without a window: every summary is read as absent
    /// as soon as time has passed.
    fn default() -> (store: HashmapLoginAttemptStore)
        ensures
            store@ == Map::<Seq<char>, LoginAttemptSummary>::empty(),
            store.expiry() == 0,
    {
        HashmapLoginAttemptStore::with_expiry_nanos(0)
    }
}

/// Three failures in a row, none of them later than the window after the
/// one before, make the tracker ask for human verification at any moment
/// within the window after the third.
pub proof fn law_three_failures_require_recaptcha(
    attempts: Map<Seq<char>, LoginAttemptSummary>,
    expiry: nat,
    email: Seq<char>,
    t1: u128,
    t2: u128,
    t3: u128,
    t4: u128,
)
    requires
        t1 <= t2 <= t3 <= t4,
        t2 - t1 <= expiry,
        t3 - t2 <= expiry,
        t4 - t3 <= expiry,
    ensures
        ({
            let once = record(attempts, expiry, email, false, t1);
            let twice = record(once, expiry, email, false, t2);
            let thrice = record(twice, expiry, email, false, t3);
            let summary = read_summary(thrice, expiry, email, t4);
            summary.requires_recaptcha && summary.failed_attempts >= 3
        }),
{
}

/// After a success the tracker reports no failure and asks for no human
/// verification, whatever it held before and whenever it is read.
pub proof fn law_success_resets(
    attempts: Map<Seq<char>, LoginAttemptSummary>,
    expiry: nat,
    email: Seq<char>,
    at: u128,
    later: u128,
)
    ensures
        ({
            let summary = read_summary(record(attempts, expiry, email, true, at), expiry, email, later);
            summary.failed_attempts == 0 && !summary.requires_recaptcha
        }),
{
}

/// An attempt of one identity changes nothing of what is reported of
/// another.
pub proof fn law_identities_are_tracked_apart(
    attempts: Map<Seq<char>, LoginAttemptSummary>,
    expiry: nat,
    email: Seq<char>,
    other: Seq<char>,
    success: bool,
    at: u128,
    later: u128,
)
    requires
        email != other,
    ensures
        read_summary(record(attempts, expiry, email, success, at), expiry, other, later)
            == read_summary(attempts, expiry, other, later),
        read_summary(reset(attempts, email, at), expiry, other, later) == read_summary(
            attempts,
            expiry,
            other,
            later,
        ),
{
}

/// Every summary that a tracker reports has a flag that says what its
/// counter says, provided the stored ones do.
pub proof fn law_reported_summaries_are_consistent(
    attempts: Map<Seq<char>, LoginAttemptSummary>,
    expiry: nat,
    email: Seq<char>,
    success: bool,
    at: u128,
)
    requires
        forall|e: Seq<char>| attempts.contains_key(e) ==> (#[trigger] attempts[e]).consistent(),
    ensures
        forall|e: Seq<char>|
            record(attempts, expiry, email, success, at).contains_key(e) ==> (#[trigger] record(
                attempts,
                expiry,
                email,
                success,
                at,
            )[e]).consistent(),
{
}

} // verus!
