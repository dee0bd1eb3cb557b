use crate::domain::email::Email;
use crate::utils::clock::{duration_nanos, nanos_of, now_nanos};
use std::time::Duration;
use vstd::prelude::*;

verus! {

/// The number of consecutive failures from which a login needs human
/// verification.
pub const RECAPTCHA_THRESHOLD: u32 = 3;

/// One login submission that reached the credential check.
#[derive(Debug)]
pub struct LoginAttempt {
    pub email: Email,
    /// Nanoseconds since the Unix epoch.
    pub timestamp: u128,
    pub success: bool,
}

impl LoginAttempt {
    /// An attempt stamped with the current time.
    pub fn new(email: Email, success: bool) -> (attempt: LoginAttempt)
        ensures
            attempt.email == email,
            attempt.success == success,
    {
        let now = now_nanos();
        LoginAttempt::at(email, success, now)
    }

    /// An attempt stamped with `now`.
    pub fn at(email: Email, success: bool, now: u128) -> (attempt: LoginAttempt)
        ensures
            attempt.email == email,
            attempt.success == success,
            attempt.timestamp == now,
    {
        LoginAttempt { email, timestamp: now, success }
    }
}

/// What is remembered of the login attempts of one identity.
#[derive(Clone, Copy, Debug)]
pub struct LoginAttemptSummary {
    pub failed_attempts: u32,
    pub requires_recaptcha: bool,
    /// When the last attempt was made, in nanoseconds since the Unix epoch.
    pub last_attempt: Option<u128>,
}

impl LoginAttemptSummary {
    /// The summary of an identity of which nothing is remembered.
    pub open spec fn zero() -> LoginAttemptSummary {
        LoginAttemptSummary { failed_attempts: 0, requires_recaptcha: false, last_attempt: None }
    }

    /// The flag says what the counter says.
    pub open spec fn consistent(self) -> bool {
        self.requires_recaptcha == (self.failed_attempts >= RECAPTCHA_THRESHOLD)
    }

    /// This summary after one more failure at `now`. The counter stops at
    /// the largest number it can hold.
    pub open spec fn after_failure(self, now: u128) -> LoginAttemptSummary {
        let count = if self.failed_attempts < u32::MAX {
            (self.failed_attempts + 1) as u32
        } else {
            u32::MAX
        };
        LoginAttemptSummary {
            failed_attempts: count,
            requires_recaptcha: count >= RECAPTCHA_THRESHOLD,
            last_attempt: Some(now),
        }
    }

    /// The summary after a success at `now`.
    pub open spec fn after_success(now: u128) -> LoginAttemptSummary {
        LoginAttemptSummary { failed_attempts: 0, requires_recaptcha: false, last_attempt: Some(now) }
    }

    /// Whether at `now` the last attempt lies more than `expiry` nanoseconds
    /// back. A summary without an attempt is expired, and so is one whose
    /// last attempt lies after `now`.
    pub open spec fn expired_at(self, now: u128, expiry: nat) -> bool {
        match self.last_attempt {
            Some(last) => now < last || now - last > expiry,
            None => true,
        }
    }

    pub fn new() -> (summary: LoginAttemptSummary)
        ensures
            summary == LoginAttemptSummary::zero(),
    {
        LoginAttemptSummary { failed_attempts: 0, requires_recaptcha: false, last_attempt: None }
    }

    /// Counts one more failure, made now.
    pub fn add_failed_attempt(&mut self)
        ensures
            final(self).last_attempt matches Some(now) && *final(self) == old(self).after_failure(
                now,
            ),
    {
        let now = now_nanos();
        self.add_failed_attempt_at(now);
    }

    /// Counts one more failure, made at `now`.
    pub fn add_failed_attempt_at(&mut self, now: u128)
        ensures
            *final(self) == old(self).after_failure(now),
    {
        self.failed_attempts = self.failed_attempts.saturating_add(1);
        self.last_attempt = Some(now);
        self.requires_recaptcha = self.failed_attempts >= RECAPTCHA_THRESHOLD;
    }

    /// Forgets the failures after a success made now.
    pub fn reset_on_success(&mut self)
        ensures
            final(self).last_attempt matches Some(now) && *final(self)
                == LoginAttemptSummary::after_success(now),
    {
        let now = now_nanos();
        self.reset_on_success_at(now);
    }

    /// Forgets the failures after a success made at `now`.
    pub fn reset_on_success_at(&mut self, now: u128)
        ensures
            *final(self) == LoginAttemptSummary::after_success(now),
    {
        self.failed_attempts = 0;
        self.requires_recaptcha = false;
        self.last_attempt = Some(now);
    }

    /// Whether the last attempt lies more than `expiry_duration` back from
    /// now. Without an attempt the answer is yes whatever the clock says.
    pub fn is_expired(&self, expiry_duration: Duration) -> (expired: bool)
        ensures
            self.last_attempt is None ==> expired,
            exists|now: u128| expired == self.expired_at(now, duration_nanos(expiry_duration)),
    {
        let now = now_nanos();
        let expiry = nanos_of(expiry_duration);
        let expired = self.is_expired_at(now, expiry);
        assert(expired == self.expired_at(now, duration_nanos(expiry_duration)));
        expired
    }

    /// Whether at `now` the last attempt lies more than `expiry`
    /// nanoseconds back.
    pub fn is_expired_at(&self, now: u128, expiry: u128) -> (expired: bool)
        ensures
            expired == self.expired_at(now, expiry as nat),
    {
        match self.last_attempt {
            Some(last) => now < last || now - last > expiry,
            None => true,
        }
    }
}

impl Default for LoginAttemptSummary {
    fn default() -> (summary: LoginAttemptSummary)
        ensures
            summary == LoginAttemptSummary::zero(),
    {
        LoginAttemptSummary::new()
    }
}

/// A failure of the store behind a tracker of login attempts.
#[derive(Debug, Clone, Copy, PartialEq, Eq, Structural)]
pub enum LoginAttemptStoreError {
    UnexpectedError,
}

/// A failure never lowers the counter, and after every change the flag
/// says what the counter says.
pub proof fn law_flag_follows_counter(summary: LoginAttemptSummary, now: u128)
    ensures
        summary.after_failure(now).consistent(),
        summary.after_failure(now).failed_attempts >= summary.failed_attempts,
        LoginAttemptSummary::after_success(now).consistent(),
        LoginAttemptSummary::zero().consistent(),
{
}

} // verus!
