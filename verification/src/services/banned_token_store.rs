use crate::domain::data_stores::BannedTokenStoreError;
use crate::utils::clock::{deadline, deadline_after, now_nanos};
use vstd::hash_map::StringHashMap;
use vstd::prelude::*;
use vstd::string::*;

verus! {

/// How long a revocation made by a default store lasts, in seconds.
pub const DEFAULT_BANNED_TOKEN_TTL_SECONDS: u64 = 600;

/// Whether a revocation list that holds each token's deadline rejects
/// `token` at `now`: the token is listed and its deadline has not come.
pub open spec fn banned_at(entries: Map<Seq<char>, u128>, token: Seq<char>, now: u128) -> bool {
    entries.contains_key(token) && now < entries[token]
}

/// The list after `token` was revoked at `now` for `ttl_seconds`. A token
/// that was listed gets the new deadline.
pub open spec fn ban(entries: Map<Seq<char>, u128>, token: Seq<char>, now: u128, ttl_seconds: u64) -> Map<
    Seq<char>,
    u128,
> {
    entries.insert(token, deadline(now, ttl_seconds))
}

/// Session tokens that are rejected although their signature is good, kept
/// in memory. Each entry lapses when its time to live is over: it is then
/// read as absent.
pub struct HashsetBannedTokenStore {
    tokens: StringHashMap<u128>,
    token_ttl: u64,
}

impl View for HashsetBannedTokenStore {
    type V = Map<Seq<char>, u128>;

    closed spec fn view(&self) -> Map<Seq<char>, u128> {
        self.tokens@
    }
}

impl HashsetBannedTokenStore {
    /// How long a revocation lasts, in seconds.
    pub closed spec fn ttl_seconds(&self) -> u64 {
        self.token_ttl
    }

    /// An empty list whose revocations last `ttl_seconds`.
    pub fn with_ttl(ttl_seconds: u64) -> (store: HashsetBannedTokenStore)
        ensures
            store@ == Map::<Seq<char>, u128>::empty(),
            store.ttl_seconds() == ttl_seconds,
    {
        HashsetBannedTokenStore { tokens: StringHashMap::new(), token_ttl: ttl_seconds }
    }

    /// Revokes `token` from now on, for the list's own time to live.
    pub fn store_token(&mut self, token: String) -> (outcome: Result<(), BannedTokenStoreError>)
        ensures
            outcome is Ok,
            final(self).ttl_seconds() == old(self).ttl_seconds(),
            exists|now: u128| final(self)@ == ban(old(self)@, token@, now, old(self).ttl_seconds()),
    {
        let now = now_nanos();
        self.store_token_at(token, now);
        assert(self@ == ban(old(self)@, token@, now, old(self).ttl_seconds()));
        Ok(())
    }

    /// Revokes `token` from `now` on.
    pub fn store_token_at(&mut self, token: String, now: u128)
        ensures
            final(self).ttl_seconds() == old(self).ttl_seconds(),
            final(self)@ == ban(old(self)@, token@, now, old(self).ttl_seconds()),
    {
        let until = deadline_after(now, self.token_ttl);
        self.tokens.insert(token, until);
    }

    /// Revokes `token` from now on for `ttl_seconds`, whatever the list's
    /// own time to live.
    pub fn store_token_for(&mut self, token: String, ttl_seconds: u64) -> (outcome: Result<
        (),
        BannedTokenStoreError,
    >)
        ensures
            outcome is Ok,
            final(self).ttl_seconds() == old(self).ttl_seconds(),
            exists|now: u128| final(self)@ == ban(old(self)@, token@, now, ttl_seconds),
    {
        let now = now_nanos();
        self.store_token_for_at(token, ttl_seconds, now);
        assert(self@ == ban(old(self)@, token@, now, ttl_seconds));
        Ok(())
    }

    /// Revokes `token` from `now` on for `ttl_seconds`.
    pub fn store_token_for_at(&mut self, token: String, ttl_seconds: u64, now: u128)
        ensures
            final(self).ttl_seconds() == old(self).ttl_seconds(),
            final(self)@ == ban(old(self)@, token@, now, ttl_seconds),
    {
        let until = deadline_after(now, ttl_seconds);
        self.tokens.insert(token, until);
    }

    /// Whether `token` is revoked now. A token that was never stored is
    /// not, whatever the clock says.
    pub fn contains_token(&self, token: &str) -> (outcome: Result<bool, BannedTokenStoreError>)
        ensures
            outcome matches Ok(banned) && exists|now: u128| banned == banned_at(self@, token@, now),
            !self@.contains_key(token@) ==> outcome == Ok::<bool, BannedTokenStoreError>(false),
    {
        let now = now_nanos();
        let banned = self.contains_token_at(token, now);
        assert(banned == banned_at(self@, token@, now));
        Ok(banned)
    }

    /// Whether `token` is revoked at `now`.
    pub fn contains_token_at(&self, token: &str, now: u128) -> (banned: bool)
        ensures
            banned == banned_at(self@, token@, now),
    {
        match self.tokens.get(token) {
            Some(until) => now < *until,
            None => false,
        }
    }
}

impl Default for HashsetBannedTokenStore {
    /// An empty list whose revocations last ten minutes.
    fn default() -> (store: HashsetBannedTokenStore)
        ensures
            store@ == Map::<Seq<char>, u128>::empty(),
            store.ttl_seconds() == DEFAULT_BANNED_TOKEN_TTL_SECONDS,
    {
        HashsetBannedTokenStore::with_ttl(DEFAULT_BANNED_TOKEN_TTL_SECONDS)
    }
}

/// A revoked token is rejected from the moment of its revocation until
/// its time to live is over, and at no moment after that.
pub proof fn law_revocation_lasts_for_its_ttl(
    entries: Map<Seq<char>, u128>,
    token: Seq<char>,
    at: u128,
    ttl_seconds: u64,
    later: u128,
)
    ensures
        banned_at(ban(entries, token, at, ttl_seconds), token, later) == (later < deadline(
            at,
            ttl_seconds,
        )),
        ttl_seconds > 0 && at < u128::MAX ==> banned_at(
            ban(entries, token, at, ttl_seconds),
            token,
            at,
        ),
        later >= deadline(at, ttl_seconds) ==> !banned_at(
            ban(entries, token, at, ttl_seconds),
            token,
            later,
        ),
{
}

/// Revoking one token changes nothing for another.
pub proof fn law_revocation_is_per_token(
    entries: Map<Seq<char>, u128>,
    token: Seq<char>,
    other: Seq<char>,
    at: u128,
    ttl_seconds: u64,
    later: u128,
)
    requires
        token != other,
    ensures
        banned_at(ban(entries, token, at, ttl_seconds), other, later) == banned_at(
            entries,
            other,
            later,
        ),
{
}

} // verus!
