use crate::domain::data_stores::UserStoreError;
use crate::domain::secret::Secret;
use argon2::PasswordHasher;
use argon2::PasswordVerifier;
use crate::utils::text::{
    after_literal, decimal_digits, leading_number, lemma_number_is_read,
    lemma_read_number_is_there, read_number, strip_literal,
};
use vstd::prelude::*;
use vstd::string::*;

verus! {

/// Whether `hash` is a password hash in the PHC string format that Argon2
/// reproduces from `password`, with the salt and the cost that `hash`
/// itself names.
pub uninterp spec fn argon2_verifies(hash: Seq<char>, password: Seq<char>) -> bool;

/// The most memory, in KiB, and the most lanes that a hash is made or
/// checked with.
pub const MAX_MEMORY_KIB: u32 = 0x10_0000;

pub const MAX_LANES: u32 = 0xFF_FFFF;

/// How a PHC string starts that names Argon2id in version 19 with the
/// memory `m_cost`, the passes `t_cost` and the lanes `p_cost`.
pub open spec fn phc_prefix(m_cost: u32, t_cost: u32, p_cost: u32) -> Seq<char> {
    "$argon2id$v=19$m="@ + decimal_digits(m_cost as nat) + ",t="@ + decimal_digits(t_cost as nat)
        + ",p="@ + decimal_digits(p_cost as nat) + "$"@
}

/// A text that starts as a PHC string for Argon2id does, with a cost
/// within the bounds.
pub open spec fn names_bounded_cost(hash: Seq<char>) -> bool {
    exists|m_cost: u32, t_cost: u32, p_cost: u32|
        m_cost <= MAX_MEMORY_KIB && p_cost <= MAX_LANES && (#[trigger] phc_prefix(
            m_cost,
            t_cost,
            p_cost,
        )).is_prefix_of(hash)
}

/// `argon2::Argon2::hash_password` (Argon2id, version 0x13, the given
/// cost) with a salt from `SaltString::generate` on the thread's random
/// generator, written as a PHC string. The salt differs from call to call,
/// so the hash does; what holds of every hash is that it starts by naming
/// the algorithm, the version and the cost, and that it verifies against
/// the password it was made from. Lanes beyond the bound are left out:
/// `Params::new` multiplies them before it checks them. Whether a hash
/// comes back does not depend on the salt: the parameters are refused only
/// for memory below 8 KiB or below 8 KiB for each lane, and for no pass or
/// no lane; the hasher only for a password of more than 0xFFFFFFFF bytes.
#[verifier::external_body]
fn argon2id_hash(password: &str, m_cost: u32, t_cost: u32, p_cost: u32) -> (hash: Option<String>)
    requires
        m_cost <= MAX_MEMORY_KIB,
        p_cost <= MAX_LANES,
    ensures
        hash matches Some(h) ==> argon2_verifies(h@, password@) && phc_prefix(
            m_cost,
            t_cost,
            p_cost,
        ).is_prefix_of(h@),
        8 <= m_cost && 8 * p_cost <= m_cost && 1 <= t_cost && 1 <= p_cost && password@.len()
            <= MAX_PASSWORD_LENGTH ==> hash is Some,
{
    let salt = argon2::password_hash::SaltString::generate(&mut rand::thread_rng());
    let params = argon2::Params::new(m_cost, t_cost, p_cost, None).ok()?;
    let hasher = argon2::Argon2::new(argon2::Algorithm::Argon2id, argon2::Version::V0x13, params);
    hasher.hash_password(password.as_bytes(), &salt).ok().map(|h| h.to_string())
}

/// `argon2::PasswordHash::new`, then `Argon2::verify_password` on the parsed
/// hash; a text that is no hash verifies nothing. The check runs with the
/// cost that the text names, so only a text that starts by naming a cost
/// within the bounds is taken.
#[verifier::external_body]
fn argon2_verify(expected_hash: &str, candidate: &str) -> (ok: bool)
    requires
        names_bounded_cost(expected_hash@),
    ensures
        ok == argon2_verifies(expected_hash@, candidate@),
{
    match argon2::PasswordHash::new(expected_hash) {
        Ok(parsed) => argon2::Argon2::default().verify_password(candidate.as_bytes(), &parsed).is_ok(),
        Err(_) => false,
    }
}

/// The longest password, in characters, that is sure to be hashed: none
/// of them takes more than four bytes.
pub const MAX_PASSWORD_LENGTH: u32 = 0x3FFF_FFFF;

/// The cost of one hash: memory in KiB, passes and lanes.
pub const HASH_MEMORY_KIB: u32 = 15000;

pub const HASH_PASSES: u32 = 2;

pub const HASH_LANES: u32 = 1;

/// How every hash starts that this library makes: Argon2id, version 19,
/// 15000 KiB of memory, two passes, one lane.
pub open spec fn standard_prefix() -> Seq<char> {
    phc_prefix(HASH_MEMORY_KIB, HASH_PASSES, HASH_LANES)
}

/// The cost that `hash` names, if it starts as a PHC string for Argon2id
/// in version 19 does: memory, passes and lanes, each as a numeral.
pub open spec fn cost_of(hash: Seq<char>) -> Option<(u32, u32, u32)> {
    match after_literal(hash, "$argon2id$v=19$m="@) {
        None => None,
        Some(at_memory) => match leading_number(at_memory) {
            None => None,
            Some(memory) => match after_literal(memory.1, ",t="@) {
                None => None,
                Some(at_passes) => match leading_number(at_passes) {
                    None => None,
                    Some(passes) => match after_literal(passes.1, ",p="@) {
                        None => None,
                        Some(at_lanes) => match leading_number(at_lanes) {
                            None => None,
                            Some(lanes) => match after_literal(lanes.1, "$"@) {
                                None => None,
                                Some(_) => Some((memory.0, passes.0, lanes.0)),
                            },
                        },
                    },
                },
            },
        },
    }
}

/// A hash that names a cost within the bounds.
pub open spec fn has_bounded_cost(hash: Seq<char>) -> bool {
    cost_of(hash) matches Some(cost) && cost.0 <= MAX_MEMORY_KIB && cost.2 <= MAX_LANES
}

/// Whether `hash` names a cost within the bounds and verifies `password`.
pub open spec fn password_matches(hash: Seq<char>, password: Seq<char>) -> bool {
    has_bounded_cost(hash) && argon2_verifies(hash, password)
}

/// A text starts with the literal that was found in front of the rest.
proof fn lemma_literal_is_there(text: Seq<char>, literal: Seq<char>, rest: Seq<char>)
    requires
        after_literal(text, literal) == Some(rest),
    ensures
        text == literal + rest,
{
    assert(text =~= literal + rest);
}

/// What follows a literal is found behind it.
proof fn lemma_literal_is_read(literal: Seq<char>, rest: Seq<char>)
    ensures
        after_literal(literal + rest, literal) == Some(rest),
{
    let text = literal + rest;
    assert(text.subrange(0, literal.len() as int) =~= literal);
    assert(text.skip(literal.len() as int) =~= rest);
}

/// A hash that names a cost starts as a PHC string with that cost does.
pub proof fn lemma_named_cost_is_prefix(hash: Seq<char>, m_cost: u32, t_cost: u32, p_cost: u32)
    requires
        cost_of(hash) == Some((m_cost, t_cost, p_cost)),
    ensures
        phc_prefix(m_cost, t_cost, p_cost).is_prefix_of(hash),
{
    let at_memory = after_literal(hash, "$argon2id$v=19$m="@)->0;
    let memory = leading_number(at_memory)->0;
    let at_passes = after_literal(memory.1, ",t="@)->0;
    let passes = leading_number(at_passes)->0;
    let at_lanes = after_literal(passes.1, ",p="@)->0;
    let lanes = leading_number(at_lanes)->0;
    let rest = after_literal(lanes.1, "$"@)->0;
    lemma_literal_is_there(hash, "$argon2id$v=19$m="@, at_memory);
    lemma_read_number_is_there(at_memory, memory.0, memory.1);
    lemma_literal_is_there(memory.1, ",t="@, at_passes);
    lemma_read_number_is_there(at_passes, passes.0, passes.1);
    lemma_literal_is_there(passes.1, ",p="@, at_lanes);
    lemma_read_number_is_there(at_lanes, lanes.0, lanes.1);
    lemma_literal_is_there(lanes.1, "$"@, rest);
    let prefix = phc_prefix(memory.0, passes.0, lanes.0);
    assert(hash =~= prefix + rest);
    assert(hash.subrange(0, prefix.len() as int) =~= prefix);
}

/// A text that starts as a PHC string with a cost does names that cost.
pub proof fn lemma_prefix_names_cost(hash: Seq<char>, m_cost: u32, t_cost: u32, p_cost: u32)
    requires
        phc_prefix(m_cost, t_cost, p_cost).is_prefix_of(hash),
    ensures
        cost_of(hash) == Some((m_cost, t_cost, p_cost)),
{
    reveal_strlit(",t=");
    reveal_strlit(",p=");
    reveal_strlit("$");
    let prefix = phc_prefix(m_cost, t_cost, p_cost);
    let rest = hash.skip(prefix.len() as int);
    let after_lanes = "$"@ + rest;
    let at_lanes = decimal_digits(p_cost as nat) + after_lanes;
    let after_passes = ",p="@ + at_lanes;
    let at_passes = decimal_digits(t_cost as nat) + after_passes;
    let after_memory = ",t="@ + at_passes;
    let at_memory = decimal_digits(m_cost as nat) + after_memory;
    assert(hash =~= prefix + rest) by {
        assert(hash.subrange(0, prefix.len() as int) == prefix);
    }
    assert(hash =~= "$argon2id$v=19$m="@ + at_memory);
    lemma_literal_is_read("$argon2id$v=19$m="@, at_memory);
    assert(after_memory[0] == ',');
    lemma_number_is_read(m_cost, after_memory);
    lemma_literal_is_read(",t="@, at_passes);
    assert(after_passes[0] == ',');
    lemma_number_is_read(t_cost, after_passes);
    lemma_literal_is_read(",p="@, at_lanes);
    assert(after_lanes[0] == '$');
    lemma_number_is_read(p_cost, after_lanes);
    lemma_literal_is_read("$"@, rest);
}

/// The cost that `hash` names.
pub fn read_cost(hash: &str) -> (cost: Option<(u32, u32, u32)>)
    ensures
        cost == cost_of(hash@),
{
    let at_memory = match strip_literal(hash, "$argon2id$v=19$m=") {
        Some(rest) => rest,
        None => {
            return None;
        },
    };
    let (m_cost, rest) = match read_number(at_memory) {
        Some(read) => read,
        None => {
            return None;
        },
    };
    let at_passes = match strip_literal(rest, ",t=") {
        Some(rest) => rest,
        None => {
            return None;
        },
    };
    let (t_cost, rest) = match read_number(at_passes) {
        Some(read) => read,
        None => {
            return None;
        },
    };
    let at_lanes = match strip_literal(rest, ",p=") {
        Some(rest) => rest,
        None => {
            return None;
        },
    };
    let (p_cost, rest) = match read_number(at_lanes) {
        Some(read) => read,
        None => {
            return None;
        },
    };
    match strip_literal(rest, "$") {
        Some(_) => Some((m_cost, t_cost, p_cost)),
        None => None,
    }
}

/// Hashes `password` for storage, with the standard cost. A password
/// within the length that is sure to be hashed always gets a hash. Every
/// hash that comes back is of this library's make and verifies `password`;
/// a hasher that refuses is an unexpected error.
pub fn compute_password_hash(password: &Secret) -> (hash: Result<String, UserStoreError>)
    ensures
        match hash {
            Ok(h) => password_matches(h@, password@) && standard_prefix().is_prefix_of(h@),
            Err(e) => e == UserStoreError::UnexpectedError,
        },
        password@.len() <= MAX_PASSWORD_LENGTH ==> hash is Ok,
{
    let made = argon2id_hash(
        password.expose_secret().as_str(),
        HASH_MEMORY_KIB,
        HASH_PASSES,
        HASH_LANES,
    );
    let ghost answer = made;
    proof {
        match answer {
            Some(h) => {
                lemma_prefix_names_cost(h@, HASH_MEMORY_KIB, HASH_PASSES, HASH_LANES);
            },
            None => {},
        }
    }
    hash_outcome(made)
}

/// What hashing for storage returns for each answer of the hasher.
pub fn hash_outcome(made: Option<String>) -> (hash: Result<String, UserStoreError>)
    ensures
        match made {
            Some(h) => hash == Ok::<String, UserStoreError>(h),
            None => hash == Err::<String, UserStoreError>(UserStoreError::UnexpectedError),
        },
{
    match made {
        Some(h) => Ok(h),
        None => Err(UserStoreError::UnexpectedError),
    }
}

/// The outcome of a credential check against a stored hash: a text that
/// names no cost, or one beyond the bounds, matches no password.
pub open spec fn check_outcome(expected_hash: Seq<char>, candidate: Seq<char>) -> Result<
    (),
    UserStoreError,
> {
    if password_matches(expected_hash, candidate) {
        Ok(())
    } else {
        Err(UserStoreError::InvalidCredentials)
    }
}

/// Checks `candidate` against a stored hash, with the cost that the hash
/// names. A text that names no cost, or one beyond the bounds, is refused
/// before the hasher sees it.
pub fn verify_password_hash(expected_hash: &str, candidate: &Secret) -> (outcome: Result<
    (),
    UserStoreError,
>)
    ensures
        outcome == check_outcome(expected_hash@, candidate@),
{
    let cost = match read_cost(expected_hash) {
        Some(cost) => cost,
        None => {
            return Err(UserStoreError::InvalidCredentials);
        },
    };
    if cost.0 > MAX_MEMORY_KIB || cost.2 > MAX_LANES {
        return Err(UserStoreError::InvalidCredentials);
    }
    proof {
        lemma_named_cost_is_prefix(expected_hash@, cost.0, cost.1, cost.2);
        assert(phc_prefix(cost.0, cost.1, cost.2).is_prefix_of(expected_hash@));
    }
    if argon2_verify(expected_hash, candidate.expose_secret().as_str()) {
        Ok(())
    } else {
        Err(UserStoreError::InvalidCredentials)
    }
}

} // verus!
