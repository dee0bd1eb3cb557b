use vstd::prelude::*;
use vstd::string::*;

verus! {

/// How a store names its entries in a shared key-value store, and how
/// long they live there: an optional prefix for the deployment, a base for
/// the kind of entry, and the time to live in seconds.
#[derive(Debug, Clone)]
pub struct RedisKeySpace {
    pub key_prefix: Option<String>,
    pub ttl_seconds: u64,
    pub key_prefix_base: String,
}

/// The key of the entry `name`: the prefix, where there is one, then the
/// base, then the name.
pub open spec fn key_of(key_prefix: Option<Seq<char>>, key_prefix_base: Seq<char>, name: Seq<char>) -> Seq<
    char,
> {
    match key_prefix {
        Some(prefix) => prefix + key_prefix_base + name,
        None => key_prefix_base + name,
    }
}

impl RedisKeySpace {
    /// The prefix as plain values.
    pub open spec fn prefix(&self) -> Option<Seq<char>> {
        match self.key_prefix {
            Some(prefix) => Some(prefix@),
            None => None,
        }
    }

    /// A key space without a prefix.
    pub fn new_with_config(ttl_seconds: u64, key_prefix_base: String) -> (space: RedisKeySpace)
        ensures
            space.key_prefix is None,
            space.ttl_seconds == ttl_seconds,
            space.key_prefix_base == key_prefix_base,
    {
        RedisKeySpace { key_prefix: None, ttl_seconds, key_prefix_base }
    }

    /// A key space under `prefix`.
    pub fn new_with_config_and_prefix(ttl_seconds: u64, key_prefix_base: String, prefix: String) -> (space:
        RedisKeySpace)
        ensures
            space.key_prefix == Some(prefix),
            space.ttl_seconds == ttl_seconds,
            space.key_prefix_base == key_prefix_base,
    {
        RedisKeySpace { key_prefix: Some(prefix), ttl_seconds, key_prefix_base }
    }

    /// The key of the entry `name`.
    pub fn get_key(&self, name: &str) -> (key: String)
        ensures
            key@ == key_of(self.prefix(), self.key_prefix_base@, name@),
    {
        let mut key = match &self.key_prefix {
            Some(prefix) => prefix.clone(),
            None => String::new(),
        };
        key.append(self.key_prefix_base.as_str());
        key.append(name);
        assert(key@ =~= key_of(self.prefix(), self.key_prefix_base@, name@));
        key
    }
}

/// In one key space two entries have the same key only if they have the
/// same name.
pub proof fn law_keys_tell_names_apart(
    key_prefix: Option<Seq<char>>,
    key_prefix_base: Seq<char>,
    name: Seq<char>,
    other: Seq<char>,
)
    requires
        key_of(key_prefix, key_prefix_base, name) == key_of(key_prefix, key_prefix_base, other),
    ensures
        name == other,
{
    let head = match key_prefix {
        Some(prefix) => prefix + key_prefix_base,
        None => key_prefix_base,
    };
    assert(key_of(key_prefix, key_prefix_base, name) =~= head + name);
    assert(key_of(key_prefix, key_prefix_base, other) =~= head + other);
    assert((head + name).subrange(head.len() as int, (head + name).len() as int) =~= name);
    assert((head + other).subrange(head.len() as int, (head + other).len() as int) =~= other);
}

} // verus!
