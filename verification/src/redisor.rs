//! Keys of the cache, and the cache as the service reasons about it.
//!
//! The cache is a collaborator: a store of texts under keys, each with a time
//! to live. The service never holds it; it asks for a value, and tells what
//! to set and what to delete. [`CacheModel`] says what those three
//! operations mean, so that what the service does with their answers can be
//! stated and proved.
use vstd::prelude::*;
use crate::text::join3;

verus! {

/// The text that parts a key's prefix from the rest.
pub open spec fn key_separator() -> Seq<char> {
    ":"@
}

/// A key under a prefix: the prefix, a colon, the key.
pub open spec fn prefixed_key(prefix: Seq<char>, key: Seq<char>) -> Seq<char> {
    prefix + key_separator() + key
}

/// One connection's view of the cache: every key it touches stands under
/// `prefix`.
pub struct Redis {
    pub prefix: String,
}

impl Redis {
    /// The key under which the cache holds `key` for this service.
    pub fn key(&self, key: &str) -> (r: String)
        ensures
            r@ == prefixed_key(self.prefix@, key@),
    {
        join3(self.prefix.as_str(), ":", key)
    }
}

/// A value in the cache and the second from which it is gone.
pub struct CacheEntry {
    pub value: Seq<char>,
    pub expires_at: int,
}

/// The cache as a mathematical map. Times are seconds.
pub struct CacheModel {
    pub entries: Map<Seq<char>, CacheEntry>,
}

impl CacheModel {
    pub open spec fn empty() -> CacheModel {
        CacheModel { entries: Map::empty() }
    }

    /// What a lookup of `key` at `now` answers: the value, while its time to
    /// live has not run out.
    pub open spec fn get(self, key: Seq<char>, now: int) -> Option<Seq<char>> {
        if self.entries.dom().contains(key) && now < self.entries[key].expires_at {
            Some(self.entries[key].value)
        } else {
            None
        }
    }

    /// The cache after `value` is set under `key` at `now`, to live for
    /// `ttl` seconds.
    pub open spec fn set_ex(self, key: Seq<char>, value: Seq<char>, ttl: int, now: int)
        -> CacheModel {
        CacheModel { entries: self.entries.insert(key, CacheEntry { value, expires_at: now + ttl }) }
    }

    /// The cache after `key` is deleted.
    pub open spec fn del(self, key: Seq<char>) -> CacheModel {
        CacheModel { entries: self.entries.remove(key) }
    }
}

/// A value that is set is there until its time to live has run out, and gone
/// from then on. Other keys are not touched.
pub proof fn lemma_set_then_get(
    cache: CacheModel,
    key: Seq<char>,
    value: Seq<char>,
    ttl: int,
    now: int,
    later: int,
    other: Seq<char>,
)
    ensures
        later < now + ttl ==> cache.set_ex(key, value, ttl, now).get(key, later) == Some(value),
        later >= now + ttl ==> cache.set_ex(key, value, ttl, now).get(key, later) is None,
        other != key ==> cache.set_ex(key, value, ttl, now).get(other, later) == cache.get(
            other,
            later,
        ),
{
}

/// A key that is deleted is gone at once and for good. Other keys are not
/// touched.
pub proof fn lemma_del_then_get(cache: CacheModel, key: Seq<char>, later: int, other: Seq<char>)
    ensures
        cache.del(key).get(key, later) is None,
        other != key ==> cache.del(key).get(other, later) == cache.get(other, later),
{
}

} // verus!
