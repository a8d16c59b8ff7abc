//! The response cache: prior answers keyed by question name, each with the
//! instant at which it stops being served.
//!
//! The map underneath is `dashmap`'s concurrent map. The cache hands out
//! every change through `&mut self`, so that what a caller reads is what was
//! last written; tasks that share a cache share it behind a lock.

use crate::clock::is_fresh;
use dashmap::DashMap;
use vstd::prelude::*;

verus! {

/// `dashmap::DashMap`, taken as a type whose inside is not looked into.
#[verifier::external_type_specification]
#[verifier::external_body]
#[verifier::reject_recursive_types(K)]
#[verifier::reject_recursive_types(V)]
#[verifier::reject_recursive_types(S)]
pub struct ExDashMap<K, V, S>(DashMap<K, V, S>);

/// An answer and the instant at which it stops being served.
pub type CacheEntry = (Vec<u8>, u64);

/// A cache entry as contracts see it.
pub type EntryView = (Seq<u8>, u64);

/// The concurrent map that backs the response cache.
pub type DnsCache = DashMap<String, CacheEntry>;

/// What a cache map holds: for each question name, the answer bytes and the
/// expiry instant stored under it.
pub uninterp spec fn stored_entries(map: DnsCache) -> Map<Seq<char>, EntryView>;

/// `DashMap::new`: a map without entries.
#[verifier::external_body]
fn map_new() -> (created: DnsCache)
    ensures
        (stored_entries(created) == Map::<Seq<char>, EntryView>::empty()),
{
    DashMap::new()
}

/// `DashMap::get`, with the value cloned out of the guard: the entry stored
/// under `key`, if there is one.
#[verifier::external_body]
fn map_get(map: &DnsCache, key: &str) -> (found: Option<CacheEntry>)
    ensures
        found is Some <==> stored_entries(*map).contains_key(key@),
        found matches Some(entry) ==> (entry.0@, entry.1) == stored_entries(*map)[key@],
{
    map.get(key).map(|entry| entry.value().clone())
}

/// `DashMap::insert`: afterwards `key` maps to `value`, and every other key
/// to what it mapped to before.
#[verifier::external_body]
fn map_insert(map: &mut DnsCache, key: String, value: CacheEntry)
    ensures
        stored_entries(*final(map)) == stored_entries(*old(map)).insert(key@, (value.0@, value.1)),
{
    map.insert(key, value);
}

/// `DashMap::remove`: afterwards `key` is absent, and every other key maps
/// to what it mapped to before.
#[verifier::external_body]
fn map_remove(map: &mut DnsCache, key: &str)
    ensures
        stored_entries(*final(map)) == stored_entries(*old(map)).remove(key@),
{
    map.remove(key);
}

/// The answer that a lookup of `key` at `now` serves from `entries`: the one
/// stored under `key`, provided that it has not expired.
pub open spec fn fresh_answer(entries: Map<Seq<char>, EntryView>, key: Seq<char>, now: u64) -> Option<Seq<u8>> {
    if entries.contains_key(key) && is_fresh(entries[key].1, now) {
        Some(entries[key].0)
    } else {
        None
    }
}

/// What a lookup of `key` at `now` leaves of `entries`: an expired entry
/// under `key` is dropped, and nothing else changes.
pub open spec fn after_lookup(entries: Map<Seq<char>, EntryView>, key: Seq<char>, now: u64) -> Map<Seq<char>, EntryView> {
    if entries.contains_key(key) && !is_fresh(entries[key].1, now) {
        entries.remove(key)
    } else {
        entries
    }
}

/// Prior answers by question name. At most one entry lives under a name:
/// storing replaces, and a lookup past expiry evicts.
pub struct ResponseCache {
    map: DnsCache,
}

impl View for ResponseCache {
    type V = Map<Seq<char>, EntryView>;

    closed spec fn view(&self) -> Self::V {
        stored_entries(self.map)
    }
}

impl ResponseCache {
    /// An empty cache.
    pub fn new() -> (cache: Self)
        ensures
            cache@ == Map::<Seq<char>, EntryView>::empty(),
    {
        ResponseCache { map: map_new() }
    }

    /// The entry stored under `key`, expired or not.
    pub fn get(&self, key: &str) -> (found: Option<CacheEntry>)
        ensures
            found is Some <==> self@.contains_key(key@),
            found matches Some(entry) ==> (entry.0@, entry.1) == self@[key@],
    {
        map_get(&self.map, key)
    }

    /// Stores `value` under `key`, replacing what was there.
    pub fn insert(&mut self, key: String, value: CacheEntry)
        ensures
            final(self)@ == old(self)@.insert(key@, (value.0@, value.1)),
    {
        map_insert(&mut self.map, key, value)
    }

    /// Drops the entry under `key`, if there is one.
    pub fn remove(&mut self, key: &str)
        ensures
            final(self)@ == old(self)@.remove(key@),
    {
        map_remove(&mut self.map, key)
    }

    /// Looks `key` up at `now`. An unexpired entry is served and stays; an
    /// expired one is evicted and counts as absent.
    pub fn lookup(&mut self, key: &str, now: u64) -> (hit: Option<Vec<u8>>)
        ensures
            hit is Some <==> fresh_answer(old(self)@, key@, now) is Some,
            hit matches Some(answer) ==> fresh_answer(old(self)@, key@, now) == Some(answer@),
            final(self)@ == after_lookup(old(self)@, key@, now),
    {
        match self.get(key) {
            Some((answer, expiry)) => {
                if now < expiry {
                    Some(answer)
                } else {
                    self.remove(key);
                    None
                }
            },
            None => None,
        }
    }
}

/// An entry is served at every instant before its expiry and at none from
/// then on. A lookup from then on evicts it, after which the name has no
/// entry, whenever it is looked up again.
pub proof fn lemma_entry_served_until_expiry(entries: Map<Seq<char>, EntryView>, key: Seq<char>, now: u64, later: u64)
    requires
        entries.contains_key(key),
    ensures
        fresh_answer(entries, key, now) == Some(entries[key].0) <==> now < entries[key].1,
        now < entries[key].1 ==> after_lookup(entries, key, now) == entries,
        now >= entries[key].1 ==> fresh_answer(entries, key, now) is None,
        now >= entries[key].1 ==> !after_lookup(entries, key, now).contains_key(key),
        now >= entries[key].1 ==> fresh_answer(after_lookup(entries, key, now), key, later) is None,
{
}

/// A lookup touches no entry but the one under its key.
pub proof fn lemma_lookup_keeps_other_entries(entries: Map<Seq<char>, EntryView>, key: Seq<char>, now: u64, other: Seq<char>)
    requires
        other != key,
    ensures
        after_lookup(entries, key, now).contains_key(other) == entries.contains_key(other),
        entries.contains_key(other) ==> after_lookup(entries, key, now)[other] == entries[other],
{
}

/// What was stored under a name is what a lookup before the stored expiry
/// serves, byte for byte.
pub proof fn lemma_stored_answer_is_served(entries: Map<Seq<char>, EntryView>, key: Seq<char>, answer: Seq<u8>, expiry: u64, now: u64)
    ensures
        fresh_answer(entries.insert(key, (answer, expiry)), key, now) == (if now < expiry {
            Some(answer)
        } else {
            None
        }),
{
}

} // verus!
