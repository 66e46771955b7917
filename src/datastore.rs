use vstd::prelude::*;

use crate::cache::{CacheOptions, DatabaseCache, LoggingMap, ResponseMap};
use crate::database::{removed, stored, DatabaseOptions};
use crate::errors::Error;
use crate::models::{MessageResponse, MessageResponseConfig};

verus! {

/// The cache after a read that missed it: a value found in the durable store
/// is cached, anything else leaves the cache as it was.
pub open spec fn filled<K, V>(cache: Map<K, V>, k: K, found: Result<V, Error>) -> Map<K, V> {
    match found {
        Ok(v) => cache.insert(k, v),
        Err(_) => cache,
    }
}

/// The cache after a write of `v` under `k` whose durable part gave `durable`:
/// the value is cached only once it is durable.
pub open spec fn written<K, V>(cache: Map<K, V>, k: K, v: V, durable: Result<(), Error>) -> Map<K, V> {
    match durable {
        Ok(_) => cache.insert(k, v),
        Err(_) => cache,
    }
}

/// Every cached entry agrees with the durable table; the cache may lack
/// entries, never hold a different value.
pub open spec fn coherent<K, V>(cache: Map<K, V>, table: Map<K, V>) -> bool {
    forall|k: K| #[trigger] cache.contains_key(k) ==> table.contains_key(k) && table[k] == cache[k]
}

/// A cache probe that answered `hit` came from `cache`: whatever it returns is
/// the cached value, and it may miss an entry that was evicted.
pub open spec fn probed<K, V>(hit: Option<V>, cache: Map<K, V>, k: K) -> bool {
    hit is Some ==> cache.contains_key(k) && cache[k] == hit->0
}

/// What a read through the facade returns: the cached value on a hit, else
/// what the durable store answers.
pub open spec fn served<K, V>(hit: Option<V>, table: Map<K, V>, k: K) -> Result<V, Error> {
    match hit {
        Some(v) => Ok(v),
        None => stored(table, k),
    }
}

/// Settings of a `Datastore`: its cache, and where its durable store lives.
pub struct DatastoreOptions {
    pub cache_options: CacheOptions,
    pub database_options: DatabaseOptions,
}

/// The read-through, write-through front of the configuration store. It
/// holds the cache; each operation is driven in two steps around the durable
/// store's own work, which the caller performs: a read first asks the cache,
/// and on a miss hands the store's answer back; a write or delete hands back
/// the store's answer once the durable part is done.
pub struct Datastore {
    cache: DatabaseCache,
}

impl Datastore {
    /// The channel responses that the cache holds, when nothing was evicted.
    pub closed spec fn responses(&self) -> ResponseMap {
        self.cache.responses()
    }

    /// The logging channels that the cache holds, when nothing was evicted.
    pub closed spec fn logging(&self) -> LoggingMap {
        self.cache.logging()
    }

    /// The most channel responses the cache keeps.
    pub closed spec fn responses_capacity(&self) -> u64 {
        self.cache.responses_capacity()
    }

    /// The most logging channels the cache keeps.
    pub closed spec fn logging_channels_capacity(&self) -> u64 {
        self.cache.logging_channels_capacity()
    }

    pub fn new(cache: DatabaseCache) -> (r: Datastore)
        ensures
            r.responses() == cache.responses(),
            r.logging() == cache.logging(),
            r.responses_capacity() == cache.responses_capacity(),
            r.logging_channels_capacity() == cache.logging_channels_capacity(),
    {
        Datastore { cache }
    }

    /// A front with an empty cache bounded as the options say; the durable
    /// store is opened from `options.database_options` by the caller.
    pub fn new_with_options(options: &DatastoreOptions) -> (r: Datastore)
        ensures
            r.responses() == ResponseMap::empty(),
            r.logging() == LoggingMap::empty(),
            r.responses_capacity() == options.cache_options.subscribed_channel_responses_max_capacity,
            r.logging_channels_capacity() == options.cache_options.logging_channels_max_capacity,
    {
        Datastore { cache: DatabaseCache::new(&options.cache_options) }
    }

    /// First step of a read: the cached action of a channel, or `None` when
    /// the durable store must be asked.
    pub fn cached_message_response(&self, guild_id: u64, channel_id: u64) -> (r: Option<MessageResponse>)
        ensures
            probed(r, self.responses(), (guild_id, channel_id)),
    {
        match self.cache.get_message_response(guild_id, channel_id) {
            Ok(v) => Some(v),
            Err(_) => None,
        }
    }

    /// Second step of a read that missed the cache: `found` is the durable
    /// store's answer, returned as it is; a found action is cached.
    pub fn complete_message_response_read(
        &mut self,
        guild_id: u64,
        channel_id: u64,
        found: Result<MessageResponse, Error>,
    ) -> (r: Result<MessageResponse, Error>)
        ensures
            r == found,
            final(self).responses() == filled(old(self).responses(), (guild_id, channel_id), found),
            final(self).logging() == old(self).logging(),
            final(self).responses_capacity() == old(self).responses_capacity(),
            final(self).logging_channels_capacity() == old(self).logging_channels_capacity(),
    {
        match found {
            Ok(v) => {
                let _ = self.cache.insert_message_response_config(
                    &MessageResponseConfig { guild_id, channel_id, response: v },
                );
                Ok(v)
            },
            Err(e) => Err(e),
        }
    }

    /// Last step of an upsert, after the durable write gave `durable`: the
    /// action is cached only when that write succeeded, and `durable` is
    /// returned as it is.
    pub fn complete_message_response_write(
        &mut self,
        config: &MessageResponseConfig,
        durable: Result<(), Error>,
    ) -> (r: Result<(), Error>)
        ensures
            r == durable,
            final(self).responses() == written(
                old(self).responses(),
                (config.guild_id, config.channel_id),
                config.response,
                durable,
            ),
            final(self).logging() == old(self).logging(),
            final(self).responses_capacity() == old(self).responses_capacity(),
            final(self).logging_channels_capacity() == old(self).logging_channels_capacity(),
    {
        if durable.is_ok() {
            let _ = self.cache.insert_message_response_config(config);
        }
        durable
    }

    /// Last step of a delete, after the durable delete gave `durable`: the
    /// channel is evicted from the cache whatever the store answered, and
    /// `durable` is returned as it is.
    pub fn complete_message_response_delete(
        &mut self,
        guild_id: u64,
        channel_id: u64,
        durable: Result<(), Error>,
    ) -> (r: Result<(), Error>)
        ensures
            r == durable,
            final(self).responses() == old(self).responses().remove((guild_id, channel_id)),
            final(self).logging() == old(self).logging(),
            final(self).responses_capacity() == old(self).responses_capacity(),
            final(self).logging_channels_capacity() == old(self).logging_channels_capacity(),
    {
        let _ = self.cache.delete_message_response_config(guild_id, channel_id);
        durable
    }

    /// First step of a logging-channel read: the cached channel of a guild,
    /// or `None` when the durable store must be asked.
    pub fn cached_logging_channel(&self, guild_id: u64) -> (r: Option<u64>)
        ensures
            probed(r, self.logging(), guild_id),
    {
        match self.cache.get_logging_channel(guild_id) {
            Ok(v) => Some(v),
            Err(_) => None,
        }
    }

    /// Second step of a logging-channel read that missed the cache: `found`
    /// is returned as it is; a found channel is cached.
    pub fn complete_logging_channel_read(&mut self, guild_id: u64, found: Result<u64, Error>) -> (r: Result<u64, Error>)
        ensures
            r == found,
            final(self).logging() == filled(old(self).logging(), guild_id, found),
            final(self).responses() == old(self).responses(),
            final(self).responses_capacity() == old(self).responses_capacity(),
            final(self).logging_channels_capacity() == old(self).logging_channels_capacity(),
    {
        match found {
            Ok(v) => {
                let _ = self.cache.insert_logging_channel(guild_id, v);
                Ok(v)
            },
            Err(e) => Err(e),
        }
    }

    /// Last step of a logging-channel upsert: the channel is cached only when
    /// the durable write succeeded, and `durable` is returned as it is.
    pub fn complete_logging_channel_write(
        &mut self,
        guild_id: u64,
        channel_id: u64,
        durable: Result<(), Error>,
    ) -> (r: Result<(), Error>)
        ensures
            r == durable,
            final(self).logging() == written(old(self).logging(), guild_id, channel_id, durable),
            final(self).responses() == old(self).responses(),
            final(self).responses_capacity() == old(self).responses_capacity(),
            final(self).logging_channels_capacity() == old(self).logging_channels_capacity(),
    {
        if durable.is_ok() {
            let _ = self.cache.insert_logging_channel(guild_id, channel_id);
        }
        durable
    }

    /// Last step of a logging-channel delete: the guild is evicted from the
    /// cache whatever the store answered, and `durable` is returned as it is.
    pub fn complete_logging_channel_delete(&mut self, guild_id: u64, durable: Result<(), Error>) -> (r: Result<(), Error>)
        ensures
            r == durable,
            final(self).logging() == old(self).logging().remove(guild_id),
            final(self).responses() == old(self).responses(),
            final(self).responses_capacity() == old(self).responses_capacity(),
            final(self).logging_channels_capacity() == old(self).logging_channels_capacity(),
    {
        let _ = self.cache.delete_logging_channel(guild_id);
        durable
    }
}

/// A cache that holds nothing is coherent with every table, so a front made
/// by `new_with_options` starts coherent with its durable store.
pub proof fn lemma_empty_cache_coherent<K, V>(table: Map<K, V>)
    ensures
        coherent(Map::empty(), table),
{
}

/// A read through a coherent cache returns exactly what the durable store
/// holds: a hit can only be the stored value.
pub proof fn lemma_read_through_matches_store<K, V>(cache: Map<K, V>, table: Map<K, V>, k: K, hit: Option<V>)
    requires
        coherent(cache, table),
        probed(hit, cache, k),
    ensures
        served(hit, table, k) == stored(table, k),
{
}

/// Filling the cache from the store's own answer keeps it coherent.
pub proof fn lemma_read_keeps_coherence<K, V>(cache: Map<K, V>, table: Map<K, V>, k: K)
    requires
        coherent(cache, table),
    ensures
        coherent(filled(cache, k, stored(table, k)), table),
{
}

/// A write keeps the cache coherent: with the table as updated when the
/// durable write succeeded, and with the unchanged table when it failed.
pub proof fn lemma_write_keeps_coherence<K, V>(
    cache: Map<K, V>,
    table: Map<K, V>,
    k: K,
    v: V,
    durable: Result<(), Error>,
)
    requires
        coherent(cache, table),
    ensures
        durable is Ok ==> coherent(written(cache, k, v, durable), table.insert(k, v)),
        durable is Err ==> coherent(written(cache, k, v, durable), table),
{
}

/// A delete keeps the cache coherent whether or not the durable delete took
/// place, since the key is evicted either way.
pub proof fn lemma_delete_keeps_coherence<K, V>(cache: Map<K, V>, table: Map<K, V>, k: K)
    requires
        coherent(cache, table),
    ensures
        coherent(cache.remove(k), table.remove(k)),
        coherent(cache.remove(k), table),
{
}

/// Two successful upserts of one key leave one record holding the later
/// value, and a read through the facade then returns that value.
pub proof fn lemma_upsert_latest_wins<K, V>(cache: Map<K, V>, table: Map<K, V>, k: K, v1: V, v2: V, hit: Option<V>)
    requires
        coherent(cache, table),
        probed(hit, written(written(cache, k, v1, Ok(())), k, v2, Ok(())), k),
    ensures
        table.insert(k, v1).insert(k, v2) == table.insert(k, v2),
        table.insert(k, v1).insert(k, v2).dom() == table.dom().insert(k),
        served(hit, table.insert(k, v1).insert(k, v2), k) == Ok::<V, Error>(v2),
{
    assert(table.insert(k, v1).insert(k, v2) =~= table.insert(k, v2));
    assert(table.insert(k, v1).insert(k, v2).dom() =~= table.dom().insert(k));
}

/// An upsert whose durable write failed is not seen by a later read: the read
/// returns what the store held before it.
pub proof fn lemma_rejected_write_unseen<K, V>(cache: Map<K, V>, table: Map<K, V>, k: K, v: V, e: Error, hit: Option<V>)
    requires
        coherent(cache, table),
        probed(hit, written(cache, k, v, Err(e)), k),
    ensures
        served(hit, table, k) == stored(table, k),
{
}

/// After a delete that the store answered with `Ok`, a read returns
/// `DatabaseEntryNotFound`, though the cache held the old value before.
pub proof fn lemma_delete_hides_old_value<K, V>(cache: Map<K, V>, table: Map<K, V>, k: K, hit: Option<V>)
    requires
        coherent(cache, table),
        removed(table, k) is Ok,
        probed(hit, cache.remove(k), k),
    ensures
        served(hit, table.remove(k), k) == Err::<V, Error>(Error::DatabaseEntryNotFound),
{
}

/// A read of a key that the store lacks returns `DatabaseEntryNotFound` and
/// leaves the cache as it was, so every repeated read answers the same.
pub proof fn lemma_absent_read_is_stable<K, V>(cache: Map<K, V>, table: Map<K, V>, k: K, hit: Option<V>)
    requires
        coherent(cache, table),
        !table.contains_key(k),
        probed(hit, cache, k),
    ensures
        served(hit, table, k) == Err::<V, Error>(Error::DatabaseEntryNotFound),
        filled(cache, k, served(hit, table, k)) == cache,
        coherent(filled(cache, k, served(hit, table, k)), table),
{
}

/// A read that missed the cache and found the key in the store leaves the
/// key cached with the stored value, so the next read can be served without
/// the store unless the entry is evicted in between.
pub proof fn lemma_miss_fills_cache<K, V>(cache: Map<K, V>, table: Map<K, V>, k: K, hit: Option<V>)
    requires
        coherent(cache, table),
        table.contains_key(k),
        probed(hit, filled(cache, k, stored(table, k)), k),
    ensures
        filled(cache, k, stored(table, k)).contains_key(k),
        filled(cache, k, stored(table, k))[k] == table[k],
        served(hit, table, k) == Ok::<V, Error>(table[k]),
{
}

} // verus!
