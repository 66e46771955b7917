use vstd::prelude::*;

use moka::sync::Cache;

use crate::errors::Error;
use crate::models::{MessageResponse, MessageResponseConfig};

verus! {

#[verifier::external_type_specification]
#[verifier::external_body]
#[verifier::reject_recursive_types(K)]
#[verifier::reject_recursive_types(V)]
#[verifier::reject_recursive_types(S)]
pub struct ExCache<K, V, S>(moka::sync::Cache<K, V, S>);

/// The cache of channel responses, keyed by guild and channel.
pub type ResponseCache = Cache<(u64, u64), MessageResponse>;

/// The cache of logging channels, keyed by guild.
pub type LoggingCache = Cache<u64, u64>;

/// Channel responses as a mathematical map, keyed by guild and channel.
pub type ResponseMap = Map<(u64, u64), MessageResponse>;

/// Logging channels as a mathematical map, keyed by guild.
pub type LoggingMap = Map<u64, u64>;

/// What a channel-response cache holds when nothing has been evicted: each
/// key maps to the value last inserted for it and not invalidated since.
pub uninterp spec fn response_entries(c: ResponseCache) -> ResponseMap;

/// What a logging-channel cache holds when nothing has been evicted.
pub uninterp spec fn logging_entries(c: LoggingCache) -> LoggingMap;

/// The largest number of entries that a channel-response cache was built to keep.
pub uninterp spec fn response_capacity(c: ResponseCache) -> u64;

/// The largest number of entries that a logging-channel cache was built to keep.
pub uninterp spec fn logging_capacity(c: LoggingCache) -> u64;

/// Relies on moka's `Cache::new`: a new cache holds nothing and keeps at
/// most `max_capacity` entries.
#[verifier::external_body]
fn new_response_cache(max_capacity: u64) -> (r: ResponseCache)
    ensures
        response_entries(r) == ResponseMap::empty(),
        response_capacity(r) == max_capacity,
{
    Cache::new(max_capacity)
}

/// Relies on moka's `Cache::new`: a new cache holds nothing and keeps at
/// most `max_capacity` entries.
#[verifier::external_body]
fn new_logging_cache(max_capacity: u64) -> (r: LoggingCache)
    ensures
        logging_entries(r) == LoggingMap::empty(),
        logging_capacity(r) == max_capacity,
{
    Cache::new(max_capacity)
}

/// Relies on moka's `Cache::get`: a value comes back only if it is the one
/// last inserted for the key; an evicted entry comes back as `None`.
#[verifier::external_body]
fn response_cache_get(c: &ResponseCache, key: (u64, u64)) -> (r: Option<MessageResponse>)
    ensures
        r is Some ==> response_entries(*c).contains_key(key) && response_entries(*c)[key] == r->0,
{
    c.get(&key)
}

/// Relies on moka's `Cache::insert`: the key now maps to the value; the
/// capacity stays as built.
#[verifier::external_body]
fn response_cache_insert(c: &mut ResponseCache, key: (u64, u64), value: MessageResponse)
    ensures
        response_entries(*final(c)) == response_entries(*old(c)).insert(key, value),
        response_capacity(*final(c)) == response_capacity(*old(c)),
{
    c.insert(key, value)
}

/// Relies on moka's `Cache::invalidate`: the key no longer maps to anything;
/// the capacity stays as built.
#[verifier::external_body]
fn response_cache_invalidate(c: &mut ResponseCache, key: (u64, u64))
    ensures
        response_entries(*final(c)) == response_entries(*old(c)).remove(key),
        response_capacity(*final(c)) == response_capacity(*old(c)),
{
    c.invalidate(&key)
}

/// Relies on moka's `Cache::get`: a value comes back only if it is the one
/// last inserted for the key; an evicted entry comes back as `None`.
#[verifier::external_body]
fn logging_cache_get(c: &LoggingCache, key: u64) -> (r: Option<u64>)
    ensures
        r is Some ==> logging_entries(*c).contains_key(key) && logging_entries(*c)[key] == r->0,
{
    c.get(&key)
}

/// Relies on moka's `Cache::insert`: the key now maps to the value; the
/// capacity stays as built.
#[verifier::external_body]
fn logging_cache_insert(c: &mut LoggingCache, key: u64, value: u64)
    ensures
        logging_entries(*final(c)) == logging_entries(*old(c)).insert(key, value),
        logging_capacity(*final(c)) == logging_capacity(*old(c)),
{
    c.insert(key, value)
}

/// Relies on moka's `Cache::invalidate`: the key no longer maps to anything;
/// the capacity stays as built.
#[verifier::external_body]
fn logging_cache_invalidate(c: &mut LoggingCache, key: u64)
    ensures
        logging_entries(*final(c)) == logging_entries(*old(c)).remove(key),
        logging_capacity(*final(c)) == logging_capacity(*old(c)),
{
    c.invalidate(&key)
}

/// The largest number of entries that each mapping of a new cache keeps.
pub const DEFAULT_MAX_CAPACITY: u64 = 10_000;

/// Capacity bounds of the two mappings of a `DatabaseCache`.
pub struct CacheOptions {
    pub subscribed_channel_responses_max_capacity: u64,
    pub logging_channels_max_capacity: u64,
}

impl Default for CacheOptions {
    fn default() -> (r: CacheOptions)
        ensures
            r.subscribed_channel_responses_max_capacity == DEFAULT_MAX_CAPACITY,
            r.logging_channels_max_capacity == DEFAULT_MAX_CAPACITY,
    {
        CacheOptions {
            subscribed_channel_responses_max_capacity: DEFAULT_MAX_CAPACITY,
            logging_channels_max_capacity: DEFAULT_MAX_CAPACITY,
        }
    }
}

/// A bounded in-process mirror of part of the durable store. It never fails:
/// a missing or evicted entry reads as absent.
pub struct DatabaseCache {
    subscribed_channel_responses: ResponseCache,
    logging_channels: LoggingCache,
}

impl DatabaseCache {
    /// The channel responses held, as they stand when nothing was evicted.
    pub closed spec fn responses(&self) -> ResponseMap {
        response_entries(self.subscribed_channel_responses)
    }

    /// The logging channels held, as they stand when nothing was evicted.
    pub closed spec fn logging(&self) -> LoggingMap {
        logging_entries(self.logging_channels)
    }

    /// The most channel responses this cache keeps.
    pub closed spec fn responses_capacity(&self) -> u64 {
        response_capacity(self.subscribed_channel_responses)
    }

    /// The most logging channels this cache keeps.
    pub closed spec fn logging_channels_capacity(&self) -> u64 {
        logging_capacity(self.logging_channels)
    }

    /// Whether this cache is bounded as `options` say.
    pub open spec fn bounded_by(&self, options: CacheOptions) -> bool {
        &&& self.responses_capacity() == options.subscribed_channel_responses_max_capacity
        &&& self.logging_channels_capacity() == options.logging_channels_max_capacity
    }

    pub fn new(options: &CacheOptions) -> (r: DatabaseCache)
        ensures
            r.responses() == ResponseMap::empty(),
            r.logging() == LoggingMap::empty(),
            r.bounded_by(*options),
    {
        DatabaseCache {
            subscribed_channel_responses: new_response_cache(options.subscribed_channel_responses_max_capacity),
            logging_channels: new_logging_cache(options.logging_channels_max_capacity),
        }
    }

    /// The cached action for a channel; `CacheEntryNotFound` when it is not
    /// held (never cached, deleted, or evicted).
    pub fn get_message_response(&self, guild_id: u64, channel_id: u64) -> (r: Result<MessageResponse, Error>)
        ensures
            match r {
                Ok(v) => self.responses().contains_key((guild_id, channel_id))
                    && self.responses()[(guild_id, channel_id)] == v,
                Err(e) => e == Error::CacheEntryNotFound,
            },
    {
        match response_cache_get(&self.subscribed_channel_responses, (guild_id, channel_id)) {
            Some(v) => Ok(v),
            None => Err(Error::CacheEntryNotFound),
        }
    }

    /// Caches a channel's action, replacing any earlier one.
    pub fn insert_message_response_config(&mut self, config: &MessageResponseConfig) -> (r: Result<(), Error>)
        ensures
            r is Ok,
            final(self).responses() == old(self).responses().insert(
                (config.guild_id, config.channel_id),
                config.response,
            ),
            final(self).logging() == old(self).logging(),
            final(self).responses_capacity() == old(self).responses_capacity(),
            final(self).logging_channels_capacity() == old(self).logging_channels_capacity(),
    {
        response_cache_insert(
            &mut self.subscribed_channel_responses,
            (config.guild_id, config.channel_id),
            config.response,
        );
        Ok(())
    }

    /// Drops a channel's cached action, if any.
    pub fn delete_message_response_config(&mut self, guild_id: u64, channel_id: u64) -> (r: Result<(), Error>)
        ensures
            r is Ok,
            final(self).responses() == old(self).responses().remove((guild_id, channel_id)),
            final(self).logging() == old(self).logging(),
            final(self).responses_capacity() == old(self).responses_capacity(),
            final(self).logging_channels_capacity() == old(self).logging_channels_capacity(),
    {
        response_cache_invalidate(&mut self.subscribed_channel_responses, (guild_id, channel_id));
        Ok(())
    }

    /// The cached logging channel of a guild; `CacheEntryNotFound` when it is
    /// not held.
    pub fn get_logging_channel(&self, guild_id: u64) -> (r: Result<u64, Error>)
        ensures
            match r {
                Ok(v) => self.logging().contains_key(guild_id) && self.logging()[guild_id] == v,
                Err(e) => e == Error::CacheEntryNotFound,
            },
    {
        match logging_cache_get(&self.logging_channels, guild_id) {
            Some(v) => Ok(v),
            None => Err(Error::CacheEntryNotFound),
        }
    }

    /// Caches a guild's logging channel, replacing any earlier one.
    pub fn insert_logging_channel(&mut self, guild_id: u64, channel_id: u64) -> (r: Result<(), Error>)
        ensures
            r is Ok,
            final(self).logging() == old(self).logging().insert(guild_id, channel_id),
            final(self).responses() == old(self).responses(),
            final(self).responses_capacity() == old(self).responses_capacity(),
            final(self).logging_channels_capacity() == old(self).logging_channels_capacity(),
    {
        logging_cache_insert(&mut self.logging_channels, guild_id, channel_id);
        Ok(())
    }

    /// Drops a guild's cached logging channel, if any.
    pub fn delete_logging_channel(&mut self, guild_id: u64) -> (r: Result<(), Error>)
        ensures
            r is Ok,
            final(self).logging() == old(self).logging().remove(guild_id),
            final(self).responses() == old(self).responses(),
            final(self).responses_capacity() == old(self).responses_capacity(),
            final(self).logging_channels_capacity() == old(self).logging_channels_capacity(),
    {
        logging_cache_invalidate(&mut self.logging_channels, guild_id);
        Ok(())
    }
}

impl Default for DatabaseCache {
    fn default() -> (r: DatabaseCache)
        ensures
            r.responses() == ResponseMap::empty(),
            r.logging() == LoggingMap::empty(),
            r.responses_capacity() == DEFAULT_MAX_CAPACITY,
            r.logging_channels_capacity() == DEFAULT_MAX_CAPACITY,
    {
        DatabaseCache::new(&CacheOptions::default())
    }
}

} // verus!
