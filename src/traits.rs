use vstd::prelude::*;

use crate::cache::{DatabaseCache, LoggingMap, ResponseMap};
use crate::errors::Error;
use crate::models::{MessageResponse, MessageResponseConfig};

verus! {

/// The read capability of a storage tier: a value read is the one it holds.
pub trait DatastoreReader {
    /// The channel responses this tier holds.
    spec fn held_responses(&self) -> ResponseMap;

    /// The logging channels this tier holds.
    spec fn held_logging_channels(&self) -> LoggingMap;

    fn get_message_response(&self, guild_id: u64, channel_id: u64) -> (r: Result<MessageResponse, Error>)
        ensures
            r is Ok ==> self.held_responses().contains_key((guild_id, channel_id))
                && self.held_responses()[(guild_id, channel_id)] == r->Ok_0,
    ;

    fn get_logging_channel(&self, guild_id: u64) -> (r: Result<u64, Error>)
        ensures
            r is Ok ==> self.held_logging_channels().contains_key(guild_id)
                && self.held_logging_channels()[guild_id] == r->Ok_0,
    ;
}

/// The write capability of a storage tier: a write that reports `Ok` has
/// taken effect on the mapping it names and left the other as it was.
pub trait DatastoreWriter: DatastoreReader {
    fn insert_message_response_config(&mut self, config: &MessageResponseConfig) -> (r: Result<(), Error>)
        ensures
            r is Ok ==> final(self).held_responses() == old(self).held_responses().insert(
                (config.guild_id, config.channel_id),
                config.response,
            ),
            r is Ok ==> final(self).held_logging_channels() == old(self).held_logging_channels(),
    ;

    fn delete_message_response_config(&mut self, guild_id: u64, channel_id: u64) -> (r: Result<(), Error>)
        ensures
            r is Ok ==> final(self).held_responses() == old(self).held_responses().remove(
                (guild_id, channel_id),
            ),
            r is Ok ==> final(self).held_logging_channels() == old(self).held_logging_channels(),
    ;

    fn insert_logging_channel(&mut self, guild_id: u64, channel_id: u64) -> (r: Result<(), Error>)
        ensures
            r is Ok ==> final(self).held_logging_channels() == old(self).held_logging_channels().insert(
                guild_id,
                channel_id,
            ),
            r is Ok ==> final(self).held_responses() == old(self).held_responses(),
    ;

    fn delete_logging_channel(&mut self, guild_id: u64) -> (r: Result<(), Error>)
        ensures
            r is Ok ==> final(self).held_logging_channels() == old(self).held_logging_channels().remove(
                guild_id,
            ),
            r is Ok ==> final(self).held_responses() == old(self).held_responses(),
    ;
}

impl DatastoreReader for DatabaseCache {
    open spec fn held_responses(&self) -> ResponseMap {
        self.responses()
    }

    open spec fn held_logging_channels(&self) -> LoggingMap {
        self.logging()
    }

    fn get_message_response(&self, guild_id: u64, channel_id: u64) -> (r: Result<MessageResponse, Error>) {
        DatabaseCache::get_message_response(self, guild_id, channel_id)
    }

    fn get_logging_channel(&self, guild_id: u64) -> (r: Result<u64, Error>) {
        DatabaseCache::get_logging_channel(self, guild_id)
    }
}

impl DatastoreWriter for DatabaseCache {
    fn insert_message_response_config(&mut self, config: &MessageResponseConfig) -> (r: Result<(), Error>) {
        DatabaseCache::insert_message_response_config(self, config)
    }

    fn delete_message_response_config(&mut self, guild_id: u64, channel_id: u64) -> (r: Result<(), Error>) {
        DatabaseCache::delete_message_response_config(self, guild_id, channel_id)
    }

    fn insert_logging_channel(&mut self, guild_id: u64, channel_id: u64) -> (r: Result<(), Error>) {
        DatabaseCache::insert_logging_channel(self, guild_id, channel_id)
    }

    fn delete_logging_channel(&mut self, guild_id: u64) -> (r: Result<(), Error>) {
        DatabaseCache::delete_logging_channel(self, guild_id)
    }
}

} // verus!
