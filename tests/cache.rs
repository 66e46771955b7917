use honeybot::cache::{CacheOptions, DatabaseCache, DEFAULT_MAX_CAPACITY};
use honeybot::errors::Error;
use honeybot::traits::{DatastoreReader, DatastoreWriter};
use honeybot::models::{MessageResponse, MessageResponseConfig};

#[test]
fn default_capacity_is_ten_thousand() {
    let o = CacheOptions::default();
    assert_eq!(o.subscribed_channel_responses_max_capacity, 10_000);
    assert_eq!(o.logging_channels_max_capacity, 10_000);
    assert_eq!(DEFAULT_MAX_CAPACITY, 10_000);
}

#[test]
fn cache_miss_is_cache_entry_not_found() {
    let cache = DatabaseCache::default();
    assert_eq!(cache.get_message_response(1, 2), Err(Error::CacheEntryNotFound));
    assert_eq!(cache.get_logging_channel(1), Err(Error::CacheEntryNotFound));
}

#[test]
fn cache_put_get_evict() {
    let mut cache = DatabaseCache::new(&CacheOptions {
        subscribed_channel_responses_max_capacity: 100,
        logging_channels_max_capacity: 100,
    });
    let c = MessageResponseConfig { guild_id: 1, channel_id: 2, response: MessageResponse::Kick };
    assert_eq!(cache.insert_message_response_config(&c), Ok(()));
    assert_eq!(cache.get_message_response(1, 2), Ok(MessageResponse::Kick));
    assert_eq!(cache.get_message_response(2, 1), Err(Error::CacheEntryNotFound));
    let c2 = MessageResponseConfig { guild_id: 1, channel_id: 2, response: MessageResponse::Ban };
    assert_eq!(cache.insert_message_response_config(&c2), Ok(()));
    assert_eq!(cache.get_message_response(1, 2), Ok(MessageResponse::Ban));
    assert_eq!(cache.delete_message_response_config(1, 2), Ok(()));
    assert_eq!(cache.get_message_response(1, 2), Err(Error::CacheEntryNotFound));
    assert_eq!(cache.delete_message_response_config(1, 2), Ok(()));
}

#[test]
fn logging_cache_put_get_evict() {
    let mut cache = DatabaseCache::default();
    assert_eq!(cache.insert_logging_channel(3, 30), Ok(()));
    assert_eq!(cache.get_logging_channel(3), Ok(30));
    assert_eq!(cache.insert_logging_channel(3, 31), Ok(()));
    assert_eq!(cache.get_logging_channel(3), Ok(31));
    assert_eq!(cache.delete_logging_channel(3), Ok(()));
    assert_eq!(cache.get_logging_channel(3), Err(Error::CacheEntryNotFound));
}

#[test]
fn zero_capacity_cache_holds_nothing() {
    let mut cache = DatabaseCache::new(&CacheOptions {
        subscribed_channel_responses_max_capacity: 0,
        logging_channels_max_capacity: 0,
    });
    let c = MessageResponseConfig { guild_id: 1, channel_id: 2, response: MessageResponse::Kick };
    assert_eq!(cache.insert_message_response_config(&c), Ok(()));
    assert_eq!(cache.get_message_response(1, 2), Err(Error::CacheEntryNotFound));
}

fn read_through<R: DatastoreReader>(tier: &R, g: u64, c: u64) -> Result<MessageResponse, Error> {
    tier.get_message_response(g, c)
}

fn write_through<W: DatastoreWriter>(tier: &mut W, config: &MessageResponseConfig) -> Result<(), Error> {
    tier.insert_message_response_config(config)
}

#[test]
fn cache_serves_through_the_capability_traits() {
    let mut cache = DatabaseCache::default();
    let c = MessageResponseConfig { guild_id: 7, channel_id: 8, response: MessageResponse::Respond };
    assert_eq!(write_through(&mut cache, &c), Ok(()));
    assert_eq!(read_through(&cache, 7, 8), Ok(MessageResponse::Respond));
    assert_eq!(DatastoreWriter::delete_message_response_config(&mut cache, 7, 8), Ok(()));
    assert_eq!(read_through(&cache, 7, 8), Err(Error::CacheEntryNotFound));
    assert_eq!(DatastoreWriter::insert_logging_channel(&mut cache, 7, 70), Ok(()));
    assert_eq!(DatastoreReader::get_logging_channel(&cache, 7), Ok(70));
    assert_eq!(DatastoreWriter::delete_logging_channel(&mut cache, 7), Ok(()));
    assert_eq!(DatastoreReader::get_logging_channel(&cache, 7), Err(Error::CacheEntryNotFound));
}
