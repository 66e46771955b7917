use vstd::prelude::*;

use crate::errors::Error;
use crate::models::{is_corrupt_code_error, response_of_code, MessageResponse};

verus! {

/// Where the durable store lives and where its schema migrations are read from.
pub struct DatabaseOptions {
    pub filename: String,
    pub migrations_path: String,
}

/// Reads the action of a channel.
pub const SELECT_MESSAGE_RESPONSE: &'static str = "SELECT response FROM message_responses WHERE guild_id = ? AND channel_id = ?";

/// Inserts a channel's action, or replaces it when the channel already has one.
pub const UPSERT_MESSAGE_RESPONSE: &'static str = "INSERT INTO message_responses (guild_id, channel_id, response) VALUES (?, ?, ?) ON CONFLICT (guild_id, channel_id) DO UPDATE SET response = excluded.response";

/// Deletes the action of a channel.
pub const DELETE_MESSAGE_RESPONSE: &'static str = "DELETE FROM message_responses WHERE guild_id = ? AND channel_id = ?";

/// Reads the logging channel of a guild.
pub const SELECT_LOGGING_CHANNEL: &'static str = "SELECT channel_id FROM logging_channels WHERE guild_id = ?";

/// Inserts a guild's logging channel, or replaces it when the guild already has one.
pub const UPSERT_LOGGING_CHANNEL: &'static str = "INSERT INTO logging_channels (guild_id, channel_id) VALUES (?, ?) ON CONFLICT (guild_id) DO UPDATE SET channel_id = excluded.channel_id";

/// Deletes the logging channel of a guild.
pub const DELETE_LOGGING_CHANNEL: &'static str = "DELETE FROM logging_channels WHERE guild_id = ?";

/// What the durable store answers to a lookup of `k` when its table is `t`.
pub open spec fn stored<K, V>(t: Map<K, V>, k: K) -> Result<V, Error> {
    if t.contains_key(k) {
        Ok(t[k])
    } else {
        Err(Error::DatabaseEntryNotFound)
    }
}

/// What the durable store answers to a delete of `k` when its table is `t`.
pub open spec fn removed<K, V>(t: Map<K, V>, k: K) -> Result<(), Error> {
    if t.contains_key(k) {
        Ok(())
    } else {
        Err(Error::DatabaseEntryNotFound)
    }
}

/// An identifier as the store's signed integer column holds it (same bits).
pub open spec fn column_of_id(id: u64) -> i64 {
    id as i64
}

/// An identifier read back from the store's signed integer column.
pub open spec fn id_of_column(v: i64) -> u64 {
    v as u64
}

/// Writes an identifier into the store's signed integer column.
pub fn id_to_column(id: u64) -> (r: i64)
    ensures
        r == column_of_id(id),
        id_of_column(r) == id,
{
    proof {
        assert(((id as i64) as u64) == id) by (bit_vector);
    }
    id as i64
}

/// Reads an identifier back from the store's signed integer column.
pub fn id_from_column(v: i64) -> (r: u64)
    ensures
        r == id_of_column(v),
        column_of_id(r) == v,
{
    proof {
        assert(((v as u64) as i64) == v) by (bit_vector);
    }
    v as u64
}

/// The answer to a channel's lookup, from what the query gave: the stored
/// response code of the row, no row, or the engine's failure text.
pub fn message_response_from_row(row: Result<Option<i64>, String>) -> (r: Result<MessageResponse, Error>)
    ensures
        match row {
            Err(detail) => r == Err::<MessageResponse, Error>(Error::DatabaseUnexpectedErr(detail)),
            Ok(None) => r == Err::<MessageResponse, Error>(Error::DatabaseEntryNotFound),
            Ok(Some(code)) => match response_of_code(code as int) {
                Some(v) => r == Ok::<MessageResponse, Error>(v),
                None => r is Err && is_corrupt_code_error(r->Err_0),
            },
        },
{
    match row {
        Err(detail) => Err(Error::DatabaseUnexpectedErr(detail)),
        Ok(None) => Err(Error::DatabaseEntryNotFound),
        Ok(Some(code)) => MessageResponse::from_code(code),
    }
}

/// The answer to a guild's logging-channel lookup, from what the query gave:
/// the stored channel of the row, no row, or the engine's failure text.
pub fn logging_channel_from_row(row: Result<Option<i64>, String>) -> (r: Result<u64, Error>)
    ensures
        match row {
            Err(detail) => r == Err::<u64, Error>(Error::DatabaseUnexpectedErr(detail)),
            Ok(None) => r == Err::<u64, Error>(Error::DatabaseEntryNotFound),
            Ok(Some(v)) => r == Ok::<u64, Error>(id_of_column(v)),
        },
{
    match row {
        Err(detail) => Err(Error::DatabaseUnexpectedErr(detail)),
        Ok(None) => Err(Error::DatabaseEntryNotFound),
        Ok(Some(v)) => Ok(id_from_column(v)),
    }
}

/// The answer to an upsert, from what the statement gave: the number of rows
/// it touched, or the engine's failure text.
pub fn upsert_outcome(result: Result<u64, String>) -> (r: Result<(), Error>)
    ensures
        match result {
            Err(detail) => r == Err::<(), Error>(Error::DatabaseUnexpectedErr(detail)),
            Ok(_) => r == Ok::<(), Error>(()),
        },
{
    match result {
        Err(detail) => Err(Error::DatabaseUnexpectedErr(detail)),
        Ok(_) => Ok(()),
    }
}

/// The answer to a delete, from what the statement gave: the number of rows
/// it removed (none means there was nothing to delete), or the engine's
/// failure text.
pub fn delete_outcome(result: Result<u64, String>) -> (r: Result<(), Error>)
    ensures
        match result {
            Err(detail) => r == Err::<(), Error>(Error::DatabaseUnexpectedErr(detail)),
            Ok(n) => if n == 0 {
                r == Err::<(), Error>(Error::DatabaseEntryNotFound)
            } else {
                r == Ok::<(), Error>(())
            },
        },
{
    match result {
        Err(detail) => Err(Error::DatabaseUnexpectedErr(detail)),
        Ok(n) => if n == 0 {
            Err(Error::DatabaseEntryNotFound)
        } else {
            Ok(())
        },
    }
}

} // verus!
