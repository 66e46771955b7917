use vstd::prelude::*;

use crate::errors::Error;
use crate::models::MessageResponse;

verus! {

/// The reply sent to a member who posts in a channel configured to `Respond`.
pub const LOST_REPLY: &'static str = "Are you lost? You shouldn't be in this channel...";

/// The audit reason given for a kick or a ban.
pub const HONEYPOT_REASON: &'static str = "posted in a honeypot channel";

/// How many days of the banned member's messages a ban deletes.
pub const BAN_DELETE_MESSAGE_DAYS: u8 = 7;

/// The action taken on a message, given who wrote it, who the bot is, and
/// what the lookup of its channel gave: the bot never acts on itself, and a
/// channel without a readable configuration gets `Nothing`.
pub open spec fn action_of(author_id: u64, current_user_id: u64, looked_up: Result<MessageResponse, Error>) -> MessageResponse {
    if author_id == current_user_id {
        MessageResponse::Nothing
    } else {
        match looked_up {
            Ok(v) => v,
            Err(_) => MessageResponse::Nothing,
        }
    }
}

/// Decides what to do about each new message in a guild channel.
pub struct HoneybotEventHandler {
    current_user_id: u64,
}

impl HoneybotEventHandler {
    /// The bot's own user identifier.
    pub closed spec fn current_user(&self) -> u64 {
        self.current_user_id
    }

    pub fn new(current_user_id: u64) -> (r: HoneybotEventHandler)
        ensures
            r.current_user() == current_user_id,
    {
        HoneybotEventHandler { current_user_id }
    }

    /// Whether a message by `author_id` needs its channel looked up at all:
    /// the bot's own messages never do.
    pub fn needs_lookup(&self, author_id: u64) -> (r: bool)
        ensures
            r == (author_id != self.current_user()),
    {
        author_id != self.current_user_id
    }

    /// The action to take on a message by `author_id`, given what the lookup
    /// of its channel gave.
    pub fn action_for(&self, author_id: u64, looked_up: Result<MessageResponse, Error>) -> (r: MessageResponse)
        ensures
            r == action_of(author_id, self.current_user(), looked_up),
    {
        if author_id == self.current_user_id {
            MessageResponse::Nothing
        } else {
            match looked_up {
                Ok(v) => v,
                Err(_) => MessageResponse::Nothing,
            }
        }
    }
}

} // verus!
