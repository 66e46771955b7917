use vstd::prelude::*;

use vstd::string::to_string_from_display_ensures_for_str;

use crate::errors::Error;

verus! {

/// The action taken when a message appears in a monitored channel.
#[derive(Debug, Clone, Copy, PartialEq, Eq, Structural)]
pub enum MessageResponse {
    Ban,
    Kick,
    Respond,
    Nothing,
}

/// One channel's configuration: the action for messages posted in it.
#[derive(Debug, Clone, Copy, PartialEq, Eq, Structural)]
pub struct MessageResponseConfig {
    pub guild_id: u64,
    pub channel_id: u64,
    pub response: MessageResponse,
}

/// The detail of the storage error reported for a stored code outside the table.
pub const CORRUPT_CODE_DETAIL: &'static str = "stored response code is out of range";

/// The storage error reported for a stored code outside the table.
pub open spec fn is_corrupt_code_error(e: Error) -> bool {
    match e {
        Error::DatabaseUnexpectedErr(detail) => detail@ == CORRUPT_CODE_DETAIL@,
        _ => false,
    }
}

/// The durable integer code of each action.
pub open spec fn code_of(r: MessageResponse) -> int {
    match r {
        MessageResponse::Ban => 0,
        MessageResponse::Kick => 1,
        MessageResponse::Respond => 2,
        MessageResponse::Nothing => 3,
    }
}

/// The action that a durable code stands for, if any.
pub open spec fn response_of_code(code: int) -> Option<MessageResponse> {
    if code == 0 {
        Some(MessageResponse::Ban)
    } else if code == 1 {
        Some(MessageResponse::Kick)
    } else if code == 2 {
        Some(MessageResponse::Respond)
    } else if code == 3 {
        Some(MessageResponse::Nothing)
    } else {
        None
    }
}

impl MessageResponse {
    /// The code under which this action is stored.
    pub fn code(self) -> (c: i64)
        ensures
            c == code_of(self),
    {
        match self {
            MessageResponse::Ban => 0,
            MessageResponse::Kick => 1,
            MessageResponse::Respond => 2,
            MessageResponse::Nothing => 3,
        }
    }

    /// Reads a stored code back; a code outside the table is a storage error
    /// (the stored data is corrupt), never a default action.
    pub fn from_code(code: i64) -> (r: Result<MessageResponse, Error>)
        ensures
            match response_of_code(code as int) {
                Some(v) => r == Ok::<MessageResponse, Error>(v),
                None => r is Err && is_corrupt_code_error(r->Err_0),
            },
    {
        if code == 0 {
            Ok(MessageResponse::Ban)
        } else if code == 1 {
            Ok(MessageResponse::Kick)
        } else if code == 2 {
            Ok(MessageResponse::Respond)
        } else if code == 3 {
            Ok(MessageResponse::Nothing)
        } else {
            let detail = CORRUPT_CODE_DETAIL.to_string();
            proof {
                to_string_from_display_ensures_for_str(CORRUPT_CODE_DETAIL, detail);
            }
            Err(Error::DatabaseUnexpectedErr(detail))
        }
    }
}

/// The action as the command surface offers it for choice.
#[derive(Debug, Clone, Copy, PartialEq, Eq, Structural)]
pub enum DiscordMessageResponse {
    Ban,
    Kick,
    Respond,
    Nothing,
}

impl DiscordMessageResponse {
    /// The name under which the command surface lists the choice.
    pub fn name(self) -> (r: &'static str)
        ensures
            r@ == choice_name(self),
    {
        match self {
            DiscordMessageResponse::Ban => "ban",
            DiscordMessageResponse::Kick => "kick",
            DiscordMessageResponse::Respond => "respond",
            DiscordMessageResponse::Nothing => "nothing",
        }
    }
}

/// The listed name of each choice.
pub open spec fn choice_name(d: DiscordMessageResponse) -> Seq<char> {
    match d {
        DiscordMessageResponse::Ban => "ban"@,
        DiscordMessageResponse::Kick => "kick"@,
        DiscordMessageResponse::Respond => "respond"@,
        DiscordMessageResponse::Nothing => "nothing"@,
    }
}

/// The action that each choice stands for.
pub open spec fn response_of_choice(d: DiscordMessageResponse) -> MessageResponse {
    match d {
        DiscordMessageResponse::Ban => MessageResponse::Ban,
        DiscordMessageResponse::Kick => MessageResponse::Kick,
        DiscordMessageResponse::Respond => MessageResponse::Respond,
        DiscordMessageResponse::Nothing => MessageResponse::Nothing,
    }
}

impl From<DiscordMessageResponse> for MessageResponse {
    fn from(d: DiscordMessageResponse) -> (r: MessageResponse) {
        match d {
            DiscordMessageResponse::Ban => MessageResponse::Ban,
            DiscordMessageResponse::Kick => MessageResponse::Kick,
            DiscordMessageResponse::Respond => MessageResponse::Respond,
            DiscordMessageResponse::Nothing => MessageResponse::Nothing,
        }
    }
}

impl vstd::std_specs::convert::FromSpecImpl<DiscordMessageResponse> for MessageResponse {
    open spec fn obeys_from_spec() -> bool {
        true
    }

    open spec fn from_spec(d: DiscordMessageResponse) -> MessageResponse {
        response_of_choice(d)
    }
}

/// What a member who posts in the channel is warned will happen to them.
pub open spec fn consequence_of(r: MessageResponse) -> Seq<char> {
    match r {
        MessageResponse::Ban => "banned"@,
        MessageResponse::Kick => "kicked"@,
        MessageResponse::Respond => "mocked"@,
        MessageResponse::Nothing => "ignored"@,
    }
}

impl MessageResponse {
    /// The word that tells members what happens to one who posts in the channel.
    pub fn consequence(self) -> (r: &'static str)
        ensures
            r@ == consequence_of(self),
    {
        match self {
            MessageResponse::Ban => "banned",
            MessageResponse::Kick => "kicked",
            MessageResponse::Respond => "mocked",
            MessageResponse::Nothing => "ignored",
        }
    }
}

/// Every action survives a trip through its code, and only the four codes
/// of the table decode to an action.
pub proof fn lemma_code_round_trip(r: MessageResponse, code: int)
    ensures
        response_of_code(code_of(r)) == Some(r),
        0 <= code_of(r) < 4,
        response_of_code(code) is Some <==> 0 <= code < 4,
        response_of_code(code) is Some ==> code_of(response_of_code(code)->0) == code,
{
}

} // verus!
