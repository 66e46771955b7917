use honeybot::errors::Error;
use honeybot::models::CORRUPT_CODE_DETAIL;
use honeybot::models::{DiscordMessageResponse, MessageResponse, MessageResponseConfig};

const ALL: [MessageResponse; 4] = [
    MessageResponse::Ban,
    MessageResponse::Kick,
    MessageResponse::Respond,
    MessageResponse::Nothing,
];

#[test]
fn codes_follow_the_durable_table() {
    assert_eq!(MessageResponse::Ban.code(), 0);
    assert_eq!(MessageResponse::Kick.code(), 1);
    assert_eq!(MessageResponse::Respond.code(), 2);
    assert_eq!(MessageResponse::Nothing.code(), 3);
}

#[test]
fn every_action_round_trips_through_its_code() {
    for r in ALL {
        assert_eq!(MessageResponse::from_code(r.code()), Ok(r));
    }
}

#[test]
fn out_of_range_codes_fail_to_decode() {
    assert_eq!(MessageResponse::from_code(4), Err(Error::DatabaseUnexpectedErr(CORRUPT_CODE_DETAIL.to_string())));
    assert_eq!(MessageResponse::from_code(-1), Err(Error::DatabaseUnexpectedErr(CORRUPT_CODE_DETAIL.to_string())));
    assert_eq!(
        MessageResponse::from_code(i64::MAX),
        Err(Error::DatabaseUnexpectedErr(CORRUPT_CODE_DETAIL.to_string()))
    );
}

#[test]
fn choices_convert_to_actions() {
    let b: MessageResponse = DiscordMessageResponse::Ban.into();
    let k: MessageResponse = DiscordMessageResponse::Kick.into();
    let r: MessageResponse = DiscordMessageResponse::Respond.into();
    let n: MessageResponse = DiscordMessageResponse::Nothing.into();
    assert_eq!(b, MessageResponse::Ban);
    assert_eq!(k, MessageResponse::Kick);
    assert_eq!(r, MessageResponse::Respond);
    assert_eq!(n, MessageResponse::Nothing);
}

#[test]
fn choice_names() {
    assert_eq!(DiscordMessageResponse::Ban.name(), "ban");
    assert_eq!(DiscordMessageResponse::Kick.name(), "kick");
    assert_eq!(DiscordMessageResponse::Respond.name(), "respond");
    assert_eq!(DiscordMessageResponse::Nothing.name(), "nothing");
}

#[test]
fn consequence_words() {
    assert_eq!(MessageResponse::Ban.consequence(), "banned");
    assert_eq!(MessageResponse::Kick.consequence(), "kicked");
    assert_eq!(MessageResponse::Respond.consequence(), "mocked");
    assert_eq!(MessageResponse::Nothing.consequence(), "ignored");
}

#[test]
fn config_holds_its_fields() {
    let c = MessageResponseConfig { guild_id: 1, channel_id: 2, response: MessageResponse::Kick };
    assert_eq!(c.guild_id, 1);
    assert_eq!(c.channel_id, 2);
    assert_eq!(c.response, MessageResponse::Kick);
}
