use honeybot::errors::Error;
use honeybot::event_handler::{HoneybotEventHandler, BAN_DELETE_MESSAGE_DAYS};
use honeybot::models::MessageResponse;

#[test]
fn own_messages_are_ignored() {
    let h = HoneybotEventHandler::new(42);
    assert!(!h.needs_lookup(42));
    assert_eq!(h.action_for(42, Ok(MessageResponse::Ban)), MessageResponse::Nothing);
}

#[test]
fn others_get_the_configured_action() {
    let h = HoneybotEventHandler::new(42);
    assert!(h.needs_lookup(7));
    assert_eq!(h.action_for(7, Ok(MessageResponse::Kick)), MessageResponse::Kick);
    assert_eq!(h.action_for(7, Ok(MessageResponse::Respond)), MessageResponse::Respond);
}

#[test]
fn unconfigured_or_failed_lookup_does_nothing() {
    let h = HoneybotEventHandler::new(42);
    assert_eq!(h.action_for(7, Err(Error::DatabaseEntryNotFound)), MessageResponse::Nothing);
    assert_eq!(
        h.action_for(7, Err(Error::DatabaseUnexpectedErr("x".to_string()))),
        MessageResponse::Nothing
    );
    assert_eq!(BAN_DELETE_MESSAGE_DAYS, 7);
}
