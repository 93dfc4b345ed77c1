use myconnect::clipboard::{describe_error, ClipboardSyncError};
use myconnect::error::CoreError;
use myconnect::notifications::{card_buttons, card_dismiss, Message};

/// The clipboard codes, worded as the Flutter app worded them.
#[test]
fn clipboard_codes_read_like_the_flutter_app() {
    assert_eq!(describe_error(&ClipboardSyncError::Empty), "There is no text on the clipboard to send.");
    assert_eq!(
        describe_error(&ClipboardSyncError::TextTooLarge { limit: 1 }),
        "The clipboard text is too long to send."
    );
    assert_eq!(
        describe_error(&ClipboardSyncError::Core(CoreError::UnsupportedByPeer)),
        "The device doesn’t support that."
    );
}

#[test]
fn a_notification_card_offers_reply_then_its_actions() {
    let actions = vec!["Mark as read".to_string(), "Archive".to_string()];
    let buttons = card_buttons("d1", "n7", "Messages", None, true, &actions);
    assert_eq!(buttons.len(), 3);
    assert!(matches!(&buttons[0], Message::Reply { device_id, id, title }
        if device_id == "d1" && id == "n7" && title == "Messages"));
    assert!(matches!(&buttons[1], Message::Action { action, .. } if action == "Mark as read"));
    assert!(matches!(&buttons[2], Message::Action { action, .. } if action == "Archive"));
    assert!(card_buttons("d1", "n7", "Messages", Some("Ana"), false, &Vec::new()).is_empty());
    let buttons = card_buttons("d1", "n7", "Messages", Some("Ana"), true, &Vec::new());
    assert!(matches!(&buttons[0], Message::Reply { title, .. } if title == "Ana"));
    assert!(matches!(card_dismiss("d1", "n7", true), Some(Message::Dismiss { id, .. }) if id == "n7"));
    assert!(card_dismiss("d1", "n7", false).is_none());
}
