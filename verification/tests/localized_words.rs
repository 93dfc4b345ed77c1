use myconnect::clipboard::{self, ClipboardSyncError};
use myconnect::demo::{senders, tv_step, TvStep};
use myconnect::dialog::{cancel_words, counter_words, Field};
use myconnect::error::{code_words, error_words, file_failures_words, CoreError, FileBatch};
use myconnect::findmyphone::{action_words as ring_words, report_words};
use myconnect::notifications::{
    self, action_ran_words, action_words, announcement_words, dismissed_words, page_note_words, page_words,
    replied_words, reply_problem_words, reply_prompt_words, NotificationError,
};
use myconnect::device::{DeviceReachability, DeviceSnapshot, DeviceType};
use myconnect::shell::window_title_words;
use myconnect::words::{Arg, Words};

/// A message as `id` and its arguments, numbers and texts alike shown as text.
fn shown(words: &Words) -> (String, Vec<(String, String)>) {
    let args = words
        .args
        .iter()
        .map(|(name, arg)| {
            let value = match arg {
                Arg::Text(t) => t.clone(),
                Arg::Number(n) => format!("#{n}"),
            };
            (name.to_string(), value)
        })
        .collect();
    (words.id.to_string(), args)
}

fn id(words: &Words) -> &str {
    words.id
}

#[test]
fn core_errors_name_their_message() {
    assert_eq!(id(&code_words("device_not_connected")), "error-device_not_connected");
    assert_eq!(id(&code_words("invalid_pairing_direction")), "error-invalid_pairing_state");
    assert_eq!(id(&code_words("payload_too_large")), "error-transfer_too_large");
    assert_eq!(
        shown(&code_words("teapot")),
        ("error-unknown".to_string(), vec![("code".to_string(), "teapot".to_string())])
    );
    assert_eq!(id(&error_words(&CoreError::InvalidDiscoveryAddress)), "error-invalid_address");
}

#[test]
fn failed_batches_name_the_file_or_count_them() {
    let one = vec![("/tmp/a/photo.jpg".to_string(), "It’s gone.".to_string())];
    assert_eq!(
        shown(&file_failures_words(FileBatch::Send, &one).unwrap()),
        (
            "error-send-file-failed".to_string(),
            vec![("file".to_string(), "photo.jpg".to_string()), ("reason".to_string(), "It’s gone.".to_string())]
        )
    );
    let two = vec![one[0].clone(), ("/tmp/b.txt".to_string(), "Too big.".to_string())];
    assert_eq!(
        shown(&file_failures_words(FileBatch::Upload, &two).unwrap()),
        (
            "error-upload-files-failed".to_string(),
            vec![("count".to_string(), "#2".to_string()), ("reason".to_string(), "It’s gone.".to_string())]
        )
    );
    assert!(file_failures_words(FileBatch::Send, &[]).is_none());
}

#[test]
fn features_name_their_messages() {
    assert_eq!(id(&clipboard::error_words(&ClipboardSyncError::Empty)), "clipboard-error-clipboard_empty");
    assert_eq!(
        id(&clipboard::error_words(&ClipboardSyncError::Core(CoreError::RequestTimeout))),
        "error-request_timeout"
    );
    assert_eq!(id(&ring_words()), "findmyphone-action");
    let (said, title) = report_words("Pixel", Ok(()));
    assert_eq!(shown(&said), ("findmyphone-sent".to_string(), vec![("name".to_string(), "Pixel".to_string())]));
    assert!(title.is_none());
    let (said, title) = report_words("Pixel", Err(CoreError::DeviceNotConnected));
    assert_eq!(id(&said), "error-device_not_connected");
    assert_eq!(id(&title.unwrap()), "findmyphone-failed");
    assert_eq!(id(&cancel_words()), "dialog-cancel");
    assert_eq!(id(&window_title_words()), "app-window-title");
    let field = Field {
        value: "Desk".to_string(),
        label: None,
        hint: None,
        helper: None,
        max_len: Some(32),
        validated: false,
        selection: None,
    };
    assert_eq!(
        shown(&counter_words(&field).unwrap()),
        (
            "dialog-counter".to_string(),
            vec![("count".to_string(), "#4".to_string()), ("max".to_string(), "#32".to_string())]
        )
    );
}

#[test]
fn notifications_name_their_messages() {
    assert_eq!(
        shown(&action_words(3)),
        ("notifications-action".to_string(), vec![("count".to_string(), "#3".to_string())])
    );
    let (title, body, label, confirm) = reply_prompt_words("Ana");
    assert_eq!(
        (id(&title), shown(&body), id(&label), id(&confirm)),
        (
            "notifications-reply-title",
            ("notifications-reply-to".to_string(), vec![("title".to_string(), "Ana".to_string())]),
            "notifications-reply-label",
            "notifications-reply-send"
        )
    );
    assert_eq!(id(&reply_problem_words("  ").unwrap()), "notifications-error-empty_reply");
    assert!(reply_problem_words("Yes!").is_none());
    assert_eq!(id(&replied_words(Ok(())).0), "notifications-reply-sent");
    let (why, title) = replied_words(Err(NotificationError::NotRepliable));
    assert_eq!((id(&why), id(&title.unwrap())), ("notifications-error-notification_not_repliable", "notifications-reply-failed"));
    let (why, title) = action_ran_words("Archive", Err(NotificationError::UnknownAction)).unwrap();
    assert_eq!(id(&why), "notifications-error-unknown_notification_action");
    assert_eq!(shown(&title), ("notifications-action-failed".to_string(), vec![("action".to_string(), "Archive".to_string())]));
    assert_eq!(id(&dismissed_words(Err(NotificationError::NotFound)).unwrap().1), "notifications-dismiss-failed");
    assert!(dismissed_words(Ok(())).is_none());
    assert_eq!(
        shown(&announcement_words(None, "Messages", "Peer")),
        (
            "notifications-announce-title".to_string(),
            vec![("title".to_string(), "Messages".to_string()), ("name".to_string(), "Peer".to_string())]
        )
    );
    let (page, reply, dismiss) = page_words();
    assert_eq!((id(&page), id(&reply), id(&dismiss)), ("notifications-title", "notifications-reply", "notifications-dismiss"));
    let device = DeviceSnapshot {
        device_id: "peer".to_string(),
        device_name: "Peer".to_string(),
        device_type: DeviceType::Phone,
        paired: true,
        reachability: DeviceReachability::Discovered,
        incoming_capabilities: Vec::new(),
        outgoing_capabilities: vec![notifications::PACKET_TYPE.to_string()],
        battery: None,
    };
    let (line, detail) = page_note_words(&device, 0).unwrap();
    assert_eq!((id(&line), id(&detail)), ("notifications-offline", "notifications-offline-detail"));
    let online = DeviceSnapshot { reachability: DeviceReachability::Connected, ..device };
    let (line, detail) = page_note_words(&online, 0).unwrap();
    assert_eq!((shown(&line).1, id(&detail)), (vec![("name".to_string(), "Peer".to_string())], "notifications-empty-detail"));
    assert!(page_note_words(&online, 2).is_none());
}

#[test]
fn the_demo_tv_comes_and_goes_and_connected_devices_send() {
    assert_eq!(tv_step(0), TvStep::Stay);
    assert_eq!(tv_step(1), TvStep::Connect);
    assert_eq!(tv_step(2), TvStep::Disconnect);
    assert_eq!(tv_step(7), TvStep::Connect);
    let devices = vec![("phone".to_string(), true), ("laptop".to_string(), false), ("tv".to_string(), true)];
    assert_eq!(senders(&devices), ["phone".to_string(), "tv".to_string()]);
}
