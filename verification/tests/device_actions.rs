use myconnect::clipboard;
use myconnect::device::{DeviceReachability, DeviceSnapshot, DeviceType};
use myconnect::features::{self, DropAction, Feature};
use myconnect::findmyphone;
use myconnect::ping;
use myconnect::share;

fn device(name: &str) -> DeviceSnapshot {
    DeviceSnapshot {
        device_id: "740bd4b9b4184ee497d6caf1da8151be".to_string(),
        device_name: name.to_string(),
        device_type: DeviceType::Phone,
        paired: true,
        reachability: DeviceReachability::Connected,
        incoming_capabilities: Vec::new(),
        outgoing_capabilities: Vec::new(),
        battery: None,
    }
}

#[test]
fn send_is_listed_if_supported_and_enabled_if_paired_and_connected() {
    let mut device = device("Pixel");
    assert!(clipboard::device_actions(&device).is_empty(), "not listed without support");
    device.incoming_capabilities = vec![clipboard::PACKET_TYPE.to_string()];
    device.reachability = DeviceReachability::Unavailable;
    let actions = clipboard::device_actions(&device);
    assert_eq!(actions.len(), 1);
    assert_eq!(actions[0].label, "Send clipboard");
    assert!(!actions[0].enabled, "listed, but disabled while unreachable");
    device.reachability = DeviceReachability::Connected;
    assert!(clipboard::device_actions(&device)[0].enabled);
    device.paired = false;
    assert!(!clipboard::device_actions(&device)[0].enabled);
}

#[test]
fn ping_is_enabled_only_for_a_connected_device_that_takes_pings() {
    let mut device = device("Pixel");
    let ping_action = |d: &DeviceSnapshot| {
        let mut actions = features::ping_device_actions(d);
        assert_eq!(actions.len(), 1);
        actions.remove(0)
    };
    assert!(!ping_action(&device).enabled, "listed, but disabled");
    device.incoming_capabilities = vec![ping::PACKET_TYPE.to_string()];
    assert!(ping_action(&device).enabled);
    device.reachability = DeviceReachability::Discovered;
    assert!(!ping_action(&device).enabled);
}

#[test]
fn ring_is_enabled_only_for_a_connected_device_that_can_ring() {
    let ring_action = |d: &DeviceSnapshot| {
        let mut actions = features::findmyphone_device_actions(d);
        assert_eq!(actions.len(), 1);
        actions.remove(0)
    };
    let mut device = device("Pixel");
    device.incoming_capabilities = vec![ping::PACKET_TYPE.to_string()];
    assert!(!ring_action(&device).enabled, "listed, but disabled");
    assert!(!ring_action(&device).visible_in_tray);
    device.incoming_capabilities = vec![findmyphone::REQUEST_PACKET_TYPE.to_string()];
    assert!(ring_action(&device).enabled);
    assert!(ring_action(&device).visible_in_tray);
    device.reachability = DeviceReachability::Unavailable;
    assert!(!ring_action(&device).enabled);
}

#[test]
fn sending_is_enabled_and_drops_taken_only_while_the_device_takes_files() {
    let send_action = |d: &DeviceSnapshot| {
        let mut actions = share::device_actions(d);
        assert_eq!(actions.len(), 1);
        actions.remove(0)
    };
    let mut device = device("Pixel");
    assert!(!send_action(&device).enabled, "listed, but disabled");
    assert!(share::drop_target(&device).is_none());

    device.incoming_capabilities = vec![share::PACKET_TYPE.to_string()];
    assert!(send_action(&device).enabled);
    let target = share::drop_target(&device).unwrap();
    assert_eq!(target.label, "Drop to send to Pixel");
    let Feature::Share(share::Message::Send { device_id, name, paths }) =
        target.on_drop(vec!["/tmp/a.txt".to_string()])
    else {
        panic!("a drop sends");
    };
    assert_eq!((device_id, name), (device.device_id.clone(), "Pixel".to_string()));
    assert_eq!(paths, ["/tmp/a.txt".to_string()]);
    assert!(matches!(target.action, DropAction::Send { .. }));

    device.reachability = DeviceReachability::Discovered;
    assert!(!send_action(&device).enabled);
    assert!(share::drop_target(&device).is_none());
}

#[test]
fn the_picker_names_the_device() {
    let (title, confirm) = share::pick_request("Pixel");
    assert_eq!(title, "Send files to Pixel");
    assert_eq!(confirm, "Send");
}

#[test]
fn the_clipboard_report_says_so_or_why_not() {
    let sent = clipboard::sent("Peer", Some(Ok(())));
    assert_eq!(sent, Ok("Sent the clipboard to Peer.".to_string()));
    assert_eq!(
        clipboard::report("Peer", &sent),
        ("Sent the clipboard to Peer.".to_string(), None)
    );
    let empty = clipboard::sent("Peer", Some(Err(clipboard::ClipboardSyncError::Empty)));
    assert_eq!(
        clipboard::report("Peer", &empty),
        (
            "There is no text on the clipboard to send.".to_string(),
            Some("Couldn’t send the clipboard to Peer".to_string())
        )
    );
}

#[test]
fn failed_sends_are_summed_up_once() {
    let refused = || Err(share::SendPathError::Core(myconnect::error::CoreError::UnsupportedByPeer));
    let results = vec![
        ("/tmp/x/photo.jpg".to_string(), refused()),
        ("/tmp/x".to_string(), refused()),
    ];
    assert_eq!(
        share::sent_failures(&results).as_deref(),
        Some("Couldn’t send 2 files: The device doesn’t support that.")
    );
    let gone = vec![(
        "/tmp/x/gone.txt".to_string(),
        Err(share::SendPathError::File("No such file or directory".to_string())),
    )];
    assert_eq!(
        share::sent_failures(&gone).as_deref(),
        Some("Couldn’t send gone.txt: The file couldn’t be read.")
    );
    let fine = vec![("/tmp/x/a.txt".to_string(), Ok(()))];
    assert_eq!(share::sent_failures(&fine), None);
}

#[test]
fn a_device_gone_while_picking_says_so() {
    assert_eq!(
        share::check_still_connected(None, "Pixel"),
        Some((
            "Couldn’t send to Pixel".to_string(),
            "The device is not connected right now.".to_string()
        ))
    );
    let d = device("Pixel");
    assert_eq!(share::check_still_connected(Some(&d), "Pixel"), None);
}

#[test]
fn pings_report_only_what_happened() {
    assert_eq!(ping::report("Peer", Ok(())), ("Pinged Peer.".to_string(), None));
    assert_eq!(
        ping::report("Pixel", Err(myconnect::error::CoreError::DeviceNotFound)),
        (
            "That device is no longer known.".to_string(),
            Some("Couldn’t ping Pixel".to_string())
        )
    );
    assert_eq!(
        ping::notification("Pixel", Some("Dinner!")),
        ("Pixel".to_string(), "Dinner!".to_string())
    );
    assert_eq!(ping::notification("Pixel", None).1, "Ping!");
}

#[test]
fn ringing_reports_what_happened() {
    assert_eq!(findmyphone::report("Peer", Ok(())), ("Asked Peer to ring.".to_string(), None));
    assert_eq!(
        findmyphone::report("Peer", Err(myconnect::error::CoreError::UnsupportedByPeer)),
        (
            "The device doesn’t support that.".to_string(),
            Some("Couldn’t ring Peer".to_string())
        )
    );
}
