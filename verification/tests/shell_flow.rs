use myconnect::dropping::chooser;
use myconnect::dropping::recipients;
use myconnect::features::Features;
use myconnect::dropping::{drop_hint, CHOOSE_LABEL};
use myconnect::notices::Showing;
use myconnect::shell::{key_command, Key, KeyCommand, Phase};
use myconnect::address::{check_address, parse_ipv4};
use myconnect::dialog::{Dialog, Dialogs, Step, Submit};
use myconnect::drop::{Drag, Dropped};
use myconnect::dropping::{cancel_key, drop_on, dropped_here, dropped_on_tray, file_dropped, file_hovered, sendable};
use myconnect::features::{DropAction, DropTarget, Feature};
use myconnect::notices::{received_files, received_notices, transfer_statuses, Notices, Transfer, TransferDirection};
use myconnect::notifications::{
    self, action_ran, announcement, dismissed, page_note, replied, reply_problem, Notification, NotificationError, NotificationsUi,
};
use myconnect::device::{DeviceReachability, DeviceSnapshot, DeviceType};
use myconnect::route::Route;
use myconnect::share;
use myconnect::shell::{
    desktop_event, entering_add_device, notify, report, start_on_login_set, toast, tray_chose, After, Chose,
    DesktopEvent, Origin, Requests, Said, Search, Window, WindowAction,
};
use myconnect::tray::TrayCommand;

fn open_window() -> Window {
    Window::at_start(false, true)
}

#[test]
fn closing_the_window_keeps_the_app_in_the_tray_and_the_tray_shows_it() {
    let mut window = open_window();
    assert_eq!(window.close_requested(None), WindowAction::ReadThenHide);
    assert_eq!(window.close_to_tray(), WindowAction::Close);
    assert!(!window.open);
    assert!(!window.quitting, "the daemon keeps running");
    assert!(matches!(desktop_event(&mut window, DesktopEvent::TrayClicked), Chose::Window(WindowAction::Open)));
    assert!(window.open && window.is_focused());
}

#[test]
fn closing_the_window_quits_when_close_to_tray_is_off() {
    let mut window = open_window();
    assert_eq!(window.close_requested(Some(false)), WindowAction::ReadThenExit);
    assert!(window.quitting);
    // The next launch shows it again.
    assert!(window.shows_next_time());
}

#[test]
fn without_a_tray_closing_quits_and_the_window_always_shows() {
    let mut window = Window::at_start(true, false);
    assert!(window.open, "shown, though it was asked to start in the tray");
    assert_eq!(window.close_requested(Some(true)), WindowAction::ReadThenExit);
    assert!(window.quitting);
}

#[test]
fn a_tray_host_going_away_brings_the_window_back() {
    let mut window = open_window();
    window.close_requested(None);
    window.close_to_tray();
    assert!(!window.open);
    assert!(matches!(desktop_event(&mut window, DesktopEvent::TrayAvailable(false)), Chose::Window(WindowAction::Open)));
    assert!(window.open);
    assert_eq!(window.close_requested(None), WindowAction::ReadThenExit, "nothing could show it again");
}

#[test]
fn quitting_from_the_tray_saves_the_window_and_starts_hidden_next_time() {
    let mut window = open_window();
    window.close_requested(None);
    window.close_to_tray();
    assert!(matches!(tray_chose(&mut window, TrayCommand::Quit), Chose::Window(WindowAction::Exit)));
    assert!(window.quitting);
    assert!(!window.shows_next_time());
    // Asked again, by a signal: nothing more happens.
    assert!(matches!(desktop_event(&mut window, DesktopEvent::QuitRequested), Chose::Window(WindowAction::Nothing)));
    let next = Window::at_start(true, true);
    assert!(!next.open, "it starts in the tray");
}

#[test]
fn the_window_placement_is_saved_once_it_stays_put() {
    let mut window = open_window();
    let first = window.moved();
    let last = window.moved();
    // Only the last change reads the window.
    assert!(!window.save_due(first));
    assert!(window.save_due(last));
    assert!(window.keeps_placement());
}

#[test]
fn the_tray_opens_a_device_or_settings_in_the_window() {
    let mut window = open_window();
    window.closed();
    let Chose::Page { route: Route::Device(id), window: WindowAction::Open } =
        tray_chose(&mut window, TrayCommand::ShowDevice("peer".to_string()))
    else {
        panic!("the device's page shows in the window");
    };
    assert_eq!(id, "peer");
    assert!(matches!(
        tray_chose(&mut window, TrayCommand::Settings),
        Chose::Page { route: Route::Settings, window: WindowAction::Raise }
    ));
}

#[test]
fn pinging_from_the_tray_reports_only_a_failure() {
    assert!(matches!(report("Pinged Peer.".to_string(), None, Origin::Tray), Said::Nothing));
    let Said::Notification { title, body } = report(
        "That device is no longer known.".to_string(),
        Some("Couldn’t ping Pixel".to_string()),
        Origin::Tray,
    ) else {
        panic!("a notification");
    };
    assert_eq!((title.as_str(), body.as_str()), ("Couldn’t ping Pixel", "That device is no longer known."));
    assert!(matches!(report("Pinged Peer.".to_string(), None, Origin::Window), Said::Toast(t) if t == "Pinged Peer."));
    assert!(matches!(toast("hi".to_string(), Origin::Tray), Said::Nothing));
}

#[test]
fn a_ping_notifies_while_closed_and_toasts_otherwise() {
    assert!(matches!(notify("Pixel".to_string(), "hi".to_string(), true), Said::Toast(t) if t == "Pixel: hi"));
    assert!(matches!(
        notify("Pixel".to_string(), "Ping!".to_string(), false),
        Said::Notification { body, .. } if body == "Ping!"
    ));
}

#[test]
fn opening_add_device_scans_unless_coming_back_from_a_pairing() {
    assert!(entering_add_device(&Route::Devices, &Route::AddDevice));
    assert!(!entering_add_device(&Route::Pairing(7), &Route::AddDevice));
    assert!(!entering_add_device(&Route::AddDevice, &Route::AddDevice));
    assert!(!entering_add_device(&Route::Devices, &Route::Settings));
    let mut search = Search { searching: false, scan: 0 };
    let first = search.start();
    let second = search.start();
    search.ended(first);
    assert!(search.searching, "an older scan's timer leaves the bar");
    search.ended(second);
    assert!(!search.searching);
}

#[test]
fn pairing_opens_the_request_and_cancelling_returns_to_add_device() {
    let mut requests = Requests::new();
    assert!(requests.pair("peer".to_string()));
    assert!(!requests.pair("other".to_string()), "one at a time");
    let After::Go(Route::Pairing(id)) = requests.pair_started(Ok(42), &Route::AddDevice) else {
        panic!("the pairing shows");
    };
    assert_eq!(id, 42);
    assert!(requests.starting.is_none());
    requests.cancel_pairing(42);
    assert!(matches!(requests.pairing_cancelled(42, Ok(()), &Route::Pairing(42)), After::Go(Route::AddDevice)));
    assert!(requests.cancelling.is_none());
    // Elsewhere, it stays put.
    requests.pair("peer".to_string());
    assert!(matches!(requests.pair_started(Ok(43), &Route::Settings), After::Stay));
}

#[test]
fn a_pairing_that_cant_start_says_why_and_stays() {
    let mut requests = Requests::new();
    requests.pair("peer".to_string());
    let After::Toast(text) = requests.pair_started(Err("The device is not connected right now.".to_string()), &Route::AddDevice)
    else {
        panic!("a toast");
    };
    assert_eq!(text, "The device is not connected right now.");
    assert!(requests.starting.is_none());
}

#[test]
fn a_failed_answer_keeps_the_prompt_open_with_the_reason() {
    let mut requests = Requests::new();
    assert!(requests.answer(5));
    assert!(!requests.answer(6), "one answer at a time");
    requests.answered(5, Err("The device is not connected right now.".to_string()));
    assert!(requests.answering.is_none());
    assert_eq!(requests.prompt_error(5), Some("The device is not connected right now."));
    assert_eq!(requests.prompt_error(6), None);
    assert!(requests.answer(5));
    assert_eq!(requests.prompt_error(5), None, "asking again clears it");
}

#[test]
fn unpairing_forgets_the_device_and_goes_home() {
    let mut requests = Requests::new();
    requests.forget("peer".to_string());
    let route = Route::Browse { device: "peer".to_string(), folder: None };
    assert!(matches!(requests.forgotten("peer", Ok(()), &route), After::Go(Route::Devices)));
    assert!(requests.unpairing.is_none());
    requests.forget("peer".to_string());
    assert!(matches!(requests.forgotten("peer", Ok(()), &Route::Settings), After::Stay));
    requests.forget("peer".to_string());
    assert!(matches!(requests.forgotten("peer", Err("no".to_string()), &Route::Device("peer".to_string())), After::Toast(t) if t == "no"));
}

#[test]
fn starting_on_login_says_when_it_cant_change() {
    assert_eq!(start_on_login_set(None), None);
    assert_eq!(start_on_login_set(Some("denied".to_string())).as_deref(), Some("Couldn’t change starting on login."));
}

fn send_target() -> DropTarget {
    DropTarget {
        label: "Drop to send to Peer".to_string(),
        action: DropAction::Send { device_id: "peer".to_string(), name: "Peer".to_string() },
    }
}

#[test]
fn a_dropped_folder_is_refused() {
    assert_eq!(
        sendable(vec![("/tmp/folder".to_string(), false)]),
        Err(Some("Only files can be sent, not folders.".to_string()))
    );
    assert_eq!(sendable(Vec::new()), Err(None));
    assert_eq!(
        sendable(vec![("/tmp/a.txt".to_string(), true), ("/tmp/folder".to_string(), false)]),
        Ok(vec!["/tmp/a.txt".to_string()])
    );
}

#[test]
fn files_dropped_away_from_a_device_ask_where_to_go() {
    let mut choosing = None;
    assert!(dropped_here(vec!["/tmp/a.txt".to_string()], None, &mut choosing).is_none());
    assert_eq!(choosing, Some(vec!["/tmp/a.txt".to_string()]));
    let Some((Route::Device(id), Ok(Feature::Share(share::Message::Send { paths, .. })))) =
        drop_on(&mut choosing, "peer", Some(send_target()))
    else {
        panic!("the files go to the device chosen");
    };
    assert_eq!(id, "peer");
    assert_eq!(paths, ["/tmp/a.txt"]);
    assert!(choosing.is_none());
    assert!(drop_on(&mut choosing, "peer", Some(send_target())).is_none(), "nothing waits");
}

#[test]
fn files_dropped_on_a_device_page_go_straight_to_it() {
    let mut choosing = None;
    let sent = dropped_here(vec!["/tmp/a.txt".to_string()], Some(send_target()), &mut choosing);
    assert!(matches!(sent, Some(Feature::Share(share::Message::Send { .. }))));
    assert!(choosing.is_none());
}

#[test]
fn a_device_gone_as_it_was_chosen_says_so() {
    let mut choosing = Some(vec!["/tmp/a.txt".to_string()]);
    let Some((_, Err(said))) = drop_on(&mut choosing, "peer", None) else {
        panic!("it says why");
    };
    assert_eq!(said, "The device is not connected right now.");
}

#[test]
fn files_dropped_on_the_tray_open_the_window_and_ask_where_to_go() {
    let mut window = open_window();
    window.closed();
    let mut choosing = None;
    let (action, said) = dropped_on_tray(&mut window, &mut choosing, false, vec![("/tmp/a.txt".to_string(), true)]);
    assert_eq!(action, WindowAction::Open);
    assert_eq!(said, None);
    assert_eq!(choosing, Some(vec!["/tmp/a.txt".to_string()]));
}

#[test]
fn a_folder_dropped_on_the_tray_is_refused() {
    let mut window = open_window();
    let mut choosing = None;
    let (_, said) = dropped_on_tray(&mut window, &mut choosing, false, vec![("/tmp/f".to_string(), false)]);
    assert_eq!(said.as_deref(), Some("Only files can be sent, not folders."));
    assert!(choosing.is_none());
}

#[test]
fn drops_are_ignored_while_the_pairing_prompt_shows() {
    let mut drag = Drag::default();
    file_hovered(&mut drag, true);
    assert!(!drag.is_active());
    assert!(file_dropped(&mut drag, "/tmp/a.txt".to_string(), true).is_none());
    file_hovered(&mut drag, false);
    assert!(matches!(file_dropped(&mut drag, "/tmp/a.txt".to_string(), false), Some(Dropped::Done(paths)) if paths == ["/tmp/a.txt"]));
    let mut window = open_window();
    let mut choosing = None;
    let (_, said) = dropped_on_tray(&mut window, &mut choosing, true, vec![("/tmp/a.txt".to_string(), true)]);
    assert!(said.is_none() && choosing.is_none(), "the chooser would open under the prompt");
}

#[test]
fn escape_closes_the_chooser_then_the_dialog_but_never_the_prompt() {
    let mut dialogs = Dialogs::default();
    dialogs.open(Dialog::confirm("Unpair?".to_string(), "Sure?".to_string(), "Unpair".to_string(), Submit::Close));
    let mut choosing = Some(vec!["/tmp/a.txt".to_string()]);
    assert!(cancel_key(true, &mut choosing, &mut dialogs).is_none());
    assert!(choosing.is_some() && dialogs.current().is_some());
    assert!(cancel_key(false, &mut choosing, &mut dialogs).is_none());
    assert!(choosing.is_none() && dialogs.current().is_some());
    assert!(matches!(cancel_key(false, &mut choosing, &mut dialogs), Some(Step::Nothing)));
    assert!(dialogs.current().is_none());
}

fn transfer(id: u128, direction: TransferDirection, completed: bool, name: &str) -> Transfer {
    Transfer { id, direction, completed, file_name: name.to_string(), device_name: "Peer".to_string() }
}

#[test]
fn a_received_file_notifies_while_the_window_is_closed() {
    let before = vec![
        transfer(3, TransferDirection::Outgoing, false, "sent.jpg"),
        transfer(2, TransferDirection::Incoming, false, "photo.jpg"),
        transfer(1, TransferDirection::Incoming, true, "earlier.jpg"),
    ];
    let statuses = transfer_statuses(&before);
    let now = vec![
        transfer(4, TransferDirection::Incoming, true, "unseen.jpg"),
        transfer(3, TransferDirection::Outgoing, true, "sent.jpg"),
        transfer(2, TransferDirection::Incoming, true, "photo.jpg"),
        transfer(1, TransferDirection::Incoming, true, "earlier.jpg"),
    ];
    let received = received_files(&statuses, &now);
    assert_eq!(received, [("photo.jpg".to_string(), "Peer".to_string())]);
    assert!(received_notices(&received, true).is_empty());
    assert_eq!(
        received_notices(&received, false),
        [("File received".to_string(), "photo.jpg from Peer".to_string())]
    );
}

#[test]
fn a_pairing_request_notifies_while_the_window_is_closed() {
    let mut notices = Notices::new();
    let pending = vec![(1u128, "Peer".to_string())];
    let (withdraw, show) = notices.follow(&pending, false);
    assert!(withdraw.is_empty());
    assert_eq!(
        show,
        [(1, "Pairing request".to_string(), "Peer wants to pair with this computer.".to_string())]
    );
    // Nothing new: nothing more.
    let (_, show) = notices.follow(&pending, false);
    assert!(show.is_empty());
    // Resolved elsewhere: the notification goes with the prompt.
    let (withdraw, _) = notices.follow(&Vec::new(), false);
    assert_eq!(withdraw, [1]);
    assert!(notices.pairings.is_empty());
}

#[test]
fn a_pairing_request_does_not_notify_over_a_focused_window() {
    let mut notices = Notices::new();
    let first = vec![(1u128, "Peer".to_string())];
    assert!(notices.follow(&first, true).1.is_empty());
    // Losing focus later doesn't bring up a stale notification.
    let both = vec![(1u128, "Peer".to_string()), (2u128, "Tab".to_string())];
    let (_, show) = notices.follow(&both, false);
    assert_eq!(show.len(), 1);
    assert_eq!(show[0].2, "Tab wants to pair with this computer.");
}

#[test]
fn add_by_ip_says_why_an_address_is_refused() {
    assert_eq!(parse_ipv4(" 192.168.1.20 "), Some((192, 168, 1, 20)));
    assert_eq!(parse_ipv4("0.0.0.0"), Some((0, 0, 0, 0)));
    for refused in ["300.1.1.1", "1.2.3", "1.2.3.4.5", "01.2.3.4", "a.b.c.d", "", "1..2.3", "1.2.3.4 5"] {
        assert_eq!(parse_ipv4(refused), None, "{refused}");
    }
    assert_eq!(check_address("300.1.1.1"), Err("Enter an IPv4 address, like 192.168.1.20.".to_string()));
    assert_eq!(check_address("10.0.0.2"), Ok((10, 0, 0, 2)));
}

fn phone(connected: bool) -> DeviceSnapshot {
    DeviceSnapshot {
        device_id: "peer".to_string(),
        device_name: "Peer".to_string(),
        device_type: DeviceType::Phone,
        paired: true,
        reachability: if connected { DeviceReachability::Connected } else { DeviceReachability::Discovered },
        incoming_capabilities: Vec::new(),
        outgoing_capabilities: vec![notifications::PACKET_TYPE.to_string()],
        battery: None,
    }
}

#[test]
fn replying_asks_for_the_message_then_sends_it() {
    let notifications::Effect::Prompt { title, body, .. } = notifications::update(notifications::Message::Reply {
        device_id: "peer".to_string(),
        id: "a".to_string(),
        title: "Ana".to_string(),
    }) else {
        panic!("a prompt");
    };
    assert_eq!(title, "Reply");
    assert_eq!(body, "To “Ana”");
    assert!(reply_problem(" ").is_some());
    assert!(reply_problem("Yes!").is_none());
    assert!(matches!(
        notifications::update(notifications::Message::SendReply {
            device_id: "peer".to_string(),
            id: "a".to_string(),
            message: "Yes!".to_string()
        }),
        notifications::Effect::Reply { message, .. } if message == "Yes!"
    ));
    assert_eq!(replied(Ok(())).1, None);
}

#[test]
fn dismissing_one_that_is_gone_says_why() {
    let (text, _title) = dismissed(Err(NotificationError::NotFound)).unwrap();
    assert_eq!(text, "It’s no longer on the device.");
    assert_eq!(dismissed(Ok(())), None);
    assert!(action_ran("Snooze", Err(NotificationError::UnknownAction)).is_some());
}

#[test]
fn news_is_announced_with_its_title_and_device() {
    assert_eq!(
        announcement(Some("Ana"), "Messages", Some("Dinner?"), "Peer"),
        ("Ana · Peer".to_string(), "Dinner?".to_string())
    );
    assert_eq!(announcement(None, "Messages", None, "Peer"), ("Messages · Peer".to_string(), String::new()));
}

fn note(id: &str, text: &str, has_icon: bool) -> Notification {
    Notification {
        id: id.to_string(),
        app_name: "Messages".to_string(),
        title: Some("Ana".to_string()),
        text: Some(text.to_string()),
        time: None,
        dismissable: true,
        repliable: true,
        actions: Vec::new(),
        has_icon,
    }
}

#[test]
fn the_page_lists_them_or_says_why_it_is_empty() {
    let mut ui = NotificationsUi::new();
    let device = phone(true);
    assert_eq!(page_note(&device, ui.count("peer")).as_deref(), Some("No notifications from Peer."));

    ui.refresh("peer", vec![note("a", "Dinner?", false)]);
    assert_eq!(page_note(&device, ui.count("peer")), None);
    let shown = ui.shown("peer");
    assert_eq!(shown[0].notification.text.as_deref(), Some("Dinner?"));
    let n = &shown[0].notification;
    let buttons = notifications::card_buttons("peer", &n.id, &n.app_name, n.title.as_deref(), n.repliable, &n.actions);
    assert!(matches!(&buttons[0], notifications::Message::Reply { title, .. } if title == "Ana"));

    assert_eq!(page_note(&phone(false), ui.count("peer")).as_deref(), Some("Peer isn’t connected."));
}

#[test]
fn news_is_announced_and_counted_on_the_action() {
    let mut ui = NotificationsUi::new();
    let device = phone(true);
    assert_eq!(ui.device_actions(&device)[0].label, "Notifications");
    ui.refresh("peer", vec![note("a", "Dinner?", false)]);
    assert_eq!(
        announcement(Some("Ana"), "Messages", Some("Dinner?"), "Peer"),
        ("Ana · Peer".to_string(), "Dinner?".to_string())
    );
    assert_eq!(ui.device_actions(&device)[0].label, "Notifications (1)");
    let mut other = device.clone();
    other.outgoing_capabilities.clear();
    assert!(ui.device_actions(&other).is_empty());
    // A device with none left is let go.
    ui.refresh("peer", Vec::new());
    assert!(ui.held_devices().is_empty());
    assert_eq!(ui.device_actions(&device)[0].label, "Notifications");
}

#[test]
fn decoded_icons_are_kept_and_fetched_only_when_new() {
    let mut ui = NotificationsUi::new();
    let fetch = ui.refresh("peer", vec![note("a", "Dinner?", true), note("b", "Hi", false)]);
    assert_eq!(fetch, [0], "only one has an icon");
    ui.set_icon("peer", 0, "a", 7);
    assert_eq!(ui.shown("peer")[0].icon, Some(7));

    // Taken again, newest first: "a" keeps its icon, "c" is fetched.
    let fetch = ui.refresh("peer", vec![note("c", "New", true), note("a", "Dinner?", true)]);
    assert_eq!(fetch, [0]);
    assert_eq!(ui.shown("peer")[1].icon, Some(7));
    // An icon that arrives for a list that moved on is dropped.
    ui.set_icon("peer", 1, "c", 9);
    assert_eq!(ui.shown("peer")[1].icon, Some(7));

    // Posted again under the same id: its icon may have changed.
    ui.forget("peer", "a");
    assert_eq!(ui.count("peer"), 1);
    let fetch = ui.refresh("peer", vec![note("c", "New", true), note("a", "Dinner?", true)]);
    assert_eq!(fetch, [0, 1]);
    assert_eq!(ui.held_devices(), ["peer".to_string()]);
}

#[test]
fn failed_sends_are_reported_once() {
    assert_eq!(
        share::sent_report("Peer", Some("Couldn’t send gone.txt: The file couldn’t be read.".to_string())),
        Some(("Couldn’t send to Peer".to_string(), "Couldn’t send gone.txt: The file couldn’t be read.".to_string()))
    );
    assert_eq!(share::sent_report("Peer", None), None);
}

#[test]
fn the_chooser_names_the_files_and_lists_the_devices() {
    let one = chooser(&vec!["/tmp/photo.jpg".to_string()], vec![("pixel".to_string(), "Pixel".to_string())]);
    assert_eq!(one.title, "Send file");
    assert_eq!(one.name.as_deref(), Some("photo.jpg"));
    assert_eq!(one.note, "Choose the device to send to:");
    assert_eq!(one.devices, [("pixel".to_string(), "Pixel".to_string())]);
    let two = chooser(&vec!["/a".to_string(), "/b".to_string()], Vec::new());
    assert_eq!(two.title, "Send 2 files");
    assert_eq!(two.name, None);
    assert_eq!(two.note, "No paired device is connected and able to receive files.");
}

#[test]
fn the_chooser_follows_devices_and_says_when_none_can_take_files() {
    let features = Features::new();
    let mut takes = phone(true);
    takes.incoming_capabilities = vec![share::PACKET_TYPE.to_string()];
    let away = phone(false);
    assert_eq!(recipients(&vec![takes.clone(), away.clone()], &features), [("peer".to_string(), "Peer".to_string())]);
    assert!(recipients(&vec![away], &features).is_empty());
}

#[test]
fn the_drop_hint_says_where_files_go() {
    assert_eq!(drop_hint(false, true, None), None);
    assert_eq!(drop_hint(true, false, None), None);
    assert_eq!(drop_hint(true, true, None).as_deref(), Some(CHOOSE_LABEL));
    assert_eq!(drop_hint(true, true, Some("Drop to send to Peer".to_string())).as_deref(), Some("Drop to send to Peer"));
}

#[test]
fn a_click_on_a_shown_notification_shows_the_window() {
    let mut showing = Showing::new();
    showing.shown(70, 1);
    showing.shown(71, 2);
    assert!(showing.clicked(70, "default"));
    assert!(!showing.clicked(70, "Open"));
    assert_eq!(showing.withdraw(1), Some(70));
    assert!(!showing.clicked(70, "default"), "withdrawn");
    assert_eq!(showing.withdraw(1), None);
    showing.closed(71);
    assert!(!showing.clicked(71, "default"));
}

#[test]
fn a_failed_start_shows_why_and_retry_starts_again() {
    let mut phase = Phase::Starting;
    assert!(!phase.retry(), "nothing to retry while starting");
    phase.started(Err("the port is taken".to_string()));
    assert!(matches!(&phase, Phase::Failed(why) if why == "the port is taken"));
    assert!(phase.retry());
    assert!(matches!(phase, Phase::Starting));
    phase.started(Ok(()));
    assert!(matches!(phase, Phase::Running));
    assert!(!phase.retry());
}

#[test]
fn shortcuts_need_the_command_modifier_but_escape_does_not() {
    assert_eq!(key_command(&Key::Escape, false), Some(KeyCommand::Cancel));
    assert_eq!(key_command(&Key::Character("w".to_string()), true), Some(KeyCommand::CloseWindow));
    assert_eq!(key_command(&Key::Character("q".to_string()), true), Some(KeyCommand::Quit));
    assert_eq!(key_command(&Key::Character("q".to_string()), false), None);
    assert_eq!(key_command(&Key::Character("x".to_string()), true), None);
    assert_eq!(key_command(&Key::Other, true), None);
}

#[test]
fn pages_show_their_own_requests_under_way() {
    let mut requests = Requests::new();
    assert!(!requests.pairing_busy(42));
    requests.pair("peer".to_string());
    assert!(requests.pairing_busy(42), "starting a pairing busies every pairing page");
    requests.pair_started(Ok(42), &Route::AddDevice);
    requests.cancel_pairing(42);
    assert!(requests.pairing_busy(42));
    assert!(!requests.pairing_busy(43), "only the one being cancelled");

    assert!(!requests.unpairing_device("peer"));
    requests.forget("peer".to_string());
    assert!(requests.unpairing_device("peer"));
    assert!(!requests.unpairing_device("other"));
}
