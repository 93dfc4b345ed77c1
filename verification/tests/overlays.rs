use myconnect::dialog::{field_counter, field_note, Dialog, DialogEvent, Dialogs, Field, Step, Submit};
use myconnect::incoming::{view, PairingSnapshot};
use myconnect::route::Route;
use myconnect::toast::Toasts;
use myconnect::prompts::{address_prompt, open_failed, rename_prompt, unpair_confirmation, NAME_MAX};

fn name_field() -> Field {
    Field {
        value: "Desk".to_string(),
        label: None,
        hint: None,
        helper: Some("How this computer appears on your other devices".to_string()),
        max_len: Some(32),
        validated: true,
        selection: None,
    }
}

fn plain_field() -> Field {
    Field {
        value: String::new(),
        label: None,
        hint: None,
        helper: None,
        max_len: None,
        validated: false,
        selection: None,
    }
}

fn closing(title: &str) -> Dialog {
    Dialog::prompt(title.to_string(), name_field(), "Save".to_string(), Submit::Close)
}

/// The check the name field asks for.
fn check_name(name: &str) -> Option<String> {
    if name.trim().is_empty() {
        Some("Enter a name.".to_string())
    } else {
        None
    }
}

#[test]
fn a_closing_prompt_validates_then_sends_the_text() {
    let mut dialogs = Dialogs::default();
    assert!(dialogs.open(closing("Name")));

    dialogs.update(DialogEvent::Input("  ".to_string()));
    let Step::Check(value) = dialogs.update(DialogEvent::Submit) else {
        panic!("the value is checked first");
    };
    assert!(matches!(dialogs.checked(check_name(&value)), Step::Nothing));
    assert_eq!(dialogs.current().unwrap().error(), Some("Enter a name."));
    assert_eq!(dialogs.current().unwrap().title, "Name");

    dialogs.update(DialogEvent::Input("Laptop".to_string()));
    let Step::Check(value) = dialogs.update(DialogEvent::Submit) else {
        panic!("the value is checked first");
    };
    let Step::Send { value, .. } = dialogs.checked(check_name(&value)) else {
        panic!("the dialog should close with its message");
    };
    assert_eq!(format!("saved {value}"), "saved Laptop");
    assert!(dialogs.current().is_none());
}

#[test]
fn the_field_stops_at_its_limit() {
    let mut dialogs = Dialogs::default();
    dialogs.open(closing("Name"));
    dialogs.update(DialogEvent::Input("x".repeat(40)));
    assert_eq!(dialogs.current().unwrap().value().len(), 32);
}

#[test]
fn running_work_keeps_the_dialog_busy_until_it_finishes() {
    let mut dialogs = Dialogs::default();
    dialogs.open(Dialog::prompt(
        "Add by IP address".to_string(),
        plain_field(),
        "Add".to_string(),
        Submit::Run,
    ));
    dialogs.update(DialogEvent::Input("300.1.1.1".to_string()));
    let Step::Run { id, value } = dialogs.update(DialogEvent::Submit) else {
        panic!("the dialog should run its work");
    };
    assert_eq!(value, "300.1.1.1");
    assert!(dialogs.current().unwrap().is_busy());
    // Busy: typing and submitting again do nothing.
    dialogs.update(DialogEvent::Input("typed while busy".to_string()));
    assert!(matches!(dialogs.update(DialogEvent::Submit), Step::Nothing));
    assert_eq!(dialogs.current().unwrap().value(), "300.1.1.1");

    assert!(!dialogs.finished(id, Some("Enter an IPv4 address, like 192.168.1.20.".to_string())));
    let dialog = dialogs.current().unwrap();
    assert!(!dialog.is_busy());
    assert_eq!(dialog.error(), Some("Enter an IPv4 address, like 192.168.1.20."));

    let Step::Run { id, .. } = dialogs.update(DialogEvent::Submit) else {
        panic!("the dialog should run its work again");
    };
    assert_eq!(dialogs.current().unwrap().error(), None);
    assert!(dialogs.finished(id, None), "the work's message is sent");
    assert!(dialogs.current().is_none());
}

#[test]
fn work_finishing_after_cancel_is_ignored() {
    let mut dialogs = Dialogs::default();
    dialogs.open(Dialog::prompt("Add".to_string(), plain_field(), "Add".to_string(), Submit::Run));
    let Step::Run { id, .. } = dialogs.update(DialogEvent::Submit) else {
        panic!("the dialog should run its work");
    };
    dialogs.update(DialogEvent::Cancel);
    dialogs.open(closing("Next"));
    assert!(!dialogs.finished(id, Some("late".to_string())));
    let dialog = dialogs.current().unwrap();
    assert_eq!(dialog.title, "Next");
    assert_eq!(dialog.error(), None);
}

#[test]
fn dialogs_show_one_at_a_time() {
    let mut dialogs = Dialogs::default();
    assert!(dialogs.open(closing("First")));
    assert!(!dialogs.open(closing("Second")));
    assert_eq!(dialogs.current().unwrap().title, "First");
    dialogs.update(DialogEvent::Cancel);
    assert_eq!(dialogs.current().unwrap().title, "Second");
    dialogs.update(DialogEvent::Cancel);
    assert!(dialogs.current().is_none());
}

#[test]
fn a_confirmation_sends_nothing_typed() {
    let mut dialogs = Dialogs::default();
    dialogs.open(
        Dialog::confirm(
            "Unpair device?".to_string(),
            "Pixel 8a will need to be paired again.".to_string(),
            "Unpair".to_string(),
            Submit::Close,
        )
        .danger(),
    );
    assert!(dialogs.current().unwrap().danger);
    let Step::Send { value, .. } = dialogs.update(DialogEvent::Submit) else {
        panic!("a confirmation closes at once");
    };
    assert_eq!(value, "");
    assert!(matches!(dialogs.update(DialogEvent::Submit), Step::Nothing));
}

#[test]
fn only_the_newest_few_show() {
    let mut toasts = Toasts::default();
    let first = toasts.push("1".to_string(), None);
    for text in ["2", "3", "4"] {
        toasts.push(text.to_string(), None);
    }
    let texts: Vec<_> = toasts.items().iter().map(|t| t.text.as_str()).collect();
    assert_eq!(texts, ["2", "3", "4"]);
    // Dismissing one that already went is harmless.
    toasts.dismiss(first);
    assert_eq!(toasts.items().len(), 3);
}

#[test]
fn a_dismissed_toast_goes_and_the_rest_stay() {
    let mut toasts = Toasts::default();
    let a = toasts.push("Pinged Pixel 8a.".to_string(), None);
    toasts.push(
        "Downloading holiday.jpg".to_string(),
        Some(("Transfers".to_string(), Route::Transfers)),
    );
    toasts.dismiss(a);
    assert_eq!(toasts.items().len(), 1);
    assert_eq!(toasts.items()[0].text, "Downloading holiday.jpg");
    assert!(!toasts.is_empty());
}

fn request(id: u128, name: &str) -> PairingSnapshot {
    PairingSnapshot {
        id,
        device_id: "740bd4b9b4184ee497d6caf1da8151be".to_string(),
        device_name: name.to_string(),
        verification_code: Some("9F3A7C21".to_string()),
    }
}

#[test]
fn asks_about_the_oldest_request_and_counts_the_rest() {
    let pending = [request(1, "Pixel 8a"), request(2, "Tab"), request(3, "TV")];
    let prompt = view(&pending, false, None).unwrap();
    assert_eq!(prompt.title, "Pairing request");
    assert_eq!(
        prompt.text,
        "Pixel 8a wants to pair with this computer. Accept only if it shows the same code:"
    );
    assert_eq!(prompt.code.as_deref(), Some("9F3A7C21"));
    assert_eq!(prompt.waiting.as_deref(), Some("2 more request(s) waiting"));
    assert_eq!(prompt.request, 1);
    assert!(prompt.answerable);
}

#[test]
fn busy_disables_the_answers_and_an_error_shows() {
    let pending = [request(1, "Pixel 8a")];
    let prompt = view(&pending, true, Some("The device is not connected right now.")).unwrap();
    assert_eq!(prompt.error.as_deref(), Some("The device is not connected right now."));
    assert_eq!(prompt.waiting, None);
    assert!(!prompt.answerable);
}

#[test]
fn under_a_field_the_error_wins_over_the_helper_beside_the_counter() {
    let field = name_field();
    assert_eq!(
        field_note(&field, None),
        Some(("How this computer appears on your other devices".to_string(), false))
    );
    assert_eq!(field_note(&field, Some("Enter a name.")), Some(("Enter a name.".to_string(), true)));
    assert_eq!(field_counter(&field).as_deref(), Some("4/32"));
    let plain = Field { helper: None, max_len: None, value: "Zoë".to_string(), ..name_field() };
    assert_eq!(field_note(&plain, None), None);
    assert_eq!(field_counter(&plain), None);
    let accented = Field { value: "Zoë".to_string(), ..name_field() };
    assert_eq!(field_counter(&accented).as_deref(), Some("3/32"), "characters, not bytes");
}

#[test]
fn renaming_starts_from_the_current_name_and_waits_for_the_daemon() {
    let d = rename_prompt("Desk".to_string());
    assert_eq!((d.title.as_str(), d.confirm_label.as_str()), ("Device name", "Save"));
    assert_eq!(d.submit, Submit::Run);
    let field = d.field.unwrap();
    assert_eq!(field.value, "Desk");
    assert_eq!(field.max_len, Some(NAME_MAX));
    assert_eq!(NAME_MAX, 32);
    assert_eq!(field.helper.as_deref(), Some("How this computer appears on your other devices"));
}

#[test]
fn adding_by_address_asks_for_an_ip_address() {
    let d = address_prompt();
    assert_eq!((d.title.as_str(), d.confirm_label.as_str()), ("Add by IP address", "Add"));
    let field = d.field.unwrap();
    assert_eq!((field.value.as_str(), field.label.as_deref(), field.hint.as_deref()), ("", Some("IP address"), Some("192.168.1.20")));
}

#[test]
fn unpairing_asks_first_and_says_it_is_destructive() {
    let d = unpair_confirmation("Pixel");
    assert_eq!(d.title, "Unpair Pixel?");
    assert_eq!(
        d.body.as_deref(),
        Some("The device will need to be paired again before it can exchange anything with this computer.")
    );
    assert!(d.danger && d.field.is_none());
    assert_eq!((d.confirm_label.as_str(), d.submit), ("Unpair", Submit::Close));
    assert_eq!(open_failed("/home/ana/notes.txt"), "Couldn’t open /home/ana/notes.txt");
}
