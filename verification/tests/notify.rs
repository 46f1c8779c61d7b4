use checkip::notify::{
    compose, dispatch, ChangeEvent, Delivery, EmailSettings, Message, NotificationChannel,
    PushSettings, SEND_TIMEOUT_SECS,
};

fn change(previous: Option<&str>, current: &str, label: Option<&str>) -> ChangeEvent {
    ChangeEvent {
        previous: previous.map(String::from),
        current: String::from(current),
        client_label: label.map(String::from),
    }
}

fn mail() -> NotificationChannel {
    NotificationChannel::Email(EmailSettings {
        host: String::from("smtp.example.org"),
        username: String::from("me@example.org"),
        password: String::from("hunter2"),
    })
}

fn push() -> NotificationChannel {
    NotificationChannel::Push(PushSettings {
        host: String::from("https://ntfy.example.org/ip"),
        token: String::from("Bearer tk_1"),
        priority: String::from("4"),
    })
}

#[test]
fn compose_without_a_label() {
    let message = compose(&change(Some("1.1.1.1"), "2.2.2.2", None));
    assert_eq!(message.title, "Home IP has changed");
    assert_eq!(message.body, "Your home IP has changed from \"1.1.1.1\" to \"2.2.2.2\"");
}

#[test]
fn compose_with_a_label() {
    let message = compose(&change(Some("1.1.1.1"), "2.2.2.2", Some("Office")));
    assert_eq!(message.title, "Office IP has changed");
    assert_eq!(message.body, "Office IP has changed from \"1.1.1.1\" to \"2.2.2.2\"");
}

#[test]
fn compose_without_a_previous_address() {
    let message = compose(&change(None, "2.2.2.2", Some("Office")));
    assert_eq!(message.title, "Office IP has changed");
    assert_eq!(message.body, "External IP \"2.2.2.2\"");
    let message = compose(&change(None, "2.2.2.2", None));
    assert_eq!(message.title, "Home IP has changed");
    assert_eq!(message.body, "External IP \"2.2.2.2\"");
}

#[test]
fn compose_keeps_empty_texts() {
    let message = compose(&change(Some(""), "", Some("")));
    assert_eq!(message.title, " IP has changed");
    assert_eq!(message.body, " IP has changed from \"\" to \"\"");
}

#[test]
fn deliver_carries_the_channel_and_the_message() {
    let event = change(Some("1.1.1.1"), "2.2.2.2", None);
    let delivery = push().deliver(&event);
    assert_eq!(
        delivery,
        Delivery {
            channel: push(),
            message: Message {
                title: String::from("Home IP has changed"),
                body: String::from("Your home IP has changed from \"1.1.1.1\" to \"2.2.2.2\""),
            },
            timeout_secs: 30,
        }
    );
    assert_eq!(SEND_TIMEOUT_SECS, 30);
}

#[test]
fn dispatch_serves_each_channel_once_and_in_order() {
    let event = change(Some("1.1.1.1"), "2.2.2.2", Some("Office"));
    let deliveries = dispatch(&event, &vec![mail(), push()]);
    assert_eq!(deliveries.len(), 2);
    assert_eq!(deliveries[0], mail().deliver(&event));
    assert_eq!(deliveries[1], push().deliver(&event));
    assert_eq!(deliveries[0].message, deliveries[1].message);
    let reversed = dispatch(&event, &vec![push(), mail()]);
    assert_eq!(reversed[0].channel, push());
    assert_eq!(reversed[1].channel, mail());
}

#[test]
fn dispatch_without_channels_sends_nothing() {
    let event = change(Some("1.1.1.1"), "2.2.2.2", None);
    assert_eq!(dispatch(&event, &Vec::new()), Vec::new());
}

#[test]
fn dispatch_serves_a_repeated_channel_each_time() {
    let event = change(Some("1.1.1.1"), "2.2.2.2", None);
    let deliveries = dispatch(&event, &vec![push(), push(), push()]);
    assert_eq!(deliveries.len(), 3);
    assert_eq!(deliveries[2], push().deliver(&event));
}

#[test]
fn a_channel_copy_has_the_same_settings() {
    assert_eq!(mail().clone(), mail());
    assert_eq!(push().clone(), push());
    assert_ne!(mail().clone(), push());
}

#[test]
fn mail_goes_from_the_account_to_itself() {
    let settings = EmailSettings {
        host: String::from("smtp.example.org"),
        username: String::from("me@example.org"),
        password: String::from("hunter2"),
    };
    assert_eq!(settings.address(), "me@example.org");
}
