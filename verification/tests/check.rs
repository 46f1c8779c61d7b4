use checkip::check::{Action, CheckIP, Event, Outcome, Request, Step, TICK_SECS};
use checkip::config::Config;
use checkip::monitor::IPSnapshot;
use checkip::notify::{
    ChangeEvent, Delivery, EmailSettings, Message, NotificationChannel, PushSettings,
};
use checkip::provider::{ProviderDescriptor, ProviderFetchError, ProviderResponse};

fn mail() -> NotificationChannel {
    NotificationChannel::Email(EmailSettings {
        host: String::from("smtp.example.org"),
        username: String::from("me@example.org"),
        password: String::from("hunter2"),
    })
}

fn push() -> NotificationChannel {
    NotificationChannel::Push(PushSettings {
        host: String::from("https://ntfy.example.org/ip"),
        token: String::from("Bearer tk_1"),
        priority: String::from("4"),
    })
}

fn config(interval: u64, label: Option<&str>, channels: Vec<NotificationChannel>) -> Config {
    Config { interval, client_label: label.map(String::from), channels }
}

fn both(interval: u64) -> CheckIP {
    CheckIP::new(config(interval, None, vec![mail(), push()]))
}

fn answer(field: &str, ip: &str) -> Event {
    Event::Response(ProviderResponse::Received {
        status: 200,
        body: format!("{{\"{field}\":\"{ip}\"}}").into_bytes(),
    })
}

fn query(endpoint: &str) -> Action {
    Action::Query(Request { endpoint: String::from(endpoint), timeout_secs: 10 })
}

fn send(channel: NotificationChannel, previous: &str, current: &str) -> Action {
    let event = ChangeEvent {
        previous: Some(String::from(previous)),
        current: String::from(current),
        client_label: None,
    };
    Action::Send(channel.deliver(&event))
}

fn stored(machine: &CheckIP) -> Option<String> {
    machine.state().last_snapshot().map(|s| s.value.clone())
}

/// Runs one lookup that the first provider answers with `ip`, from the tick
/// at `now` on, and returns the answer to the response.
fn look_up(machine: &mut CheckIP, now: u64, ip: &str) -> Step {
    let started = machine.step(Event::Tick, now);
    assert_eq!(started.outcome, Outcome::LookupStarted);
    assert_eq!(started.action, query("https://httpbin.org/ip"));
    machine.step(answer("origin", ip), now)
}

#[test]
fn the_first_tick_starts_a_lookup_at_once() {
    let mut machine = both(3600);
    assert_eq!(machine.interval(), 3600);
    let step = machine.step(Event::Tick, 0);
    assert_eq!(step, Step { action: query("https://httpbin.org/ip"), outcome: Outcome::LookupStarted });
    assert_eq!(TICK_SECS, 1);
}

#[test]
fn the_first_address_is_stored_and_nobody_is_told() {
    let mut machine = both(60);
    let step = look_up(&mut machine, 1000, "1.1.1.1");
    assert_eq!(step, Step { action: Action::Wait, outcome: Outcome::Initialized });
    assert!(machine.state().is_initialized());
    assert_eq!(
        machine.state().last_snapshot(),
        Some(&IPSnapshot { value: String::from("1.1.1.1"), observed_at: 1000 })
    );
    assert_eq!(machine.state().next_allowed_check(), 1060);
}

#[test]
fn the_first_address_counts_even_after_failed_attempts() {
    let mut machine = both(60);
    machine.step(Event::Tick, 1000);
    machine.step(Event::Response(ProviderResponse::TimedOut), 1010);
    machine.step(Event::Response(ProviderResponse::TimedOut), 1020);
    let failed = machine.step(Event::Response(ProviderResponse::TimedOut), 1030);
    assert_eq!(
        failed,
        Step {
            action: Action::Wait,
            outcome: Outcome::LookupFailed { last: Some(ProviderFetchError::Timeout) },
        }
    );
    assert!(!machine.state().is_initialized());
    let step = look_up(&mut machine, 1090, "1.1.1.1");
    assert_eq!(step, Step { action: Action::Wait, outcome: Outcome::Initialized });
}

#[test]
fn ticks_before_the_interval_has_passed_only_wait() {
    let mut machine = both(60);
    look_up(&mut machine, 1000, "1.1.1.1");
    for now in [1000, 1001, 1030, 1059] {
        let step = machine.step(Event::Tick, now);
        assert_eq!(step, Step { action: Action::Wait, outcome: Outcome::NotDue });
    }
    assert_eq!(machine.state().next_allowed_check(), 1060);
    let step = machine.step(Event::Tick, 1060);
    assert_eq!(step.outcome, Outcome::LookupStarted);
}

#[test]
fn the_same_address_changes_nothing() {
    let mut machine = both(60);
    look_up(&mut machine, 1000, "1.1.1.1");
    let step = look_up(&mut machine, 1060, "1.1.1.1");
    assert_eq!(step, Step { action: Action::Wait, outcome: Outcome::Unchanged });
    assert_eq!(
        machine.state().last_snapshot(),
        Some(&IPSnapshot { value: String::from("1.1.1.1"), observed_at: 1000 })
    );
    assert!(machine.state().is_initialized());
    assert_eq!(machine.state().next_allowed_check(), 1120);
}

#[test]
fn a_change_reaches_both_channels_and_is_stored_last() {
    let mut machine = both(60);
    look_up(&mut machine, 1000, "1.1.1.1");
    let step = look_up(&mut machine, 1060, "2.2.2.2");
    assert_eq!(step, Step { action: send(mail(), "1.1.1.1", "2.2.2.2"), outcome: Outcome::Changed });
    assert_eq!(stored(&machine), Some(String::from("1.1.1.1")));
    let step = machine.step(Event::Sent { delivered: true }, 1061);
    assert_eq!(
        step,
        Step {
            action: send(push(), "1.1.1.1", "2.2.2.2"),
            outcome: Outcome::Notified { delivered: true },
        }
    );
    assert_eq!(stored(&machine), Some(String::from("1.1.1.1")));
    let step = machine.step(Event::Sent { delivered: true }, 1062);
    assert_eq!(step, Step { action: Action::Wait, outcome: Outcome::Notified { delivered: true } });
    assert_eq!(
        machine.state().last_snapshot(),
        Some(&IPSnapshot { value: String::from("2.2.2.2"), observed_at: 1062 })
    );
    assert_eq!(machine.state().next_allowed_check(), 1122);
}

#[test]
fn the_deliveries_carry_the_wire_texts() {
    let mut machine = CheckIP::new(config(60, Some("Office"), vec![push()]));
    look_up(&mut machine, 1000, "1.1.1.1");
    let step = look_up(&mut machine, 1060, "2.2.2.2");
    assert_eq!(
        step.action,
        Action::Send(Delivery {
            channel: push(),
            message: Message {
                title: String::from("Office IP has changed"),
                body: String::from("Office IP has changed from \"1.1.1.1\" to \"2.2.2.2\""),
            },
            timeout_secs: 30,
        })
    );
}

#[test]
fn a_failing_channel_stops_neither_the_next_channel_nor_the_update() {
    for outcomes in [[false, false], [false, true], [true, false], [true, true]] {
        let mut machine = both(60);
        look_up(&mut machine, 1000, "1.1.1.1");
        let first = look_up(&mut machine, 1060, "2.2.2.2");
        assert_eq!(first.action, send(mail(), "1.1.1.1", "2.2.2.2"));
        let second = machine.step(Event::Sent { delivered: outcomes[0] }, 1061);
        assert_eq!(second.action, send(push(), "1.1.1.1", "2.2.2.2"));
        assert_eq!(second.outcome, Outcome::Notified { delivered: outcomes[0] });
        let last = machine.step(Event::Sent { delivered: outcomes[1] }, 1062);
        assert_eq!(last.action, Action::Wait);
        assert_eq!(last.outcome, Outcome::Notified { delivered: outcomes[1] });
        assert_eq!(stored(&machine), Some(String::from("2.2.2.2")));
        assert_eq!(machine.state().next_allowed_check(), 1122);
    }
}

#[test]
fn a_change_back_is_a_change_again() {
    let mut machine = CheckIP::new(config(60, None, vec![push()]));
    look_up(&mut machine, 1000, "1.1.1.1");
    look_up(&mut machine, 1060, "2.2.2.2");
    machine.step(Event::Sent { delivered: true }, 1060);
    let step = look_up(&mut machine, 1120, "1.1.1.1");
    assert_eq!(step.action, send(push(), "2.2.2.2", "1.1.1.1"));
    machine.step(Event::Sent { delivered: false }, 1120);
    assert_eq!(stored(&machine), Some(String::from("1.1.1.1")));
}

#[test]
fn providers_are_asked_in_order_until_one_answers() {
    let mut machine = both(60);
    assert_eq!(machine.step(Event::Tick, 1000).action, query("https://httpbin.org/ip"));
    let step = machine.step(Event::Response(ProviderResponse::TimedOut), 1010);
    assert_eq!(
        step,
        Step {
            action: query("https://api.ipify.org/?format=json"),
            outcome: Outcome::ProviderFailed(ProviderFetchError::Timeout),
        }
    );
    let step = machine.step(answer("ip", "5.6.7.8"), 1011);
    assert_eq!(step, Step { action: Action::Wait, outcome: Outcome::Initialized });
    assert_eq!(stored(&machine), Some(String::from("5.6.7.8")));
    assert_eq!(machine.state().next_allowed_check(), 1071);
}

#[test]
fn each_kind_of_failure_passes_the_lookup_on() {
    let mut machine = both(60);
    machine.step(Event::Tick, 1000);
    let step = machine.step(answer("ip", "1.1.1.1"), 1000);
    assert_eq!(step.outcome, Outcome::ProviderFailed(ProviderFetchError::MissingField));
    assert_eq!(step.action, query("https://api.ipify.org/?format=json"));
    let step = machine.step(
        Event::Response(ProviderResponse::Received { status: 200, body: b"<html>".to_vec() }),
        1000,
    );
    assert_eq!(step.outcome, Outcome::ProviderFailed(ProviderFetchError::MalformedBody));
    assert_eq!(step.action, query("https://api.seeip.org/jsonip"));
    let step = machine.step(
        Event::Response(ProviderResponse::Received {
            status: 502,
            body: b"{\"ip\":\"1.1.1.1\"}".to_vec(),
        }),
        1000,
    );
    assert_eq!(
        step,
        Step {
            action: Action::Wait,
            outcome: Outcome::LookupFailed { last: Some(ProviderFetchError::Status(502)) },
        }
    );
}

#[test]
fn a_failed_lookup_keeps_the_stored_address() {
    let mut machine = both(60);
    look_up(&mut machine, 1000, "1.1.1.1");
    machine.step(Event::Tick, 1060);
    machine.step(Event::Response(ProviderResponse::Failed), 1061);
    machine.step(Event::Response(ProviderResponse::TimedOut), 1071);
    let step = machine.step(Event::Response(ProviderResponse::Failed), 1072);
    assert_eq!(
        step,
        Step {
            action: Action::Wait,
            outcome: Outcome::LookupFailed { last: Some(ProviderFetchError::Transport) },
        }
    );
    assert!(machine.state().is_initialized());
    assert_eq!(
        machine.state().last_snapshot(),
        Some(&IPSnapshot { value: String::from("1.1.1.1"), observed_at: 1000 })
    );
    assert_eq!(machine.state().next_allowed_check(), 1132);
    assert_eq!(machine.step(Event::Tick, 1131).outcome, Outcome::NotDue);
    assert_eq!(machine.step(Event::Tick, 1132).outcome, Outcome::LookupStarted);
}

#[test]
fn events_that_are_not_waited_for_change_nothing() {
    let mut machine = both(60);
    let step = machine.step(Event::Sent { delivered: true }, 1000);
    assert_eq!(step, Step { action: Action::Wait, outcome: Outcome::Ignored });
    let step = machine.step(answer("origin", "1.1.1.1"), 1000);
    assert_eq!(step, Step { action: Action::Wait, outcome: Outcome::Ignored });
    assert!(!machine.state().is_initialized());

    machine.step(Event::Tick, 1000);
    let step = machine.step(Event::Tick, 1001);
    assert_eq!(step, Step { action: query("https://httpbin.org/ip"), outcome: Outcome::Ignored });
    let step = machine.step(Event::Sent { delivered: false }, 1001);
    assert_eq!(step, Step { action: query("https://httpbin.org/ip"), outcome: Outcome::Ignored });
    machine.step(answer("origin", "1.1.1.1"), 1002);

    look_up(&mut machine, 1062, "2.2.2.2");
    let step = machine.step(Event::Tick, 1063);
    assert_eq!(step, Step { action: send(mail(), "1.1.1.1", "2.2.2.2"), outcome: Outcome::Ignored });
    let step = machine.step(answer("origin", "3.3.3.3"), 1063);
    assert_eq!(step, Step { action: send(mail(), "1.1.1.1", "2.2.2.2"), outcome: Outcome::Ignored });
    assert_eq!(stored(&machine), Some(String::from("1.1.1.1")));
    assert_eq!(machine.state().next_allowed_check(), 1062);
}

#[test]
fn without_channels_a_change_is_stored_at_once() {
    let mut machine = CheckIP::new(config(60, None, Vec::new()));
    look_up(&mut machine, 1000, "1.1.1.1");
    let step = look_up(&mut machine, 1060, "2.2.2.2");
    assert_eq!(step, Step { action: Action::Wait, outcome: Outcome::Changed });
    assert_eq!(stored(&machine), Some(String::from("2.2.2.2")));
}

#[test]
fn without_providers_every_lookup_fails() {
    let mut machine = CheckIP::with_providers(config(60, None, vec![push()]), Vec::new());
    let step = machine.step(Event::Tick, 1000);
    assert_eq!(step, Step { action: Action::Wait, outcome: Outcome::LookupFailed { last: None } });
    assert_eq!(machine.state().next_allowed_check(), 1060);
    assert!(!machine.state().is_initialized());
}

#[test]
fn providers_of_the_callers_choice_are_asked() {
    let providers = vec![ProviderDescriptor {
        endpoint: String::from("https://ip.example.org/me"),
        ip_field_name: String::from("address"),
    }];
    let mut machine = CheckIP::with_providers(config(60, None, vec![push()]), providers);
    assert_eq!(machine.step(Event::Tick, 1000).action, query("https://ip.example.org/me"));
    let step = machine.step(answer("address", "4.4.4.4"), 1000);
    assert_eq!(step.outcome, Outcome::Initialized);
    assert_eq!(stored(&machine), Some(String::from("4.4.4.4")));
}

#[test]
fn an_interval_of_zero_looks_up_on_every_tick() {
    let mut machine = both(0);
    look_up(&mut machine, 1000, "1.1.1.1");
    assert_eq!(machine.state().next_allowed_check(), 1000);
    assert_eq!(machine.step(Event::Tick, 1000).outcome, Outcome::LookupStarted);
}

#[test]
fn the_next_check_moves_forward_with_every_attempt() {
    let mut machine = both(60);
    let mut last = machine.state().next_allowed_check();
    let mut now = 1000;
    for round in 0..6 {
        machine.step(Event::Tick, now);
        if round % 2 == 0 {
            machine.step(answer("origin", "1.1.1.1"), now + 1);
        } else {
            machine.step(Event::Response(ProviderResponse::Failed), now + 1);
            machine.step(Event::Response(ProviderResponse::Failed), now + 1);
            machine.step(Event::Response(ProviderResponse::Failed), now + 1);
        }
        let next = machine.state().next_allowed_check();
        assert_eq!(next, now + 1 + 60);
        assert!(next > last);
        last = next;
        now = next;
    }
}
