use note_relay::decode::parse_event;
use note_relay::delivery::{response_outcome, DeliveryOutcome};
use note_relay::event::{Attachment, CandidatePost, InboundEvent};
use note_relay::filter::is_target_note;
use note_relay::format::generate_note_info;
use note_relay::relay::{step, Action, Event, Notice, RelayConfig, RelayState};
use note_relay::secrets::Secrets;

fn secrets_for(target: &str) -> Secrets {
    Secrets {
        host: String::from("misskey.io"),
        token: String::from("token"),
        target_user_id: String::from(target),
        webhook_url: String::from("https://discord.com/api/webhooks/1/x"),
    }
}

fn event(channel: &str, kind: &str, author: &str, id: &str, urls: &[&str]) -> InboundEvent {
    InboundEvent {
        channel: String::from(channel),
        post: Some(CandidatePost {
            kind: String::from(kind),
            author: String::from(author),
            id: String::from(id),
            files: urls.iter().map(|u| Attachment { url: String::from(*u) }).collect(),
        }),
    }
}

#[test]
fn note_without_attachments_is_not_forwarded() {
    let e = event("X", "note", "U1", "n1", &[]);
    assert!(!is_target_note(&e, &secrets_for("U1")));

    let text = r#"{"type":"channel","body":{"id":"X","type":"note","body":{"id":"n1","userId":"U1","files":[]}}}"#;
    let decoded = parse_event(text).unwrap();
    assert_eq!(decoded, e);
    assert!(!is_target_note(&decoded, &secrets_for("U1")));
}

#[test]
fn note_of_another_author_is_not_forwarded() {
    let e = event("X", "note", "U2", "n2", &["http://a/1.png"]);
    assert!(!is_target_note(&e, &secrets_for("U1")));
    assert!(is_target_note(&e, &secrets_for("U2")));
}

#[test]
fn target_note_is_forwarded_with_its_payload() {
    let e = event("X", "note", "U1", "abc123", &["http://a/1.png", "http://a/2.png"]);
    assert!(is_target_note(&e, &secrets_for("U1")));
    let payload = generate_note_info(e.post.as_ref().unwrap());
    assert_eq!(
        payload,
        "[note](https://misskey.io/notes/abc123)\n[1枚目](http://a/1.png)\n[2枚目](http://a/2.png)"
    );
}

#[test]
fn target_note_goes_from_the_wire_to_the_delivery() {
    let config = RelayConfig::new(secrets_for("U1"), String::from("X"));
    let text = r#"{"type":"channel","body":{"id":"X","type":"note","body":{"id":"abc123","userId":"U1","files":[{"url":"http://a/1.png"},{"url":"http://a/2.png"}]}}}"#;
    let s = step(&config, RelayState::Listening, &Event::Text(String::from(text)));
    assert_eq!(s.next, RelayState::Listening);
    assert_eq!(s.delay_secs, 0);
    assert_eq!(s.notice, Some(Notice::TargetNote));
    assert_eq!(
        s.action,
        Action::Deliver(String::from(
            "[note](https://misskey.io/notes/abc123)\n[1枚目](http://a/1.png)\n[2枚目](http://a/2.png)"
        ))
    );
}

#[test]
fn rejected_delivery_is_reported_and_the_relay_reads_on() {
    let config = RelayConfig::new(secrets_for("U1"), String::from("X"));
    let outcome = response_outcome(500);
    assert_eq!(outcome, DeliveryOutcome::Rejected { status: 500 });
    assert!(!outcome.is_success());

    let s = step(&config, RelayState::Listening, &Event::Delivered(outcome));
    assert_eq!(s.next, RelayState::Listening);
    assert_eq!(s.action, Action::Read);
    assert_eq!(s.delay_secs, 60);
    assert_eq!(s.notice, Some(Notice::DeliveryFailed));

    // The next message is handled as if nothing had happened.
    let s = step(&config, s.next, &Event::OtherFrame);
    assert_eq!(s.next, RelayState::Listening);
    assert_eq!(s.action, Action::Read);
}

#[test]
fn transport_failure_is_not_fatal_either() {
    let config = RelayConfig::new(secrets_for("U1"), String::from("X"));
    let s = step(
        &config,
        RelayState::Listening,
        &Event::Delivered(DeliveryOutcome::TransportFailed),
    );
    assert_eq!(s.next, RelayState::Listening);
    assert_eq!(s.action, Action::Read);
    assert_eq!(s.delay_secs, 60);
    assert_eq!(s.notice, Some(Notice::DeliveryFailed));
}

#[test]
fn idle_twice_rests_twice_and_goes_on() {
    let config = RelayConfig::new(secrets_for("U1"), String::from("X"));
    let mut state = RelayState::Listening;
    let mut rests = 0;
    for _ in 0..2 {
        let s = step(&config, state, &Event::NoData);
        assert_eq!(s.action, Action::Read);
        assert_eq!(s.notice, None);
        assert_ne!(s.next, RelayState::Terminated);
        if s.delay_secs == config.pacing_secs {
            rests += 1;
        }
        state = s.next;
    }
    assert_eq!(rests, 2);
    assert_eq!(state, RelayState::Listening);
}

#[test]
fn idle_twice_with_reconnect_on_idle() {
    let mut config = RelayConfig::new(secrets_for("U1"), String::from("X"));
    config.reconnect_on_idle = true;
    config.pacing_secs = 5;
    let mut state = RelayState::Listening;
    for _ in 0..2 {
        let s = step(&config, state, &Event::NoData);
        assert_eq!(s.next, RelayState::Connecting);
        assert_eq!(s.delay_secs, 5);
        assert_eq!(s.action, Action::Connect);
        let s = step(&config, s.next, &Event::Connected);
        assert_eq!(s.next, RelayState::Listening);
        assert_eq!(s.delay_secs, 0);
        assert_eq!(s.action, Action::Read);
        assert_eq!(s.notice, Some(Notice::Connected));
        state = s.next;
    }
    assert_eq!(state, RelayState::Listening);
}
