use sentrystr_pipeline::collector::{DEFAULT_AUTHOR_LIMIT, EVENT_KIND, SUBSCRIPTION_CAPACITY};
use sentrystr_pipeline::{
    alert_flags, author_filter, collect_matching, AlertConfig, Event, EventFilter, Forwarder, Level, Notification,
    PrivateMessageConfig, RawMessage, StreamAction, StreamInput, Timestamp, TransportQuery,
};

fn raw(id: &str, level: Level, secs: i64) -> RawMessage {
    RawMessage {
        event_id: id.to_string(),
        author: "author".to_string(),
        payload: Some(Event::new(format!("e-{}", id), Timestamp::from_secs(secs)).with_level(level)),
        tags: Vec::new(),
    }
}

fn malformed(id: &str) -> RawMessage {
    RawMessage { event_id: id.to_string(), author: "author".to_string(), payload: None, tags: Vec::new() }
}

fn now() -> Timestamp {
    Timestamp { secs: 5000, nanos: 42 }
}

#[test]
fn collection_scenario_error_after_since() {
    let t0 = 1000;
    let filter = EventFilter::new().with_level(Level::Error).with_since(Timestamp::from_secs(t0));
    let msgs = vec![raw("a", Level::Warning, t0 + 1), raw("b", Level::Error, t0 - 1), raw("c", Level::Error, t0 + 2)];
    let out = collect_matching(&filter, msgs, now());
    assert_eq!(out.len(), 1);
    assert_eq!(out[0].nostr_event_id, "c");
    assert_eq!(out[0].author, "author");
    assert_eq!(out[0].event.timestamp, Timestamp::from_secs(t0 + 2));
    assert_eq!(out[0].received_at, now());
}

#[test]
fn malformed_messages_are_skipped() {
    let msgs = vec![malformed("x"), raw("a", Level::Info, 1), malformed("y"), raw("b", Level::Error, 2), malformed("z")];
    let out = collect_matching(&EventFilter::new(), msgs, now());
    let ids: Vec<&str> = out.iter().map(|c| c.nostr_event_id.as_str()).collect();
    assert_eq!(ids, vec!["a", "b"]);
}

#[test]
fn all_malformed_gives_empty_result() {
    let out = collect_matching(&EventFilter::new(), vec![malformed("x"), malformed("y")], now());
    assert!(out.is_empty());
    assert!(collect_matching(&EventFilter::new(), Vec::new(), now()).is_empty());
}

#[test]
fn collection_keeps_arrival_order_and_duplicates() {
    let msgs = vec![raw("b", Level::Info, 2), raw("a", Level::Info, 1), raw("b", Level::Info, 2)];
    let out = collect_matching(&EventFilter::new(), msgs, now());
    let ids: Vec<&str> = out.iter().map(|c| c.nostr_event_id.as_str()).collect();
    assert_eq!(ids, vec!["b", "a", "b"]);
}

#[test]
fn collection_checks_transport_tags() {
    let filter = EventFilter::new().with_service_filter("api".to_string());
    let mut tagged = raw("a", Level::Info, 1);
    tagged.tags = vec![vec!["service".to_string(), "api".to_string()]];
    let out = collect_matching(&filter, vec![tagged, raw("b", Level::Info, 1)], now());
    assert_eq!(out.len(), 1);
    assert_eq!(out[0].nostr_event_id, "a");
}

#[test]
fn collection_query_pushes_down_bounds() {
    let filter = EventFilter::new()
        .with_author("k".to_string())
        .with_since(Timestamp { secs: 10, nanos: 5 })
        .with_until(Timestamp::from_secs(-3))
        .with_limit(25)
        .with_level(Level::Error);
    let q = TransportQuery::for_collection(&filter);
    assert_eq!(q.kind, EVENT_KIND);
    assert_eq!(q.kind, 9898);
    assert_eq!(q.authors, Some(vec!["k".to_string()]));
    assert_eq!(q.since, Some(10));
    assert_eq!(q.until, Some(0));
    assert_eq!(q.limit, Some(25));
    let s = TransportQuery::for_subscription(&filter);
    assert_eq!(s.since, Some(10));
    assert_eq!(s.until, None);
    assert_eq!(s.limit, None);
}

#[test]
fn author_query_defaults_limit() {
    let f = author_filter("k".to_string(), None);
    assert_eq!(f.limit, Some(DEFAULT_AUTHOR_LIMIT));
    assert_eq!(f.limit, Some(100));
    assert_eq!(f.authors, Some(vec!["k".to_string()]));
    assert_eq!(author_filter("k".to_string(), Some(3)).limit, Some(3));
}

fn notification(sub: &str, msg: RawMessage) -> StreamInput {
    StreamInput::Received(Notification { subscription_id: sub.to_string(), message: msg })
}

#[test]
fn forwarder_forwards_matching_events_of_its_subscription() {
    let mut fw = Forwarder::new(EventFilter::new().with_level(Level::Error), "sub".to_string(), None);
    match fw.step(notification("sub", raw("a", Level::Error, 1)), now()) {
        StreamAction::Forward { event, alert } => {
            assert_eq!(event.nostr_event_id, "a");
            assert_eq!(event.received_at, now());
            assert!(!alert);
        },
        other => panic!("unexpected {:?}", other),
    }
    assert!(matches!(fw.step(notification("other", raw("b", Level::Error, 1)), now()), StreamAction::Idle));
    assert!(matches!(fw.step(notification("sub", raw("c", Level::Info, 1)), now()), StreamAction::Idle));
    assert!(matches!(fw.step(notification("sub", malformed("d")), now()), StreamAction::Idle));
    assert!(fw.running);
}

#[test]
fn forwarder_stops_when_consumer_closes() {
    let mut fw = Forwarder::new(EventFilter::new(), "sub".to_string(), None);
    assert!(matches!(fw.step(StreamInput::Delivered(true), now()), StreamAction::Idle));
    assert!(matches!(fw.step(StreamInput::Delivered(false), now()), StreamAction::Stop));
    assert!(!fw.running);
    assert!(matches!(fw.step(notification("sub", raw("a", Level::Error, 1)), now()), StreamAction::Stop));
}

#[test]
fn forwarder_stops_when_transport_closes() {
    let mut fw = Forwarder::new(EventFilter::new(), "sub".to_string(), None);
    assert!(matches!(fw.step(StreamInput::Closed, now()), StreamAction::Stop));
    assert!(!fw.running);
}

#[test]
fn failed_alert_changes_nothing() {
    let alert = AlertConfig { recipient: "r".to_string(), min_level: Level::Warning, use_nip17: true };
    let mut sent = Forwarder::new(EventFilter::new(), "sub".to_string(), Some(alert.clone()));
    let mut failed = Forwarder::new(EventFilter::new(), "sub".to_string(), Some(alert));
    assert!(matches!(sent.step(StreamInput::AlertDone(true), now()), StreamAction::Idle));
    assert!(matches!(failed.step(StreamInput::AlertDone(false), now()), StreamAction::Idle));
    assert!(sent.running && failed.running);
    let a = sent.step(notification("sub", raw("a", Level::Error, 1)), now());
    let b = failed.step(notification("sub", raw("a", Level::Error, 1)), now());
    match (a, b) {
        (StreamAction::Forward { event: x, alert: ax }, StreamAction::Forward { event: y, alert: ay }) => {
            assert_eq!(x.nostr_event_id, y.nostr_event_id);
            assert!(ax && ay);
        },
        other => panic!("unexpected {:?}", other),
    }
}

#[test]
fn alert_gate_warning_minimum() {
    let alert = AlertConfig { recipient: "r".to_string(), min_level: Level::Warning, use_nip17: false };
    assert!(!alert.should_alert(Level::Debug));
    assert!(!alert.should_alert(Level::Info));
    assert!(alert.should_alert(Level::Warning));
    assert!(alert.should_alert(Level::Fatal));
    let mut fw = Forwarder::new(EventFilter::new(), "sub".to_string(), Some(alert));
    let debug = fw.step(notification("sub", raw("d", Level::Debug, 1)), now());
    assert!(matches!(debug, StreamAction::Forward { alert: false, .. }));
    let fatal = fw.step(notification("sub", raw("f", Level::Fatal, 1)), now());
    assert!(matches!(fatal, StreamAction::Forward { alert: true, .. }));
}

#[test]
fn private_message_config_defaults_to_every_level() {
    let cfg = PrivateMessageConfig { recipient_pubkey: "r".to_string(), min_level: None, use_nip17: true };
    let alert = cfg.alert_config();
    assert_eq!(alert.min_level, Level::Debug);
    assert!(alert.should_alert(Level::Debug));
    let cfg = PrivateMessageConfig { min_level: Some(Level::Error), ..cfg };
    assert_eq!(cfg.alert_config().min_level, Level::Error);
}

#[test]
fn subscription_channel_applies_backpressure() {
    let (tx, mut rx) = tokio::sync::mpsc::channel::<u32>(SUBSCRIPTION_CAPACITY);
    assert_eq!(SUBSCRIPTION_CAPACITY, 1000);
    for i in 0..1000 {
        assert!(tx.try_send(i).is_ok());
    }
    assert!(matches!(tx.try_send(1000), Err(tokio::sync::mpsc::error::TrySendError::Full(_))));
    assert_eq!(rx.try_recv().unwrap(), 0);
    assert!(tx.try_send(1000).is_ok());
    drop(rx);
    assert!(matches!(tx.try_send(1001), Err(tokio::sync::mpsc::error::TrySendError::Closed(_))));
}

#[test]
fn alert_flags_follow_minimum_level() {
    let events = collect_matching(
        &EventFilter::new(),
        vec![raw("a", Level::Debug, 1), raw("b", Level::Error, 2), raw("c", Level::Warning, 3)],
        now(),
    );
    let alert = AlertConfig { recipient: "r".to_string(), min_level: Level::Warning, use_nip17: true };
    assert_eq!(alert_flags(&Some(alert), &events), vec![false, true, true]);
    assert_eq!(alert_flags(&None, &events), vec![false, false, false]);
}
