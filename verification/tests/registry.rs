use chat_relay::envelope::Envelope;
use chat_relay::registry::{Delivery, Registry};
use tokio::sync::mpsc::error::TryRecvError;
use tokio::sync::mpsc::{unbounded_channel, UnboundedReceiver};
use tokio_tungstenite::tungstenite::protocol::Message;

fn next_text(rx: &mut UnboundedReceiver<Message>) -> Option<String> {
    match rx.try_recv() {
        Ok(Message::Text(text)) => Some(text),
        Ok(other) => panic!("a frame that is not text: {:?}", other),
        Err(_) => None,
    }
}

fn names_of(registry: &Registry) -> Vec<String> {
    registry.names()
}

#[test]
fn new_registry_has_no_sessions() {
    let registry = Registry::new();
    assert_eq!(registry.session_count(), 0);
    assert!(registry.names().is_empty());
    assert!(!registry.is_live(1));
    assert_eq!(registry.name_of(1), None);
}

#[test]
fn add_makes_a_session_live_without_a_name() {
    let mut registry = Registry::new();
    let (tx, _rx) = unbounded_channel();
    registry.add(7, tx);
    assert!(registry.is_live(7));
    assert!(!registry.is_live(8));
    assert_eq!(registry.session_count(), 1);
    assert_eq!(registry.name_of(7), None);
    assert!(registry.names().is_empty());
}

#[test]
fn register_on_a_session_that_is_not_live_changes_nothing() {
    let mut registry = Registry::new();
    let (tx, _rx) = unbounded_channel();
    registry.add(1, tx);
    assert!(!registry.register(2, "ghost".to_string()));
    assert!(registry.names().is_empty());
    assert_eq!(registry.name_of(2), None);
    assert!(!registry.is_live(2));
    assert_eq!(registry.session_count(), 1);
}

#[test]
fn register_binds_a_name_to_a_live_session() {
    let mut registry = Registry::new();
    let (tx, _rx) = unbounded_channel();
    registry.add(1, tx);
    assert!(registry.register(1, "bob".to_string()));
    assert_eq!(registry.name_of(1), Some("bob".to_string()));
    assert_eq!(names_of(&registry), vec!["bob".to_string()]);
}

#[test]
fn names_come_in_the_order_of_first_registration() {
    let mut registry = Registry::new();
    let (tx_a, _rx_a) = unbounded_channel();
    let (tx_b, _rx_b) = unbounded_channel();
    let (tx_c, _rx_c) = unbounded_channel();
    registry.add(1, tx_a);
    registry.add(2, tx_b);
    registry.add(3, tx_c);
    registry.register(3, "cat".to_string());
    registry.register(1, "ann".to_string());
    registry.register(2, "bob".to_string());
    assert_eq!(
        names_of(&registry),
        vec!["cat".to_string(), "ann".to_string(), "bob".to_string()]
    );
}

#[test]
fn sessions_without_a_name_are_not_in_the_roster() {
    let mut registry = Registry::new();
    let (tx_a, _rx_a) = unbounded_channel();
    let (tx_b, _rx_b) = unbounded_channel();
    registry.add(1, tx_a);
    registry.add(2, tx_b);
    registry.register(2, "bob".to_string());
    assert_eq!(names_of(&registry), vec!["bob".to_string()]);
    assert_eq!(registry.session_count(), 2);
}

#[test]
fn registering_again_replaces_the_name_where_it_stands() {
    let mut registry = Registry::new();
    let (tx_a, _rx_a) = unbounded_channel();
    let (tx_b, _rx_b) = unbounded_channel();
    registry.add(1, tx_a);
    registry.add(2, tx_b);
    registry.register(1, "ann".to_string());
    registry.register(2, "bob".to_string());
    assert!(registry.register(1, "anna".to_string()));
    assert_eq!(names_of(&registry), vec!["anna".to_string(), "bob".to_string()]);
    assert_eq!(registry.name_of(1), Some("anna".to_string()));
}

#[test]
fn a_run_of_registrations_leaves_the_last_name_of_each_live_session() {
    let mut registry = Registry::new();
    let (tx_a, _rx_a) = unbounded_channel();
    let (tx_b, _rx_b) = unbounded_channel();
    let (tx_c, _rx_c) = unbounded_channel();
    registry.add(1, tx_a);
    registry.add(2, tx_b);
    registry.add(3, tx_c);
    registry.register(2, "b1".to_string());
    registry.remove(3);
    let calls = [(1, "a1"), (3, "c1"), (2, "b2"), (9, "x"), (1, "a2"), (3, "c2")];
    for (id, name) in calls {
        registry.register(id, name.to_string());
    }
    assert_eq!(names_of(&registry), vec!["b2".to_string(), "a2".to_string()]);
    assert_eq!(registry.name_of(1), Some("a2".to_string()));
    assert_eq!(registry.name_of(2), Some("b2".to_string()));
    assert_eq!(registry.name_of(3), None);
    assert_eq!(registry.name_of(9), None);
}

#[test]
fn remove_of_an_unknown_session_changes_nothing() {
    let mut registry = Registry::new();
    let (tx, _rx) = unbounded_channel();
    registry.add(1, tx);
    registry.register(1, "bob".to_string());
    assert!(!registry.remove(5));
    assert!(registry.is_live(1));
    assert_eq!(names_of(&registry), vec!["bob".to_string()]);
    let mut empty = Registry::new();
    assert!(!empty.remove(1));
    assert_eq!(empty.session_count(), 0);
}

#[test]
fn remove_forgets_the_name_and_the_channel() {
    let mut registry = Registry::new();
    let (tx_a, _rx_a) = unbounded_channel();
    let (tx_b, _rx_b) = unbounded_channel();
    let (tx_c, _rx_c) = unbounded_channel();
    registry.add(1, tx_a);
    registry.add(2, tx_b);
    registry.add(3, tx_c);
    registry.register(1, "ann".to_string());
    registry.register(2, "bob".to_string());
    registry.register(3, "cat".to_string());
    assert!(registry.remove(2));
    assert!(!registry.is_live(2));
    assert_eq!(registry.name_of(2), None);
    assert_eq!(names_of(&registry), vec!["ann".to_string(), "cat".to_string()]);
    assert_eq!(registry.session_count(), 2);
    assert!(!registry.remove(2));
}

#[test]
fn remove_of_a_session_without_a_name_keeps_the_roster() {
    let mut registry = Registry::new();
    let (tx_a, _rx_a) = unbounded_channel();
    let (tx_b, _rx_b) = unbounded_channel();
    registry.add(1, tx_a);
    registry.add(2, tx_b);
    registry.register(1, "ann".to_string());
    assert!(registry.remove(2));
    assert_eq!(names_of(&registry), vec!["ann".to_string()]);
    assert_eq!(registry.session_count(), 1);
}

#[test]
fn unregister_does_what_remove_does() {
    let mut registry = Registry::new();
    let (tx_a, _rx_a) = unbounded_channel();
    let (tx_b, _rx_b) = unbounded_channel();
    registry.add(1, tx_a);
    registry.add(2, tx_b);
    registry.register(1, "ann".to_string());
    registry.register(2, "bob".to_string());
    assert!(registry.unregister(1));
    assert!(!registry.is_live(1));
    assert_eq!(registry.name_of(1), None);
    assert_eq!(names_of(&registry), vec!["bob".to_string()]);
    assert!(!registry.unregister(1));
    assert!(!registry.unregister(42));
}

#[test]
fn a_removed_session_must_be_added_again_before_it_can_register() {
    let mut registry = Registry::new();
    let (tx, _rx) = unbounded_channel();
    registry.add(1, tx);
    registry.register(1, "ann".to_string());
    registry.remove(1);
    assert!(!registry.register(1, "ann".to_string()));
    assert!(registry.names().is_empty());
    let (tx_again, _rx_again) = unbounded_channel();
    registry.add(1, tx_again);
    assert_eq!(registry.name_of(1), None);
    assert!(registry.register(1, "ann".to_string()));
    assert_eq!(names_of(&registry), vec!["ann".to_string()]);
}

#[test]
fn two_sessions_may_hold_the_same_name() {
    let mut registry = Registry::new();
    let (tx_a, _rx_a) = unbounded_channel();
    let (tx_b, _rx_b) = unbounded_channel();
    registry.add(1, tx_a);
    registry.add(2, tx_b);
    assert!(registry.register(1, "sam".to_string()));
    assert!(registry.register(2, "sam".to_string()));
    assert_eq!(registry.name_of(1), Some("sam".to_string()));
    assert_eq!(registry.name_of(2), Some("sam".to_string()));
    assert_eq!(names_of(&registry), vec!["sam".to_string(), "sam".to_string()]);
    registry.remove(1);
    assert_eq!(names_of(&registry), vec!["sam".to_string()]);
    assert_eq!(registry.name_of(2), Some("sam".to_string()));
}

#[test]
fn broadcast_gives_every_live_session_the_same_text() {
    let mut registry = Registry::new();
    let (tx_a, mut rx_a) = unbounded_channel();
    let (tx_b, mut rx_b) = unbounded_channel();
    let (tx_c, mut rx_c) = unbounded_channel();
    registry.add(1, tx_a);
    registry.add(2, tx_b);
    registry.add(3, tx_c);
    registry.register(2, "bob".to_string());
    let envelope = Envelope::users(vec!["bob".to_string(), "a\"my".to_string()]);
    let report = registry.broadcast(&envelope);
    let expected = "{\"messageType\":\"users\",\"dataArray\":[\"bob\",\"a\\\"my\"],\"data\":null}";
    assert_eq!(report.payload, expected);
    assert_eq!(
        report.deliveries,
        vec![
            Delivery { id: 1, accepted: true },
            Delivery { id: 2, accepted: true },
            Delivery { id: 3, accepted: true },
        ]
    );
    let got_a = next_text(&mut rx_a).unwrap();
    let got_b = next_text(&mut rx_b).unwrap();
    let got_c = next_text(&mut rx_c).unwrap();
    assert_eq!(got_a.as_bytes(), expected.as_bytes());
    assert_eq!(got_a.as_bytes(), got_b.as_bytes());
    assert_eq!(got_b.as_bytes(), got_c.as_bytes());
    assert_eq!(next_text(&mut rx_a), None);
    assert_eq!(next_text(&mut rx_b), None);
    assert_eq!(next_text(&mut rx_c), None);
}

#[test]
fn broadcast_to_nobody_reports_no_delivery() {
    let registry = Registry::new();
    let report = registry.broadcast(&Envelope::roster_request());
    assert_eq!(report.payload, "{\"messageType\":\"users\",\"dataArray\":null,\"data\":null}");
    assert!(report.deliveries.is_empty());
}

#[test]
fn broadcast_skips_a_channel_whose_consumer_is_gone() {
    let mut registry = Registry::new();
    let (tx_a, rx_a) = unbounded_channel();
    let (tx_b, mut rx_b) = unbounded_channel();
    let (tx_c, mut rx_c) = unbounded_channel();
    registry.add(1, tx_a);
    registry.add(2, tx_b);
    registry.add(3, tx_c);
    drop(rx_a);
    rx_b.close();
    let report = registry.broadcast(&Envelope::message("hi".to_string()));
    assert_eq!(
        report.deliveries,
        vec![
            Delivery { id: 1, accepted: false },
            Delivery { id: 2, accepted: false },
            Delivery { id: 3, accepted: true },
        ]
    );
    assert_eq!(rx_b.try_recv(), Err(TryRecvError::Disconnected));
    assert_eq!(next_text(&mut rx_c), Some(report.payload.clone()));
    assert!(registry.is_live(1));
    assert_eq!(registry.session_count(), 3);
}

#[test]
fn broadcasts_arrive_once_each_and_in_the_order_sent() {
    let mut registry = Registry::new();
    let (tx_a, mut rx_a) = unbounded_channel();
    let (tx_b, mut rx_b) = unbounded_channel();
    registry.add(1, tx_a);
    registry.add(2, tx_b);
    let first = registry.broadcast(&Envelope::message("one".to_string()));
    let second = registry.broadcast(&Envelope::message("two".to_string()));
    let third = registry.broadcast(&Envelope::message("three".to_string()));
    for rx in [&mut rx_a, &mut rx_b] {
        assert_eq!(next_text(rx), Some(first.payload.clone()));
        assert_eq!(next_text(rx), Some(second.payload.clone()));
        assert_eq!(next_text(rx), Some(third.payload.clone()));
        assert_eq!(next_text(rx), None);
    }
}

#[test]
fn broadcast_after_remove_does_not_reach_the_removed_session() {
    let mut registry = Registry::new();
    let (tx_a, mut rx_a) = unbounded_channel();
    let (tx_b, mut rx_b) = unbounded_channel();
    registry.add(1, tx_a);
    registry.add(2, tx_b);
    registry.register(1, "ann".to_string());
    registry.register(2, "bob".to_string());
    registry.remove(1);
    let report = registry.broadcast(&Envelope::users(registry.names()));
    assert_eq!(report.deliveries, vec![Delivery { id: 2, accepted: true }]);
    assert_eq!(
        report.payload,
        "{\"messageType\":\"users\",\"dataArray\":[\"bob\"],\"data\":null}"
    );
    assert_eq!(next_text(&mut rx_b), Some(report.payload.clone()));
    assert_eq!(rx_a.try_recv(), Err(TryRecvError::Disconnected));
    assert_eq!(names_of(&registry), vec!["bob".to_string()]);
}

#[test]
fn adding_a_live_session_again_replaces_its_channel_and_keeps_its_name() {
    let mut registry = Registry::new();
    let (tx_a, _rx_a) = unbounded_channel();
    let (tx_b, mut rx_b) = unbounded_channel();
    let (tx_old, mut rx_old) = unbounded_channel();
    let (tx_new, mut rx_new) = unbounded_channel();
    registry.add(1, tx_old);
    registry.add(2, tx_a);
    registry.add(3, tx_b);
    registry.register(1, "ann".to_string());
    registry.add(1, tx_new);
    assert_eq!(registry.session_count(), 3);
    assert_eq!(registry.name_of(1), Some("ann".to_string()));
    assert_eq!(names_of(&registry), vec!["ann".to_string()]);
    let report = registry.broadcast(&Envelope::message("hi".to_string()));
    assert_eq!(
        report.deliveries,
        vec![
            Delivery { id: 1, accepted: true },
            Delivery { id: 2, accepted: true },
            Delivery { id: 3, accepted: true },
        ]
    );
    assert_eq!(next_text(&mut rx_new), Some(report.payload.clone()));
    assert_eq!(next_text(&mut rx_b), Some(report.payload.clone()));
    assert_eq!(rx_old.try_recv(), Err(TryRecvError::Disconnected));
}
