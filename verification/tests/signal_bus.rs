use esp_wifi_manager::signals::EndBroadcast;
use esp_wifi_manager::signals::Mailbox;
use esp_wifi_manager::signals::WmInnerSignals;
use esp_wifi_manager::signals::MAX_SUBSCRIBERS;
use esp_wifi_manager::structs::ConnectionOutcome;
use esp_wifi_manager::structs::ScanEntry;

#[test]
fn mailbox_starts_empty() {
    let mut m: Mailbox<u32> = Mailbox::new();
    assert!(!m.signaled());
    assert!(m.latest().is_none());
    assert_eq!(m.try_take(), None);
}

#[test]
fn mailbox_keeps_only_the_latest_value() {
    let mut m: Mailbox<u32> = Mailbox::new();
    m.signal(1);
    m.signal(2);
    m.signal(3);
    assert!(m.signaled());
    assert_eq!(m.try_take(), Some(3));
    assert_eq!(m.try_take(), None);
    assert!(!m.signaled());
}

#[test]
fn mailbox_latest_leaves_the_value() {
    let mut m: Mailbox<Vec<u8>> = Mailbox::new();
    m.signal(vec![1, 2, 3]);
    assert_eq!(m.latest(), Some(&vec![1, 2, 3]));
    assert_eq!(m.latest(), Some(&vec![1, 2, 3]));
    assert!(m.signaled());
}

#[test]
fn mailbox_reset_discards() {
    let mut m: Mailbox<bool> = Mailbox::new();
    m.signal(true);
    m.reset();
    assert!(!m.signaled());
    assert_eq!(m.try_take(), None);
}

#[test]
fn broadcast_reaches_every_earlier_subscriber_once() {
    let mut b = EndBroadcast::new();
    let first = b.subscribe().unwrap();
    let second = b.subscribe().unwrap();
    assert_eq!(first, 0);
    assert_eq!(second, 1);
    assert!(!b.try_next_message(first));
    b.publish_immediate();
    assert!(b.try_next_message(first));
    assert!(b.try_next_message(second));
    assert!(!b.try_next_message(first));
    assert!(!b.try_next_message(second));
}

#[test]
fn broadcast_misses_late_subscriber() {
    let mut b = EndBroadcast::new();
    b.publish_immediate();
    let late = b.subscribe().unwrap();
    assert!(!b.try_next_message(late));
}

#[test]
fn broadcast_has_sixteen_places() {
    let mut b = EndBroadcast::new();
    for expected in 0..MAX_SUBSCRIBERS {
        assert_eq!(b.subscribe(), Some(expected));
    }
    assert_eq!(b.subscribe(), None);
    b.unsubscribe(5);
    assert_eq!(b.subscribe(), Some(5));
    assert_eq!(b.subscribe(), None);
}

#[test]
fn broadcast_ignores_ids_out_of_range() {
    let mut b = EndBroadcast::new();
    b.publish_immediate();
    assert!(!b.try_next_message(16));
    assert!(!b.try_next_message(1000));
    b.unsubscribe(1000);
    assert_eq!(b.subscribe(), Some(0));
}

#[test]
fn broadcast_forgets_a_place_that_was_given_up() {
    let mut b = EndBroadcast::new();
    let id = b.subscribe().unwrap();
    b.publish_immediate();
    b.unsubscribe(id);
    let again = b.subscribe().unwrap();
    assert_eq!(again, id);
    assert!(!b.try_next_message(again));
}

#[test]
fn fresh_bus_is_empty() {
    let mut bus = WmInnerSignals::new();
    assert!(!bus.wifi_scan_res.signaled());
    assert!(!bus.wifi_conn_info_sig.signaled());
    assert!(!bus.wifi_conn_res_sig.signaled());
    assert!(!bus.end_signalled(0));
}

#[test]
fn bus_end_signal_fans_out() {
    let mut bus = WmInnerSignals::new();
    let web = bus.end_subscribe().unwrap();
    let ble = bus.end_subscribe().unwrap();
    assert!(!bus.end_signalled(web));
    bus.signal_end();
    let late = bus.end_subscribe().unwrap();
    assert!(bus.end_signalled(web));
    assert!(bus.end_signalled(ble));
    assert!(!bus.end_signalled(late));
    assert!(!bus.end_signalled(web));
    bus.end_unsubscribe(web);
    assert_eq!(bus.end_subscribe(), Some(web));
}

#[test]
fn bus_mailboxes_are_independent() {
    let mut bus = WmInnerSignals::new();
    bus.wifi_conn_info_sig.signal(vec![1]);
    bus.wifi_conn_res_sig.signal(ConnectionOutcome::Rejected);
    bus.wifi_scan_res.signal(vec![ScanEntry { ssid: "a".to_string(), signal_strength: -1 }]);
    bus.signal_end();
    assert_eq!(bus.wifi_conn_info_sig.try_take(), Some(vec![1]));
    assert_eq!(bus.wifi_conn_res_sig.try_take(), Some(ConnectionOutcome::Rejected));
    assert_eq!(bus.wifi_scan_res.latest().unwrap().len(), 1);
}
