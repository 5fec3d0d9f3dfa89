use esp_wifi_manager::bluetooth::advertise;
use esp_wifi_manager::bluetooth::custom_task;
use esp_wifi_manager::bluetooth::gatt_events_task;
use esp_wifi_manager::bluetooth::stop_ble_task;
use esp_wifi_manager::signals::WmInnerSignals;
use esp_wifi_manager::structs::ConnectionOutcome;
use esp_wifi_manager::submission::decode_submission;

#[test]
fn advertisement_bytes() {
    let data = advertise("ESP-A01").unwrap();
    let mut expected = vec![2, 1, 6, 3, 2, 0xf2, 0x54, 8, 9];
    expected.extend_from_slice(b"ESP-A01");
    assert_eq!(data, expected);
    assert_eq!(advertise("").unwrap(), vec![2, 1, 6, 3, 2, 0xf2, 0x54, 1, 9]);
}

#[test]
fn advertisement_fits_thirty_one_bytes() {
    let longest = "n".repeat(22);
    let data = advertise(&longest).unwrap();
    assert_eq!(data.len(), 31);
    assert_eq!(data[7], 23);
    assert_eq!(&data[9..], longest.as_bytes());
    assert!(advertise(&"n".repeat(23)).is_none());
    assert!(advertise(&"\u{e9}".repeat(12)).is_none());
    assert!(advertise(&"\u{e9}".repeat(11)).is_some());
    assert!(advertise(&"n".repeat(300)).is_none());
}

#[test]
fn scan_value_fits_the_characteristic() {
    assert_eq!(gatt_events_task(""), "");
    assert_eq!(gatt_events_task("HomeWifi: -45\n"), "HomeWifi: -45\n");
    let exact = "a".repeat(512);
    assert_eq!(gatt_events_task(&exact), exact);
    let longer = "a".repeat(513);
    assert_eq!(gatt_events_task(&longer), exact);
    let much = "ab".repeat(2000);
    assert_eq!(gatt_events_task(&much), "ab".repeat(256));
}

#[test]
fn scan_value_is_cut_between_characters() {
    let text = format!("{}{}", "a".repeat(511), "\u{e9}\u{e9}");
    assert_eq!(gatt_events_task(&text), "a".repeat(511));
    let text = format!("{}{}", "a".repeat(510), "\u{e9}\u{e9}");
    assert_eq!(gatt_events_task(&text), format!("{}{}", "a".repeat(510), "\u{e9}"));
    let text = format!("{}{}", "a".repeat(509), "\u{1f600}x");
    assert_eq!(gatt_events_task(&text), "a".repeat(509));
    let text = format!("{}{}", "a".repeat(510), "\u{20ac}\u{20ac}");
    assert_eq!(gatt_events_task(&text), "a".repeat(510));
    let text = "\u{1f600}".repeat(200);
    assert_eq!(gatt_events_task(&text), "\u{1f600}".repeat(128));
}

#[test]
fn complete_setup_text_is_a_submission() {
    let mut bus = WmInnerSignals::new();
    assert!(custom_task("ssid=HomeWifi&psk=secret123&\0", &mut bus));
    let c = decode_submission(&bus.wifi_conn_info_sig.try_take().unwrap()).unwrap();
    assert_eq!(c.ssid, "HomeWifi");
    assert_eq!(c.psk, "secret123");
}

#[test]
fn setup_text_is_read_as_it_stands() {
    let mut bus = WmInnerSignals::new();
    assert!(custom_task("ssid=a&psk=b\0", &mut bus));
    let c = decode_submission(&bus.wifi_conn_info_sig.try_take().unwrap()).unwrap();
    assert_eq!(c.ssid, "a");
    assert_eq!(c.psk, "b\0");
    assert!(custom_task("\0", &mut bus));
    let c = decode_submission(&bus.wifi_conn_info_sig.try_take().unwrap()).unwrap();
    assert_eq!(c.ssid, "");
    assert_eq!(c.psk, "");
}

#[test]
fn incomplete_setup_text_is_left_alone() {
    let mut bus = WmInnerSignals::new();
    bus.wifi_conn_info_sig.signal(vec![9]);
    assert!(!custom_task("", &mut bus));
    assert!(!custom_task("ssid=a&psk=b", &mut bus));
    assert!(!custom_task("ssid=a\0&psk=b", &mut bus));
    assert_eq!(bus.wifi_conn_info_sig.try_take(), Some(vec![9]));
}

#[test]
fn listener_stops_once_the_session_ends() {
    let mut bus = WmInnerSignals::new();
    let place = bus.end_subscribe().unwrap();
    assert!(!stop_ble_task(&mut bus, place));
    bus.wifi_conn_res_sig.signal(ConnectionOutcome::Connected);
    assert!(!stop_ble_task(&mut bus, place));
    bus.signal_end();
    assert!(stop_ble_task(&mut bus, place));
    assert_eq!(bus.wifi_conn_res_sig.try_take(), Some(ConnectionOutcome::Connected));
}

#[test]
fn listener_that_stopped_gives_up_its_place() {
    let mut bus = WmInnerSignals::new();
    let first = bus.end_subscribe().unwrap();
    let second = bus.end_subscribe().unwrap();
    assert_ne!(first, second);
    bus.signal_end();
    assert!(stop_ble_task(&mut bus, first));
    assert!(!stop_ble_task(&mut bus, first));
    assert_eq!(bus.end_subscribe(), Some(first));
    assert!(!stop_ble_task(&mut bus, first));
    assert!(stop_ble_task(&mut bus, second));
}

#[test]
fn listener_without_a_place_never_stops() {
    let mut bus = WmInnerSignals::new();
    bus.signal_end();
    assert!(!stop_ble_task(&mut bus, 0));
    assert!(!stop_ble_task(&mut bus, 16));
    assert!(!stop_ble_task(&mut bus, usize::MAX));
}
