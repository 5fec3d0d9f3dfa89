use esp_wifi_manager::structs::ConnectionOutcome;
use esp_wifi_manager::utils::digit_str;
use esp_wifi_manager::utils::fallback_identifier;
use esp_wifi_manager::utils::get_efuse_mac;
use esp_wifi_manager::utils::try_to_wifi_connect;
use esp_wifi_manager::utils::wifi_wait_for_ip;
use esp_wifi_manager::utils::write_digits;
use esp_wifi_manager::utils::AddressStep;
use esp_wifi_manager::utils::ConnectStep;

#[test]
fn mac_as_a_number() {
    assert_eq!(get_efuse_mac([0, 0, 0, 0, 0, 0]), 0);
    assert_eq!(get_efuse_mac([0, 0, 0, 0, 0, 1]), 1);
    assert_eq!(get_efuse_mac([1, 0, 0, 0, 0, 0]), 0x0100_0000_0000);
    assert_eq!(get_efuse_mac([0x24, 0x6f, 0x28, 0xab, 0xcd, 0xef]), 0x246f_28ab_cdef);
    assert_eq!(get_efuse_mac([0xff; 6]), 0xffff_ffff_ffff);
}

#[test]
fn digits_of_numbers() {
    assert_eq!(write_digits(0, 10), "0");
    assert_eq!(write_digits(7, 10), "7");
    assert_eq!(write_digits(10, 10), "10");
    assert_eq!(write_digits(65535, 10), "65535");
    assert_eq!(write_digits(u64::MAX, 10), "18446744073709551615");
    assert_eq!(write_digits(0, 16), "0");
    assert_eq!(write_digits(255, 16), "FF");
    assert_eq!(write_digits(0xabcdef, 16), "ABCDEF");
    assert_eq!(write_digits(u64::MAX, 16), "FFFFFFFFFFFFFFFF");
    assert_eq!(write_digits(5, 2), "101");
    assert_eq!(digit_str(0), "0");
    assert_eq!(digit_str(9), "9");
    assert_eq!(digit_str(10), "A");
    assert_eq!(digit_str(15), "F");
}

#[test]
fn fallback_identifier_is_prefix_and_hex() {
    assert_eq!(fallback_identifier("ESP-", [0x24, 0x6f, 0x28, 0xab, 0xcd, 0xef]), "ESP-246F28ABCDEF");
    assert_eq!(fallback_identifier("ESP-", [0, 0, 0, 0, 0x0a, 0x01]), "ESP-A01");
    assert_eq!(fallback_identifier("", [0; 6]), "0");
    assert_eq!(fallback_identifier("Ger\u{e4}t ", [0xff; 6]), "Ger\u{e4}t FFFFFFFFFFFF");
}

#[test]
fn fallback_identifier_is_the_same_every_time() {
    let mac = [1, 2, 3, 4, 5, 6];
    assert_eq!(fallback_identifier("ESP-", mac), fallback_identifier("ESP-", mac));
    assert_eq!(fallback_identifier("ESP-", mac), "ESP-10203040506");
    assert_ne!(fallback_identifier("ESP-", mac), fallback_identifier("ESP-", [1, 2, 3, 4, 5, 7]));
    assert_ne!(fallback_identifier("ESP-", mac), fallback_identifier("DEV-", mac));
}

#[test]
fn bounded_connect_steps() {
    assert_eq!(try_to_wifi_connect(0, 5000, None), ConnectStep::Attempt { budget: 5000 });
    assert_eq!(
        try_to_wifi_connect(1200, 5000, Some(ConnectionOutcome::Rejected)),
        ConnectStep::Attempt { budget: 3800 }
    );
    assert_eq!(try_to_wifi_connect(5000, 5000, Some(ConnectionOutcome::Rejected)), ConnectStep::Attempt { budget: 0 });
    assert_eq!(
        try_to_wifi_connect(5001, 5000, Some(ConnectionOutcome::Rejected)),
        ConnectStep::Done(ConnectionOutcome::Rejected)
    );
    assert_eq!(try_to_wifi_connect(5001, 5000, None), ConnectStep::Done(ConnectionOutcome::TimedOut));
    assert_eq!(
        try_to_wifi_connect(10, 5000, Some(ConnectionOutcome::Connected)),
        ConnectStep::Done(ConnectionOutcome::Connected)
    );
    assert_eq!(
        try_to_wifi_connect(9999, 5000, Some(ConnectionOutcome::Connected)),
        ConnectStep::Done(ConnectionOutcome::Connected)
    );
    assert_eq!(
        try_to_wifi_connect(10, 5000, Some(ConnectionOutcome::TimedOut)),
        ConnectStep::Done(ConnectionOutcome::TimedOut)
    );
    assert_eq!(try_to_wifi_connect(0, 0, None), ConnectStep::Attempt { budget: 0 });
    assert_eq!(try_to_wifi_connect(0, u64::MAX, None), ConnectStep::Attempt { budget: u64::MAX });
}

#[test]
fn wait_for_address_steps() {
    assert!(matches!(wifi_wait_for_ip(false, None), AddressStep::Wait { millis: 50 }));
    assert!(matches!(wifi_wait_for_ip(false, Some([1, 2, 3, 4])), AddressStep::Wait { millis: 50 }));
    assert!(matches!(wifi_wait_for_ip(true, None), AddressStep::Wait { millis: 50 }));
    assert!(matches!(wifi_wait_for_ip(true, Some([1, 2, 3, 4])), AddressStep::Ready([1, 2, 3, 4])));
}
